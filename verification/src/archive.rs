//! The archive extractor: decodes a zip archive's entries and maps each, in
//! archive order, to the filesystem operation extraction performs for it.

use vstd::prelude::*;
use crate::errors::PipelineError;
use crate::paths::join_path;

verus! {

/// One decoded archive entry: its stored relative name, whether it denotes a
/// directory, and its decompressed bytes.
pub struct ZipEntry {
    pub name: String,
    pub is_dir: bool,
    pub data: Vec<u8>,
}

impl View for ZipEntry {
    type V = (Seq<char>, bool, Seq<u8>);

    open spec fn view(&self) -> (Seq<char>, bool, Seq<u8>) {
        (self.name@, self.is_dir, self.data@)
    }
}

pub open spec fn entries_view(v: Seq<ZipEntry>) -> Seq<(Seq<char>, bool, Seq<u8>)> {
    v.map_values(|e: ZipEntry| e@)
}

/// The entry list a zip archive decodes to, in index order, or `None` when
/// the bytes are not a well-formed archive. A function of the archive bytes
/// alone.
pub uninterp spec fn zip_entries(bytes: Seq<u8>) -> Option<Seq<(Seq<char>, bool, Seq<u8>)>>;

/// Relies on zip::ZipArchive (new, len, by_index) and its entry handles
/// (name, is_dir, the Read impl): decodes the archive's entries in index
/// order; the result depends on the archive bytes alone.
#[verifier::external_body]
pub(crate) fn read_zip_entries(bytes: &Vec<u8>) -> (r: Option<Vec<ZipEntry>>)
    ensures
        r is Some <==> zip_entries(bytes@) is Some,
        r matches Some(v) ==> entries_view(v@) == zip_entries(bytes@).unwrap(),
{
    let cursor = std::io::Cursor::new(bytes.as_slice());
    let mut archive = match zip::ZipArchive::new(cursor) { Ok(a) => a, Err(_) => return None };
    let mut out: Vec<ZipEntry> = Vec::new();
    for i in 0..archive.len() {
        let mut f = match archive.by_index(i) { Ok(f) => f, Err(_) => return None };
        let name = f.name().to_string();
        let is_dir = f.is_dir();
        let mut data: Vec<u8> = Vec::new();
        if std::io::Read::read_to_end(&mut f, &mut data).is_err() { return None; }
        out.push(ZipEntry { name, is_dir, data });
    }
    Some(out)
}

/// A filesystem operation that extraction performs under the target
/// directory.
#[derive(Debug, PartialEq)]
pub enum FsOp {
    /// Create this directory and its missing ancestors.
    MkDirAll(String),
    /// Create ancestors as needed, then write a fresh file with these bytes.
    WriteFile(String, Vec<u8>),
}

/// The mathematical shape of an `FsOp`.
pub enum FsOpM {
    MkDirAll(Seq<char>),
    WriteFile(Seq<char>, Seq<u8>),
}

impl View for FsOp {
    type V = FsOpM;

    open spec fn view(&self) -> FsOpM {
        match self {
            FsOp::MkDirAll(p) => FsOpM::MkDirAll(p@),
            FsOp::WriteFile(p, d) => FsOpM::WriteFile(p@, d@),
        }
    }
}

pub open spec fn ops_view(v: Seq<FsOp>) -> Seq<FsOpM> {
    v.map_values(|o: FsOp| o@)
}

/// The operation extraction performs for one entry: the entry's stored
/// relative path joined directly under the target directory. A stored name
/// with parent-traversal segments therefore escapes the target directory;
/// this models that behavior rather than sanitizing it.
pub open spec fn entry_op(target: Seq<char>, e: (Seq<char>, bool, Seq<u8>)) -> FsOpM {
    if e.1 {
        FsOpM::MkDirAll(target + "/"@ + e.0)
    } else {
        FsOpM::WriteFile(target + "/"@ + e.0, e.2)
    }
}

/// The whole extraction, entry by entry in archive order.
pub open spec fn extraction_plan(
    entries: Seq<(Seq<char>, bool, Seq<u8>)>,
    target: Seq<char>,
) -> Seq<FsOpM> {
    entries.map_values(|e: (Seq<char>, bool, Seq<u8>)| entry_op(target, e))
}

/// Maps each decoded entry to its filesystem operation.
pub fn plan_extraction(entries: &Vec<ZipEntry>, target: &str) -> (r: Vec<FsOp>)
    ensures
        ops_view(r@) == extraction_plan(entries_view(entries@), target@),
{
    let mut r: Vec<FsOp> = Vec::new();
    let mut i: usize = 0;
    while i < entries.len()
        invariant
            i <= entries@.len(),
            r@.len() == i,
            forall|j: int|
                0 <= j < i ==> (#[trigger] r@[j])@ == extraction_plan(
                    entries_view(entries@),
                    target@,
                )[j],
        decreases entries@.len() - i,
    {
        let e = &entries[i];
        let p = join_path(target, e.name.as_str());
        if e.is_dir {
            r.push(FsOp::MkDirAll(p));
        } else {
            let data = e.data.clone();
            proof {
                assert(data@ =~= e.data@);
            }
            r.push(FsOp::WriteFile(p, data));
        }
        proof {
            assert(entries_view(entries@)[i as int] == entries@[i as int]@);
        }
        i += 1;
    }
    proof {
        assert(ops_view(r@) =~= extraction_plan(entries_view(entries@), target@));
    }
    r
}

/// Decodes the archive and returns the operations extraction performs for
/// it, in archive order: directories created, files written with their
/// decompressed bytes, each at `target/<stored name>`. Fails exactly when
/// the bytes are not a well-formed archive.
pub fn extract_archive(bytes: &Vec<u8>, target: &str) -> (r: Result<Vec<FsOp>, PipelineError>)
    ensures
        r is Ok <==> zip_entries(bytes@) is Some,
        r matches Ok(plan) ==> ops_view(plan@) == extraction_plan(
            zip_entries(bytes@).unwrap(),
            target@,
        ),
        r is Err ==> r == Err::<Vec<FsOp>, PipelineError>(PipelineError::Extract),
{
    match read_zip_entries(bytes) {
        Some(entries) => Ok(plan_extraction(&entries, target)),
        None => Err(PipelineError::Extract),
    }
}

/// Whether stored entry names that would land outside the target directory
/// are taken as they are or refused.
#[derive(Clone, Copy, Debug, PartialEq, Eq, Structural)]
pub enum PathPolicy {
    /// Join every stored name as it is; a name with parent-traversal
    /// segments escapes the target directory.
    AsStored,
    /// Refuse absolute names and names holding a `..` path segment.
    RejectTraversal,
}

/// A `..` path segment starts at position `i` of the name: two dots bounded
/// by the name's ends or by separators.
pub open spec fn dotdot_at(s: Seq<char>, i: int) -> bool {
    &&& 0 <= i
    &&& i + 2 <= s.len()
    &&& s[i] == '.'
    &&& s[i + 1] == '.'
    &&& (i == 0 || s[i - 1] == '/')
    &&& (i + 2 == s.len() || s[i + 2] == '/')
}

pub open spec fn has_traversal_segment(s: Seq<char>) -> bool {
    exists|i: int| dotdot_at(s, i)
}

pub open spec fn entry_name_allowed_m(s: Seq<char>, policy: PathPolicy) -> bool {
    match policy {
        PathPolicy::AsStored => true,
        PathPolicy::RejectTraversal => !(s.len() > 0 && s[0] == '/') && !has_traversal_segment(s),
    }
}

/// Whether one stored entry name passes the chosen policy.
pub fn entry_name_allowed(name: &str, policy: PathPolicy) -> (r: bool)
    ensures
        r == entry_name_allowed_m(name@, policy),
{
    match policy {
        PathPolicy::AsStored => true,
        PathPolicy::RejectTraversal => {
            let n = name.unicode_len();
            if n > 0 && name.get_char(0) == '/' {
                return false;
            }
            let mut i: usize = 0;
            while i < n && i + 1 < n
                invariant
                    policy == PathPolicy::RejectTraversal,
                    n == name@.len(),
                    i <= n,
                    n > 0 ==> name@[0] != '/',
                    forall|k: int| 0 <= k < i ==> !dotdot_at(name@, k),
                decreases n - i,
            {
                if name.get_char(i) == '.' && name.get_char(i + 1) == '.' && (i == 0
                    || name.get_char(i - 1) == '/') && (i + 2 == n || name.get_char(i + 2)
                    == '/') {
                    proof {
                        assert(dotdot_at(name@, i as int));
                        assert(has_traversal_segment(name@));
                    }
                    return false;
                }
                i += 1;
            }
            true
        },
    }
}

pub open spec fn entries_allowed_m(
    entries: Seq<(Seq<char>, bool, Seq<u8>)>,
    policy: PathPolicy,
) -> bool {
    forall|i: int| 0 <= i < entries.len() ==> entry_name_allowed_m(entries[i].0, policy)
}

/// Whether every entry name of a decoded archive passes the chosen policy.
pub fn screen_entries(entries: &Vec<ZipEntry>, policy: PathPolicy) -> (r: bool)
    ensures
        r == entries_allowed_m(entries_view(entries@), policy),
{
    let mut i: usize = 0;
    while i < entries.len()
        invariant
            i <= entries@.len(),
            forall|j: int|
                0 <= j < i ==> entry_name_allowed_m(entries_view(entries@)[j].0, policy),
        decreases entries@.len() - i,
    {
        let allowed = entry_name_allowed(entries[i].name.as_str(), policy);
        proof {
            assert(entries_view(entries@)[i as int].0 == entries@[i as int].name@);
        }
        if !allowed {
            return false;
        }
        i += 1;
    }
    true
}

/// Like `extract_archive`, with path screening as an explicit choice: under
/// `RejectTraversal` an archive whose entry names would escape the target
/// directory is refused whole instead of extracted.
pub fn extract_archive_checked(bytes: &Vec<u8>, target: &str, policy: PathPolicy) -> (r: Result<
    Vec<FsOp>,
    PipelineError,
>)
    ensures
        r is Ok <==> (zip_entries(bytes@) matches Some(entries) && entries_allowed_m(
            entries,
            policy,
        )),
        r matches Ok(plan) ==> ops_view(plan@) == extraction_plan(
            zip_entries(bytes@).unwrap(),
            target@,
        ),
        r is Err ==> r == Err::<Vec<FsOp>, PipelineError>(PipelineError::Extract),
{
    match read_zip_entries(bytes) {
        Some(entries) => if screen_entries(&entries, policy) {
            Ok(plan_extraction(&entries, target))
        } else {
            Err(PipelineError::Extract)
        },
        None => Err(PipelineError::Extract),
    }
}

} // verus!
