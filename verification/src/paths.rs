//! The persisted layout: `<downloads>/<name>.part` and `<downloads>/<name>.zip`
//! for the transient artifacts, `<game>/<name>` for the durable install tree.

use vstd::prelude::*;

verus! {

/// Joins a directory path and one component with a separator.
pub fn join_path(base: &str, leaf: &str) -> (r: String)
    ensures
        r@ == base@ + "/"@ + leaf@,
{
    let mut r = base.to_owned();
    r.append("/");
    r.append(leaf);
    r
}

/// Where the in-progress download of a version lives.
pub fn part_path(downloads_dir: &str, name: &str) -> (r: String)
    ensures
        r@ == downloads_dir@ + "/"@ + name@ + ".part"@,
{
    let mut r = join_path(downloads_dir, name);
    r.append(".part");
    r
}

/// Where the completed archive of a version lives between fetch and
/// extraction.
pub fn zip_path(downloads_dir: &str, name: &str) -> (r: String)
    ensures
        r@ == downloads_dir@ + "/"@ + name@ + ".zip"@,
{
    let mut r = join_path(downloads_dir, name);
    r.append(".zip");
    r
}

/// The durable install directory of a version.
pub fn install_path(game_dir: &str, name: &str) -> (r: String)
    ensures
        r@ == game_dir@ + "/"@ + name@,
{
    join_path(game_dir, name)
}

/// The inner entry point of an application bundle named `<stem>.app`: the
/// binary `Contents/MacOS/<stem>` inside the bundle directory. This is what
/// the permission fix-up touches on bundle platforms.
pub fn bundle_entry_point(install_dir: &str, bundle: &str) -> (r: String)
    requires
        bundle@.len() >= 4,
    ensures
        r@ == install_dir@ + "/"@ + bundle@ + "/Contents/MacOS/"@ + bundle@.subrange(
            0,
            bundle@.len() - 4,
        ),
{
    let n = bundle.unicode_len();
    let stem = bundle.substring_char(0, n - 4);
    let mut r = join_path(install_dir, bundle);
    r.append("/Contents/MacOS/");
    r.append(stem);
    r
}

} // verus!
