use vstd::prelude::*;
use vstd::string::*;

verus! {

/// Directory under the data directory that holds per-application caches.
pub const CACHE_DIR_NAME: &'static str = "cache";

/// Name of the file that holds the document inside its cache directory.
pub const FILE_NAME: &'static str = "drawing-data.excalidraw";

/// Name of the throwaway file written to test whether a directory is writable.
pub const PROBE_FILE_NAME: &'static str = "write_test.tmp";

/// Joining a path component onto a path, with `/` as the separator: an
/// absolute component replaces the path, an empty path yields the component,
/// and a separator is added only where the path does not already end in one.
pub open spec fn join_spec(base: Seq<char>, part: Seq<char>) -> Seq<char> {
    if part.len() > 0 && part[0] == '/' {
        part
    } else if base.len() == 0 {
        part
    } else if base.last() == '/' {
        base + part
    } else {
        base + seq!['/'] + part
    }
}

/// `<base>/cache/<identifier>`: the directory that holds the document.
pub open spec fn cache_dir_spec(base: Seq<char>, identifier: Seq<char>) -> Seq<char> {
    join_spec(join_spec(base, CACHE_DIR_NAME@), identifier)
}

/// `<base>/cache/<identifier>/drawing-data.excalidraw`: where the document lives.
pub open spec fn storage_path_spec(base: Seq<char>, identifier: Seq<char>) -> Seq<char> {
    join_spec(cache_dir_spec(base, identifier), FILE_NAME@)
}

/// The probe file used to test whether `dir` is writable.
pub open spec fn probe_path_spec(dir: Seq<char>) -> Seq<char> {
    join_spec(dir, PROBE_FILE_NAME@)
}

/// Appends `part` to `base` as a path component.
pub fn join(base: &str, part: &str) -> (r: String)
    ensures
        r@ == join_spec(base@, part@),
{
    let plen = part.unicode_len();
    if plen > 0 && part.get_char(0) == '/' {
        return String::from_str(part);
    }
    let blen = base.unicode_len();
    if blen == 0 {
        return String::from_str(part);
    }
    let mut r = String::from_str(base);
    if base.get_char(blen - 1) != '/' {
        r.append("/");
        proof {
            reveal_strlit("/");
        }
    }
    r.append(part);
    r
}

/// The cache directory of the application `identifier` under the data
/// directory `base`.
pub fn cache_dir_path(base: &str, identifier: &str) -> (r: String)
    ensures
        r@ == cache_dir_spec(base@, identifier@),
{
    let cache_root = join(base, CACHE_DIR_NAME);
    join(cache_root.as_str(), identifier)
}

/// The location of the document of the application `identifier` under the
/// data directory `base`. Computed from its arguments alone.
pub fn storage_path(base: &str, identifier: &str) -> (r: String)
    ensures
        r@ == storage_path_spec(base@, identifier@),
{
    let dir = cache_dir_path(base, identifier);
    join(dir.as_str(), FILE_NAME)
}

/// The probe file of the directory `dir`.
pub fn probe_path(dir: &str) -> (r: String)
    ensures
        r@ == probe_path_spec(dir@),
{
    join(dir, PROBE_FILE_NAME)
}

} // verus!
