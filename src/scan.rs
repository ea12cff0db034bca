use vstd::prelude::*;
use vstd::string::StringSliceAdditionalSpecFns;

verus! {

/// The deepest directory level, counting the starting directory as 0, that a
/// search for archive manifests lists.
pub const MAX_SCAN_DEPTH: u32 = 4;

/// The bytes of the manifest file suffix, `.mnf`.
pub open spec fn manifest_suffix() -> Seq<u8> {
    seq![46u8, 109u8, 110u8, 102u8]
}

/// A path names a manifest when its UTF-8 bytes end with `.mnf`.
pub open spec fn is_manifest_name(bytes: Seq<u8>) -> bool {
    bytes.len() >= 4 && bytes.subrange(bytes.len() - 4, bytes.len() as int) == manifest_suffix()
}

/// Whether a file found by the search is an archive manifest.
pub fn is_manifest_path(path: &str) -> (r: bool)
    ensures
        r == is_manifest_name(path.spec_bytes()),
{
    let b = path.as_bytes();
    let n = b.len();
    if n < 4 {
        return false;
    }
    let r = b[n - 4] == 46u8 && b[n - 3] == 109u8 && b[n - 2] == 110u8 && b[n - 1] == 102u8;
    assert(r == (b@.subrange(n - 4, n as int) =~= manifest_suffix()));
    r
}

/// Whether the search lists a directory found at `level`.
pub fn may_scan(level: u32) -> (r: bool)
    ensures
        r == (level <= MAX_SCAN_DEPTH),
{
    level <= MAX_SCAN_DEPTH
}

} // verus!
