//! The check that a loaded copy of the linted macros matches this library's version.
use vstd::prelude::*;
use vstd::string::StringSliceAdditionalSpecFns;

verus! {

/// The version string embedded in the linted macros.
pub const LINTED_VERSION: &'static str = "0.0.3-beta";

/// The numeric version that every compatible linted copy starts with, as bytes.
pub open spec fn version_prefix() -> Seq<u8> {
    seq![48u8, 46u8, 48u8, 46u8, 51u8]
}

/// Whether a version, as bytes, is compatible: it starts with the numeric version, and any
/// suffix (a pre-release tag) is accepted.
pub open spec fn compatible_version(bytes: Seq<u8>) -> bool {
    bytes.len() >= version_prefix().len() && bytes.subrange(0, version_prefix().len() as int)
        == version_prefix()
}

/// Whether `linted_version` is compatible with this library, by a byte-prefix comparison.
pub fn is_compatible_linted_version(linted_version: &str) -> (r: bool)
    ensures
        r == compatible_version(linted_version.spec_bytes()),
{
    let bytes = linted_version.as_bytes();
    let expected: [u8; 5] = [48u8, 46u8, 48u8, 46u8, 51u8];
    assert(expected@ =~= version_prefix());
    if bytes.len() < 5 {
        return false;
    }
    let mut i: usize = 0;
    while i < 5
        invariant
            i <= 5 <= bytes@.len(),
            expected@ == version_prefix(),
            bytes@ == linted_version.spec_bytes(),
            bytes@.subrange(0, i as int) == version_prefix().subrange(0, i as int),
        decreases 5 - i,
    {
        if bytes[i] != expected[i] {
            assert(bytes@.subrange(0, 5)[i as int] != version_prefix()[i as int]);
            return false;
        }
        i = i + 1;
        assert(bytes@.subrange(0, i as int) =~= version_prefix().subrange(0, i as int));
    }
    assert(version_prefix().subrange(0, 5) =~= version_prefix());
    true
}

/// Checks, where the linted macros are loaded, that their copy matches this library. Loading
/// an incompatible copy is refused, so a caller passes only a compatible version.
pub fn verify_linted_version(linted_version: &str)
    requires
        compatible_version(linted_version.spec_bytes()),
{
    let compatible = is_compatible_linted_version(linted_version);
    assert(compatible);
}

} // verus!
