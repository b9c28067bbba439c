use vstd::prelude::*;

verus! {

/// The version number that packs `major`, `minor` and `patch` into one word:
/// `major` from bit 22 up, `minor` from bit 12, `patch` in the low bits.
pub open spec fn packed_version(major: u32, minor: u32, patch: u32) -> u32 {
    (major << 22u32) | (minor << 12u32) | patch
}

/// Packs a version number the way Vulkan expects it.
///
/// When each part fits its field (`major < 2^10`, `minor < 2^10`,
/// `patch < 2^12`) the parts can be read back from the result.
pub fn make_version(major: u32, minor: u32, patch: u32) -> (r: u32)
    ensures
        r == packed_version(major, minor, patch),
        major < 1024 && minor < 1024 && patch < 4096 ==> {
            &&& r >> 22u32 == major
            &&& (r >> 12u32) & 0x3ffu32 == minor
            &&& r & 0xfffu32 == patch
        },
{
    let r: u32 = (major << 22u32) | (minor << 12u32) | patch;
    proof {
        if major < 1024 && minor < 1024 && patch < 4096 {
            assert(r >> 22u32 == major && (r >> 12u32) & 0x3ffu32 == minor && r & 0xfffu32 == patch)
                by (bit_vector)
                requires
                    r == (major << 22u32) | (minor << 12u32) | patch,
                    major < 1024,
                    minor < 1024,
                    patch < 4096,
            ;
        }
    }
    r
}

} // verus!
