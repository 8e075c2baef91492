//! What an instance is checked for before it is created: the version of the
//! installation and the extensions it offers.

use vstd::prelude::*;

use crate::consts::{REQUIRED_MAJOR, REQUIRED_MINOR, REQUIRED_PATCH, REQUIRED_VERSION};

verus! {

/// `ash` packs a version as the API does: the major number from bit 22 on,
/// the minor number from bit 12 on, the patch number below. Nothing is cut
/// off: numbers too large for their place run into the next.
pub assume_specification[ ash::vk::make_version ](major: u32, minor: u32, patch: u32) -> (version:
    u32)
    ensures
        version == (major << 22) | (minor << 12) | patch,
;

/// `ash` reads the major number of a packed version: its bits from 22 on.
pub assume_specification[ ash::vk::version_major ](version: u32) -> (major: u32)
    ensures
        major == version >> 22,
;

/// `ash` reads the minor number of a packed version: the ten bits from 12
/// on.
pub assume_specification[ ash::vk::version_minor ](version: u32) -> (minor: u32)
    ensures
        minor == (version >> 12) & 0x3ff,
;

/// `ash` reads the patch number of a packed version: its lowest twelve bits.
pub assume_specification[ ash::vk::version_patch ](version: u32) -> (patch: u32)
    ensures
        patch == version & 0xfff,
;

/// The major number of a packed version.
pub open spec fn major_of(version: u32) -> u32 {
    version >> 22
}

/// The minor number of a packed version.
pub open spec fn minor_of(version: u32) -> u32 {
    (version >> 12) & 0x3ff
}

/// The patch number of a packed version.
pub open spec fn patch_of(version: u32) -> u32 {
    version & 0xfff
}

/// The layer works with an installation of `version`: none of its three
/// numbers is below the one required. The numbers are held against the
/// required ones each by itself.
pub open spec fn meets_required_version(version: u32) -> bool {
    !(major_of(version) < REQUIRED_MAJOR || minor_of(version) < REQUIRED_MINOR || patch_of(version)
        < REQUIRED_PATCH)
}

/// The name occurs in the list.
pub open spec fn offered(available: Seq<String>, name: Seq<char>) -> bool {
    exists|i: int| 0 <= i < available.len() && (#[trigger] available[i])@ == name
}

/// Every name of `required` occurs in `available`.
pub open spec fn all_offered(available: Seq<String>, required: Seq<String>) -> bool {
    forall|i: int| 0 <= i < required.len() ==> offered(available, (#[trigger] required[i])@)
}

/// The version that the layer requires, packed by `ash`.
pub fn required_version() -> (version: u32)
    ensures
        version == REQUIRED_VERSION,
        major_of(version) == REQUIRED_MAJOR,
        minor_of(version) == REQUIRED_MINOR,
        patch_of(version) == REQUIRED_PATCH,
{
    assert(((1u32 << 22) | (2u32 << 12) | 0u32) == 0x0040_2000u32) by (bit_vector);
    assert(0x0040_2000u32 >> 22 == 1u32) by (bit_vector);
    assert((0x0040_2000u32 >> 12) & 0x3ff == 2u32) by (bit_vector);
    assert(0x0040_2000u32 & 0xfff == 0u32) by (bit_vector);
    ash::vk::make_version(REQUIRED_MAJOR, REQUIRED_MINOR, REQUIRED_PATCH)
}

/// The version of the installation: what its loader reports, or 1.0.0 where
/// the loader is too old to be asked.
pub fn installed_version(reported: Option<u32>) -> (version: u32)
    ensures
        version == match reported {
            Some(version) => version,
            None => 0x0040_0000u32,
        },
{
    assert(((1u32 << 22) | (0u32 << 12) | 0u32) == 0x0040_0000u32) by (bit_vector);
    match reported {
        Some(version) => version,
        None => ash::vk::make_version(1, 0, 0),
    }
}

/// Whether the layer works with an installation of `version`.
pub fn supports_version(version: u32) -> (supported: bool)
    ensures
        supported == meets_required_version(version),
{
    let major = ash::vk::version_major(version);
    let minor = ash::vk::version_minor(version);
    let patch = ash::vk::version_patch(version);
    !(major < REQUIRED_MAJOR || minor < REQUIRED_MINOR || patch < REQUIRED_PATCH)
}

/// Whether `name` occurs in `available`.
fn is_offered(available: &[String], name: &String) -> (found: bool)
    ensures
        found == offered(available@, name@),
{
    let mut i: usize = 0;
    while i < available.len()
        invariant
            i <= available.len(),
            forall|j: int| 0 <= j < i ==> (#[trigger] available[j])@ != name@,
        decreases available.len() - i,
    {
        if available[i] == *name {
            return true;
        }
        i += 1;
    }
    false
}

/// The names of the required instance extensions, if the installation offers
/// every one of them: `required` as it stands. `None` if one is missing.
pub fn check_instance_extensions(available: &[String], required: Vec<String>) -> (enabled: Option<
    Vec<String>,
>)
    ensures
        enabled is Some == all_offered(available@, required@),
        enabled matches Some(names) ==> names == required,
{
    let mut i: usize = 0;
    while i < required.len()
        invariant
            i <= required.len(),
            forall|j: int| 0 <= j < i ==> offered(available@, (#[trigger] required[j])@),
        decreases required.len() - i,
    {
        if !is_offered(available, &required[i]) {
            return None;
        }
        i += 1;
    }
    Some(required)
}

} // verus!
