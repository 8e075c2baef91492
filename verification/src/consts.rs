//! What the layer asks of the Vulkan installation, and the size of the
//! default window.

use vstd::prelude::*;

verus! {

/// The lowest Vulkan version that the layer works with, packed as the API
/// packs versions: 1.2.0.
pub const REQUIRED_VERSION: u32 = 0x0040_2000;

pub const REQUIRED_MAJOR: u32 = 1;

pub const REQUIRED_MINOR: u32 = 2;

pub const REQUIRED_PATCH: u32 = 0;

/// Width of the default window, in logical pixels.
pub const WIDTH: usize = 800;

/// Height of the default window, in logical pixels.
pub const HEIGHT: usize = 600;

/// Whether the validation layers are asked for.
pub const DEBUG: bool = false;

/// The instance extensions that the layer cannot do without.
pub fn instance_extensions() -> (names: Vec<String>)
    ensures
        names@.len() == 2,
        names[0]@ == "VK_KHR_surface"@,
        names[1]@ == "VK_KHR_win32_surface"@,
{
    let mut names: Vec<String> = Vec::new();
    names.push("VK_KHR_surface".to_owned());
    names.push("VK_KHR_win32_surface".to_owned());
    names
}

/// The instance layers that the layer asks for.
pub fn validation_layers() -> (names: Vec<String>)
    ensures
        names@.len() == 1,
        names[0]@ == "VK_LAYER_NV_optimus"@,
{
    let mut names: Vec<String> = Vec::new();
    names.push("VK_LAYER_NV_optimus".to_owned());
    names
}

/// The device extensions that the layer asks for.
pub fn device_extensions() -> (names: Vec<String>)
    ensures
        names@.len() == 1,
        names[0]@ == "VK_KHR_swapchain"@,
{
    let mut names: Vec<String> = Vec::new();
    names.push("VK_KHR_swapchain".to_owned());
    names
}

} // verus!
