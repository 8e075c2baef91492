//! A safety layer over the Vulkan API: capability-gated command recording,
//! tracked image layouts and queue submission batches, with every rule of the
//! layer stated as a contract and proved.
//!
//! The library decides; it never talks to a device. Every device call that a
//! recording session makes is written to the command buffer's list of
//! [`vulkan::Command`]s, in order, as plain values that a caller replays
//! against the driver.

pub mod consts;
pub mod utils;
pub mod vulkan;
