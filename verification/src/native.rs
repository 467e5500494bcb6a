//! The boundary to `ash`: the types and functions of that crate that the
//! verified code relies on. Nothing in this file is proved; each contract
//! restates what the `ash` source shows.

use vstd::prelude::*;

verus! {

/// `ash::vk::Queue`, the handle of a device queue. Verified code only moves
/// such a handle around and compares it in contracts.
#[verifier::external_type_specification]
#[verifier::external_body]
pub struct ExQueue(ash::vk::Queue);

/// `ash::vk::PhysicalDevice`, the handle of a physical device. Verified code
/// only moves such a handle around and compares it in contracts.
#[verifier::external_type_specification]
#[verifier::external_body]
pub struct ExPhysicalDevice(ash::vk::PhysicalDevice);

/// `ash::vk::SurfaceKHR`, the handle of a presentable surface. Verified code
/// only moves such a handle around and compares it in contracts.
#[verifier::external_type_specification]
#[verifier::external_body]
pub struct ExSurfaceKHR(ash::vk::SurfaceKHR);

/// `ash::vk::QueueFlags::contains` on raw flag words: `true` exactly when every
/// bit of `wanted` is set in `flags`.
#[verifier::external_body]
pub(crate) fn queue_flags_contain(flags: u32, wanted: u32) -> (r: bool)
    ensures
        r == (flags & wanted == wanted),
{
    ash::vk::QueueFlags::from_raw(flags).contains(ash::vk::QueueFlags::from_raw(wanted))
}

/// The text that `ash` prints for a message severity flag word.
pub uninterp spec fn severity_text(bits: u32) -> Seq<char>;

/// The `Debug` form of `ash::vk::DebugUtilsMessageSeverityFlagsEXT`. The text
/// depends on the flag word alone; nothing else is claimed of it.
#[verifier::external_body]
pub(crate) fn severity_label(bits: u32) -> (r: String)
    ensures
        r@ == severity_text(bits),
{
    format!("{:#?}", ash::vk::DebugUtilsMessageSeverityFlagsEXT::from_raw(bits))
}

/// The text that `ash` prints for a message type flag word.
pub uninterp spec fn message_type_text(bits: u32) -> Seq<char>;

/// The `Debug` form of `ash::vk::DebugUtilsMessageTypeFlagsEXT`. The text
/// depends on the flag word alone; nothing else is claimed of it.
#[verifier::external_body]
pub(crate) fn message_type_label(bits: u32) -> (r: String)
    ensures
        r@ == message_type_text(bits),
{
    format!("{:#?}", ash::vk::DebugUtilsMessageTypeFlagsEXT::from_raw(bits))
}

} // verus!
