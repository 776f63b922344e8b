//! The values and pure helpers of `ash`, and two string operations of the
//! standard library, that the policies rely on.
//!
//! Every executable function here is trusted: its contract restates what the
//! source or the documentation of the function it calls shows, and is not
//! proved. The constants say which raw values the contracts speak of.

use vstd::prelude::*;
use ash::vk;

verus! {

/// Raw value of `VK_PHYSICAL_DEVICE_TYPE_DISCRETE_GPU`.
pub const DISCRETE_GPU: i32 = 2;

/// Raw value of `VK_QUEUE_GRAPHICS_BIT`.
pub const GRAPHICS_BIT: u32 = 1;

/// Raw value of `VK_QUEUE_TRANSFER_BIT`.
pub const TRANSFER_BIT: u32 = 4;

/// Value of `VK_FALSE`: what a diagnostic callback returns so that the driver
/// call that raised the message is not aborted.
pub const CONTINUE: u32 = 0;

/// Every message severity: verbose, info, warning and error.
pub const ALL_SEVERITIES: u32 = 0x1111;

/// Every message category: general, validation and performance.
pub const ALL_CATEGORIES: u32 = 0x7;

/// A version number as Vulkan packs it into 32 bits.
pub open spec fn packed_version(major: u32, minor: u32, patch: u32) -> u32 {
    (major << 22u32) | (minor << 12u32) | patch
}

/// The text that `ash` prints for a set of message severities with `{:?}`.
pub uninterp spec fn severity_debug_text(raw: u32) -> Seq<char>;

/// The text that `ash` prints for a set of message categories with `{:?}`.
pub uninterp spec fn category_debug_text(raw: u32) -> Seq<char>;

/// The lower-case form of a text as `str::to_lowercase` computes it.
pub uninterp spec fn lowercase_text(text: Seq<char>) -> Seq<char>;

/// The name that `ash` prints for a single message severity.
pub open spec fn severity_name(raw: u32) -> Option<Seq<char>> {
    if raw == 0x1 {
        Some("VERBOSE"@)
    } else if raw == 0x10 {
        Some("INFO"@)
    } else if raw == 0x100 {
        Some("WARNING"@)
    } else if raw == 0x1000 {
        Some("ERROR"@)
    } else {
        None
    }
}

/// The name that `ash` prints for a single message category.
pub open spec fn category_name(raw: u32) -> Option<Seq<char>> {
    if raw == 0x1 {
        Some("GENERAL"@)
    } else if raw == 0x2 {
        Some("VALIDATION"@)
    } else if raw == 0x4 {
        Some("PERFORMANCE"@)
    } else {
        None
    }
}

/// Whether every character of a text is an ASCII character.
pub open spec fn all_ascii(text: Seq<char>) -> bool {
    forall|i: int| 0 <= i < text.len() ==> (#[trigger] text[i]) as u32 <= 0x7f
}

/// The lower-case form of an ASCII character.
pub open spec fn ascii_lowercase_char(c: char) -> char {
    if 'A' <= c && c <= 'Z' {
        (c as u32 + 0x20) as char
    } else {
        c
    }
}

/// A text with each character in its ASCII lower-case form.
pub open spec fn ascii_lowercase(text: Seq<char>) -> Seq<char> {
    Seq::new(text.len(), |i: int| ascii_lowercase_char(text[i]))
}

/// Compares a raw device-type tag with `vk::PhysicalDeviceType::DISCRETE_GPU`.
/// Trusted: `PhysicalDeviceType` wraps an `i32`, its equality is derived, and
/// `DISCRETE_GPU` is `Self(2)`.
#[verifier::external_body]
pub(crate) fn is_discrete_gpu(tag: i32) -> (r: bool)
    ensures
        r == (tag == DISCRETE_GPU),
{
    vk::PhysicalDeviceType::from_raw(tag) == vk::PhysicalDeviceType::DISCRETE_GPU
}

/// `vk::QueueFlags::contains` on raw flag words. Trusted: the method computes
/// `self & other == other` on the wrapped `u32`.
#[verifier::external_body]
pub(crate) fn flags_contain(flags: u32, wanted: u32) -> (r: bool)
    ensures
        r == (flags & wanted == wanted),
{
    vk::QueueFlags::from_raw(flags).contains(vk::QueueFlags::from_raw(wanted))
}

/// Raw value of `vk::QueueFlags::GRAPHICS`. Trusted: the constant is
/// `Self(0b1)`.
#[verifier::external_body]
pub(crate) fn graphics_bit() -> (r: u32)
    ensures
        r == GRAPHICS_BIT,
{
    vk::QueueFlags::GRAPHICS.as_raw()
}

/// Raw value of `vk::QueueFlags::TRANSFER`. Trusted: the constant is
/// `Self(0b100)`.
#[verifier::external_body]
pub(crate) fn transfer_bit() -> (r: u32)
    ensures
        r == TRANSFER_BIT,
{
    vk::QueueFlags::TRANSFER.as_raw()
}

/// `vk::make_version`. Trusted: it computes
/// `(major << 22) | (minor << 12) | patch` on `u32`.
#[verifier::external_body]
pub(crate) fn pack_version(major: u32, minor: u32, patch: u32) -> (r: u32)
    ensures
        r == packed_version(major, minor, patch),
{
    vk::make_version(major, minor, patch)
}

/// The name of the diagnostics extension, from
/// `ash::extensions::ext::DebugUtils::name`. Trusted: the name is the fixed
/// text `VK_EXT_debug_utils`.
#[verifier::external_body]
pub(crate) fn diagnostics_extension() -> (r: String)
    ensures
        r@ == "VK_EXT_debug_utils"@,
{
    ash::extensions::ext::DebugUtils::name().to_string_lossy().into_owned()
}

/// The union of the four severity constants of
/// `vk::DebugUtilsMessageSeverityFlagsEXT`. Trusted: they are the bits
/// `0x1`, `0x10`, `0x100` and `0x1000`, and `|` joins the raw words.
#[verifier::external_body]
pub(crate) fn all_severities() -> (r: u32)
    ensures
        r == ALL_SEVERITIES,
{
    (vk::DebugUtilsMessageSeverityFlagsEXT::WARNING
        | vk::DebugUtilsMessageSeverityFlagsEXT::VERBOSE
        | vk::DebugUtilsMessageSeverityFlagsEXT::INFO
        | vk::DebugUtilsMessageSeverityFlagsEXT::ERROR).as_raw()
}

/// The union of the three category constants of
/// `vk::DebugUtilsMessageTypeFlagsEXT`. Trusted: they are the bits `0x1`,
/// `0x2` and `0x4`, and `|` joins the raw words.
#[verifier::external_body]
pub(crate) fn all_categories() -> (r: u32)
    ensures
        r == ALL_CATEGORIES,
{
    (vk::DebugUtilsMessageTypeFlagsEXT::GENERAL
        | vk::DebugUtilsMessageTypeFlagsEXT::PERFORMANCE
        | vk::DebugUtilsMessageTypeFlagsEXT::VALIDATION).as_raw()
}

/// The value `vk::FALSE`. Trusted: the constant is `0`.
#[verifier::external_body]
pub(crate) fn continue_signal() -> (r: u32)
    ensures
        r == CONTINUE,
{
    vk::FALSE
}

/// `Debug` of `vk::DebugUtilsMessageSeverityFlagsEXT`. Trusted: the output is
/// a function of the raw flag word alone (the names of the known bits that
/// are set, joined by " | ", then any unknown rest in binary), which the
/// contract names; for a single known bit it is that bit's name.
#[verifier::external_body]
pub(crate) fn severity_debug(raw: u32) -> (r: String)
    ensures
        r@ == severity_debug_text(raw),
        severity_name(raw) matches Some(name) ==> r@ == name,
{
    format!("{:?}", vk::DebugUtilsMessageSeverityFlagsEXT::from_raw(raw))
}

/// `Debug` of `vk::DebugUtilsMessageTypeFlagsEXT`. Trusted: the output is a
/// function of the raw flag word alone, built as for the severities, which
/// the contract names; for a single known bit it is that bit's name.
#[verifier::external_body]
pub(crate) fn category_debug(raw: u32) -> (r: String)
    ensures
        r@ == category_debug_text(raw),
        category_name(raw) matches Some(name) ==> r@ == name,
{
    format!("{:?}", vk::DebugUtilsMessageTypeFlagsEXT::from_raw(raw))
}

/// `str::to_lowercase`. Trusted: the result depends on the text alone, which
/// the contract names; in an ASCII text the letters `A` to `Z` become `a` to
/// `z` and nothing else changes.
#[verifier::external_body]
pub(crate) fn lowercase(text: &str) -> (r: String)
    ensures
        r@ == lowercase_text(text@),
        all_ascii(text@) ==> r@ == ascii_lowercase(text@),
{
    text.to_lowercase()
}

/// `String::push_str`. Trusted: the given text is appended and nothing else
/// changes.
#[verifier::external_body]
pub(crate) fn push_str(target: &mut String, text: &str)
    ensures
        final(target)@ == old(target)@ + text@,
{
    target.push_str(text)
}

} // verus!
