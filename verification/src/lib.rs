//! Selection policies and lifecycle rules for bringing up a Vulkan device
//! context: which physical device to use, which queue families serve
//! graphics and transfer work, which queues to request, how diagnostics are
//! rendered, and in which order driver objects are acquired and released.
//!
//! The driver itself is never called from here. Callers hand in plain values
//! read from the driver and act on the plain values handed back.

pub mod driver;
pub mod instance;
pub mod device;
pub mod queue;
pub mod diagnostics;
pub mod lifecycle;
