//! Core logic of a virtual-pointer autoclicker.
//!
//! The crate models, and proves correct, the protocol a Linux uinput client
//! follows: the fixed binary layout of kernel input-event records, the
//! press/sync/release/sync sequence that makes up one button click, the
//! ordered control-operation sequence that registers and destroys a virtual
//! pointing device, and the state machine of the autoclick engine that turns
//! commands and elapsed intervals into a stream of clicks.
//!
//! The process-level plumbing (opening the device node, issuing ioctls,
//! blocking on a command channel) performs no decisions of its own: it
//! executes the plans and state transitions computed here.

pub mod device;
pub mod engine;
pub mod events;
