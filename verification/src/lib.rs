//! Media bridge library: probing a source's dimensions and frame rate,
//! extracting raw frames, and combining frames into an encoded animation,
//! all delegated to an external transcoding tool running as a subprocess.
//!
//! This crate holds the verified core: the probe report parser, the
//! option-record validation, the per-resource state machines (write/finish
//! discipline, frame pulls), the task hand-off used to run blocking work off
//! the control thread, and the handle registry with finalizer-driven
//! destruction. Process spawning and pipe I/O live outside, in a thin host
//! layer that feeds plain values in and takes plain values back.

pub mod bridge;
pub mod combine;
pub mod errors;
pub mod extract;
pub mod probe;
pub mod registry;
