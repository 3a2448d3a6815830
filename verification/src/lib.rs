//! Single-flight background job control for an image-generation front end.
//!
//! The library owns the job lifecycle: a request snapshot is submitted, a
//! worker runs it off the control loop, and exactly one terminal result is
//! delivered back through a one-shot transport and applied to the display
//! state. The generation pipeline itself and all presentation are outside
//! collaborators; the logic that decides, guards and applies is verified here.

pub mod codec;
pub mod display;
pub mod job;
pub mod request;
pub mod transport;
