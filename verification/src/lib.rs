//! Camera/navigation core of a shader-based Mandelbulb raymarching demo.
//!
//! The renderer itself (window, GL context, shader pipeline) lives outside
//! this crate; what is verified here is the per-frame control logic: the
//! adaptive raymarch step-size clamp, the camera pose update with its world
//! bound, the keyboard/mouse event state machine, and the frame pacing
//! arithmetic. All world-space quantities are carried as fixed-point
//! integers so that every rule about them can be stated and proved exactly.

pub mod fixed;
pub mod state;
pub mod step;
pub mod motion;
pub mod frame;
