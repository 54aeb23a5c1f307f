//! A staged GPU simulation pipeline for a 2-D flow-field visualization.
//!
//! Many short line segments are grown iteratively along a velocity field,
//! one integration step per tick. This crate holds the verified core of that
//! pipeline: the parameter model, the buffer sizer, the four-state stage
//! machine, the kernel-dispatch protocol and the render handoff. The GPU
//! runtime itself (buffer allocation, kernel compilation, command submission)
//! is an external capability: the core decides, per tick, what the runtime
//! must do, and models the resources the runtime hands back as plain values
//! (identities and byte sizes), so every decision is checked.

pub mod binding;
pub mod buffers;
pub mod compute;
pub mod context;
pub mod params;
pub mod render;
