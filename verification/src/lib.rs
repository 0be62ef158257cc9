//! Core of a small real-time 2D rendering engine: dynamic quad batching, the
//! per-frame acquire/record/submit/present schedule, orthographic camera
//! mathematics, and the input-state bookkeeping that drives them.
//!
//! Everything that talks to the window system or the graphics device stays
//! outside this crate; the library works on plain values and states exactly
//! what each step of the frame lifecycle does to them.

pub mod batch;
pub mod buffer;
pub mod camera;
pub mod controller;
pub mod debug;
pub mod device;
pub mod frame;
pub mod input;
pub mod quad;
pub mod rat;
pub mod render_pass;
pub mod renderer;
pub mod shader;
