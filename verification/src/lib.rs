//! A verified core for a small gallery of real-time 3D rendering demos.
//!
//! The gallery shows a sidebar of demo names and keeps at most one demo
//! active at a time.  Each active demo redraws every frame with a fresh
//! model-view-projection transform.  This crate holds everything about that
//! application that can be stated and proved as plain mathematics:
//!
//! * fixed-point scalar and 4x4 matrix arithmetic ([`fixed`], [`mat4`]),
//! * the per-frame transform of every demo ([`transform`], [`demos`]),
//! * the GPU buffer layouts the demos rely on ([`layout`]),
//! * the demo registry and the switching state machine ([`gallery`]).
//!
//! Trigonometry is evaluated outside the crate; every function here takes
//! sines and cosines as fixed-point scalars and is verified for all values
//! of them.  The GUI shell, the GPU calls and the float evaluation live in
//! the surrounding application, which only feeds plain values in and out.

pub mod apps;
pub mod fixed;
pub mod gallery;
pub mod layout;
pub mod mat4;
pub mod transform;
