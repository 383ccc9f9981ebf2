//! The demos of the gallery, one module each.
//!
//! Every demo owns a GPU pipeline built once on selection and redrawn
//! every frame.  What is verified here is each demo's share of plain
//! mathematics: the per-frame transform it writes into its uniform buffer
//! and the byte layout of that buffer.

pub mod cubemap;
pub mod hello_triangle;
pub mod instanced_cube;
pub mod rotating_cube;
pub mod textured_cube;
pub mod two_cubes;
