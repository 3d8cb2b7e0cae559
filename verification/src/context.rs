//! Contexts that live beside the frame renderer.

pub mod screenshot;
