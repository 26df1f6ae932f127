//! Scene-object core of a real-time renderer.
//!
//! An [`object::Object`] describes everything the GPU needs for one loaded
//! model: its sub-meshes, materials, one pipeline per material, and the
//! per-instance model matrices. The types here hold plain data; a thin host
//! layer mirrors them into GPU resources and replays the draw commands.
//!
//! Coordinates and matrix entries are carried as IEEE-754 single-precision
//! bit patterns (`u32`), which is exactly what ends up in GPU memory.

pub mod buffer;
pub mod command;
pub mod error;
pub mod geometry;
pub mod gui;
pub mod instance;
pub mod material;
pub mod model;
pub mod object;
pub mod pipeline;
