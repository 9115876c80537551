//! The logic of a small 3D rendering playground: input tracking, the GL calls of
//! its resource wrappers, shader building and the frame loop, with the driver
//! and the window left to the caller.

pub mod event;
pub mod gl;
pub mod texture;
pub mod gl_buffers;
pub mod resources;
pub mod shader;
pub mod data;
pub mod report;
pub mod renderer;
pub mod playground;
