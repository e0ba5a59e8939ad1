//! Render adapters: the shader sources of the OpenGL and WGPU back ends.
pub mod gl;
pub mod wgpu;
