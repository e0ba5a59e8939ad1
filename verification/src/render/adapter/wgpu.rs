pub mod shader_source;
