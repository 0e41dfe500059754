//! Shader input preparation for the glslang compiler: the shader source and its
//! `#version` line, compile targets and their SPIR-V settings, profile checks,
//! message flags and the preprocessor defines handed to the compiler.

pub mod ctypes;
pub mod error;
pub mod laws;
pub mod shader;
pub mod text;

pub use ctypes::{
    Client, GlslProfile, ShaderStage, SourceLanguage, SpirvVersion, TargetClientVersion,
    TargetLanguage,
};
pub use error::GlslangError;
pub use shader::{
    CompilerOptions, InputSettings, OpenGlVersion, ShaderInput, ShaderMessage, ShaderSource,
    Target, VulkanVersion,
};
