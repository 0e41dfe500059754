//! Plain value types that describe what the compiler is asked to do.
//!
//! Each enum mirrors one C enumeration of glslang's C interface; the
//! conversion to the C value happens where the compiler is called.

use vstd::prelude::*;

verus! {

/// The GLSL profile named on a `#version` line.
#[derive(Debug, Clone, Copy, PartialEq, Eq, Structural)]
pub enum GlslProfile {
    /// No profile was named.
    NoProfile,
    Core,
    Compatibility,
    ES,
}

/// The language a shader source is written in.
#[derive(Debug, Clone, Copy, PartialEq, Eq, Structural)]
pub enum SourceLanguage {
    /// No source language.
    NoLanguage,
    GLSL,
    HLSL,
}

/// The pipeline stage a shader is compiled for.
#[derive(Debug, Clone, Copy, PartialEq, Eq, Structural)]
pub enum ShaderStage {
    Vertex,
    TesselationControl,
    TesselationEvaluation,
    Geometry,
    Fragment,
    Compute,
    RayGeneration,
    Intersect,
    AnyHit,
    ClosestHit,
    Miss,
    Callable,
    Task,
    Mesh,
}

/// The SPIR-V version that compilation produces.
#[derive(Debug, Clone, Copy, PartialEq, Eq, Structural)]
pub enum SpirvVersion {
    SPIRV1_0,
    SPIRV1_1,
    SPIRV1_2,
    SPIRV1_3,
    SPIRV1_4,
    SPIRV1_5,
    SPIRV1_6,
}

/// The client API whose semantics the shader is validated against.
#[derive(Debug, Clone, Copy, PartialEq, Eq, Structural)]
pub enum Client {
    /// No client API.
    NoClient,
    Vulkan,
    OpenGL,
}

/// The client API version handed to the compiler.
#[derive(Debug, Clone, Copy, PartialEq, Eq, Structural)]
pub enum TargetClientVersion {
    Vulkan1_0,
    Vulkan1_1,
    Vulkan1_2,
    Vulkan1_3,
    Vulkan1_4,
    OpenGL450,
}

/// The language the compiler produces.
#[derive(Debug, Clone, Copy, PartialEq, Eq, Structural)]
pub enum TargetLanguage {
    /// No output language: the shader is only validated.
    NoOutput,
    SPIRV,
}

} // verus!
