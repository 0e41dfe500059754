//! Errors reported while preparing or compiling a shader.

use vstd::prelude::*;

use crate::ctypes::GlslProfile;
use crate::shader::Target;

verus! {

/// What went wrong while preparing or compiling a shader.
#[derive(Debug, Clone, PartialEq, Eq)]
pub enum GlslangError {
    /// The compiler rejected the source; the payload is its info log.
    ParseError(String),
    /// Linking the program failed; the payload is its info log.
    LinkError(String),
    /// The version and profile pair is not one that glslang supports.
    VersionUnsupported(i32, GlslProfile),
    /// The version and profile pair cannot be used with the target.
    InvalidProfile(Target, i32, GlslProfile),
}

} // verus!
