# glslang

Preparation of shader input for the glslang compiler, verified with Verus.

- `src/` is the verified library: the shader source and the `#version` line
  it declares (`ShaderSource::parse_profile`), compile targets and the C-level
  settings they select (`Target`), the check of a version and profile against a
  target (`Target::verify_glsl_profile`), message flags (`ShaderMessage`),
  compiler options, and the checked shader input with its preprocessor defines
  and preamble (`ShaderInput`). `src/laws.rs` holds the properties proved of
  these functions together; `src/text.rs` the character-level facts
  (whitespace, trimming, lines, UTF-8 lengths) they rest on.
- `app/` is ordinary Rust around it: the glslang process, programs, shaders and
  include callbacks, which call glslang's C interface through `glslang-sys`.
- `tests/` runs the library on concrete inputs.
