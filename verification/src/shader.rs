//! Shader sources, compile targets and the input handed to the compiler.

use vstd::prelude::*;

use crate::ctypes::{
    Client, GlslProfile, ShaderStage, SourceLanguage, SpirvVersion, TargetClientVersion,
    TargetLanguage,
};
use crate::error::GlslangError;
use crate::text::{
    boundary_or_past_end, byte_len, chars_of, find_line_end, first_line, is_ascii_char,
    is_boundary, range_eq, trim, trim_range,
};

verus! {

/// Vulkan version.
#[derive(Debug, Clone, Copy, PartialEq, Eq)]
pub enum VulkanVersion {
    Vulkan1_0,
    Vulkan1_1,
    Vulkan1_2,
    Vulkan1_3,
}

/// OpenGL version.
#[derive(Debug, Clone, Copy, PartialEq, Eq)]
pub enum OpenGlVersion {
    OpenGL4_5,
}

/// The target environment to compile or validate the input shader to.
///
/// If no SPIR-V version is specified, the shader will be unable to be compiled.
#[derive(Debug, Clone, Copy, PartialEq, Eq)]
pub enum Target {
    /// No specified environment.
    ///
    /// This environment can optionally include a SPIR-V version.
    NoEnvironment(Option<SpirvVersion>),
    /// Validate the shader against Vulkan semantics. Vulkan requires GLSL 140 or above.
    Vulkan {
        /// The Vulkan API version to validate against.
        version: VulkanVersion,
        /// The SPIR-V version to compile to.
        ///
        /// Vulkan requires a SPIR-V version to be specified.
        spirv_version: SpirvVersion,
    },
    /// Validate the shader against OpenGL semantics.
    OpenGL {
        /// The OpenGL version to validate against. Currently only OpenGL 4.5 is supported.
        version: OpenGlVersion,
        /// An optional SPIR-V version if targeting OpenGL SPIR-V. Requires GLSL 330 or above.
        spirv_version: Option<SpirvVersion>,
    },
}

/// Message flags passed to the compiler, one bit per option.
#[derive(Debug, Clone, Copy, PartialEq, Eq)]
pub struct ShaderMessage(pub i32);

impl ShaderMessage {
    // The flags, named as glslang names them; each is one bit.

    #[allow(non_snake_case)]
    pub fn DEFAULT() -> (m: ShaderMessage)
        ensures
            m.0 == 0,
    {
        ShaderMessage(0)
    }

    #[allow(non_snake_case)]
    pub fn RELAXED_ERRORS() -> (m: ShaderMessage)
        ensures
            m.0 == 1,
    {
        ShaderMessage(1)
    }

    #[allow(non_snake_case)]
    pub fn SUPPRESS_WARNINGS() -> (m: ShaderMessage)
        ensures
            m.0 == 2,
    {
        ShaderMessage(2)
    }

    #[allow(non_snake_case)]
    pub fn AST() -> (m: ShaderMessage)
        ensures
            m.0 == 4,
    {
        ShaderMessage(4)
    }

    #[allow(non_snake_case)]
    pub fn SPV_RULES() -> (m: ShaderMessage)
        ensures
            m.0 == 8,
    {
        ShaderMessage(8)
    }

    #[allow(non_snake_case)]
    pub fn VULKAN_RULES() -> (m: ShaderMessage)
        ensures
            m.0 == 16,
    {
        ShaderMessage(16)
    }

    #[allow(non_snake_case)]
    pub fn ONLY_PREPROCESSOR() -> (m: ShaderMessage)
        ensures
            m.0 == 32,
    {
        ShaderMessage(32)
    }

    #[allow(non_snake_case)]
    pub fn READ_HLSL() -> (m: ShaderMessage)
        ensures
            m.0 == 64,
    {
        ShaderMessage(64)
    }

    #[allow(non_snake_case)]
    pub fn CASCADING_ERRORS() -> (m: ShaderMessage)
        ensures
            m.0 == 128,
    {
        ShaderMessage(128)
    }

    #[allow(non_snake_case)]
    pub fn KEEP_UNCALLED() -> (m: ShaderMessage)
        ensures
            m.0 == 256,
    {
        ShaderMessage(256)
    }

    #[allow(non_snake_case)]
    pub fn HLSL_OFFSETS() -> (m: ShaderMessage)
        ensures
            m.0 == 512,
    {
        ShaderMessage(512)
    }

    #[allow(non_snake_case)]
    pub fn DEBUG_INFO() -> (m: ShaderMessage)
        ensures
            m.0 == 1024,
    {
        ShaderMessage(1024)
    }

    #[allow(non_snake_case)]
    pub fn HLSL_ENABLE_16BIT_TYPES() -> (m: ShaderMessage)
        ensures
            m.0 == 2048,
    {
        ShaderMessage(2048)
    }

    #[allow(non_snake_case)]
    pub fn HLSL_LEGALIZATION() -> (m: ShaderMessage)
        ensures
            m.0 == 4096,
    {
        ShaderMessage(4096)
    }

    #[allow(non_snake_case)]
    pub fn HLSL_DX9_COMPATIBLE() -> (m: ShaderMessage)
        ensures
            m.0 == 8192,
    {
        ShaderMessage(8192)
    }

    #[allow(non_snake_case)]
    pub fn BUILTIN_SYMBOL_TABLE() -> (m: ShaderMessage)
        ensures
            m.0 == 16384,
    {
        ShaderMessage(16384)
    }

    #[allow(non_snake_case)]
    pub fn ENHANCED() -> (m: ShaderMessage)
        ensures
            m.0 == 32768,
    {
        ShaderMessage(32768)
    }

    #[allow(non_snake_case)]
    pub fn ABSOLUTE_PATH() -> (m: ShaderMessage)
        ensures
            m.0 == 65536,
    {
        ShaderMessage(65536)
    }

    #[allow(non_snake_case)]
    pub fn DISPLAY_ERROR_COLUMN() -> (m: ShaderMessage)
        ensures
            m.0 == 131072,
    {
        ShaderMessage(131072)
    }
}

impl core::ops::BitOr for ShaderMessage {
    type Output = Self;

    // rhs is the "right-hand side" of the expression `a | b`
    fn bitor(self, rhs: Self) -> (r: Self::Output) {
        ShaderMessage(self.0 | rhs.0)
    }
}

impl vstd::std_specs::ops::BitOrSpecImpl for ShaderMessage {
    open spec fn obeys_bitor_spec() -> bool {
        true
    }

    open spec fn bitor_req(self, rhs: Self) -> bool {
        true
    }

    open spec fn bitor_spec(self, rhs: Self) -> Self {
        ShaderMessage(self.0 | rhs.0)
    }
}

/// Options to configure the compilation of a shader.
#[derive(Debug, Clone, Copy, PartialEq, Eq)]
pub struct CompilerOptions {
    pub source_language: SourceLanguage,
    /// The target
    pub target: Target,
    /// The GLSL version profile.
    /// If specified, will force the specified profile on compilation.
    pub version_profile: Option<(i32, GlslProfile)>,
    // Messages to be passed to compiler
    pub messages: ShaderMessage,
}

impl Default for CompilerOptions {
    fn default() -> (r: Self)
        ensures
            r.source_language == SourceLanguage::GLSL,
            r.target == (Target::Vulkan {
                version: VulkanVersion::Vulkan1_0,
                spirv_version: SpirvVersion::SPIRV1_0,
            }),
            r.version_profile is None,
            r.messages.0 == 0,
    {
        Self {
            source_language: SourceLanguage::GLSL,
            target: Target::Vulkan {
                version: VulkanVersion::Vulkan1_0,
                spirv_version: SpirvVersion::SPIRV1_0,
            },
            version_profile: None,
            messages: ShaderMessage::DEFAULT(),
        }
    }
}

/// The client API that `t` validates against.
pub open spec fn spec_env(t: Target) -> Client {
    match t {
        Target::NoEnvironment(_) => Client::NoClient,
        Target::Vulkan { .. } => Client::Vulkan,
        Target::OpenGL { .. } => Client::OpenGL,
    }
}

/// Whether `t` compiles to SPIR-V: always for Vulkan, otherwise when it names
/// a SPIR-V version.
pub open spec fn spec_target_spirv(t: Target) -> TargetLanguage {
    match t {
        Target::NoEnvironment(spirv_version) => if spirv_version is Some {
            TargetLanguage::SPIRV
        } else {
            TargetLanguage::NoOutput
        },
        Target::OpenGL { spirv_version, .. } => if spirv_version is Some {
            TargetLanguage::SPIRV
        } else {
            TargetLanguage::NoOutput
        },
        Target::Vulkan { .. } => TargetLanguage::SPIRV,
    }
}

/// The client API version of `t`; OpenGL 4.5 where `t` names no environment.
pub open spec fn spec_env_version(t: Target) -> TargetClientVersion {
    match t {
        Target::NoEnvironment(_) => TargetClientVersion::OpenGL450,
        Target::Vulkan { version, .. } => match version {
            VulkanVersion::Vulkan1_0 => TargetClientVersion::Vulkan1_0,
            VulkanVersion::Vulkan1_1 => TargetClientVersion::Vulkan1_1,
            VulkanVersion::Vulkan1_2 => TargetClientVersion::Vulkan1_2,
            VulkanVersion::Vulkan1_3 => TargetClientVersion::Vulkan1_3,
        },
        Target::OpenGL { version, .. } => match version {
            OpenGlVersion::OpenGL4_5 => TargetClientVersion::OpenGL450,
        },
    }
}

/// The SPIR-V version of `t`; SPIR-V 1.0 where `t` names none.
pub open spec fn spec_spirv_version(t: Target) -> SpirvVersion {
    match t {
        Target::NoEnvironment(spirv_version) => match spirv_version {
            Some(v) => v,
            None => SpirvVersion::SPIRV1_0,
        },
        Target::OpenGL { spirv_version, .. } => match spirv_version {
            Some(v) => v,
            None => SpirvVersion::SPIRV1_0,
        },
        Target::Vulkan { spirv_version, .. } => spirv_version,
    }
}

/// The GLSL versions that glslang knows.
pub open spec fn is_known_glsl_version(version: i32) -> bool {
    ||| version == 100
    ||| version == 110
    ||| version == 120
    ||| version == 130
    ||| version == 140
    ||| version == 150
    ||| version == 300
    ||| version == 310
    ||| version == 320
    ||| version == 330
    ||| version == 400
    ||| version == 410
    ||| version == 420
    ||| version == 430
    ||| version == 440
    ||| version == 450
    ||| version == 460
}

/// The GLSL versions that have an ES profile.
pub open spec fn is_es_version(version: i32) -> bool {
    version == 300 || version == 310 || version == 320
}

/// The verdict on using `profile` with target `t`.
///
/// No profile is always accepted. The ES profile needs version 300, 310 or
/// 320, and every version must be a known one. Without an environment, a
/// SPIR-V target rejects the compatibility profile; Vulkan needs version 140
/// or above and rejects the compatibility profile; OpenGL with SPIR-V needs
/// version 330 or above and rejects the compatibility profile.
pub open spec fn spec_verify_glsl_profile(t: Target, profile: Option<(i32, GlslProfile)>) -> Result<(), GlslangError> {
    match profile {
        None => Ok(()),
        Some((version, profile)) => {
            if profile == GlslProfile::ES && !is_es_version(version) {
                Err(GlslangError::VersionUnsupported(version, GlslProfile::ES))
            } else if !is_known_glsl_version(version) {
                Err(GlslangError::VersionUnsupported(version, profile))
            } else {
                match t {
                    Target::NoEnvironment(spirv_version) => {
                        if spirv_version is Some && profile == GlslProfile::Compatibility {
                            Err(GlslangError::InvalidProfile(t, version, GlslProfile::Compatibility))
                        } else {
                            Ok(())
                        }
                    },
                    Target::Vulkan { .. } => {
                        if version < 140 {
                            Err(GlslangError::InvalidProfile(t, version, profile))
                        } else if profile == GlslProfile::Compatibility {
                            Err(GlslangError::InvalidProfile(t, version, GlslProfile::Compatibility))
                        } else {
                            Ok(())
                        }
                    },
                    Target::OpenGL { spirv_version, .. } => {
                        if spirv_version is Some && version < 330 {
                            Err(GlslangError::InvalidProfile(t, version, profile))
                        } else if spirv_version is Some && profile == GlslProfile::Compatibility {
                            Err(GlslangError::InvalidProfile(t, version, GlslProfile::Compatibility))
                        } else {
                            Ok(())
                        }
                    },
                }
            }
        },
    }
}

impl Target {
    /// The client API this target validates against.
    pub fn env(&self) -> (r: Client)
        ensures
            r == spec_env(*self),
    {
        match self {
            Target::NoEnvironment(_) => Client::NoClient,
            Target::Vulkan { .. } => Client::Vulkan,
            Target::OpenGL { .. } => Client::OpenGL,
        }
    }

    /// Whether this target compiles to SPIR-V.
    pub fn target_spirv(&self) -> (r: TargetLanguage)
        ensures
            r == spec_target_spirv(*self),
    {
        match self {
            Target::NoEnvironment(spirv_version) | Target::OpenGL { spirv_version, .. } => {
                if spirv_version.is_some() {
                    TargetLanguage::SPIRV
                } else {
                    TargetLanguage::NoOutput
                }
            },
            Target::Vulkan { .. } => TargetLanguage::SPIRV,
        }
    }

    /// The client API version of this target.
    pub fn env_version(&self) -> (r: TargetClientVersion)
        ensures
            r == spec_env_version(*self),
    {
        match self {
            // Doesn't matter.
            Target::NoEnvironment(_) => TargetClientVersion::OpenGL450,
            Target::Vulkan { version, .. } => match version {
                VulkanVersion::Vulkan1_0 => TargetClientVersion::Vulkan1_0,
                VulkanVersion::Vulkan1_1 => TargetClientVersion::Vulkan1_1,
                VulkanVersion::Vulkan1_2 => TargetClientVersion::Vulkan1_2,
                VulkanVersion::Vulkan1_3 => TargetClientVersion::Vulkan1_3,
            },
            Target::OpenGL { version, .. } => match version {
                OpenGlVersion::OpenGL4_5 => TargetClientVersion::OpenGL450,
            },
        }
    }

    /// The SPIR-V version of this target.
    pub fn spirv_version(&self) -> (r: SpirvVersion)
        ensures
            r == spec_spirv_version(*self),
    {
        match self {
            // Doesn't matter.
            Target::NoEnvironment(spirv_version) | Target::OpenGL { spirv_version, .. } => {
                spirv_version.unwrap_or(SpirvVersion::SPIRV1_0)
            },
            Target::Vulkan { spirv_version, .. } => *spirv_version,
        }
    }

    /// Checks that `profile`, the version and profile a source declares, can
    /// be used with this target.
    pub fn verify_glsl_profile(&self, profile: Option<&(i32, GlslProfile)>) -> (r: Result<(), GlslangError>)
        ensures
            r == spec_verify_glsl_profile(
                *self,
                match profile {
                    Some(p) => Some(*p),
                    None => None,
                },
            ),
    {
        let (version, profile) = match profile {
            Some(p) => *p,
            None => {
                return Ok(());
            },
        };

        // only version 300, 310, 320 is supported for ES
        if profile == GlslProfile::ES && version != 300 && version != 310 && version != 320 {
            return Err(GlslangError::VersionUnsupported(version, GlslProfile::ES));
        }
        if !(version == 100 || version == 110 || version == 120 || version == 130 || version == 140
            || version == 150 || version == 300 || version == 310 || version == 320 || version
            == 330 || version == 400 || version == 410 || version == 420 || version == 430
            || version == 440 || version == 450 || version == 460) {
            return Err(GlslangError::VersionUnsupported(version, profile));
        }
        match self {
            Target::NoEnvironment(spirv_version) => {
                if spirv_version.is_some() && profile == GlslProfile::Compatibility {
                    return Err(
                        GlslangError::InvalidProfile(*self, version, GlslProfile::Compatibility),
                    );
                }
            },
            Target::Vulkan { .. } => {
                if version < 140 {
                    // Desktop shaders for Vulkan SPIR-V require version 140
                    return Err(GlslangError::InvalidProfile(*self, version, profile));
                }
                // compilation for SPIR-V does not support the compatibility profile
                if profile == GlslProfile::Compatibility {
                    return Err(
                        GlslangError::InvalidProfile(*self, version, GlslProfile::Compatibility),
                    );
                }
            },
            Target::OpenGL { spirv_version, .. } => {
                if spirv_version.is_some() {
                    // OpenGL SPIRV needs 330+
                    if version < 330 {
                        return Err(GlslangError::InvalidProfile(*self, version, profile));
                    }
                    // compilation for SPIR-V does not support the compatibility profile
                    if profile == GlslProfile::Compatibility {
                        return Err(
                            GlslangError::InvalidProfile(
                                *self,
                                version,
                                GlslProfile::Compatibility,
                            ),
                        );
                    }
                }
            },
        }
        Ok(())
    }
}

/// The source string of a shader.
#[derive(Debug, Clone)]
pub struct ShaderSource(String);

impl View for ShaderSource {
    type V = Seq<char>;

    closed spec fn view(&self) -> Seq<char> {
        self.0@
    }
}

impl From<String> for ShaderSource {
    fn from(value: String) -> (r: Self)
        ensures
            r@ == value@,
    {
        ShaderSource(value)
    }
}

impl vstd::std_specs::convert::FromSpecImpl<String> for ShaderSource {
    open spec fn obeys_from_spec() -> bool {
        true
    }

    closed spec fn from_spec(v: String) -> Self {
        ShaderSource(v)
    }
}

impl<'a> From<&'a str> for ShaderSource {
    fn from(value: &'a str) -> (r: Self)
        ensures
            r@ == value@,
    {
        ShaderSource(value.to_owned())
    }
}

impl<'a> vstd::std_specs::convert::FromSpecImpl<&'a str> for ShaderSource {
    open spec fn obeys_from_spec() -> bool {
        false
    }

    closed spec fn from_spec(v: &'a str) -> Self {
        choose|s: ShaderSource| s@ == v@
    }
}

impl ShaderSource {
    /// The text of the source.
    pub fn as_str(&self) -> (s: &str)
        ensures
            s@ == self@,
    {
        self.0.as_str()
    }
}

/// The characters `#version ` that open a version directive.
pub open spec fn version_prefix() -> Seq<char> {
    seq!['#', 'v', 'e', 'r', 's', 'i', 'o', 'n', ' ']
}

/// Whether `s` begins with `p`.
pub open spec fn starts_with(s: Seq<char>, p: Seq<char>) -> bool {
    p.len() <= s.len() && s.take(p.len() as int) == p
}

/// `s` with every leading repetition of `#version ` removed.
pub open spec fn strip_version_prefixes(s: Seq<char>) -> Seq<char>
    decreases s.len(),
{
    if starts_with(s, version_prefix()) {
        strip_version_prefixes(s.skip(version_prefix().len() as int))
    } else {
        s
    }
}

/// The first line of the trimmed source, itself trimmed.
pub open spec fn version_line(src: Seq<char>) -> Seq<char> {
    trim(first_line(trim(src)))
}

/// What follows the `#version ` prefixes of the version line.
pub open spec fn version_rest(src: Seq<char>) -> Seq<char> {
    strip_version_prefixes(version_line(src))
}

/// Whether `c` is a decimal digit.
pub open spec fn is_digit(c: char) -> bool {
    '0' <= c && c <= '9'
}

/// The value of the decimal digit `c`.
pub open spec fn digit_value(c: char) -> int {
    c as int - '0' as int
}

/// The number that the three characters `a`, `b`, `c` spell as an `i32`
/// literal: three digits, or a sign followed by two digits.
pub open spec fn spec_version_number(a: char, b: char, c: char) -> Option<i32> {
    if (a == '+' || a == '-') && is_digit(b) && is_digit(c) {
        let m = 10 * digit_value(b) + digit_value(c);
        Some((if a == '-' { -m } else { m }) as i32)
    } else if is_digit(a) && is_digit(b) && is_digit(c) {
        Some((100 * digit_value(a) + 10 * digit_value(b) + digit_value(c)) as i32)
    } else {
        None
    }
}

/// The profile that `s` names: `compatibility`, `es`, `core`, or nothing.
pub open spec fn spec_profile_named(s: Seq<char>) -> Option<GlslProfile> {
    if s == seq!['c', 'o', 'm', 'p', 'a', 't', 'i', 'b', 'i', 'l', 'i', 't', 'y'] {
        Some(GlslProfile::Compatibility)
    } else if s == seq!['e', 's'] {
        Some(GlslProfile::ES)
    } else if s == seq!['c', 'o', 'r', 'e'] {
        Some(GlslProfile::Core)
    } else if s.len() == 0 {
        Some(GlslProfile::NoProfile)
    } else {
        None
    }
}

/// The version and profile that the `#version` line of `src` declares.
///
/// The first line of the trimmed source, trimmed, must start with `#version `;
/// all leading repetitions of that prefix are dropped. The first three bytes of
/// what is left are the version number, the rest, trimmed, names the profile.
pub open spec fn spec_parse_profile(src: Seq<char>) -> Option<(i32, GlslProfile)> {
    let r = version_rest(src);
    if !starts_with(version_line(src), version_prefix()) {
        None
    } else if !(r.len() >= 3 && is_ascii_char(r[0]) && is_ascii_char(r[1]) && is_ascii_char(r[2])) {
        None
    } else {
        match (spec_version_number(r[0], r[1], r[2]), spec_profile_named(trim(r.skip(3)))) {
            (Some(v), Some(p)) => Some((v, p)),
            _ => None,
        }
    }
}

/// Whether the version line of `src` is at least three bytes long after its
/// `#version ` prefixes and has no character boundary at its third byte, so
/// that no version number can be split off it.
pub open spec fn version_split_fails(src: Seq<char>) -> bool {
    let r = version_rest(src);
    &&& starts_with(version_line(src), version_prefix())
    &&& byte_len(r) >= 3
    &&& !is_boundary(r, 3)
}

/// Whether `v[lo..hi]` starts with `#version `.
fn has_version_prefix(v: &Vec<char>, lo: usize, hi: usize) -> (b: bool)
    requires
        lo <= hi <= v@.len(),
    ensures
        b == starts_with(v@.subrange(lo as int, hi as int), version_prefix()),
{
    if hi - lo < 9 {
        return false;
    }
    let w: [char; 9] = ['#', 'v', 'e', 'r', 's', 'i', 'o', 'n', ' '];
    assert(w@ =~= version_prefix());
    let b = range_eq(v, lo, lo + 9, &w);
    assert(v@.subrange(lo as int, hi as int).take(9) =~= v@.subrange(lo as int, lo + 9));
    b
}

/// The start of what follows the leading `#version ` prefixes of `v[lo..hi]`.
fn skip_version_prefixes(v: &Vec<char>, lo: usize, hi: usize) -> (p: usize)
    requires
        lo <= hi <= v@.len(),
    ensures
        lo <= p <= hi,
        v@.subrange(p as int, hi as int) == strip_version_prefixes(
            v@.subrange(lo as int, hi as int),
        ),
{
    let mut p = lo;
    while has_version_prefix(v, p, hi)
        invariant
            lo <= p <= hi <= v@.len(),
            strip_version_prefixes(v@.subrange(lo as int, hi as int)) == strip_version_prefixes(
                v@.subrange(p as int, hi as int),
            ),
        decreases hi - p,
    {
        assert(v@.subrange(p as int, hi as int).skip(9) =~= v@.subrange(p + 9, hi as int));
        p = p + 9;
    }
    p
}

/// The value of the version number spelled by `a`, `b`, `c`.
fn version_number(a: char, b: char, c: char) -> (r: Option<i32>)
    ensures
        r == spec_version_number(a, b, c),
{
    let bd = '0' <= b && b <= '9';
    let cd = '0' <= c && c <= '9';
    if (a == '+' || a == '-') && bd && cd {
        let m = 10 * ((b as u32) - ('0' as u32)) + ((c as u32) - ('0' as u32));
        let m = m as i32;
        if a == '-' {
            Some(-m)
        } else {
            Some(m)
        }
    } else if '0' <= a && a <= '9' && bd && cd {
        let n = 100 * ((a as u32) - ('0' as u32)) + 10 * ((b as u32) - ('0' as u32)) + ((c as u32)
            - ('0' as u32));
        Some(n as i32)
    } else {
        None
    }
}

/// The profile named by `v[lo..hi]`.
fn profile_named(v: &Vec<char>, lo: usize, hi: usize) -> (r: Option<GlslProfile>)
    requires
        lo <= hi <= v@.len(),
    ensures
        r == spec_profile_named(v@.subrange(lo as int, hi as int)),
{
    let compatibility: [char; 13] = ['c', 'o', 'm', 'p', 'a', 't', 'i', 'b', 'i', 'l', 'i', 't', 'y'];
    let es: [char; 2] = ['e', 's'];
    let core: [char; 4] = ['c', 'o', 'r', 'e'];
    assert(compatibility@ =~= seq!['c', 'o', 'm', 'p', 'a', 't', 'i', 'b', 'i', 'l', 'i', 't', 'y']);
    assert(es@ =~= seq!['e', 's']);
    assert(core@ =~= seq!['c', 'o', 'r', 'e']);
    if range_eq(v, lo, hi, &compatibility) {
        Some(GlslProfile::Compatibility)
    } else if range_eq(v, lo, hi, &es) {
        Some(GlslProfile::ES)
    } else if range_eq(v, lo, hi, &core) {
        Some(GlslProfile::Core)
    } else if lo == hi {
        Some(GlslProfile::NoProfile)
    } else {
        None
    }
}

/// The bounds, within the characters `v` of a source, of its version line.
fn version_line_range(v: &Vec<char>) -> (r: (usize, usize))
    ensures
        r.0 <= r.1 <= v@.len(),
        v@.subrange(r.0 as int, r.1 as int) == version_line(v@),
{
    let (s0, e0) = trim_range(v, 0, v.len());
    assert(v@.subrange(0, v@.len() as int) =~= v@);
    let nl = find_line_end(v, s0, e0);
    assert(v@.subrange(s0 as int, nl as int) =~= first_line(v@.subrange(s0 as int, e0 as int)));
    trim_range(v, s0, nl)
}

impl ShaderSource {
    /// Whether a version number can be split off the `#version` line of this
    /// source; `parse_profile` may be called only where it can.
    pub fn version_number_splits(&self) -> (b: bool)
        ensures
            b == !version_split_fails(self@),
    {
        let v = chars_of(self.0.as_str());
        let (s1, e1) = version_line_range(&v);
        if !has_version_prefix(&v, s1, e1) {
            return true;
        }
        let p = skip_version_prefixes(&v, s1, e1);
        boundary_or_past_end(&v, p, e1, 3)
    }

    /// The version and profile declared by the `#version` line that opens the
    /// source, if it has one that can be read.
    pub fn parse_profile(&self) -> (r: Option<(i32, GlslProfile)>)
        requires
            !version_split_fails(self@),
        ensures
            r == spec_parse_profile(self@),
    {
        let v = chars_of(self.0.as_str());
        let (s1, e1) = version_line_range(&v);
        if !has_version_prefix(&v, s1, e1) {
            return None;
        }
        let p = skip_version_prefixes(&v, s1, e1);
        let ghost r = v@.subrange(p as int, e1 as int);
        if !(e1 - p >= 3 && (v[p] as u32) < 0x80 && (v[p + 1] as u32) < 0x80 && (v[p + 2] as u32)
            < 0x80) {
            return None;
        }
        assert(r[0] == v@[p as int] && r[1] == v@[p + 1] && r[2] == v@[p + 2]);
        let version = match version_number(v[p], v[p + 1], v[p + 2]) {
            Some(n) => n,
            None => {
                return None;
            },
        };
        let (s2, e2) = trim_range(&v, p + 3, e1);
        assert(r.skip(3) =~= v@.subrange(p + 3, e1 as int));
        match profile_named(&v, s2, e2) {
            Some(profile) => Some((version, profile)),
            None => None,
        }
    }
}

/// A preprocessor define as text: its name and its optional value.
pub type DefineText = (Seq<char>, Option<Seq<char>>);

/// The text of an optional string.
pub open spec fn opt_text<S: View<V = Seq<char>>>(o: Option<S>) -> Option<Seq<char>> {
    match o {
        Some(s) => Some(s@),
        None => None,
    }
}

/// The text of the defines handed to `ShaderInput::new`.
pub open spec fn given_defines(ds: Seq<(&str, Option<&str>)>) -> Seq<DefineText> {
    ds.map_values(|d: (&str, Option<&str>)| (d.0@, opt_text(d.1)))
}

/// The text of the defines that a `ShaderInput` holds.
pub open spec fn held_defines(ds: Seq<(String, Option<String>)>) -> Seq<DefineText> {
    ds.map_values(|d: (String, Option<String>)| (d.0@, opt_text(d.1)))
}

/// The value each name is given by `ds`, a later define of a name replacing
/// an earlier one.
pub open spec fn define_map(ds: Seq<DefineText>) -> Map<Seq<char>, Option<Seq<char>>>
    decreases ds.len(),
{
    if ds.len() == 0 {
        Map::empty()
    } else {
        define_map(ds.drop_last()).insert(ds.last().0, ds.last().1)
    }
}

/// Whether no name is defined twice in `ds`.
pub open spec fn distinct_names(ds: Seq<DefineText>) -> bool {
    forall|i: int, j: int| 0 <= i < ds.len() && 0 <= j < ds.len() && i != j ==> ds[i].0 != ds[j].0
}

/// The line `#define NAME VALUE` (value empty where there is none), ended by a line feed.
pub open spec fn define_line(d: DefineText) -> Seq<char> {
    seq!['#', 'd', 'e', 'f', 'i', 'n', 'e', ' '] + d.0 + seq![' '] + match d.1 {
        Some(v) => v,
        None => Seq::empty(),
    } + seq!['\n']
}

/// The define lines of `ds`, in order.
pub open spec fn preamble_text(ds: Seq<DefineText>) -> Seq<char>
    decreases ds.len(),
{
    if ds.len() == 0 {
        Seq::empty()
    } else {
        preamble_text(ds.drop_last()) + define_line(ds.last())
    }
}

/// Replacing the value of a name that occurs once leaves the other values.
proof fn lemma_define_map_update(ds: Seq<DefineText>, j: int, v: Option<Seq<char>>)
    requires
        distinct_names(ds),
        0 <= j < ds.len(),
    ensures
        define_map(ds.update(j, (ds[j].0, v))) == define_map(ds).insert(ds[j].0, v),
    decreases ds.len(),
{
    let k = ds[j].0;
    let us = ds.update(j, (k, v));
    if j == ds.len() - 1 {
        assert(us.drop_last() =~= ds.drop_last());
        assert(define_map(us) =~= define_map(ds).insert(k, v));
    } else {
        assert(us.drop_last() =~= ds.drop_last().update(j, (k, v)));
        assert(distinct_names(ds.drop_last()));
        lemma_define_map_update(ds.drop_last(), j, v);
        assert(ds.last().0 != k);
        assert(define_map(us) =~= define_map(ds).insert(k, v));
    }
}

/// The compiler settings of an input, as plain values.
#[derive(Debug, Clone, Copy, PartialEq, Eq)]
pub struct InputSettings {
    pub language: SourceLanguage,
    pub stage: ShaderStage,
    pub client: Client,
    pub client_version: TargetClientVersion,
    pub target_language: TargetLanguage,
    pub target_language_version: SpirvVersion,
    pub default_version: i32,
    pub default_profile: GlslProfile,
    pub force_default_version_and_profile: i32,
    pub forward_compatible: i32,
    pub messages: ShaderMessage,
}

/// The settings that `options` give a shader of `stage`.
pub open spec fn spec_settings(stage: ShaderStage, options: CompilerOptions) -> InputSettings {
    InputSettings {
        language: options.source_language,
        stage: stage,
        client: spec_env(options.target),
        client_version: spec_env_version(options.target),
        target_language: spec_target_spirv(options.target),
        target_language_version: spec_spirv_version(options.target),
        default_version: match options.version_profile {
            Some(p) => p.0,
            None => 100,
        },
        default_profile: match options.version_profile {
            Some(p) => p.1,
            None => GlslProfile::NoProfile,
        },
        force_default_version_and_profile: if options.version_profile is Some {
            1
        } else {
            0
        },
        forward_compatible: 0,
        messages: options.messages,
    }
}

/// The version and profile checked for `source`: those forced by `options`,
/// else those its `#version` line declares.
pub open spec fn chosen_profile(options: CompilerOptions, source: Seq<char>) -> Option<(i32, GlslProfile)> {
    match options.version_profile {
        Some(p) => Some(p),
        None => spec_parse_profile(source),
    }
}

/// The verdict of `ShaderInput::new` on `source` with `options`: GLSL sources
/// must pass the profile check of the target.
pub open spec fn spec_input_check(options: CompilerOptions, source: Seq<char>) -> Result<(), GlslangError> {
    if options.source_language == SourceLanguage::GLSL {
        spec_verify_glsl_profile(options.target, chosen_profile(options, source))
    } else {
        Ok(())
    }
}

/// An input to a shader: its source, defines and compiler settings.
#[derive(Debug)]
pub struct ShaderInput<'a> {
    /// The source the shader is compiled from.
    source: &'a ShaderSource,
    /// The preprocessor defines, each name once.
    defines: Vec<(String, Option<String>)>,
    /// The settings handed to the compiler.
    input: InputSettings,
}

impl<'a> ShaderInput<'a> {
    /// No name is defined twice.
    #[verifier::type_invariant]
    spec fn names_once(self) -> bool {
        distinct_names(held_defines(self.defines@))
    }

    /// The source the shader is compiled from.
    pub closed spec fn source_spec(self) -> &'a ShaderSource {
        self.source
    }

    /// The preprocessor defines.
    pub closed spec fn defines_spec(self) -> Seq<(String, Option<String>)> {
        self.defines@
    }

    /// The settings handed to the compiler.
    pub closed spec fn settings_spec(self) -> InputSettings {
        self.input
    }

    /// The source the shader is compiled from.
    pub fn source(&self) -> (r: &'a ShaderSource)
        ensures
            r == self.source_spec(),
    {
        self.source
    }

    /// The preprocessor defines, each name once.
    pub fn defines(&self) -> (r: &Vec<(String, Option<String>)>)
        ensures
            r@ == self.defines_spec(),
            distinct_names(held_defines(r@)),
    {
        proof {
            use_type_invariant(self);
        }
        &self.defines
    }

    /// The settings handed to the compiler.
    pub fn input(&self) -> (r: &InputSettings)
        ensures
            *r == self.settings_spec(),
    {
        &self.input
    }
}

/// The input to a shader instance.
impl<'a> ShaderInput<'a> {
    /// Create a new shader input with the given options and defines.
    ///
    /// Fails where the source is GLSL and the version and profile, forced by
    /// `options` or declared by the source, do not suit the target.
    pub fn new(
        source: &'a ShaderSource,
        stage: ShaderStage,
        options: &CompilerOptions,
        defines: &[(&str, Option<&str>)],
    ) -> (r: Result<Self, GlslangError>)
        requires
            options.version_profile is None ==> !version_split_fails(source@),
        ensures
            r is Ok <==> spec_input_check(*options, source@) is Ok,
            r matches Err(e) ==> spec_input_check(*options, source@) == Err::<(), GlslangError>(e),
            r matches Ok(input) ==> {
                &&& input.source_spec() == source
                &&& input.settings_spec() == spec_settings(stage, *options)
                &&& input.settings_spec().language == options.source_language
                &&& input.settings_spec().stage == stage
                &&& input.settings_spec().messages == options.messages
                &&& distinct_names(held_defines(input.defines_spec()))
                &&& define_map(held_defines(input.defines_spec())) == define_map(
                    given_defines(defines@),
                )
            },
    {
        let profile = match options.version_profile {
            Some(p) => Some(p),
            None => source.parse_profile(),
        };
        if options.source_language == SourceLanguage::GLSL {
            match options.target.verify_glsl_profile(profile.as_ref()) {
                Ok(()) => {},
                Err(e) => {
                    return Err(e);
                },
            }
        }
        let held = collect_defines(defines);
        let input = InputSettings {
            language: options.source_language,
            stage,
            client: options.target.env(),
            client_version: options.target.env_version(),
            target_language: options.target.target_spirv(),
            target_language_version: options.target.spirv_version(),
            default_version: match options.version_profile {
                Some(p) => p.0,
                None => 100,
            },
            default_profile: match options.version_profile {
                Some(p) => p.1,
                None => GlslProfile::NoProfile,
            },
            force_default_version_and_profile: match options.version_profile {
                Some(_) => 1,
                None => 0,
            },
            forward_compatible: 0,
            messages: options.messages,
        };
        Ok(ShaderInput { source, defines: held, input })
    }

    /// The text defining every define of the input, one `#define` line each,
    /// that the compiler reads before the source.
    pub fn preamble(&self) -> (s: String)
        ensures
            s@ == preamble_text(held_defines(self.defines_spec())),
            distinct_names(held_defines(self.defines_spec())),
    {
        proof {
            use_type_invariant(self);
        }
        let mut s = String::new();
        let n = self.defines.len();
        for i in 0..n
            invariant
                n == self.defines@.len(),
                s@ == preamble_text(held_defines(self.defines@).take(i as int)),
        {
            let ghost ds = held_defines(self.defines@);
            let ghost before = s@;
            assert(ds.take(i + 1).drop_last() =~= ds.take(i as int));
            proof {
                reveal_strlit("#define ");
                reveal_strlit(" ");
                reveal_strlit("\n");
            }
            s.append("#define ");
            s.append(self.defines[i].0.as_str());
            s.append(" ");
            match &self.defines[i].1 {
                Some(v) => s.append(v.as_str()),
                None => {},
            }
            s.append("\n");
            assert(s@ =~= before + define_line(ds[i as int]));
        }
        assert(held_defines(self.defines@).take(n as int) =~= held_defines(self.defines@));
        s
    }
}

impl<'a> Clone for ShaderInput<'a> {
    fn clone(&self) -> (r: Self)
        ensures
            r.source_spec() == self.source_spec(),
            held_defines(r.defines_spec()) == held_defines(self.defines_spec()),
            r.settings_spec() == self.settings_spec(),
    {
        proof {
            use_type_invariant(self);
        }
        ShaderInput { source: self.source, defines: clone_defines(&self.defines), input: self.input }
    }
}

/// A copy of `ds`, holding the same text.
fn clone_defines(ds: &Vec<(String, Option<String>)>) -> (r: Vec<(String, Option<String>)>)
    ensures
        held_defines(r@) == held_defines(ds@),
{
    let mut r: Vec<(String, Option<String>)> = Vec::new();
    let n = ds.len();
    for i in 0..n
        invariant
            n == ds@.len(),
            held_defines(r@) == held_defines(ds@).take(i as int),
    {
        let name = ds[i].0.clone();
        let value: Option<String> = match &ds[i].1 {
            Some(v) => Some(v.clone()),
            None => None,
        };
        let ghost before = r@;
        r.push((name, value));
        assert(held_defines(r@) =~= held_defines(before).push((name@, opt_text(value))));
        assert(held_defines(ds@).take(i + 1) =~= held_defines(ds@).take(i as int).push(
            held_defines(ds@)[i as int],
        ));
    }
    assert(held_defines(ds@).take(n as int) =~= held_defines(ds@));
    r
}

/// The defines as owned strings, each name once with the last value it is given.
fn collect_defines(defines: &[(&str, Option<&str>)]) -> (held: Vec<(String, Option<String>)>)
    ensures
        distinct_names(held_defines(held@)),
        define_map(held_defines(held@)) == define_map(given_defines(defines@)),
{
    let mut held: Vec<(String, Option<String>)> = Vec::new();
    let n = defines.len();
    for i in 0..n
        invariant
            n == defines@.len(),
            distinct_names(held_defines(held@)),
            define_map(held_defines(held@)) == define_map(given_defines(defines@).take(i as int)),
    {
        let name = defines[i].0.to_owned();
        let value: Option<String> = match defines[i].1 {
            Some(v) => Some(v.to_owned()),
            None => None,
        };
        let ghost g = given_defines(defines@);
        assert(g.take(i + 1).drop_last() =~= g.take(i as int));
        assert(g.take(i + 1).last() == (name@, opt_text(value)));
        let mut j: usize = 0;
        let m = held.len();
        while j < m && !(held[j].0 == name)
            invariant
                m == held@.len(),
                0 <= j <= m,
                forall|k: int| 0 <= k < j ==> held@[k].0@ != name@,
            decreases m - j,
        {
            j = j + 1;
        }
        let ghost before = held_defines(held@);
        if j < m {
            assert(held@[j as int].0@ == name@);
            held.set(j, (name, value));
            proof {
                assert(held_defines(held@) =~= before.update(j as int, (before[j as int].0, opt_text(value))));
                lemma_define_map_update(before, j as int, opt_text(value));
            }
        } else {
            held.push((name, value));
            proof {
                assert(held_defines(held@).drop_last() =~= before);
                assert(held_defines(held@) =~= before.push((name@, opt_text(value))));
                assert(forall|k: int| 0 <= k < before.len() ==> before[k].0 != name@);
            }
        }
    }
    assert(given_defines(defines@).take(n as int) =~= given_defines(defines@));
    held
}

} // verus!
