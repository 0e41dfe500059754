//! Properties of the library that span its functions or all of their inputs.

use vstd::prelude::*;
use vstd::std_specs::ops::BitOrSpec;

use crate::ctypes::{
    Client, GlslProfile, ShaderStage, SpirvVersion, TargetClientVersion, TargetLanguage,
};
use crate::error::GlslangError;
use crate::shader::{
    digit_value, is_digit, is_es_version, is_known_glsl_version, spec_parse_profile,
    spec_profile_named, spec_target_spirv, spec_verify_glsl_profile, spec_version_number,
    starts_with, strip_version_prefixes, version_line, version_prefix, version_rest,
    version_split_fails, spec_env, spec_env_version, spec_settings, spec_spirv_version,
    CompilerOptions, OpenGlVersion, ShaderMessage, Target, VulkanVersion,
};
use crate::text::{
    first_line, is_ascii_char, is_ws, lemma_ascii_boundary, lemma_line_end_after,
    lemma_line_end_before, lemma_line_end_bounded, lemma_trim_end_skips_ws, line_end,
    lemma_trim_end_keeps_prefix, lemma_trim_start_skips_ws, trim, trim_end, trim_start,
};

verus! {

/// The character of the decimal digit `d`.
pub open spec fn digit_char(d: int) -> char {
    if d == 0 {
        '0'
    } else if d == 1 {
        '1'
    } else if d == 2 {
        '2'
    } else if d == 3 {
        '3'
    } else if d == 4 {
        '4'
    } else if d == 5 {
        '5'
    } else if d == 6 {
        '6'
    } else if d == 7 {
        '7'
    } else if d == 8 {
        '8'
    } else {
        '9'
    }
}

/// The name of `p` on a version line, after a space; nothing for no profile.
pub open spec fn profile_suffix(p: GlslProfile) -> Seq<char> {
    match p {
        GlslProfile::NoProfile => Seq::empty(),
        GlslProfile::Core => seq![' ', 'c', 'o', 'r', 'e'],
        GlslProfile::Compatibility => seq![
            ' ',
            'c',
            'o',
            'm',
            'p',
            'a',
            't',
            'i',
            'b',
            'i',
            'l',
            'i',
            't',
            'y',
        ],
        GlslProfile::ES => seq![' ', 'e', 's'],
    }
}

/// The line `#version NNN PROFILE` for a version of three digits.
pub open spec fn version_directive(version: int, p: GlslProfile) -> Seq<char> {
    version_prefix() + seq![
        digit_char(version / 100),
        digit_char((version / 10) % 10),
        digit_char(version % 10),
    ] + profile_suffix(p)
}

proof fn lemma_digit_char(d: int)
    requires
        0 <= d <= 9,
    ensures
        is_digit(digit_char(d)),
        digit_value(digit_char(d)) == d,
        is_ascii_char(digit_char(d)),
        !is_ws(digit_char(d)),
        digit_char(d) != '\n',
        digit_char(d) != '#',
{
}

proof fn lemma_profile_suffix_named(p: GlslProfile)
    ensures
        spec_profile_named(trim(profile_suffix(p))) == Some(p),
{
    let suffix = profile_suffix(p);
    if suffix.len() > 0 {
        let name = suffix.drop_first();
        assert(is_ws(suffix[0]));
        assert(trim_start(suffix) == trim_start(name));
        assert(!is_ws(name[0]));
        assert(trim_start(name) == name);
        assert(!is_ws(name.last()));
        assert(trim_end(name) == name);
        match p {
            GlslProfile::Core => {
                assert(name =~= seq!['c', 'o', 'r', 'e']);
            },
            GlslProfile::ES => {
                assert(name =~= seq!['e', 's']);
            },
            GlslProfile::Compatibility => {
                assert(name =~= seq!['c', 'o', 'm', 'p', 'a', 't', 'i', 'b', 'i', 'l', 'i', 't', 'y']);
            },
            GlslProfile::NoProfile => {},
        }
    } else {
        assert(trim(suffix) == suffix);
    }
}

/// A source whose first line, after any whitespace, is `#version NNN PROFILE`
/// declares version `NNN` and that profile, whatever lines follow; and its
/// version number can be split off, so `parse_profile` may be called on it.
pub proof fn law_version_directive_read_back(
    version: int,
    p: GlslProfile,
    lead: Seq<char>,
    rest: Seq<char>,
)
    requires
        0 <= version <= 999,
        forall|i: int| 0 <= i < lead.len() ==> is_ws(#[trigger] lead[i]),
        rest.len() == 0 || rest[0] == '\n',
    ensures
        spec_parse_profile(lead + version_directive(version, p) + rest) == Some((version as i32, p)),
        !version_split_fails(lead + version_directive(version, p) + rest),
{
    let line = version_directive(version, p);
    let ws: Seq<char> = Seq::empty();
    law_version_line_trailing_whitespace(version, p, lead, ws, rest);
    assert(lead + line + ws + rest =~= lead + line + rest);
}

/// Whitespace that ends the version line, such as the carriage return of a
/// CRLF line ending or trailing spaces, does not change what it declares: a
/// source whose first line, after any whitespace, is `#version NNN PROFILE`
/// followed by whitespace declares version `NNN` and that profile, whatever
/// lines follow; and `parse_profile` may be called on it.
pub proof fn law_version_line_trailing_whitespace(
    version: int,
    p: GlslProfile,
    lead: Seq<char>,
    ws: Seq<char>,
    rest: Seq<char>,
)
    requires
        0 <= version <= 999,
        forall|i: int| 0 <= i < lead.len() ==> is_ws(#[trigger] lead[i]),
        forall|i: int| 0 <= i < ws.len() ==> is_ws(#[trigger] ws[i]) && ws[i] != '\n',
        rest.len() == 0 || rest[0] == '\n',
    ensures
        spec_parse_profile(lead + version_directive(version, p) + ws + rest) == Some(
            (version as i32, p),
        ),
        !version_split_fails(lead + version_directive(version, p) + ws + rest),
{
    let line = version_directive(version, p);
    let tail = ws + rest;
    let src = lead + line + ws + rest;
    let d0 = version / 100;
    let d1 = (version / 10) % 10;
    let d2 = version % 10;
    lemma_digit_char(d0);
    lemma_digit_char(d1);
    lemma_digit_char(d2);
    let digits = seq![digit_char(d0), digit_char(d1), digit_char(d2)];
    let suffix = profile_suffix(p);
    assert(line =~= version_prefix() + digits + suffix);
    // Leading whitespace goes.
    assert(src =~= lead + (line + tail));
    lemma_trim_start_skips_ws(lead, line + tail);
    assert((line + tail)[0] == '#');
    assert(trim_start(line + tail) == line + tail);
    // Trailing whitespace goes, but not into the version line.
    assert(line.last() != '\n' && !is_ws(line.last())) by {
        if suffix.len() == 0 {
            assert(line.last() == digit_char(d2));
        }
    }
    lemma_trim_end_keeps_prefix(line, tail);
    let k = choose|k: int| 0 <= k <= tail.len() && trim_end(line + tail) == line + tail.take(k);
    let x = tail.take(k);
    let t = trim(src);
    assert(t == line + x);
    // The first line of what is left is the version line and some of `ws`.
    assert forall|i: int| 0 <= i < line.len() implies #[trigger] line[i] != '\n' by {
        if i >= 12 {
            assert(line[i] == suffix[i - 12]);
        }
    }
    lemma_line_end_after(line, x);
    let e = line_end(x);
    lemma_line_end_bounded(x);
    if x.len() > ws.len() {
        assert(x[ws.len() as int] == rest[0]);
        lemma_line_end_before(x, ws.len() as int);
    }
    assert(e <= ws.len());
    let y = ws.take(e as int);
    assert(first_line(t) =~= line + y);
    assert forall|i: int| 0 <= i < y.len() implies is_ws(#[trigger] y[i]) by {
        assert(y[i] == ws[i]);
    }
    lemma_trim_end_skips_ws(line, y);
    assert(trim_end(line) == line);
    assert((line + y)[0] == '#');
    assert(trim_start(line + y) == line + y);
    assert(version_line(src) == line);
    // One `#version ` prefix.
    assert(line.take(9) =~= version_prefix());
    let r = line.skip(9);
    assert(r =~= digits + suffix);
    assert(r[0] == digit_char(d0));
    assert(!starts_with(r, version_prefix())) by {
        if starts_with(r, version_prefix()) {
            assert(r.take(9)[0] == '#');
        }
    }
    assert(strip_version_prefixes(r) == r);
    assert(version_rest(src) == r);
    // Three digits, then the profile's name.
    assert(100 * d0 + 10 * d1 + d2 == version);
    assert(r[1] == digit_char(d1) && r[2] == digit_char(d2));
    assert(spec_version_number(r[0], r[1], r[2]) == Some(version as i32));
    assert(r.skip(3) =~= suffix);
    lemma_profile_suffix_named(p);
    lemma_ascii_boundary(r);
}

/// Whitespace before the version line does not change what it declares.
pub proof fn law_leading_whitespace_ignored(lead: Seq<char>, src: Seq<char>)
    requires
        forall|i: int| 0 <= i < lead.len() ==> is_ws(#[trigger] lead[i]),
    ensures
        spec_parse_profile(lead + src) == spec_parse_profile(src),
        version_split_fails(lead + src) == version_split_fails(src),
{
    lemma_trim_start_skips_ws(lead, src);
}

/// Compilation to SPIR-V does not support the compatibility profile: every
/// target that produces SPIR-V rejects it, whatever the version.
pub proof fn law_spirv_rejects_compatibility(t: Target, version: i32)
    requires
        spec_target_spirv(t) == TargetLanguage::SPIRV,
    ensures
        spec_verify_glsl_profile(t, Some((version, GlslProfile::Compatibility))) is Err,
{
}

/// Every version and profile a target accepts is one glslang knows, and the
/// ES profile is accepted only with versions 300, 310 and 320.
pub proof fn law_accepted_versions_are_known(t: Target, version: i32, p: GlslProfile)
    ensures
        spec_verify_glsl_profile(t, Some((version, p))) is Ok ==> is_known_glsl_version(version),
        spec_verify_glsl_profile(t, Some((version, p))) is Ok && p == GlslProfile::ES
            ==> is_es_version(version),
{
}

/// Vulkan requires GLSL 140 or above, and OpenGL with SPIR-V requires GLSL
/// 330 or above, whatever the profile.
pub proof fn law_minimum_versions(t: Target, version: i32, p: GlslProfile)
    ensures
        t is Vulkan && version < 140 ==> spec_verify_glsl_profile(t, Some((version, p))) is Err,
        (t matches Target::OpenGL { spirv_version, .. } && spirv_version is Some) && version < 330
            ==> spec_verify_glsl_profile(t, Some((version, p))) is Err,
{
}

/// What Vulkan accepts, a target with no environment accepts too, whether or
/// not it names a SPIR-V version.
pub proof fn law_vulkan_acceptance_carries_over(
    t: Target,
    spirv: Option<SpirvVersion>,
    profile: Option<(i32, GlslProfile)>,
)
    requires
        t is Vulkan,
    ensures
        spec_verify_glsl_profile(t, profile) is Ok ==> spec_verify_glsl_profile(
            Target::NoEnvironment(spirv),
            profile,
        ) is Ok,
{
}

/// Combining message flags does not depend on their order or grouping,
/// repeats nothing, and the default flags add nothing.
pub proof fn law_message_flags_combine(a: ShaderMessage, b: ShaderMessage, c: ShaderMessage)
    ensures
        a.bitor_spec(b) == b.bitor_spec(a),
        a.bitor_spec(b).bitor_spec(c) == a.bitor_spec(b.bitor_spec(c)),
        a.bitor_spec(a) == a,
        a.bitor_spec(ShaderMessage(0)) == a,
{
    let (x, y, z) = (a.0, b.0, c.0);
    assert(x | y == y | x) by (bit_vector);
    assert((x | y) | z == x | (y | z)) by (bit_vector);
    assert(x | x == x) by (bit_vector);
    assert(x | 0 == x) by (bit_vector);
}

/// The GLSL versions glslang knows, written out.
pub open spec fn listed_glsl_version(v: i32) -> bool {
    v == 100 || v == 110 || v == 120 || v == 130 || v == 140 || v == 150 || v == 300 || v == 310
        || v == 320 || v == 330 || v == 400 || v == 410 || v == 420 || v == 430 || v == 440
        || v == 450 || v == 460
}

/// Acceptance is complete: every known version with a profile that is
/// neither ES nor compatibility is accepted by a target with no environment
/// and no SPIR-V version, by OpenGL without SPIR-V, by Vulkan from version 140
/// and by OpenGL with SPIR-V from version 330; the ES versions are accepted
/// with the ES profile; and OpenGL without SPIR-V accepts the compatibility
/// profile with every known version.
pub proof fn law_known_versions_accepted(
    version: i32,
    p: GlslProfile,
    vk: VulkanVersion,
    spirv: SpirvVersion,
)
    requires
        listed_glsl_version(version),
    ensures
        p != GlslProfile::ES && p != GlslProfile::Compatibility ==> {
            &&& spec_verify_glsl_profile(Target::NoEnvironment(None), Some((version, p))) == Ok::<
                (),
                GlslangError,
            >(())
            &&& spec_verify_glsl_profile(
                Target::NoEnvironment(Some(spirv)),
                Some((version, p)),
            ) == Ok::<(), GlslangError>(())
            &&& spec_verify_glsl_profile(
                Target::OpenGL { version: OpenGlVersion::OpenGL4_5, spirv_version: None },
                Some((version, p)),
            ) == Ok::<(), GlslangError>(())
            &&& version >= 140 ==> spec_verify_glsl_profile(
                Target::Vulkan { version: vk, spirv_version: spirv },
                Some((version, p)),
            ) == Ok::<(), GlslangError>(())
            &&& version >= 330 ==> spec_verify_glsl_profile(
                Target::OpenGL { version: OpenGlVersion::OpenGL4_5, spirv_version: Some(spirv) },
                Some((version, p)),
            ) == Ok::<(), GlslangError>(())
        },
        (version == 300 || version == 310 || version == 320) ==> {
            &&& spec_verify_glsl_profile(
                Target::NoEnvironment(None),
                Some((version, GlslProfile::ES)),
            ) == Ok::<(), GlslangError>(())
            &&& spec_verify_glsl_profile(
                Target::Vulkan { version: vk, spirv_version: spirv },
                Some((version, GlslProfile::ES)),
            ) == Ok::<(), GlslangError>(())
        },
        spec_verify_glsl_profile(
            Target::OpenGL { version: OpenGlVersion::OpenGL4_5, spirv_version: None },
            Some((version, GlslProfile::Compatibility)),
        ) == Ok::<(), GlslangError>(()),
{
}

/// Versions glslang does not know are refused, by every target and with every
/// profile, as unsupported with the version and profile asked for (ES being
/// reported as ES).
pub proof fn law_unknown_versions_refused(t: Target, version: i32, p: GlslProfile)
    requires
        !listed_glsl_version(version),
    ensures
        spec_verify_glsl_profile(t, Some((version, p))) == Err::<(), GlslangError>(
            GlslangError::VersionUnsupported(version, p),
        ),
{
}

/// The settings of a shader input carry what its options and stage say: the
/// source language, the stage and the message flags as given, the forced
/// version and profile where there is one (100 and no profile otherwise,
/// with forcing off), and never forward compatibility.
pub proof fn law_settings_follow_options(stage: ShaderStage, options: CompilerOptions)
    ensures
        spec_settings(stage, options).language == options.source_language,
        spec_settings(stage, options).stage == stage,
        spec_settings(stage, options).messages == options.messages,
        spec_settings(stage, options).forward_compatible == 0,
        options.version_profile matches Some((v, p)) ==> {
            &&& spec_settings(stage, options).default_version == v
            &&& spec_settings(stage, options).default_profile == p
            &&& spec_settings(stage, options).force_default_version_and_profile == 1
        },
        options.version_profile is None ==> {
            &&& spec_settings(stage, options).default_version == 100
            &&& spec_settings(stage, options).default_profile == GlslProfile::NoProfile
            &&& spec_settings(stage, options).force_default_version_and_profile == 0
        },
        spec_settings(stage, options).client == spec_env(options.target),
        spec_settings(stage, options).client_version == spec_env_version(options.target),
        spec_settings(stage, options).target_language == spec_target_spirv(options.target),
        spec_settings(stage, options).target_language_version == spec_spirv_version(
            options.target,
        ),
{
}

/// A target's settings are the ones it names: Vulkan validates against the
/// Vulkan version it names and compiles to its SPIR-V version; OpenGL
/// validates against OpenGL 4.5; a target with no environment names no
/// client; SPIR-V is produced exactly where a SPIR-V version is named (always
/// for Vulkan), and an unnamed SPIR-V version reads as 1.0.
pub proof fn law_target_settings(vk: VulkanVersion, spirv: SpirvVersion, o: Option<SpirvVersion>)
    ensures
        spec_env(Target::Vulkan { version: vk, spirv_version: spirv }) == Client::Vulkan,
        spec_env(Target::OpenGL { version: OpenGlVersion::OpenGL4_5, spirv_version: o })
            == Client::OpenGL,
        spec_env(Target::NoEnvironment(o)) == Client::NoClient,
        vk == VulkanVersion::Vulkan1_0 ==> spec_env_version(
            Target::Vulkan { version: vk, spirv_version: spirv },
        ) == TargetClientVersion::Vulkan1_0,
        vk == VulkanVersion::Vulkan1_1 ==> spec_env_version(
            Target::Vulkan { version: vk, spirv_version: spirv },
        ) == TargetClientVersion::Vulkan1_1,
        vk == VulkanVersion::Vulkan1_2 ==> spec_env_version(
            Target::Vulkan { version: vk, spirv_version: spirv },
        ) == TargetClientVersion::Vulkan1_2,
        vk == VulkanVersion::Vulkan1_3 ==> spec_env_version(
            Target::Vulkan { version: vk, spirv_version: spirv },
        ) == TargetClientVersion::Vulkan1_3,
        spec_env_version(Target::Vulkan { version: vk, spirv_version: spirv })
            != TargetClientVersion::OpenGL450,
        spec_env_version(Target::OpenGL { version: OpenGlVersion::OpenGL4_5, spirv_version: o })
            == TargetClientVersion::OpenGL450,
        spec_target_spirv(Target::Vulkan { version: vk, spirv_version: spirv })
            == TargetLanguage::SPIRV,
        spec_spirv_version(Target::Vulkan { version: vk, spirv_version: spirv }) == spirv,
        (spec_target_spirv(Target::NoEnvironment(o)) == TargetLanguage::SPIRV) == o is Some,
        (spec_target_spirv(Target::OpenGL { version: OpenGlVersion::OpenGL4_5, spirv_version: o })
            == TargetLanguage::SPIRV) == o is Some,
        spec_spirv_version(Target::NoEnvironment(o)) == (match o {
            Some(s) => s,
            None => SpirvVersion::SPIRV1_0,
        }),
        spec_spirv_version(Target::OpenGL { version: OpenGlVersion::OpenGL4_5, spirv_version: o })
            == (match o {
            Some(s) => s,
            None => SpirvVersion::SPIRV1_0,
        }),
{
}

/// Combining message flags is the bitwise or of their values: every flag of
/// either operand is set in the result, and no other.
pub proof fn law_message_flags_are_bitwise_or(a: ShaderMessage, b: ShaderMessage)
    ensures
        a.bitor_spec(b).0 == a.0 | b.0,
        a.bitor_spec(b).0 & a.0 == a.0,
        a.bitor_spec(b).0 & b.0 == b.0,
        a.bitor_spec(b).0 & !(a.0 | b.0) == 0,
{
    let (x, y) = (a.0, b.0);
    assert((x | y) & x == x) by (bit_vector);
    assert((x | y) & y == y) by (bit_vector);
    assert((x | y) & !(x | y) == 0) by (bit_vector);
}

} // verus!
