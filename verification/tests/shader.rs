use glslang_sys::glslang_messages_t as M;
use glslang::{
    Client, CompilerOptions, GlslProfile, GlslangError, OpenGlVersion, ShaderInput,
    ShaderMessage, ShaderSource, ShaderStage, SourceLanguage, SpirvVersion, Target,
    TargetClientVersion, TargetLanguage, VulkanVersion,
};

fn vulkan() -> Target {
    Target::Vulkan {
        version: VulkanVersion::Vulkan1_0,
        spirv_version: SpirvVersion::SPIRV1_0,
    }
}

fn profile_of(text: &str) -> Option<(i32, GlslProfile)> {
    let source = ShaderSource::from(text);
    assert!(source.version_number_splits());
    source.parse_profile()
}

#[test]
pub fn test_parse() {
    let source = ShaderSource::try_from(String::from(
        r#"
#version 450

layout(location = 0) out vec4 color;
layout(binding = 1) uniform sampler2D tex;

void main() {
    color = texture(tex, vec2(0.0));
}
        "#,
    ))
    .expect("source");

    let input = ShaderInput::new(
        &source,
        ShaderStage::Fragment,
        &CompilerOptions::default(),
        &[],
    )
    .expect("target");

    assert_eq!(source.parse_profile(), Some((450, GlslProfile::NoProfile)));
    assert_eq!(input.input().stage, ShaderStage::Fragment);
    assert_eq!(input.preamble(), "");
}

#[test]
fn parse_profile_reads_version_and_profile() {
    assert_eq!(profile_of("#version 450"), Some((450, GlslProfile::NoProfile)));
    assert_eq!(profile_of("#version 310 es"), Some((310, GlslProfile::ES)));
    assert_eq!(profile_of("#version 460 core\nvoid main() {}"), Some((460, GlslProfile::Core)));
    assert_eq!(
        profile_of("#version 330 compatibility\r\nvoid main() {}"),
        Some((330, GlslProfile::Compatibility))
    );
    assert_eq!(profile_of("  \t\n #version 150   core   \n"), Some((150, GlslProfile::Core)));
}

#[test]
fn parse_profile_drops_repeated_prefixes() {
    assert_eq!(profile_of("#version #version 450 core"), Some((450, GlslProfile::Core)));
    // The version number is the three bytes after the prefix, whatever follows.
    assert_eq!(profile_of("#version 450core"), Some((450, GlslProfile::Core)));
}

#[test]
fn parse_profile_reads_signed_numbers() {
    assert_eq!(profile_of("#version +45"), Some((45, GlslProfile::NoProfile)));
    assert_eq!(profile_of("#version -12 es"), Some((-12, GlslProfile::ES)));
    assert_eq!(profile_of("#version 045"), Some((45, GlslProfile::NoProfile)));
}

#[test]
fn parse_profile_rejects_what_it_cannot_read() {
    assert_eq!(profile_of(""), None);
    assert_eq!(profile_of("   \n  "), None);
    assert_eq!(profile_of("void main() {}"), None);
    assert_eq!(profile_of("// #version 450\n#version 450"), None);
    assert_eq!(profile_of("#version 45"), None);
    assert_eq!(profile_of("#version"), None);
    assert_eq!(profile_of("#version abc"), None);
    assert_eq!(profile_of("#version 4500"), None);
    assert_eq!(profile_of("#version 450 foo"), None);
    assert_eq!(profile_of("#version +-5"), None);
    assert_eq!(profile_of("#version 4\u{e9}"), None);
}

#[test]
fn version_number_that_cannot_be_split() {
    let source = ShaderSource::from("#version 12\u{e9}");
    assert!(!source.version_number_splits());
    let source = ShaderSource::from("#version \u{1f600}");
    assert!(!source.version_number_splits());
    let source = ShaderSource::from("#version 1\u{e9} core");
    assert!(source.version_number_splits());
    assert_eq!(source.parse_profile(), None);
}

#[test]
fn leading_whitespace_is_ignored() {
    let plain = profile_of("#version 320 es\nprecision mediump float;");
    let padded = profile_of("\n\n \u{3000}\t#version 320 es\nprecision mediump float;");
    assert_eq!(plain, padded);
    assert_eq!(plain, Some((320, GlslProfile::ES)));
}

#[test]
fn source_keeps_its_text() {
    let source = ShaderSource::from(String::from("void main() {}"));
    assert_eq!(source.as_str(), "void main() {}");
    let source = ShaderSource::from("void main() {}");
    assert_eq!(source.as_str(), "void main() {}");
}

#[test]
fn verify_accepts_missing_profile() {
    assert_eq!(vulkan().verify_glsl_profile(None), Ok(()));
    assert_eq!(Target::NoEnvironment(Some(SpirvVersion::SPIRV1_3)).verify_glsl_profile(None), Ok(()));
}

#[test]
fn verify_es_needs_es_version() {
    let t = Target::NoEnvironment(None);
    assert_eq!(
        t.verify_glsl_profile(Some(&(450, GlslProfile::ES))),
        Err(GlslangError::VersionUnsupported(450, GlslProfile::ES))
    );
    assert_eq!(t.verify_glsl_profile(Some(&(310, GlslProfile::ES))), Ok(()));
}

#[test]
fn verify_unknown_version() {
    let t = Target::NoEnvironment(None);
    assert_eq!(
        t.verify_glsl_profile(Some(&(123, GlslProfile::Core))),
        Err(GlslangError::VersionUnsupported(123, GlslProfile::Core))
    );
    assert_eq!(
        t.verify_glsl_profile(Some(&(470, GlslProfile::NoProfile))),
        Err(GlslangError::VersionUnsupported(470, GlslProfile::NoProfile))
    );
}

#[test]
fn verify_vulkan_rules() {
    let t = vulkan();
    assert_eq!(
        t.verify_glsl_profile(Some(&(130, GlslProfile::Core))),
        Err(GlslangError::InvalidProfile(t, 130, GlslProfile::Core))
    );
    assert_eq!(
        t.verify_glsl_profile(Some(&(450, GlslProfile::Compatibility))),
        Err(GlslangError::InvalidProfile(t, 450, GlslProfile::Compatibility))
    );
    assert_eq!(t.verify_glsl_profile(Some(&(140, GlslProfile::NoProfile))), Ok(()));
    assert_eq!(t.verify_glsl_profile(Some(&(310, GlslProfile::ES))), Ok(()));
}

#[test]
fn verify_opengl_rules() {
    let spirv = Target::OpenGL {
        version: OpenGlVersion::OpenGL4_5,
        spirv_version: Some(SpirvVersion::SPIRV1_0),
    };
    assert_eq!(
        spirv.verify_glsl_profile(Some(&(320, GlslProfile::ES))),
        Err(GlslangError::InvalidProfile(spirv, 320, GlslProfile::ES))
    );
    assert_eq!(
        spirv.verify_glsl_profile(Some(&(450, GlslProfile::Compatibility))),
        Err(GlslangError::InvalidProfile(spirv, 450, GlslProfile::Compatibility))
    );
    assert_eq!(spirv.verify_glsl_profile(Some(&(330, GlslProfile::Core))), Ok(()));
    let plain = Target::OpenGL { version: OpenGlVersion::OpenGL4_5, spirv_version: None };
    assert_eq!(plain.verify_glsl_profile(Some(&(110, GlslProfile::Compatibility))), Ok(()));
}

#[test]
fn verify_no_environment_rules() {
    let spirv = Target::NoEnvironment(Some(SpirvVersion::SPIRV1_5));
    assert_eq!(
        spirv.verify_glsl_profile(Some(&(450, GlslProfile::Compatibility))),
        Err(GlslangError::InvalidProfile(spirv, 450, GlslProfile::Compatibility))
    );
    assert_eq!(spirv.verify_glsl_profile(Some(&(100, GlslProfile::Core))), Ok(()));
    let plain = Target::NoEnvironment(None);
    assert_eq!(plain.verify_glsl_profile(Some(&(450, GlslProfile::Compatibility))), Ok(()));
}

#[test]
fn spirv_targets_reject_compatibility() {
    let targets = [
        vulkan(),
        Target::NoEnvironment(Some(SpirvVersion::SPIRV1_6)),
        Target::OpenGL { version: OpenGlVersion::OpenGL4_5, spirv_version: Some(SpirvVersion::SPIRV1_2) },
    ];
    for t in targets {
        assert_eq!(t.target_spirv(), TargetLanguage::SPIRV);
        for v in [100, 330, 450, 460, 999] {
            assert!(t.verify_glsl_profile(Some(&(v, GlslProfile::Compatibility))).is_err());
        }
    }
}

#[test]
fn vulkan_acceptance_carries_over() {
    for v in [100, 140, 150, 300, 310, 330, 450, 460] {
        for p in [GlslProfile::NoProfile, GlslProfile::Core, GlslProfile::ES] {
            if vulkan().verify_glsl_profile(Some(&(v, p))).is_ok() {
                assert!(Target::NoEnvironment(None).verify_glsl_profile(Some(&(v, p))).is_ok());
                assert!(Target::NoEnvironment(Some(SpirvVersion::SPIRV1_4))
                    .verify_glsl_profile(Some(&(v, p)))
                    .is_ok());
            }
        }
    }
}

#[test]
fn target_settings() {
    let v = Target::Vulkan { version: VulkanVersion::Vulkan1_2, spirv_version: SpirvVersion::SPIRV1_5 };
    assert_eq!(v.env(), Client::Vulkan);
    assert_eq!(v.env_version(), TargetClientVersion::Vulkan1_2);
    assert_eq!(v.target_spirv(), TargetLanguage::SPIRV);
    assert_eq!(v.spirv_version(), SpirvVersion::SPIRV1_5);

    let g = Target::OpenGL { version: OpenGlVersion::OpenGL4_5, spirv_version: None };
    assert_eq!(g.env(), Client::OpenGL);
    assert_eq!(g.env_version(), TargetClientVersion::OpenGL450);
    assert_eq!(g.target_spirv(), TargetLanguage::NoOutput);
    assert_eq!(g.spirv_version(), SpirvVersion::SPIRV1_0);

    let n = Target::NoEnvironment(Some(SpirvVersion::SPIRV1_3));
    assert_eq!(n.env(), Client::NoClient);
    assert_eq!(n.env_version(), TargetClientVersion::OpenGL450);
    assert_eq!(n.target_spirv(), TargetLanguage::SPIRV);
    assert_eq!(n.spirv_version(), SpirvVersion::SPIRV1_3);

    let e = Target::NoEnvironment(None);
    assert_eq!(e.target_spirv(), TargetLanguage::NoOutput);
    assert_eq!(e.spirv_version(), SpirvVersion::SPIRV1_0);
}

#[test]
fn message_flags() {
    assert_eq!(ShaderMessage::DEFAULT().0, 0);
    assert_eq!(ShaderMessage::DISPLAY_ERROR_COLUMN().0, 131072);
    assert_eq!((ShaderMessage::AST() | ShaderMessage::SPV_RULES()).0, 12);
    assert_eq!(
        (ShaderMessage::VULKAN_RULES() | ShaderMessage::SPV_RULES()),
        (ShaderMessage::SPV_RULES() | ShaderMessage::VULKAN_RULES())
    );
    assert_eq!(ShaderMessage::DEBUG_INFO() | ShaderMessage::DEBUG_INFO(), ShaderMessage::DEBUG_INFO());
    assert_eq!(ShaderMessage::ENHANCED() | ShaderMessage::DEFAULT(), ShaderMessage::ENHANCED());
    let a = ShaderMessage::RELAXED_ERRORS();
    let b = ShaderMessage::SUPPRESS_WARNINGS();
    let c = ShaderMessage::READ_HLSL();
    assert_eq!((a | b) | c, a | (b | c));
    assert_eq!(((a | b) | c).0, 67);
}

#[test]
fn default_options() {
    let o = CompilerOptions::default();
    assert_eq!(o.source_language, SourceLanguage::GLSL);
    assert_eq!(o.target, vulkan());
    assert_eq!(o.version_profile, None);
    assert_eq!(o.messages, ShaderMessage::DEFAULT());
}

#[test]
fn input_takes_forced_profile() {
    let source = ShaderSource::from("#version 100\nvoid main() {}");
    let options = CompilerOptions {
        version_profile: Some((450, GlslProfile::Core)),
        messages: ShaderMessage::VULKAN_RULES(),
        ..CompilerOptions::default()
    };
    let input = ShaderInput::new(&source, ShaderStage::Vertex, &options, &[]).expect("input");
    assert_eq!(input.input().default_version, 450);
    assert_eq!(input.input().default_profile, GlslProfile::Core);
    assert_eq!(input.input().force_default_version_and_profile, 1);
    assert_eq!(input.input().forward_compatible, 0);
    assert_eq!(input.input().language, SourceLanguage::GLSL);
    assert_eq!(input.input().client, Client::Vulkan);
    assert_eq!(input.input().client_version, TargetClientVersion::Vulkan1_0);
    assert_eq!(input.input().target_language, TargetLanguage::SPIRV);
    assert_eq!(input.input().target_language_version, SpirvVersion::SPIRV1_0);
    assert_eq!(input.input().messages, ShaderMessage::VULKAN_RULES());
}

#[test]
fn input_without_forced_profile() {
    let source = ShaderSource::from("#version 450\nvoid main() {}");
    let input = ShaderInput::new(&source, ShaderStage::Compute, &CompilerOptions::default(), &[])
        .expect("input");
    assert_eq!(input.input().default_version, 100);
    assert_eq!(input.input().default_profile, GlslProfile::NoProfile);
    assert_eq!(input.input().force_default_version_and_profile, 0);
    assert_eq!(input.input().stage, ShaderStage::Compute);
}

#[test]
fn input_rejects_bad_declared_profile() {
    let source = ShaderSource::from("#version 130\nvoid main() {}");
    let r = ShaderInput::new(&source, ShaderStage::Vertex, &CompilerOptions::default(), &[]);
    assert_eq!(r.err(), Some(GlslangError::InvalidProfile(vulkan(), 130, GlslProfile::NoProfile)));
}

#[test]
fn input_rejects_bad_forced_profile() {
    let source = ShaderSource::from("#version 450\nvoid main() {}");
    let options = CompilerOptions {
        version_profile: Some((450, GlslProfile::ES)),
        ..CompilerOptions::default()
    };
    let r = ShaderInput::new(&source, ShaderStage::Vertex, &options, &[]);
    assert_eq!(r.err(), Some(GlslangError::VersionUnsupported(450, GlslProfile::ES)));
}

#[test]
fn input_skips_check_for_hlsl() {
    let source = ShaderSource::from("#version 130\nfloat4 main() : SV_Target { return 0; }");
    let options = CompilerOptions {
        source_language: SourceLanguage::HLSL,
        ..CompilerOptions::default()
    };
    assert!(ShaderInput::new(&source, ShaderStage::Fragment, &options, &[]).is_ok());
}

#[test]
fn input_defines_keep_last_value() {
    let source = ShaderSource::from("void main() {}");
    let defines = [("A", Some("1")), ("B", None), ("A", Some("2")), ("C", Some("x y"))];
    let input = ShaderInput::new(&source, ShaderStage::Vertex, &CompilerOptions::default(), &defines)
        .expect("input");
    assert_eq!(
        input.defines().clone(),
        vec![
            (String::from("A"), Some(String::from("2"))),
            (String::from("B"), None),
            (String::from("C"), Some(String::from("x y"))),
        ]
    );
    assert_eq!(input.preamble(), "#define A 2\n#define B \n#define C x y\n");
    let copy = input.clone();
    assert_eq!(copy.defines(), input.defines());
    assert_eq!(copy.input(), input.input());
    assert_eq!(copy.source().as_str(), "void main() {}");
    assert_eq!(copy.preamble(), input.preamble());
}

#[test]
fn message_flags_match_glslang() {
    let pairs = [
        (ShaderMessage::DEFAULT(), M::DEFAULT),
        (ShaderMessage::RELAXED_ERRORS(), M::RELAXED_ERRORS),
        (ShaderMessage::SUPPRESS_WARNINGS(), M::SUPPRESS_WARNINGS),
        (ShaderMessage::AST(), M::AST),
        (ShaderMessage::SPV_RULES(), M::SPV_RULES),
        (ShaderMessage::VULKAN_RULES(), M::VULKAN_RULES),
        (ShaderMessage::ONLY_PREPROCESSOR(), M::ONLY_PREPROCESSOR),
        (ShaderMessage::READ_HLSL(), M::READ_HLSL),
        (ShaderMessage::CASCADING_ERRORS(), M::CASCADING_ERRORS),
        (ShaderMessage::KEEP_UNCALLED(), M::KEEP_UNCALLED),
        (ShaderMessage::HLSL_OFFSETS(), M::HLSL_OFFSETS),
        (ShaderMessage::DEBUG_INFO(), M::DEBUG_INFO),
        (ShaderMessage::HLSL_ENABLE_16BIT_TYPES(), M::HLSL_ENABLE_16BIT_TYPES),
        (ShaderMessage::HLSL_LEGALIZATION(), M::HLSL_LEGALIZATION),
        (ShaderMessage::HLSL_DX9_COMPATIBLE(), M::HLSL_DX9_COMPATIBLE),
        (ShaderMessage::BUILTIN_SYMBOL_TABLE(), M::BUILTIN_SYMBOL_TABLE),
        (ShaderMessage::ENHANCED(), M::ENHANCED),
        (ShaderMessage::ABSOLUTE_PATH(), M::ABSOLUTE_PATH),
        (ShaderMessage::DISPLAY_ERROR_COLUMN(), M::DISPLAY_ERROR_COLUMN),
    ];
    for (ours, theirs) in pairs {
        assert_eq!(ours.0, theirs.0);
    }
}
