use mobile_ci::{
    resolve_code, resolve_info, BuildType, CodeRender, CodeVariant, CustomInputs, InfoRender,
    InfoVariant, Platform, PublishingFormat, Sdk, State,
};

const SDKS: [Sdk; 3] = [Sdk::Native, Sdk::Flutter, Sdk::ReactNative];
const BUILD_TYPES: [BuildType; 2] = [BuildType::Unsigned, BuildType::Signed];

fn render_code(r: CodeRender) -> String {
    let name = match r.build_variant_name {
        Some(n) => format!("name=[{}]\n", n),
        None => String::new(),
    };
    format!(
        "template={}\ntitle={}\nformat={}\nversions={}\n{}path=[{}]\n",
        r.variant.path(),
        r.title,
        r.publishing_format.label(),
        r.show_versions,
        name,
        r.build_variant_path
    )
}

fn render_info(r: InfoRender) -> String {
    format!("template={}\nversions={}\n", r.variant.path(), r.show_versions)
}

fn state(
    sdk: Sdk,
    build_type: BuildType,
    name: Option<&str>,
    path: Option<&str>,
    format: PublishingFormat,
    show_versions: bool,
) -> State {
    State {
        platform: Platform::GitHub,
        sdk,
        build_type,
        custom_inputs: CustomInputs {
            build_variant_name: name.map(|s| s.to_string()),
            build_variant_path: path.map(|s| s.to_string()),
            publishing_format: format,
            show_versions,
        },
        code_template: None,
        info_template: None,
    }
}

fn generated(mut s: State) -> State {
    s.gen_templates(render_code, render_info);
    s
}

#[test]
fn every_combination_yields_workflow_text() {
    for sdk in SDKS {
        for build_type in BUILD_TYPES {
            let s = generated(state(sdk, build_type, None, None, PublishingFormat::Apk, false));
            let code = s.code_template.expect("workflow text");
            assert!(!code.is_empty());
            let variant = resolve_code(Platform::GitHub, sdk, build_type);
            assert!(code.contains(variant.title()));
            assert!(code.contains(variant.path()));
        }
    }
}

#[test]
fn info_text_absent_only_for_unsigned_react_native() {
    for sdk in SDKS {
        for build_type in BUILD_TYPES {
            let s = generated(state(sdk, build_type, None, None, PublishingFormat::Apk, true));
            let exception = sdk == Sdk::ReactNative && build_type == BuildType::Unsigned;
            assert_eq!(s.info_template.is_none(), exception);
            assert_eq!(resolve_info(Platform::GitHub, sdk, build_type).is_none(), exception);
        }
    }
}

#[test]
fn resolution_table() {
    let expected = [
        (Sdk::Native, BuildType::Signed, CodeVariant::GitHubNativeSigned, Some(InfoVariant::GitHubNativeSigned), "Android release build"),
        (Sdk::Flutter, BuildType::Signed, CodeVariant::GitHubFlutterSigned, Some(InfoVariant::GitHubFlutterSigned), "Flutter Android release build"),
        (Sdk::ReactNative, BuildType::Signed, CodeVariant::GitHubReactNativeSigned, Some(InfoVariant::GitHubReactNativeSigned), "React Native Android release build"),
        (Sdk::Native, BuildType::Unsigned, CodeVariant::GitHubNativeUnsigned, Some(InfoVariant::GitHubNativeUnsigned), "Android debug build"),
        (Sdk::Flutter, BuildType::Unsigned, CodeVariant::GitHubFlutterUnsigned, Some(InfoVariant::GitHubFlutterUnsigned), "Flutter Android debug build"),
        (Sdk::ReactNative, BuildType::Unsigned, CodeVariant::GitHubReactNativeUnsigned, None, "React Native Android debug build"),
    ];
    for (sdk, build_type, code, info, title) in expected {
        assert_eq!(resolve_code(Platform::GitHub, sdk, build_type), code);
        assert_eq!(resolve_info(Platform::GitHub, sdk, build_type), info);
        assert_eq!(code.title(), title);
    }
}

#[test]
fn template_identifiers() {
    assert_eq!(CodeVariant::GitHubNativeSigned.path(), "workflows/github-native-signed");
    assert_eq!(CodeVariant::GitHubFlutterSigned.path(), "workflows/github-flutter-signed");
    assert_eq!(CodeVariant::GitHubReactNativeSigned.path(), "workflows/github-react-native-signed");
    assert_eq!(CodeVariant::GitHubNativeUnsigned.path(), "workflows/github-native-unsigned");
    assert_eq!(CodeVariant::GitHubFlutterUnsigned.path(), "workflows/github-flutter-unsigned");
    assert_eq!(CodeVariant::GitHubReactNativeUnsigned.path(), "workflows/github-react-native-unsigned");
    assert_eq!(InfoVariant::GitHubNativeSigned.path(), "info/github-native-signed");
    assert_eq!(InfoVariant::GitHubFlutterSigned.path(), "info/github-flutter-signed");
    assert_eq!(InfoVariant::GitHubReactNativeSigned.path(), "info/github-react-native-signed");
    assert_eq!(InfoVariant::GitHubNativeUnsigned.path(), "info/github-native-unsigned");
    assert_eq!(InfoVariant::GitHubFlutterUnsigned.path(), "info/github-flutter-unsigned");
}

#[test]
fn display_labels() {
    assert_eq!(Platform::GitHub.label(), "GitHub Actions");
    assert_eq!(Sdk::Native.label(), "Native App");
    assert_eq!(Sdk::Flutter.label(), "Flutter");
    assert_eq!(Sdk::ReactNative.label(), "React Native");
    assert_eq!(BuildType::Unsigned.label(), "Debug (unsigned)");
    assert_eq!(BuildType::Signed.label(), "Release (signed)");
    assert_eq!(PublishingFormat::Apk.label(), "APK");
    assert_eq!(PublishingFormat::Aab.label(), "AAB");
}

#[test]
fn generating_twice_gives_identical_text() {
    let mut s = state(Sdk::Native, BuildType::Signed, Some("prod"), Some("app/"), PublishingFormat::Aab, true);
    s.gen_templates(render_code, render_info);
    let code = s.code_template.clone();
    let info = s.info_template.clone();
    s.gen_templates(render_code, render_info);
    assert_eq!(s.code_template, code);
    assert_eq!(s.info_template, info);
}

#[test]
fn absent_name_binds_as_empty() {
    for build_type in BUILD_TYPES {
        for sdk in SDKS {
            let absent = generated(state(sdk, build_type, None, Some("app/"), PublishingFormat::Apk, false));
            let empty = generated(state(sdk, build_type, Some(""), Some("app/"), PublishingFormat::Apk, false));
            assert_eq!(absent.code_template, empty.code_template);
        }
    }
}

#[test]
fn absent_inputs_bound_as_empty_strings() {
    let s = state(Sdk::Native, BuildType::Unsigned, None, None, PublishingFormat::Apk, false);
    let r = s.code_request();
    assert_eq!(r.build_variant_name, Some(String::new()));
    assert_eq!(r.build_variant_path, "");
}

#[test]
fn flutter_workflow_takes_no_variant_name() {
    let s = state(Sdk::Flutter, BuildType::Unsigned, Some("free"), Some("lib/"), PublishingFormat::Apk, false);
    let r = s.code_request();
    assert_eq!(r.variant, CodeVariant::GitHubFlutterUnsigned);
    assert_eq!(r.build_variant_name, None);
    assert_eq!(r.build_variant_path, "lib/");
    assert!(!CodeVariant::GitHubFlutterSigned.takes_variant_name());
    assert!(CodeVariant::GitHubReactNativeUnsigned.takes_variant_name());
}

#[test]
fn clear_text_after_generating() {
    let mut s = generated(state(Sdk::Native, BuildType::Signed, None, None, PublishingFormat::Apk, true));
    assert!(s.info_template.is_some());
    s.clear_text();
    assert_eq!(s.code_template, Some(String::new()));
    assert_eq!(s.info_template, None);
    assert_eq!(s.sdk, Sdk::Native);
    assert_eq!(s.build_type, BuildType::Signed);
}

#[test]
fn clear_text_on_fresh_state() {
    let mut s = state(Sdk::ReactNative, BuildType::Unsigned, None, None, PublishingFormat::Aab, false);
    s.clear_text();
    assert_eq!(s.code_template, Some(String::new()));
    assert_eq!(s.info_template, None);
}

#[test]
fn format_switch_changes_only_the_label() {
    for sdk in SDKS {
        for build_type in BUILD_TYPES {
            let apk = generated(state(sdk, build_type, Some("prod"), Some("app/"), PublishingFormat::Apk, true));
            let aab = generated(state(sdk, build_type, Some("prod"), Some("app/"), PublishingFormat::Aab, true));
            let apk_code = apk.code_template.unwrap();
            let aab_code = aab.code_template.unwrap();
            assert_ne!(apk_code, aab_code);
            assert_eq!(apk_code.replace("format=APK", "format=AAB"), aab_code);
            assert_eq!(apk.info_template, aab.info_template);
        }
    }
}

#[test]
fn flutter_signed_aab_scenario() {
    let s = generated(state(Sdk::Flutter, BuildType::Signed, None, Some("app/"), PublishingFormat::Aab, true));
    let code = s.code_template.unwrap();
    assert!(code.contains("Flutter Android release build"));
    assert!(code.contains("app/"));
    assert!(code.contains("AAB"));
    let info = s.info_template.expect("info text");
    assert!(info.contains("versions=true"));
    assert!(info.contains("info/github-flutter-signed"));
}

#[test]
fn react_native_unsigned_scenario() {
    let s = generated(state(
        Sdk::ReactNative,
        BuildType::Unsigned,
        Some("debug"),
        Some("android/"),
        PublishingFormat::Apk,
        false,
    ));
    let code = s.code_template.unwrap();
    assert!(code.contains("React Native Android debug build"));
    assert!(code.contains("name=[debug]"));
    assert!(code.contains("path=[android/]"));
    assert_eq!(s.info_template, None);
}

#[test]
fn generating_replaces_earlier_text() {
    let mut s = generated(state(Sdk::Native, BuildType::Signed, None, None, PublishingFormat::Apk, true));
    s.sdk = Sdk::ReactNative;
    s.build_type = BuildType::Unsigned;
    s.gen_templates(render_code, render_info);
    assert!(s.code_template.unwrap().contains("React Native Android debug build"));
    assert_eq!(s.info_template, None);
}
