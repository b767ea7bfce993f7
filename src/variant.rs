//! The fixed registry of template variants and the table that picks them.
use vstd::prelude::*;

use crate::choice::{BuildType, Platform, Sdk};

verus! {

/// A workflow template: one for each platform, SDK and build type.
#[derive(Clone, Copy, Debug, PartialEq, Eq, Structural)]
pub enum CodeVariant {
    GitHubNativeSigned,
    GitHubFlutterSigned,
    GitHubReactNativeSigned,
    GitHubNativeUnsigned,
    GitHubFlutterUnsigned,
    GitHubReactNativeUnsigned,
}

/// An info template, explaining the steps a workflow cannot take by itself.
#[derive(Clone, Copy, Debug, PartialEq, Eq, Structural)]
pub enum InfoVariant {
    GitHubNativeSigned,
    GitHubFlutterSigned,
    GitHubReactNativeSigned,
    GitHubNativeUnsigned,
    GitHubFlutterUnsigned,
}

/// The workflow template for a combination. Every combination has one.
pub open spec fn code_variant_of(platform: Platform, sdk: Sdk, build_type: BuildType) -> CodeVariant {
    match (platform, sdk, build_type) {
        (Platform::GitHub, Sdk::Native, BuildType::Signed) => CodeVariant::GitHubNativeSigned,
        (Platform::GitHub, Sdk::Flutter, BuildType::Signed) => CodeVariant::GitHubFlutterSigned,
        (Platform::GitHub, Sdk::ReactNative, BuildType::Signed) => CodeVariant::GitHubReactNativeSigned,
        (Platform::GitHub, Sdk::Native, BuildType::Unsigned) => CodeVariant::GitHubNativeUnsigned,
        (Platform::GitHub, Sdk::Flutter, BuildType::Unsigned) => CodeVariant::GitHubFlutterUnsigned,
        (Platform::GitHub, Sdk::ReactNative, BuildType::Unsigned) => CodeVariant::GitHubReactNativeUnsigned,
    }
}

/// The info template for a combination. An unsigned React Native build needs
/// no manual steps, so it deliberately has none.
pub open spec fn info_variant_of(platform: Platform, sdk: Sdk, build_type: BuildType) -> Option<InfoVariant> {
    match (platform, sdk, build_type) {
        (Platform::GitHub, Sdk::Native, BuildType::Signed) => Some(InfoVariant::GitHubNativeSigned),
        (Platform::GitHub, Sdk::Flutter, BuildType::Signed) => Some(InfoVariant::GitHubFlutterSigned),
        (Platform::GitHub, Sdk::ReactNative, BuildType::Signed) => Some(InfoVariant::GitHubReactNativeSigned),
        (Platform::GitHub, Sdk::Native, BuildType::Unsigned) => Some(InfoVariant::GitHubNativeUnsigned),
        (Platform::GitHub, Sdk::Flutter, BuildType::Unsigned) => Some(InfoVariant::GitHubFlutterUnsigned),
        (Platform::GitHub, Sdk::ReactNative, BuildType::Unsigned) => None,
    }
}

/// Picks the workflow template for a combination.
pub fn resolve_code(platform: Platform, sdk: Sdk, build_type: BuildType) -> (r: CodeVariant)
    ensures
        r == code_variant_of(platform, sdk, build_type),
{
    match (platform, sdk, build_type) {
        (Platform::GitHub, Sdk::Native, BuildType::Signed) => CodeVariant::GitHubNativeSigned,
        (Platform::GitHub, Sdk::Flutter, BuildType::Signed) => CodeVariant::GitHubFlutterSigned,
        (Platform::GitHub, Sdk::ReactNative, BuildType::Signed) => CodeVariant::GitHubReactNativeSigned,
        (Platform::GitHub, Sdk::Native, BuildType::Unsigned) => CodeVariant::GitHubNativeUnsigned,
        (Platform::GitHub, Sdk::Flutter, BuildType::Unsigned) => CodeVariant::GitHubFlutterUnsigned,
        (Platform::GitHub, Sdk::ReactNative, BuildType::Unsigned) => CodeVariant::GitHubReactNativeUnsigned,
    }
}

/// Picks the info template for a combination, if it has one.
pub fn resolve_info(platform: Platform, sdk: Sdk, build_type: BuildType) -> (r: Option<InfoVariant>)
    ensures
        r == info_variant_of(platform, sdk, build_type),
{
    match (platform, sdk, build_type) {
        (Platform::GitHub, Sdk::Native, BuildType::Signed) => Some(InfoVariant::GitHubNativeSigned),
        (Platform::GitHub, Sdk::Flutter, BuildType::Signed) => Some(InfoVariant::GitHubFlutterSigned),
        (Platform::GitHub, Sdk::ReactNative, BuildType::Signed) => Some(InfoVariant::GitHubReactNativeSigned),
        (Platform::GitHub, Sdk::Native, BuildType::Unsigned) => Some(InfoVariant::GitHubNativeUnsigned),
        (Platform::GitHub, Sdk::Flutter, BuildType::Unsigned) => Some(InfoVariant::GitHubFlutterUnsigned),
        (Platform::GitHub, Sdk::ReactNative, BuildType::Unsigned) => None,
    }
}

impl CodeVariant {
    pub open spec fn platform(self) -> Platform {
        Platform::GitHub
    }

    pub open spec fn sdk(self) -> Sdk {
        match self {
            CodeVariant::GitHubNativeSigned | CodeVariant::GitHubNativeUnsigned => Sdk::Native,
            CodeVariant::GitHubFlutterSigned | CodeVariant::GitHubFlutterUnsigned => Sdk::Flutter,
            CodeVariant::GitHubReactNativeSigned
            | CodeVariant::GitHubReactNativeUnsigned => Sdk::ReactNative,
        }
    }

    pub open spec fn build_type(self) -> BuildType {
        match self {
            CodeVariant::GitHubNativeSigned
            | CodeVariant::GitHubFlutterSigned
            | CodeVariant::GitHubReactNativeSigned => BuildType::Signed,
            CodeVariant::GitHubNativeUnsigned
            | CodeVariant::GitHubFlutterUnsigned
            | CodeVariant::GitHubReactNativeUnsigned => BuildType::Unsigned,
        }
    }

    pub open spec fn spec_path(self) -> Seq<char> {
        match self {
            CodeVariant::GitHubNativeSigned => "workflows/github-native-signed"@,
            CodeVariant::GitHubFlutterSigned => "workflows/github-flutter-signed"@,
            CodeVariant::GitHubReactNativeSigned => "workflows/github-react-native-signed"@,
            CodeVariant::GitHubNativeUnsigned => "workflows/github-native-unsigned"@,
            CodeVariant::GitHubFlutterUnsigned => "workflows/github-flutter-unsigned"@,
            CodeVariant::GitHubReactNativeUnsigned => "workflows/github-react-native-unsigned"@,
        }
    }

    /// The template's identifier in the template store.
    pub fn path(&self) -> (r: &'static str)
        ensures
            r@ == self.spec_path(),
    {
        match self {
            CodeVariant::GitHubNativeSigned => "workflows/github-native-signed",
            CodeVariant::GitHubFlutterSigned => "workflows/github-flutter-signed",
            CodeVariant::GitHubReactNativeSigned => "workflows/github-react-native-signed",
            CodeVariant::GitHubNativeUnsigned => "workflows/github-native-unsigned",
            CodeVariant::GitHubFlutterUnsigned => "workflows/github-flutter-unsigned",
            CodeVariant::GitHubReactNativeUnsigned => "workflows/github-react-native-unsigned",
        }
    }

    pub open spec fn spec_title(self) -> Seq<char> {
        match self {
            CodeVariant::GitHubNativeSigned => "Android release build"@,
            CodeVariant::GitHubFlutterSigned => "Flutter Android release build"@,
            CodeVariant::GitHubReactNativeSigned => "React Native Android release build"@,
            CodeVariant::GitHubNativeUnsigned => "Android debug build"@,
            CodeVariant::GitHubFlutterUnsigned => "Flutter Android debug build"@,
            CodeVariant::GitHubReactNativeUnsigned => "React Native Android debug build"@,
        }
    }

    /// The workflow's title, fixed by the variant.
    pub fn title(&self) -> (r: &'static str)
        ensures
            r@ == self.spec_title(),
    {
        match self {
            CodeVariant::GitHubNativeSigned => "Android release build",
            CodeVariant::GitHubFlutterSigned => "Flutter Android release build",
            CodeVariant::GitHubReactNativeSigned => "React Native Android release build",
            CodeVariant::GitHubNativeUnsigned => "Android debug build",
            CodeVariant::GitHubFlutterUnsigned => "Flutter Android debug build",
            CodeVariant::GitHubReactNativeUnsigned => "React Native Android debug build",
        }
    }

    pub open spec fn spec_takes_variant_name(self) -> bool {
        self.sdk() != Sdk::Flutter
    }

    /// Whether the template has a build variant name parameter. Flutter
    /// templates take only the build variant path.
    pub fn takes_variant_name(&self) -> (r: bool)
        ensures
            r == self.spec_takes_variant_name(),
    {
        match self {
            CodeVariant::GitHubFlutterSigned | CodeVariant::GitHubFlutterUnsigned => false,
            _ => true,
        }
    }
}

impl InfoVariant {
    pub open spec fn platform(self) -> Platform {
        Platform::GitHub
    }

    pub open spec fn sdk(self) -> Sdk {
        match self {
            InfoVariant::GitHubNativeSigned | InfoVariant::GitHubNativeUnsigned => Sdk::Native,
            InfoVariant::GitHubFlutterSigned | InfoVariant::GitHubFlutterUnsigned => Sdk::Flutter,
            InfoVariant::GitHubReactNativeSigned => Sdk::ReactNative,
        }
    }

    pub open spec fn build_type(self) -> BuildType {
        match self {
            InfoVariant::GitHubNativeSigned
            | InfoVariant::GitHubFlutterSigned
            | InfoVariant::GitHubReactNativeSigned => BuildType::Signed,
            InfoVariant::GitHubNativeUnsigned | InfoVariant::GitHubFlutterUnsigned => BuildType::Unsigned,
        }
    }

    pub open spec fn spec_path(self) -> Seq<char> {
        match self {
            InfoVariant::GitHubNativeSigned => "info/github-native-signed"@,
            InfoVariant::GitHubFlutterSigned => "info/github-flutter-signed"@,
            InfoVariant::GitHubReactNativeSigned => "info/github-react-native-signed"@,
            InfoVariant::GitHubNativeUnsigned => "info/github-native-unsigned"@,
            InfoVariant::GitHubFlutterUnsigned => "info/github-flutter-unsigned"@,
        }
    }

    /// The template's identifier in the template store.
    pub fn path(&self) -> (r: &'static str)
        ensures
            r@ == self.spec_path(),
    {
        match self {
            InfoVariant::GitHubNativeSigned => "info/github-native-signed",
            InfoVariant::GitHubFlutterSigned => "info/github-flutter-signed",
            InfoVariant::GitHubReactNativeSigned => "info/github-react-native-signed",
            InfoVariant::GitHubNativeUnsigned => "info/github-native-unsigned",
            InfoVariant::GitHubFlutterUnsigned => "info/github-flutter-unsigned",
        }
    }
}

} // verus!
