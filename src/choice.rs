//! The closed sets a user picks from, each with its display label.
use vstd::prelude::*;

verus! {

/// The CI service that runs the generated workflow.
#[derive(Clone, Copy, Debug, PartialEq, Eq, Structural)]
pub enum Platform {
    GitHub,
}

impl Platform {
    pub open spec fn spec_label(self) -> Seq<char> {
        match self {
            Platform::GitHub => "GitHub Actions"@,
        }
    }

    /// The name shown to users.
    pub fn label(&self) -> (r: &'static str)
        ensures
            r@ == self.spec_label(),
    {
        match self {
            Platform::GitHub => "GitHub Actions",
        }
    }
}

/// The framework the app is written with.
#[derive(Clone, Copy, Debug, PartialEq, Eq, Structural)]
pub enum Sdk {
    Native,
    Flutter,
    ReactNative,
}

impl Sdk {
    pub open spec fn spec_label(self) -> Seq<char> {
        match self {
            Sdk::Native => "Native App"@,
            Sdk::Flutter => "Flutter"@,
            Sdk::ReactNative => "React Native"@,
        }
    }

    /// The name shown to users.
    pub fn label(&self) -> (r: &'static str)
        ensures
            r@ == self.spec_label(),
    {
        match self {
            Sdk::Native => "Native App",
            Sdk::Flutter => "Flutter",
            Sdk::ReactNative => "React Native",
        }
    }
}

/// Whether the build is an unsigned debug build or a signed release build.
#[derive(Clone, Copy, Debug, PartialEq, Eq, Structural)]
pub enum BuildType {
    Unsigned,
    Signed,
}

impl BuildType {
    pub open spec fn spec_label(self) -> Seq<char> {
        match self {
            BuildType::Unsigned => "Debug (unsigned)"@,
            BuildType::Signed => "Release (signed)"@,
        }
    }

    /// The name shown to users.
    pub fn label(&self) -> (r: &'static str)
        ensures
            r@ == self.spec_label(),
    {
        match self {
            BuildType::Unsigned => "Debug (unsigned)",
            BuildType::Signed => "Release (signed)",
        }
    }
}

/// The package format of the Android build output.
#[derive(Clone, Copy, Debug, PartialEq, Eq, Structural)]
pub enum PublishingFormat {
    Apk,
    Aab,
}

impl PublishingFormat {
    pub open spec fn spec_label(self) -> Seq<char> {
        match self {
            PublishingFormat::Apk => "APK"@,
            PublishingFormat::Aab => "AAB"@,
        }
    }

    /// The name shown to users and substituted into workflow text.
    pub fn label(&self) -> (r: &'static str)
        ensures
            r@ == self.spec_label(),
    {
        match self {
            PublishingFormat::Apk => "APK",
            PublishingFormat::Aab => "AAB",
        }
    }
}

} // verus!
