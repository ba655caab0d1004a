use vstd::prelude::*;
use crate::text::same;

verus! {

/// The platform family a pipeline run packages for.
#[derive(Clone, Copy, PartialEq, Eq, Structural, Debug)]
pub enum Platform {
    MacOs,
    Windows,
    LinuxX11,
    Ios,
    Android,
    Web,
}

/// Whether the build is instrumented for debugging or signed for release.
#[derive(Clone, Copy, PartialEq, Eq, Structural, Debug)]
pub enum BuildMode {
    Debug,
    Release,
}

impl Platform {
    /// The selector that names the platform, also the name of its output directory.
    pub open spec fn spec_name(self) -> Seq<char> {
        match self {
            Platform::MacOs => "macos"@,
            Platform::Windows => "win"@,
            Platform::LinuxX11 => "x11"@,
            Platform::Ios => "ios"@,
            Platform::Android => "android"@,
            Platform::Web => "web"@,
        }
    }

    pub fn name(self) -> (r: &'static str)
        ensures
            r@ == self.spec_name(),
    {
        match self {
            Platform::MacOs => "macos",
            Platform::Windows => "win",
            Platform::LinuxX11 => "x11",
            Platform::Ios => "ios",
            Platform::Android => "android",
            Platform::Web => "web",
        }
    }

    /// The platform a selector names, if any.
    pub open spec fn spec_from_name(s: Seq<char>) -> Option<Platform> {
        if s == "macos"@ {
            Some(Platform::MacOs)
        } else if s == "win"@ {
            Some(Platform::Windows)
        } else if s == "x11"@ {
            Some(Platform::LinuxX11)
        } else if s == "ios"@ {
            Some(Platform::Ios)
        } else if s == "android"@ {
            Some(Platform::Android)
        } else if s == "web"@ {
            Some(Platform::Web)
        } else {
            None
        }
    }

    pub fn from_name(s: &str) -> (r: Option<Platform>)
        ensures
            r == Platform::spec_from_name(s@),
    {
        if same(s, "macos") {
            Some(Platform::MacOs)
        } else if same(s, "win") {
            Some(Platform::Windows)
        } else if same(s, "x11") {
            Some(Platform::LinuxX11)
        } else if same(s, "ios") {
            Some(Platform::Ios)
        } else if same(s, "android") {
            Some(Platform::Android)
        } else if same(s, "web") {
            Some(Platform::Web)
        } else {
            None
        }
    }

    /// Platforms whose bundles carry a code signature in release builds.
    pub open spec fn spec_signs(self) -> bool {
        self == Platform::MacOs || self == Platform::Ios
    }

    pub fn signs(self) -> (r: bool)
        ensures
            r == self.spec_signs(),
    {
        match self {
            Platform::MacOs | Platform::Ios => true,
            _ => false,
        }
    }

    /// Platforms whose bundle carries a property-list descriptor.
    pub open spec fn spec_has_manifest(self) -> bool {
        self == Platform::MacOs || self == Platform::Ios
    }

    /// Platforms whose wrapper source goes through a compiler.
    pub open spec fn spec_compiles(self) -> bool {
        self != Platform::Web
    }
}

} // verus!
