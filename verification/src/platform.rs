//! The target-platform model: a closed enumeration of operating-system and
//! architecture pairs, named by their conda subdir strings, with host
//! detection delegated to `rattler_conda_types`.

use vstd::prelude::*;

verus! {

/// Relies on `str` equality: true exactly when the two strings hold the
/// same characters.
#[verifier::external_body]
pub(crate) fn str_eq(a: &str, b: &str) -> (r: bool)
    ensures
        r == (a@ == b@),
{
    a == b
}

/// A target platform, identified by its conda subdir name.
#[derive(Debug, Copy, Clone, PartialEq, Eq, Structural, Hash)]
pub enum Platform {
    NoArch,
    Linux32,
    Linux64,
    LinuxAarch64,
    LinuxArmV7l,
    LinuxPpc64le,
    LinuxS390X,
    Osx64,
    OsxArm64,
    Win32,
    Win64,
    WinArm64,
}

impl Platform {
    /// The subdir name of this platform.
    pub open spec fn spec_name(self) -> Seq<char> {
        match self {
            Platform::NoArch => "noarch"@,
            Platform::Linux32 => "linux-32"@,
            Platform::Linux64 => "linux-64"@,
            Platform::LinuxAarch64 => "linux-aarch64"@,
            Platform::LinuxArmV7l => "linux-armv7l"@,
            Platform::LinuxPpc64le => "linux-ppc64le"@,
            Platform::LinuxS390X => "linux-s390x"@,
            Platform::Osx64 => "osx-64"@,
            Platform::OsxArm64 => "osx-arm64"@,
            Platform::Win32 => "win-32"@,
            Platform::Win64 => "win-64"@,
            Platform::WinArm64 => "win-arm64"@,
        }
    }

    /// The subdir name of this platform.
    pub fn name(&self) -> (r: &'static str)
        ensures
            r@ == self.spec_name(),
    {
        match self {
            Platform::NoArch => "noarch",
            Platform::Linux32 => "linux-32",
            Platform::Linux64 => "linux-64",
            Platform::LinuxAarch64 => "linux-aarch64",
            Platform::LinuxArmV7l => "linux-armv7l",
            Platform::LinuxPpc64le => "linux-ppc64le",
            Platform::LinuxS390X => "linux-s390x",
            Platform::Osx64 => "osx-64",
            Platform::OsxArm64 => "osx-arm64",
            Platform::Win32 => "win-32",
            Platform::Win64 => "win-64",
            Platform::WinArm64 => "win-arm64",
        }
    }

    /// The platform a subdir name denotes, if it denotes one.
    pub open spec fn spec_from_name(s: Seq<char>) -> Option<Platform> {
        if s == "noarch"@ {
            Some(Platform::NoArch)
        } else if s == "linux-32"@ {
            Some(Platform::Linux32)
        } else if s == "linux-64"@ {
            Some(Platform::Linux64)
        } else if s == "linux-aarch64"@ {
            Some(Platform::LinuxAarch64)
        } else if s == "linux-armv7l"@ {
            Some(Platform::LinuxArmV7l)
        } else if s == "linux-ppc64le"@ {
            Some(Platform::LinuxPpc64le)
        } else if s == "linux-s390x"@ {
            Some(Platform::LinuxS390X)
        } else if s == "osx-64"@ {
            Some(Platform::Osx64)
        } else if s == "osx-arm64"@ {
            Some(Platform::OsxArm64)
        } else if s == "win-32"@ {
            Some(Platform::Win32)
        } else if s == "win-64"@ {
            Some(Platform::Win64)
        } else if s == "win-arm64"@ {
            Some(Platform::WinArm64)
        } else {
            None
        }
    }

    /// Parse a subdir name into a platform.
    pub fn from_name(s: &str) -> (r: Option<Platform>)
        ensures
            r == Platform::spec_from_name(s@),
    {
        if str_eq(s, "noarch") {
            Some(Platform::NoArch)
        } else if str_eq(s, "linux-32") {
            Some(Platform::Linux32)
        } else if str_eq(s, "linux-64") {
            Some(Platform::Linux64)
        } else if str_eq(s, "linux-aarch64") {
            Some(Platform::LinuxAarch64)
        } else if str_eq(s, "linux-armv7l") {
            Some(Platform::LinuxArmV7l)
        } else if str_eq(s, "linux-ppc64le") {
            Some(Platform::LinuxPpc64le)
        } else if str_eq(s, "linux-s390x") {
            Some(Platform::LinuxS390X)
        } else if str_eq(s, "osx-64") {
            Some(Platform::Osx64)
        } else if str_eq(s, "osx-arm64") {
            Some(Platform::OsxArm64)
        } else if str_eq(s, "win-32") {
            Some(Platform::Win32)
        } else if str_eq(s, "win-64") {
            Some(Platform::Win64)
        } else if str_eq(s, "win-arm64") {
            Some(Platform::WinArm64)
        } else {
            None
        }
    }

    /// Whether this platform runs a Linux kernel with a libc.
    pub open spec fn spec_is_linux(self) -> bool {
        match self {
            Platform::Linux32
            | Platform::Linux64
            | Platform::LinuxAarch64
            | Platform::LinuxArmV7l
            | Platform::LinuxPpc64le
            | Platform::LinuxS390X => true,
            _ => false,
        }
    }

    /// Whether this platform is a Linux one.
    pub fn is_linux(&self) -> (r: bool)
        ensures
            r == self.spec_is_linux(),
    {
        match self {
            Platform::Linux32
            | Platform::Linux64
            | Platform::LinuxAarch64
            | Platform::LinuxArmV7l
            | Platform::LinuxPpc64le
            | Platform::LinuxS390X => true,
            _ => false,
        }
    }

    /// Whether this platform is a macOS one.
    pub open spec fn spec_is_osx(self) -> bool {
        match self {
            Platform::Osx64 | Platform::OsxArm64 => true,
            _ => false,
        }
    }

    /// Whether this platform is a macOS one.
    pub fn is_osx(&self) -> (r: bool)
        ensures
            r == self.spec_is_osx(),
    {
        match self {
            Platform::Osx64 | Platform::OsxArm64 => true,
            _ => false,
        }
    }

    /// Whether this platform is a Windows one.
    pub open spec fn spec_is_windows(self) -> bool {
        match self {
            Platform::Win32 | Platform::Win64 | Platform::WinArm64 => true,
            _ => false,
        }
    }

    /// Whether this platform is a Windows one.
    pub fn is_windows(&self) -> (r: bool)
        ensures
            r == self.spec_is_windows(),
    {
        match self {
            Platform::Win32 | Platform::Win64 | Platform::WinArm64 => true,
            _ => false,
        }
    }
}

/// Relies on `rattler_conda_types::Subdir::current` and `Subdir::as_str`:
/// the conda subdir name of the platform the running binary was built for,
/// or `None` when the build target has no conda subdir.
#[verifier::external_body]
fn current_platform_name() -> (r: Option<String>)
{
    rattler_conda_types::Subdir::current().map(|s| s.as_str().to_string())
}

/// The platform the running binary was built for, or `None` when the host
/// lies outside this library's platform model.  The result depends on the
/// machine alone, never on this library's data.
pub fn current_platform() -> (r: Option<Platform>) {
    match current_platform_name() {
        Some(n) => Platform::from_name(n.as_str()),
        None => None,
    }
}

} // verus!
