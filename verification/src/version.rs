//! The program's name and version.
use vstd::prelude::*;

use crate::text::{decimal, push_char, push_decimal};

verus! {

/// A program version: three numbers and a release name.
#[derive(Debug, Clone, Copy, PartialEq, Eq)]
pub struct Version {
    pub major: u8,
    pub minor: u8,
    pub patch: u8,
    pub name: &'static str,
}

/// How a version is displayed: `v{major}.{minor}.{patch} {name}`.
pub open spec fn version_text(v: Version) -> Seq<char> {
    seq!['v'] + decimal(v.major as nat) + seq!['.'] + decimal(v.minor as nat) + seq!['.']
        + decimal(v.patch as nat) + seq![' '] + v.name@
}

impl Version {
    /// A version with the given numbers and name.
    pub fn new(major: u8, minor: u8, patch: u8, name: &'static str) -> (v: Self)
        ensures
            v.major == major,
            v.minor == minor,
            v.patch == patch,
            v.name == name,
    {
        Version { major, minor, patch, name }
    }

    /// The displayed form of the version, `v{major}.{minor}.{patch} {name}`.
    pub fn to_display_string(&self) -> (s: String)
        ensures
            s@ == version_text(*self),
    {
        let mut s = String::new();
        push_char(&mut s, 'v');
        push_decimal(&mut s, self.major as u64);
        push_char(&mut s, '.');
        push_decimal(&mut s, self.minor as u64);
        push_char(&mut s, '.');
        push_decimal(&mut s, self.patch as u64);
        push_char(&mut s, ' ');
        s.append(self.name);
        assert(s@ == version_text(*self));
        s
    }
}

/// The program's name.
pub const APP_NAME: &'static str = "nocy";

/// The version this build identifies itself with.
pub fn app_version_it() -> (v: Version)
    ensures
        v.major == 0 && v.minor == 0 && v.patch == 1,
        v.name@ == "internal"@,
{
    Version::new(0, 0, 1, "internal")
}

/// The version text the interface shows.
pub const APP_VERSION: &'static str = "v0.0.1 internal";

/// The version text the interface shows is the displayed form of the
/// version the build identifies itself with.
pub proof fn law_app_version()
    ensures
        APP_VERSION@ == version_text(Version { major: 0, minor: 0, patch: 1, name: "internal" }),
{
    reveal_strlit("v0.0.1 internal");
    reveal_strlit("internal");
    reveal_with_fuel(decimal, 2);
    assert(APP_VERSION@ =~= version_text(Version { major: 0, minor: 0, patch: 1, name: "internal" }));
}

} // verus!
