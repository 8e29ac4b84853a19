//! The operating mode of an assertion, chosen by an external string setting.

use vstd::prelude::*;
use vstd::string::*;

verus! {

/// Name of the process setting whose value selects the mode.
pub const MODE_VARIABLE: &'static str = "TWENTY_TWENTY";

/// What an assertion does besides comparing.
#[derive(Clone, Copy, Debug, PartialEq, Eq, Structural)]
pub enum Mode {
    /// Only check that the similarity reaches the threshold.
    Default,
    /// Replace the baseline with the actual image and accept it.
    Overwrite,
    /// Always keep a copy of the actual image under the artifact root.
    StoreArtifact,
    /// Keep a copy of the actual image under the artifact root when it does
    /// not match.
    StoreArtifactOnMismatch,
}

/// The mode a setting's value names; every other value means the default.
pub open spec fn mode_of(s: Seq<char>) -> Mode {
    if s == "overwrite"@ {
        Mode::Overwrite
    } else if s == "store-artifact"@ {
        Mode::StoreArtifact
    } else if s == "store-artifact-on-mismatch"@ {
        Mode::StoreArtifactOnMismatch
    } else {
        Mode::Default
    }
}

/// The mode of an optional setting: an absent one means the default.
pub open spec fn resolved_mode(raw: Option<Seq<char>>) -> Mode {
    match raw {
        Some(s) => mode_of(s),
        None => Mode::Default,
    }
}

fn same_text(a: &str, b: &str) -> (r: bool)
    ensures
        r == (a@ == b@),
{
    let a = a.to_owned();
    let b = b.to_owned();
    a == b
}

impl Mode {
    /// Reads a setting's value: an exact, case-sensitive match on the names of
    /// the modes, anything else being the default.
    pub fn from_str(s: &str) -> (r: Mode)
        ensures
            r == mode_of(s@),
    {
        if same_text(s, "overwrite") {
            Mode::Overwrite
        } else if same_text(s, "store-artifact") {
            Mode::StoreArtifact
        } else if same_text(s, "store-artifact-on-mismatch") {
            Mode::StoreArtifactOnMismatch
        } else {
            Mode::Default
        }
    }

    /// The mode for the setting's current value, absent or not readable as
    /// text being `None`.
    pub fn resolve(raw: Option<&str>) -> (r: Mode)
        ensures
            r == resolved_mode(
                match raw {
                    Some(s) => Some(s@),
                    None => None,
                },
            ),
    {
        match raw {
            Some(s) => Mode::from_str(s),
            None => Mode::Default,
        }
    }
}

impl Default for Mode {
    fn default() -> (r: Mode)
        ensures
            r == Mode::Default,
    {
        Mode::Default
    }
}

} // verus!
