//! The command line.
use vstd::prelude::*;
use vstd::string::*;

verus! {

/// A backend that the compositor can be started with.
#[derive(Clone, Copy, Debug, PartialEq, Eq, Structural)]
pub enum BackendType {
    /// Use the Winit backend, inside an Winit window.
    Winit,
    /// Use the Udev backend, using a libseat session.
    Udev,
    /// Use the headless backend, only meant for testing.
    Headless,
}

/// `text` with zeros in front, so that it has two characters at least.
pub open spec fn two_digits(text: Seq<char>) -> Seq<char> {
    if text.len() == 0 {
        seq!['0', '0']
    } else if text.len() == 1 {
        seq!['0'] + text
    } else {
        text
    }
}

/// The version of the compositor, as users know it.
pub open spec fn version_string(
    major: Seq<char>,
    minor: Seq<char>,
    patch: Seq<char>,
    commit: Seq<char>,
) -> Seq<char> {
    let release = major + "."@ + two_digits(minor);
    let version = if patch == "0"@ {
        release
    } else {
        release + "."@ + patch
    };
    version + " ("@ + commit + ")"@
}

/// The version of the compositor, as users know it.
///
/// A release is named after its year and month, so that the minor version has two digits, and it
/// has a patch version only where that is not zero. The commit follows in brackets.
pub fn get_version_string(major: &str, minor: &str, patch: &str, commit: Option<&str>) -> (version:
    String)
    ensures
        version@ == version_string(
            major@,
            minor@,
            patch@,
            match commit {
                Some(commit) => commit@,
                None => "unknown"@,
            },
        ),
{
    let mut version = major.to_string();
    version.append(".");
    proof {
        reveal_strlit("0");
        reveal_strlit("00");
    }
    let length: usize = minor.unicode_len();
    if length == 0 {
        version.append("00");
        assert("00"@ =~= seq!['0', '0']);
        assert(minor@ =~= Seq::empty());
    } else {
        if length == 1 {
            version.append("0");
            assert("0"@ =~= seq!['0']);
        }
        version.append(minor);
    }
    assert(version@ =~= major@ + "."@ + two_digits(minor@));
    if patch.to_string() != "0".to_string() {
        version.append(".");
        version.append(patch);
    }
    version.append(" (");
    match commit {
        Some(commit) => {
            version.append(commit);
        },
        None => {
            version.append("unknown");
        },
    }
    version.append(")");
    version
}

/// The version is the major version, a dot and the minor version with two digits at least, then a
/// dot and the patch version unless that is zero, and then the commit in brackets after a blank;
/// without a commit it says that it is unknown.
pub proof fn versions_are_spelled_out(
    major: &str,
    minor: &str,
    patch: &str,
    commit: Option<&str>,
    version: String,
)
    requires
        call_ensures(get_version_string, (major, minor, patch, commit), version),
    ensures
        ({
            let hash = match commit {
                Some(commit) => commit@,
                None => "unknown"@,
            };
            let padded = if minor@.len() >= 2 {
                minor@
            } else if minor@.len() == 1 {
                "0"@ + minor@
            } else {
                "00"@
            };
            let tail = " ("@ + hash + ")"@;
            &&& patch@ == "0"@ ==> version@ == major@ + "."@ + padded + tail
            &&& patch@ != "0"@ ==> version@ == major@ + "."@ + padded + "."@ + patch@ + tail
        }),
{
    reveal_strlit("0");
    reveal_strlit("00");
    reveal_strlit(".");
    reveal_strlit(" (");
    reveal_strlit(")");
    reveal_strlit("unknown");
    let hash = match commit {
        Some(commit) => commit@,
        None => "unknown"@,
    };
    let padded = if minor@.len() >= 2 {
        minor@
    } else if minor@.len() == 1 {
        "0"@ + minor@
    } else {
        "00"@
    };
    assert(two_digits(minor@) =~= padded);
    let tail = " ("@ + hash + ")"@;
    if patch@ == "0"@ {
        assert(version@ =~= major@ + "."@ + padded + tail);
    } else {
        assert(version@ =~= major@ + "."@ + padded + "."@ + patch@ + tail);
    }
}

} // verus!
