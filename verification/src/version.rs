//! Firmware versions.

use vstd::prelude::*;

use crate::config::switchboard::FIRMWARE_VERSION;
use crate::std_text::{trim_of, trimmed};

verus! {

/// The canonical form of a text that is a semantic version, `None` for any other.
pub uninterp spec fn semver_of(text: Seq<char>) -> Option<Seq<char>>;

/// `semver::Version::parse`, then `Version::to_string`. The result is a function of
/// the text alone, named [`semver_of`]; which texts are versions is not stated.
#[verifier::external_body]
pub(crate) fn parse_version(text: &str) -> (r: Option<String>)
    ensures
        r is Some ==> semver_of(text@) == Some(r->0@),
        r is None ==> semver_of(text@) is None,
{
    semver::Version::parse(text).ok().map(|version| version.to_string())
}

/// Why there is no version to report.
#[derive(Debug, Clone, Copy, PartialEq, Eq, Structural)]
pub enum VersionError {
    /// What flash holds is not a semantic version.
    Stored,
    /// The image's own version is not a semantic version.
    Default,
}

/// The version of what flash holds and of the image's own, each as far as it is one.
pub open spec fn chosen_version(
    stored: Option<Option<Seq<char>>>,
    default: Option<Seq<char>>,
) -> Result<Seq<char>, VersionError> {
    if stored == Some(None::<Seq<char>>) {
        Err(VersionError::Stored)
    } else if default is None {
        Err(VersionError::Default)
    } else if stored is Some {
        Ok((stored->0)->0)
    } else {
        Ok(default->0)
    }
}

/// The version that runs, given what flash holds.
pub open spec fn running_version(stored: Option<Seq<char>>) -> Result<Seq<char>, VersionError> {
    chosen_version(
        match stored {
            Some(text) => Some(semver_of(trim_of(text))),
            None => None,
        },
        semver_of(FIRMWARE_VERSION@),
    )
}

/// Choose between the parsed versions: what flash holds goes first, but both have
/// to be versions.
pub fn choose_version(stored: Option<Option<String>>, default: Option<String>) -> (r: Result<
    String,
    VersionError,
>)
    ensures
        ({
            let chosen = chosen_version(
                match stored {
                    Some(Some(v)) => Some(Some(v@)),
                    Some(None) => Some(None),
                    None => None,
                },
                match default {
                    Some(v) => Some(v@),
                    None => None,
                },
            );
            match r {
                Ok(version) => chosen == Ok::<Seq<char>, VersionError>(version@),
                Err(e) => chosen == Err::<Seq<char>, VersionError>(e),
            }
        }),
{
    match (stored, default) {
        (Some(None), _) => Err(VersionError::Stored),
        (_, None) => Err(VersionError::Default),
        (Some(Some(version)), Some(_)) => Ok(version),
        (None, Some(version)) => Ok(version),
    }
}

/// The version that runs: the one that flash holds, or the image's own where flash
/// holds none.
pub fn current_version(stored: Option<&str>, default: &str) -> (r: Result<String, VersionError>)
    ensures
        ({
            let chosen = chosen_version(
                match stored {
                    Some(text) => Some(semver_of(trim_of(text@))),
                    None => None,
                },
                semver_of(default@),
            );
            match r {
                Ok(version) => chosen == Ok::<Seq<char>, VersionError>(version@),
                Err(e) => chosen == Err::<Seq<char>, VersionError>(e),
            }
        }),
{
    let parsed = match stored {
        Some(text) => Some(parse_version(trimmed(text))),
        None => None,
    };
    choose_version(parsed, parse_version(default))
}

} // verus!
