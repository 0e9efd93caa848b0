//! Resolving which `bitcoind` executable to launch.  The sources are
//! looked at in a fixed order: an explicit environment override, a
//! compiled-in downloaded executable, and finally a `PATH` lookup.  The
//! caller gathers what each source offers; the precedence itself is
//! decided here.

use crate::errors::Error;
use vstd::prelude::*;

verus! {

/// The path of a compiled-in downloaded executable.  No download is
/// compiled into this crate, so the call always reports that the needed
/// feature is absent.
pub fn downloaded_exe_path() -> (r: Result<String, Error>)
    ensures
        r == Err::<String, Error>(Error::NoFeature),
{
    Err(Error::NoFeature)
}

/// Picks the executable among what the sources offered, by precedence:
///
/// 1) the `BITCOIND_EXE` environment override, when set;
/// 2) a compiled-in downloaded executable, when one exists;
/// 3) the `bitcoind` found on the `PATH`, when there is one;
///
/// and reports that no executable could be found when every source came
/// up empty.
pub fn resolve_exe_path(
    env_exe: Option<String>,
    downloaded: Result<String, Error>,
    path_lookup: Option<String>,
) -> (r: Result<String, Error>)
    ensures
        match env_exe {
            Option::Some(p) => r matches Ok(q) && q@ == p@,
            Option::None => match downloaded {
                Result::Ok(p) => r matches Ok(q) && q@ == p@,
                Result::Err(_) => match path_lookup {
                    Option::Some(p) => r matches Ok(q) && q@ == p@,
                    Option::None => r == Err::<String, Error>(Error::NoBitcoindExecutableFound),
                },
            },
        },
{
    match env_exe {
        Option::Some(p) => Ok(p),
        Option::None => match downloaded {
            Result::Ok(p) => Ok(p),
            Result::Err(_) => match path_lookup {
                Option::Some(p) => Ok(p),
                Option::None => Err(Error::NoBitcoindExecutableFound),
            },
        },
    }
}

} // verus!
