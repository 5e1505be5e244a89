//! Home-directory resolution. A process either runs natively, in which case
//! the platform's standard lookup decides, or under a Windows-compatibility
//! shim on a POSIX host, in which case the home directory is `/home/<user>`
//! taken from the `USER` environment variable. The caller probes for the shim
//! and reads the environment; the decision itself is made here.

use vstd::prelude::*;
use crate::paths::join;
use crate::paths::join_seq;

verus! {

/// Why a home directory could not be determined. Every variant is fatal to
/// the process: nothing downstream can work without a base path.
#[derive(Clone, Copy, Debug, PartialEq, Eq, Structural)]
pub enum HomeError {
    /// The shim branch was taken and no `USER` value was available.
    MissingUser,
    /// The native branch was taken and the platform lookup found no home
    /// directory.
    NativeLookupFailed,
}

/// The home directory that follows from the environment: under a shim it is
/// `/home/<user>` and the `USER` value is required; natively it is whatever
/// the platform lookup reported, which is required to have reported
/// something.
pub open spec fn resolve_home_seq(
    shim_present: bool,
    user: Option<Seq<char>>,
    native: Option<Seq<char>>,
) -> Result<Seq<char>, HomeError> {
    if shim_present {
        match user {
            Some(u) => Ok(join_seq("/home"@, u)),
            None => Err(HomeError::MissingUser),
        }
    } else {
        match native {
            Some(h) => Ok(h),
            None => Err(HomeError::NativeLookupFailed),
        }
    }
}

/// Decides the home directory from the three observations the environment
/// offers: whether the shim-detection symbol is present, the `USER` value,
/// and the native lookup's answer.
pub fn resolve_home(shim_present: bool, user: Option<String>, native: Option<String>) -> (r:
    Result<String, HomeError>)
    ensures
        resolve_home_seq(shim_present, user.deep_view(), native.deep_view()) == match r {
            Ok(h) => Ok::<Seq<char>, HomeError>(h@),
            Err(e) => Err::<Seq<char>, HomeError>(e),
        },
{
    if shim_present {
        match user {
            Some(u) => Ok(join("/home", u.as_str())),
            None => Err(HomeError::MissingUser),
        }
    } else {
        match native {
            Some(h) => Ok(h),
            None => Err(HomeError::NativeLookupFailed),
        }
    }
}

/// Relies on home::home_dir: the platform's standard home-directory lookup.
/// Its answer depends on the environment alone (`HOME`, the user database),
/// so nothing is promised of the value; a failed lookup, or a home directory
/// that is not valid Unicode, gives `None`.
#[verifier::external_body]
fn native_home_dir() -> (r: Option<String>) {
    home::home_dir().and_then(|p| p.to_str().map(str::to_owned))
}

/// Resolves the user's home directory: under a compatibility shim it is
/// `/home/<user>`, natively it is what the platform lookup reports. The
/// native answer depends on the environment, so in that branch only the
/// error is pinned down.
pub fn home_dir(shim_present: bool, user: Option<String>) -> (r: Result<String, HomeError>)
    ensures
        shim_present ==> match r {
            Ok(h) => user matches Some(u) && h@ == join_seq("/home"@, u@),
            Err(e) => user is None && e == HomeError::MissingUser,
        },
        !shim_present ==> match r {
            Ok(_) => true,
            Err(e) => e == HomeError::NativeLookupFailed,
        },
{
    let native = if shim_present {
        None
    } else {
        native_home_dir()
    };
    resolve_home(shim_present, user, native)
}

/// When the shim-detection symbol is absent, resolution goes through the
/// native platform lookup alone: the `USER` value plays no part in the
/// outcome.
pub proof fn lemma_native_ignores_user(
    u1: Option<Seq<char>>,
    u2: Option<Seq<char>>,
    native: Option<Seq<char>>,
)
    ensures
        resolve_home_seq(false, u1, native) == resolve_home_seq(false, u2, native),
{
}

} // verus!
