use vstd::prelude::*;

use crate::action::Failure;

verus! {

/// Directory under the home directory that holds the client's configuration.
pub const HOME_DIR_NAME: &'static str = ".polkahub";

/// File, inside that directory, that holds the stored token.
pub const CONFIG_FILE_NAME: &'static str = "config";

/// Status of a failure caused by the environment.
pub const ENVIRONMENT_ERROR: &'static str = "Environment error";

pub const HOME_UNSET: &'static str = "please set environment variable $HOME";

/// The directory of the client's configuration: `polkahub_home` where it is set, else
/// `.polkahub` inside `home`.
pub open spec fn home_path_of(polkahub_home: Option<Seq<char>>, home: Option<Seq<char>>) -> Option<
    Seq<char>,
> {
    match polkahub_home {
        Some(p) => Some(p),
        None => match home {
            Some(h) => Some(h + "/"@ + HOME_DIR_NAME@),
            None => None,
        },
    }
}

pub open spec fn text_of(o: Option<String>) -> Option<Seq<char>> {
    match o {
        Some(s) => Some(s@),
        None => None,
    }
}

/// The directory of the client's configuration, given the values of `POLKAHUB_HOME`
/// and `HOME`; it fails where neither is set.
pub fn polkahub_home_path(polkahub_home: Option<String>, home: Option<String>) -> (r: Result<
    String,
    Failure,
>)
    ensures
        match home_path_of(text_of(polkahub_home), text_of(home)) {
            Some(p) => r matches Ok(s) && s@ == p,
            None => r matches Err(f) && f.status@ == ENVIRONMENT_ERROR@ && f.reason@
                == HOME_UNSET@,
        },
{
    match polkahub_home {
        Some(p) => Ok(p),
        None => match home {
            Some(h) => Ok(h.concat("/").concat(HOME_DIR_NAME)),
            None => Err(
                Failure {
                    status: String::from_str(ENVIRONMENT_ERROR),
                    reason: String::from_str(HOME_UNSET),
                },
            ),
        },
    }
}

/// The file that holds the stored token, given the values of `POLKAHUB_HOME` and `HOME`.
pub fn config_path(polkahub_home: Option<String>, home: Option<String>) -> (r: Result<
    String,
    Failure,
>)
    ensures
        match home_path_of(text_of(polkahub_home), text_of(home)) {
            Some(p) => r matches Ok(s) && s@ == p + "/"@ + CONFIG_FILE_NAME@,
            None => r matches Err(f) && f.status@ == ENVIRONMENT_ERROR@ && f.reason@
                == HOME_UNSET@,
        },
{
    let dir = polkahub_home_path(polkahub_home, home)?;
    Ok(dir.concat("/").concat(CONFIG_FILE_NAME))
}

} // verus!
