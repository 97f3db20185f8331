//! Value resolution for request building.
//!
//! A request value (credential, destination folder) can come from an explicit
//! argument or from an ambient environment value. The core never reads the
//! environment itself: the caller passes the looked-up values in an [`Env`],
//! and resolution here is a pure function with a fixed precedence.

use vstd::prelude::*;

verus! {

/// The two ambient values that the unverified command surface reads from the
/// environment and hands to the core: the credential and the destination
/// folder, each absent when the environment does not define it.
pub struct Env {
    pub auth: Option<String>,
    pub folder: Option<String>,
}

/// What a resolution step settles on: the explicit argument when one is
/// given, else the ambient value.
pub open spec fn arg_or_env_spec(arg: Option<String>, env_value: Option<String>) -> Option<String> {
    if arg is Some {
        arg
    } else {
        env_value
    }
}

/// Resolution precedence: an explicit argument always wins over the ambient
/// value; with no explicit argument, the ambient value, if any.
pub fn get_arg_or_env(arg: Option<String>, env_value: Option<String>) -> (r: Option<String>)
    ensures
        r == arg_or_env_spec(arg, env_value),
{
    match arg {
        Some(a) => Some(a),
        None => env_value,
    }
}

/// A copy of an optional string, equal to the one given.
pub fn clone_opt(o: &Option<String>) -> (r: Option<String>)
    ensures
        r == *o,
{
    match o {
        Some(s) => Some(s.clone()),
        None => None,
    }
}

} // verus!
