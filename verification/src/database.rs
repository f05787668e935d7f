//! Server options and the validation the profile store applies before it
//! creates an account.

use vstd::prelude::*;

use vstd::string::StringSliceAdditionalSpecFns;

use crate::model::StrawError;

verus! {

/// Options of the profile store.
#[derive(Clone, Debug)]
pub struct ServerOptions {}

impl ServerOptions {
    /// Enable all options.
    pub fn truthy() -> (r: Self)
        ensures
            r == (ServerOptions {  }),
    {
        ServerOptions {}
    }
}

impl Default for ServerOptions {
    fn default() -> (r: Self)
        ensures
            r == (ServerOptions {  }),
    {
        ServerOptions {}
    }
}

/// Whether the username pattern — one full line of word characters, `-`,
/// `.` or `!` — matches somewhere in `s`.
pub uninterp spec fn username_matches(s: Seq<char>) -> bool;

/// Relies on regex::RegexBuilder::build and regex::Regex::captures: the
/// fixed pattern `^[\w\_\-\.\!]+$` always compiles, and is matched against
/// `s` in multi-line mode, so whether a match exists is a function of `s`
/// alone.
#[verifier::external_body]
fn username_pattern_match(s: &str) -> (r: bool)
    ensures
        r == username_matches(s@),
{
    let regex = regex::RegexBuilder::new("^[\\w\\_\\-\\.\\!]+$")
        .multi_line(true)
        .build()
        .unwrap();
    regex.captures(s).is_some()
}

/// Check a proposed username as the profile store does before creating an
/// account: the pattern must match, and the length must lie between 2 and
/// 500 bytes.
pub fn validate_username(username: &str) -> (r: Result<(), StrawError>)
    ensures
        r is Ok <==> (username_matches(username@) && 2 <= username.spec_bytes().len() <= 500),
        r is Err ==> r == Err::<(), StrawError>(StrawError::ValueError),
{
    if !username_pattern_match(username) {
        return Err(StrawError::ValueError);
    }
    let len = username.as_bytes().len();
    if (len < 2) || (len > 500) {
        return Err(StrawError::ValueError);
    }
    Ok(())
}

} // verus!
