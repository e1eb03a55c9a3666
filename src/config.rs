//! Decisions behind resolving the credentials: which environment value
//! counts, what a typed answer gives, and the line saved for next time.
use vstd::prelude::*;

verus! {

/// Environment variable holding the access token.
pub const TOKEN_VAR: &'static str = "GITLAB_TOKEN";

/// Environment variable holding the host name.
pub const HOST_VAR: &'static str = "GITLAB_HOST";

/// The text that `str::trim` leaves of `s`.
pub uninterp spec fn trimmed(s: Seq<char>) -> Seq<char>;

/// Relies on `str::trim`: the text without leading and trailing whitespace,
/// which depends on the characters alone.
#[verifier::external_body]
fn trim_text(s: &str) -> (r: String)
    ensures
        r@ == trimmed(s@),
{
    s.trim().to_string()
}

/// An environment value counts when it is set and not empty.
pub fn credential_from_env(value: Option<String>) -> (r: Option<String>)
    ensures
        value matches Some(v) && v@.len() > 0 ==> r == value,
        !(value matches Some(v) && v@.len() > 0) ==> r is None,
{
    match value {
        Some(v) => {
            if !v.as_str().is_empty() {
                Some(v)
            } else {
                None
            }
        },
        None => None,
    }
}

/// A trimmed answer gives the credential, an empty one gives none.
pub fn credential_from_trimmed(answer: String) -> (r: Option<String>)
    ensures
        answer@.len() == 0 ==> r is None,
        answer@.len() > 0 ==> r == Some(answer),
{
    if answer.as_str().is_empty() {
        None
    } else {
        Some(answer)
    }
}

/// The credential that a line typed at the prompt gives: the line without
/// surrounding whitespace, none when nothing else is left.
pub fn credential_from_input(line: &str) -> (r: Option<String>)
    ensures
        trimmed(line@).len() == 0 ==> r is None,
        trimmed(line@).len() > 0 ==> r is Some && r->0@ == trimmed(line@),
{
    credential_from_trimmed(trim_text(line))
}

/// The line `KEY=value` that saves a credential in the local `.env` file.
pub fn env_file_line(key: &str, value: &str) -> (r: String)
    ensures
        r@ == key@ + "="@ + value@,
{
    let mut line = key.to_owned();
    line.append("=");
    line.append(value);
    line
}

} // verus!
