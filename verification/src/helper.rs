//! Helper functions for querying crate registries: the base URL and the
//! per-request header plan.

use vstd::prelude::*;
use crate::text::to_uppercase;
use crate::text::upper_of;
use crate::types::Registry;
use crate::types::clone_opt_string;

verus! {

/// Determine the url of the crate registry being queried.
pub fn base_url(registry: Option<&Registry>) -> (r: String)
    ensures
        match registry {
            Some(reg) => r@ == reg.url@,
            None => r@ == "https://crates.io/api/v1/"@,
        },
{
    match registry {
        Some(reg) => reg.url.clone(),
        None => "https://crates.io/api/v1/".to_owned(),
    }
}

/// The name of the environment variable that holds the token for a named
/// registry.
pub open spec fn registry_env_key_of(name: Seq<char>) -> Seq<char> {
    "CARGO_REGISTRIES_"@ + upper_of(name) + "_TOKEN"@
}

/// Builds the name of the environment variable that holds the token for a
/// named registry.
pub fn registry_token_env_key(name: &str) -> (r: String)
    ensures
        r@ == registry_env_key_of(name@),
{
    let mut k = "CARGO_REGISTRIES_".to_owned();
    let up = to_uppercase(name);
    k.append(up.as_str());
    k.append("_TOKEN");
    k
}

/// Whether a character may appear in an HTTP header value: a tab, a printable
/// ASCII character, or any character beyond ASCII.
pub open spec fn header_value_char(c: char) -> bool {
    c == '\t' || (32 <= c as u32 && c as u32 != 127)
}

/// Whether a string is acceptable as an HTTP header value.
pub open spec fn valid_header_value(s: Seq<char>) -> bool {
    forall|i: int| 0 <= i < s.len() ==> header_value_char(s[i])
}

/// Checks a string for acceptability as an HTTP header value.
pub fn is_valid_header_value(s: &str) -> (b: bool)
    ensures
        b == valid_header_value(s@),
{
    let n = s.unicode_len();
    let mut i: usize = 0;
    while i < n
        invariant
            i <= n,
            n == s@.len(),
            forall|j: int| 0 <= j < i ==> header_value_char(s@[j]),
        decreases n - i,
    {
        let c = s.get_char(i);
        let code = c as u32;
        if !(c == '\t' || (32 <= code && code != 127)) {
            return false;
        }
        i += 1;
    }
    true
}

/// A header value that was rejected at construction time; carries the
/// offending value.
#[derive(Debug)]
pub struct InvalidHeaderValue {
    pub value: String,
}

/// The headers every request of one client carries: the identifying user
/// agent, and the authorization token when one is configured.
#[derive(Debug)]
pub struct HeaderPlan {
    pub user_agent: String,
    pub authorization: Option<String>,
}

/// Setup the headers for a request: the user agent always, and an
/// authorization token for a configured registry — from the environment when
/// the registry is named (`env_token` is the value of the variable named by
/// [`registry_token_env_key`], if set), else the registry's own token.
/// Rejects a header value that HTTP cannot carry.
pub fn setup_headers(user_agent: &str, registry: Option<&Registry>, env_token: Option<String>) -> (r:
    Result<HeaderPlan, InvalidHeaderValue>)
    ensures
        !valid_header_value(user_agent@) ==> (r matches Err(e) && e.value@ == user_agent@),
        valid_header_value(user_agent@) ==> {
            let auth = planned_auth(registry, env_token);
            match auth {
                Some(t) => {
                    &&& valid_header_value(t) ==> (r matches Ok(p) && p.user_agent@ == user_agent@
                        && (p.authorization matches Some(a) && a@ == t))
                    &&& !valid_header_value(t) ==> (r matches Err(e) && e.value@ == t)
                },
                None => (r matches Ok(p) && p.user_agent@ == user_agent@ && p.authorization
                    is None),
            }
        },
{
    if !is_valid_header_value(user_agent) {
        return Err(InvalidHeaderValue { value: user_agent.to_owned() });
    }
    let auth: Option<String> = match registry {
        None => None,
        Some(reg) => match &reg.name {
            Some(_) => env_token,
            None => clone_opt_string(&reg.token),
        },
    };
    match auth {
        Some(t) => {
            if !is_valid_header_value(t.as_str()) {
                return Err(InvalidHeaderValue { value: t });
            }
            Ok(HeaderPlan { user_agent: user_agent.to_owned(), authorization: Some(t) })
        },
        None => Ok(HeaderPlan { user_agent: user_agent.to_owned(), authorization: None }),
    }
}

/// The authorization token a request will carry: for a named registry the
/// token from the environment, else the registry's configured token, else
/// none.
pub open spec fn planned_auth(registry: Option<&Registry>, env_token: Option<String>) -> Option<
    Seq<char>,
> {
    match registry {
        None => None,
        Some(reg) => match reg.name {
            Some(_) => match env_token {
                Some(t) => Some(t@),
                None => None,
            },
            None => match reg.token {
                Some(t) => Some(t@),
                None => None,
            },
        },
    }
}

} // verus!
