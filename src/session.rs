//! Session values taken from the recorder's login answer.
use vstd::prelude::*;
use vstd::string::{StrSliceExecFns, StringExecFns};
use crate::text::{find_from, first_at_or_after, push_text};

verus! {

/// The session cookie of a `Set-Cookie` header: `TOKEN=` and the text that
/// follows its first occurrence up to the next `;`. Nothing when either is
/// missing.
pub open spec fn auth_cookie_spec(header: Seq<char>) -> Option<Seq<char>> {
    match first_at_or_after(header, "TOKEN="@, 0) {
        Some(t) => match first_at_or_after(header, ";"@, t + 6) {
            Some(e) => Some("TOKEN="@ + header.subrange(t + 6, e)),
            None => None,
        },
        None => None,
    }
}

/// Extracts the session cookie from a `Set-Cookie` header.
pub fn extract_auth_cookie(cookie_str: &str) -> (r: Option<String>)
    ensures
        match (r, auth_cookie_spec(cookie_str@)) {
            (Some(c), Some(d)) => c@ == d,
            (None, None) => true,
            _ => false,
        },
{
    proof {
        reveal_strlit("TOKEN=");
        reveal_strlit(";");
    }
    let start = match find_from(cookie_str, "TOKEN=", 0) {
        Some(i) => i,
        None => {
            return None;
        },
    };
    let value_start = start + 6;
    let end = match find_from(cookie_str, ";", value_start) {
        Some(e) => e,
        None => {
            return None;
        },
    };
    let mut out = String::from_str("TOKEN=");
    push_text(&mut out, cookie_str.substring_char(value_start, end));
    Some(out)
}

} // verus!
