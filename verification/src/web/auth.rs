//! Bearer-token access to the JSON control API.

use vstd::prelude::*;
use crate::text::{is_prefix, str_eq, strip_prefix};

verus! {

/// The token expected when none is configured.
pub open spec fn default_dashboard_token() -> Seq<char> {
    "changeme"@
}

/// `true` when the `Authorization` header is `Bearer ` followed by exactly
/// the configured token (or the default one, when none is configured).
pub open spec fn bearer_authorized(header: Option<Seq<char>>, configured: Option<Seq<char>>) -> bool {
    let expected = match configured {
        Some(t) => t,
        None => default_dashboard_token(),
    };
    match header {
        Some(h) => is_prefix("Bearer "@, h) && h.skip("Bearer "@.len() as int) == expected,
        None => false,
    }
}

/// Whether a request with this `Authorization` header may use the API.
pub fn is_authorized(header: Option<&str>, configured: Option<&str>) -> (r: bool)
    ensures
        r == bearer_authorized(
            match header { Some(h) => Some(h@), None => None },
            match configured { Some(t) => Some(t@), None => None },
        ),
{
    let h = match header {
        None => {
            return false;
        },
        Some(h) => h,
    };
    let token = match strip_prefix(h, "Bearer ") {
        None => {
            return false;
        },
        Some(t) => t,
    };
    match configured {
        Some(expected) => str_eq(token.as_str(), expected),
        None => str_eq(token.as_str(), "changeme"),
    }
}

} // verus!
