//! Route and optional-text normalization of the SEO services.
use vstd::prelude::*;

use crate::error::SeoError;
use crate::text::{chars_have_ws, chars_of, has_ws, opt_view, owned, trim, trim_str};

verus! {

/// The trimmed text when it is not blank.
pub fn trimmed_option(value: Option<String>) -> (r: Option<String>)
    ensures
        opt_view(r) == match value {
            Some(s) => if trim(s@).len() > 0 {
                Some(trim(s@))
            } else {
                None
            },
            None => None,
        },
{
    match value {
        Some(s) => {
            let t = trim_str(s.as_str());
            if t.as_str().unicode_len() == 0 {
                None
            } else {
                Some(t)
            }
        },
        None => None,
    }
}

/// A route as stored: trimmed, not empty, starting with `/`, without
/// whitespace inside.
pub open spec fn route_result(route: Seq<char>) -> Result<Seq<char>, Seq<char>> {
    let r = trim(route);
    if r.len() == 0 {
        Err("route must not be empty"@)
    } else if r[0] != '/' {
        Err("route must start with `/`"@)
    } else if has_ws(r) {
        Err("route must not contain whitespace"@)
    } else {
        Ok(r)
    }
}

/// Normalizes a route (see `route_result`).
pub fn normalize_route(route: &str) -> (r: Result<String, SeoError>)
    ensures
        match (r, route_result(route@)) {
            (Ok(s), Ok(t)) => s@ == t,
            (Err(SeoError::Validation(m)), Err(e)) => m@ == e,
            _ => false,
        },
{
    let t = trim_str(route);
    let chars = chars_of(t.as_str());
    if chars.len() == 0 {
        return Err(SeoError::validation(owned("route must not be empty")));
    }
    if chars[0] != '/' {
        return Err(SeoError::validation(owned("route must start with `/`")));
    }
    if chars_have_ws(&chars) {
        return Err(SeoError::validation(owned("route must not contain whitespace")));
    }
    Ok(t)
}


/// The locale a request resolves to, from the platform's locale readings:
/// the requested text read as a locale tag, else read as a language code,
/// else the fallback read as a locale tag; with none of them the locale is
/// invalid.
pub fn effective_locale(
    requested_as_tag: Option<String>,
    requested_as_code: Option<String>,
    fallback_as_tag: Option<String>,
) -> (r: Result<String, SeoError>)
    ensures
        match (requested_as_tag, requested_as_code, fallback_as_tag) {
            (Some(t), _, _) => r matches Ok(l) && l@ == t@,
            (None, Some(c), _) => r matches Ok(l) && l@ == c@,
            (None, None, Some(f)) => r matches Ok(l) && l@ == f@,
            (None, None, None) => r matches Err(SeoError::Validation(m)) && m@ == "invalid locale"@,
        },
{
    match requested_as_tag {
        Some(t) => Ok(t),
        None => match requested_as_code {
            Some(c) => Ok(c),
            None => match fallback_as_tag {
                Some(f) => Ok(f),
                None => Err(SeoError::validation(owned("invalid locale"))),
            },
        },
    }
}

} // verus!
