//! The cookies of a request, as the `cookie` crate holds them.

use cookie::CookieJar;
use vstd::prelude::*;

verus! {

/// Makes `cookie::CookieJar` known as a type whose inside is not looked at.
#[verifier::external_type_specification]
#[verifier::external_body]
pub struct ExCookieJar(CookieJar);

/// What a jar holds: the value of the cookie that `CookieJar::get` finds
/// under each name. A name whose cookie was removed from the jar is not in
/// the map.
pub uninterp spec fn jar_cookies(jar: &CookieJar) -> Map<Seq<char>, Seq<char>>;

/// Calls `cookie::CookieJar::get`, and `Cookie::value` on the cookie found.
///
/// Trusted: the result is the value that the jar holds under `name`, and
/// `None` exactly where it holds no cookie of that name.
#[verifier::external_body]
pub(crate) fn cookie_value(jar: &CookieJar, name: &str) -> (value: Option<String>)
    ensures
        match value {
            Some(text) => jar_cookies(jar).contains_key(name@) && text@ == jar_cookies(jar)[name@],
            None => !jar_cookies(jar).contains_key(name@),
        },
{
    match jar.get(name) {
        Some(found) => Some(found.value().to_owned()),
        None => None,
    }
}

} // verus!
