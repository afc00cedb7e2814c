//! The credential check that runs before anything else of a request.
use vstd::prelude::*;
use vstd::string::StringExecFns;

verus! {

/// A credential that passed the check: the one `Authorization` value the request carried.
pub struct ApiKey(pub String);

/// The check failed: no value, more than one, or a value that does not match.
#[derive(Clone, Copy, Debug, PartialEq, Eq, Structural)]
pub struct Unauthorized;

/// The scheme word that precedes the credential, with its separating space.
pub open spec fn bearer_prefix() -> Seq<char> {
    seq!['B', 'e', 'a', 'r', 'e', 'r', ' ']
}

/// The one header value that is accepted, given the configured credential.
/// With none configured the credential part is empty, so only the bare
/// prefix passes.
pub open spec fn expected_header(configured: Option<Seq<char>>) -> Seq<char> {
    match configured {
        Some(key) => bearer_prefix() + key,
        None => bearer_prefix(),
    }
}

/// The header values of a request, as texts.
pub open spec fn texts(values: Seq<String>) -> Seq<Seq<char>> {
    values.map_values(|v: String| v@)
}

/// A request passes exactly when it carries one `Authorization` value and
/// that value is the expected one.
pub open spec fn authorized(values: Seq<Seq<char>>, configured: Option<Seq<char>>) -> bool {
    values.len() == 1 && values[0] == expected_header(configured)
}

/// An optional text, as a text.
pub open spec fn opt_text(o: Option<String>) -> Option<Seq<char>> {
    match o {
        Some(k) => Some(k@),
        None => None,
    }
}

/// Builds the one accepted header value.
pub fn expected_value(configured: &Option<String>) -> (r: String)
    ensures
        r@ == expected_header(opt_text(*configured)),
{
    let prefix = String::from_str("Bearer ");
    proof {
        reveal_strlit("Bearer ");
    }
    assert(prefix@ =~= bearer_prefix());
    match configured {
        Some(key) => prefix.concat(key.as_str()),
        None => prefix,
    }
}

impl ApiKey {
    /// Checks the `Authorization` values of a request against the configured credential.
    pub fn from_headers(values: &Vec<String>, configured: &Option<String>) -> (r: Result<
        ApiKey,
        Unauthorized,
    >)
        ensures
            r is Ok <==> authorized(texts(values@), opt_text(*configured)),
            r is Ok ==> r->Ok_0.0@ == values@[0]@,
    {
        if values.len() != 1 {
            return Err(Unauthorized);
        }
        let expected = expected_value(configured);
        let provided = &values[0];
        if *provided == expected {
            Ok(ApiKey(provided.clone()))
        } else {
            Err(Unauthorized)
        }
    }

    /// The credential text that passed.
    pub fn value(&self) -> (r: &str)
        ensures
            r@ == self.0@,
    {
        self.0.as_str()
    }
}

} // verus!
