//! Text helpers shared by the request builders.

use vstd::prelude::*;
use vstd::string::*;

verus! {

/// Compares two strings character by character.
pub fn same_text(a: &str, b: &str) -> (r: bool)
    ensures
        r == (a@ == b@),
{
    let n = a.unicode_len();
    if n != b.unicode_len() {
        return false;
    }
    let mut i: usize = 0;
    while i < n
        invariant
            n == a@.len(),
            n == b@.len(),
            i <= n,
            forall|j: int| 0 <= j < i ==> a@[j] == b@[j],
        decreases n - i,
    {
        if a.get_char(i) != b.get_char(i) {
            return false;
        }
        i = i + 1;
    }
    assert(a@ =~= b@);
    true
}

/// The value of an `Authorization` header carrying a bearer token.
pub open spec fn bearer_spec(token: Seq<char>) -> Seq<char> {
    "Bearer "@ + token
}

pub fn bearer_value(token: &str) -> (r: String)
    ensures
        r@ == bearer_spec(token@),
{
    String::from_str("Bearer ").concat(token)
}

/// The address of a service endpoint: base, project, then the endpoint's
/// own path, with the API version the service is called with.
pub open spec fn service_url_spec(base: Seq<char>, project: Seq<char>, path: Seq<char>) -> Seq<char> {
    base + "/"@ + project + "/"@ + path + "?api-version=1"@
}

pub fn service_url(base: &str, project: &str, path: &str) -> (r: String)
    ensures
        r@ == service_url_spec(base@, project@, path@),
{
    String::from_str(base).concat("/").concat(project).concat("/").concat(path).concat(
        "?api-version=1",
    )
}

} // verus!
