//! Postman authentication (`basic`, `digest`, `bearer`, `apikey`) turned
//! into the header or query parameter that a request carries.

use vstd::prelude::*;
use crate::json::{Json, JsonValue, opt_json, view_values, lemma_view_values};
use crate::outside::{base64_standard, base64_standard_of, base64_fits};
use crate::text::{push_str, text_eq};
use crate::utils::vars::{Variables, resolve_vars, resolve_spec, placeholder, law_placeholder_resolves};

verus! {

/// What authentication adds to a request.
#[derive(Debug, PartialEq)]
pub struct AuthResult {
    /// A header (name, value) to send.
    pub header: Option<(String, String)>,
    /// A query parameter (name, value) for an `apikey` placed `in` the query.
    pub apikey_query: Option<(String, String)>,
}

/// The authentication in force: the request's own, unless it is absent or of
/// type `noauth`, in which case the collection's.
pub open spec fn effective_auth(request_auth: Option<Json>, collection_auth: Option<Json>) -> Option<Json> {
    match request_auth {
        Some(a) => if a.get_str("type"@) == Some("noauth"@) {
            collection_auth
        } else {
            Some(a)
        },
        None => collection_auth,
    }
}

/// The first entry of a list whose `"key"` is `key`.
pub open spec fn find_keyed(arr: Seq<Json>, key: Seq<char>) -> Option<Json>
    decreases arr.len(),
{
    if arr.len() == 0 {
        None
    } else if arr[0].get_str("key"@) == Some(key) {
        Some(arr[0])
    } else {
        find_keyed(arr.drop_first(), key)
    }
}

/// The raw `"value"` of the first entry keyed `key` in a parameter list.
pub open spec fn raw_param(list: Json, key: Seq<char>) -> Option<Seq<char>> {
    match list.as_array() {
        Some(arr) => match find_keyed(arr, key) {
            Some(entry) => entry.get_str("value"@),
            None => None,
        },
        None => None,
    }
}

/// A parameter of an auth block with its variables resolved; empty when missing.
pub open spec fn auth_param(list: Json, key: Seq<char>, vars: Map<Seq<char>, Seq<char>>) -> Seq<char> {
    match raw_param(list, key) {
        Some(v) => resolve_spec(v, vars),
        None => Seq::empty(),
    }
}

/// The `user:password` text of a `basic` or `digest` block, when that is the
/// authentication in force.
pub open spec fn basic_credential(
    request_auth: Option<Json>,
    collection_auth: Option<Json>,
    vars: Map<Seq<char>, Seq<char>>,
) -> Option<Seq<char>> {
    match effective_auth(request_auth, collection_auth) {
        Some(auth) => {
            let t = auth.get_str("type"@);
            if t == Some("basic"@) || t == Some("digest"@) {
                let key = if t == Some("basic"@) { "basic"@ } else { "digest"@ };
                match auth.get(key) {
                    Some(list) => Some(
                        auth_param(list, "username"@, vars) + ":"@ + auth_param(list, "password"@, vars),
                    ),
                    None => None,
                }
            } else {
                None
            }
        },
        None => None,
    }
}

/// The header that authentication adds, as (name, value).
pub open spec fn auth_header(
    request_auth: Option<Json>,
    collection_auth: Option<Json>,
    vars: Map<Seq<char>, Seq<char>>,
) -> Option<(Seq<char>, Seq<char>)> {
    match effective_auth(request_auth, collection_auth) {
        Some(auth) => {
            let t = auth.get_str("type"@);
            if t == Some("basic"@) || t == Some("digest"@) {
                match basic_credential(request_auth, collection_auth, vars) {
                    Some(c) => Some(("Authorization"@, "Basic "@ + base64_standard_of(c))),
                    None => None,
                }
            } else if t == Some("bearer"@) {
                match auth.get("bearer"@) {
                    Some(list) => Some(("Authorization"@, "Bearer "@ + auth_param(list, "token"@, vars))),
                    None => None,
                }
            } else if t == Some("apikey"@) {
                match auth.get("apikey"@) {
                    Some(list) => if raw_param(list, "in"@) == Some("query"@) {
                        None
                    } else {
                        Some((auth_param(list, "key"@, vars), auth_param(list, "value"@, vars)))
                    },
                    None => None,
                }
            } else {
                None
            }
        },
        None => None,
    }
}

/// The query parameter that an `apikey` placed `in` the query adds.
pub open spec fn auth_query(
    request_auth: Option<Json>,
    collection_auth: Option<Json>,
    vars: Map<Seq<char>, Seq<char>>,
) -> Option<(Seq<char>, Seq<char>)> {
    match effective_auth(request_auth, collection_auth) {
        Some(auth) => {
            let t = auth.get_str("type"@);
            if t == Some("basic"@) || t == Some("digest"@) || t == Some("bearer"@) {
                None
            } else if t == Some("apikey"@) {
                match auth.get("apikey"@) {
                    Some(list) => if raw_param(list, "in"@) == Some("query"@) {
                        Some((auth_param(list, "key"@, vars), auth_param(list, "value"@, vars)))
                    } else {
                        None
                    },
                    None => None,
                }
            } else {
                None
            }
        },
        None => None,
    }
}

/// An `apikey` authentication in force sends its `key` parameter as the
/// name and its `value` parameter as the value, each with the variables
/// resolved (empty when missing): as a query parameter when its `in` is
/// `query`, as a header otherwise, never both.
pub proof fn law_apikey_sends_resolved(
    request_auth: Option<Json>,
    collection_auth: Option<Json>,
    vars: Map<Seq<char>, Seq<char>>,
)
    requires
        effective_auth(request_auth, collection_auth) matches Some(a)
            && a.get_str("type"@) == Some("apikey"@) && a.get("apikey"@) is Some,
    ensures
        ({
            let list = effective_auth(request_auth, collection_auth)->0.get("apikey"@)->0;
            let name = match raw_param(list, "key"@) {
                Some(k) => resolve_spec(k, vars),
                None => Seq::empty(),
            };
            let value = match raw_param(list, "value"@) {
                Some(v) => resolve_spec(v, vars),
                None => Seq::empty(),
            };
            if raw_param(list, "in"@) == Some("query"@) {
                &&& auth_query(request_auth, collection_auth, vars) == Some((name, value))
                &&& auth_header(request_auth, collection_auth, vars) is None
            } else {
                &&& auth_header(request_auth, collection_auth, vars) == Some((name, value))
                &&& auth_query(request_auth, collection_auth, vars) is None
            }
        }),
{
    reveal_strlit("apikey");
    reveal_strlit("basic");
    reveal_strlit("digest");
    reveal_strlit("bearer");
    assert("apikey"@ != "basic"@ && "apikey"@ != "digest"@ && "apikey"@ != "bearer"@) by {
        assert("apikey"@[0] == 'a' && "basic"@[0] == 'b' && "digest"@[0] == 'd' && "bearer"@[0] == 'b');
    }
}

/// An `apikey` whose value is the placeholder of a variable sends that
/// variable's value (when no shorter name of the variables begins it), in
/// the header or in the query.
pub proof fn law_apikey_placeholder_sends_value(
    request_auth: Option<Json>,
    collection_auth: Option<Json>,
    vars: Map<Seq<char>, Seq<char>>,
    k: Seq<char>,
)
    requires
        effective_auth(request_auth, collection_auth) matches Some(a)
            && a.get_str("type"@) == Some("apikey"@) && a.get("apikey"@) is Some
            && raw_param(a.get("apikey"@)->0, "value"@) == Some(placeholder(k)),
        vars.contains_key(k),
        forall|t: int| 0 <= t < k.len() ==> !vars.contains_key(#[trigger] k.take(t)),
    ensures
        match auth_header(request_auth, collection_auth, vars) {
            Some(h) => h.1 == vars[k],
            None => auth_query(request_auth, collection_auth, vars) matches Some(q) && q.1 == vars[k],
        },
{
    law_apikey_sends_resolved(request_auth, collection_auth, vars);
    law_placeholder_resolves(k, vars);
}

/// The model of an optional pair of strings.
pub open spec fn opt_pair(p: Option<(String, String)>) -> Option<(Seq<char>, Seq<char>)> {
    match p {
        Some((a, b)) => Some((a@, b@)),
        None => None,
    }
}

/// The first entry of `arr` whose `"key"` is `key`.
fn find_keyed_entry<'a>(arr: &'a Vec<JsonValue>, key: &str) -> (r: Option<&'a JsonValue>)
    ensures
        opt_json(r) == find_keyed(view_values(arr@), key@),
{
    let ghost model = view_values(arr@);
    proof {
        lemma_view_values(arr@);
        assert(model.skip(0) =~= model);
    }
    let n = arr.len();
    let mut i: usize = 0;
    while i < n
        invariant
            n == arr@.len(),
            model == view_values(arr@),
            model.len() == n,
            forall|j: int| 0 <= j < n ==> #[trigger] model[j] == arr@[j].view_json(),
            i <= n,
            find_keyed(model, key@) == find_keyed(model.skip(i as int), key@),
        decreases n - i,
    {
        let ghost rest = model.skip(i as int);
        assert(rest[0] == model[i as int]);
        let matched = match arr[i].get_str("key") {
            Some(k) => text_eq(k.as_str(), key),
            None => false,
        };
        if matched {
            return Some(&arr[i]);
        }
        assert(rest.drop_first() =~= model.skip(i + 1));
        i = i + 1;
    }
    None
}

/// The raw `"value"` of the entry keyed `key` in a parameter list.
fn raw_param_of<'a>(list: &'a JsonValue, key: &str) -> (r: Option<&'a String>)
    ensures
        crate::json::opt_text(r) == raw_param(list.view_json(), key@),
{
    match list.as_array() {
        Some(arr) => match find_keyed_entry(arr, key) {
            Some(entry) => entry.get_str("value"),
            None => None,
        },
        None => None,
    }
}

/// A parameter of an auth block, resolved against `vars`; empty when missing.
fn auth_param_of(list: &JsonValue, key: &str, vars: &Variables) -> (r: String)
    ensures
        r@ == auth_param(list.view_json(), key@, vars.view_map()),
{
    match raw_param_of(list, key) {
        Some(v) => resolve_vars(v.as_str(), vars),
        None => String::new(),
    }
}

/// Works out the header or query parameter that Postman authentication
/// adds: the request's auth, or the collection's when the request has none
/// or uses `noauth`; `basic` and `digest` both send `Basic` credentials.
pub fn apply_auth(
    request_auth: Option<&JsonValue>,
    collection_auth: Option<&JsonValue>,
    vars: &Variables,
) -> (r: AuthResult)
    requires
        basic_credential(opt_json(request_auth), opt_json(collection_auth), vars.view_map()) matches Some(c)
            ==> base64_fits(c),
    ensures
        opt_pair(r.header) == auth_header(opt_json(request_auth), opt_json(collection_auth), vars.view_map()),
        opt_pair(r.apikey_query) == auth_query(opt_json(request_auth), opt_json(collection_auth), vars.view_map()),
{
    let effective = match request_auth {
        Some(a) => {
            let is_noauth = match a.get_str("type") {
                Some(t) => text_eq(t.as_str(), "noauth"),
                None => false,
            };
            if is_noauth { collection_auth } else { Some(a) }
        },
        None => collection_auth,
    };
    assert(opt_json(effective) == effective_auth(opt_json(request_auth), opt_json(collection_auth)));
    let mut header: Option<(String, String)> = None;
    let mut apikey_query: Option<(String, String)> = None;
    if let Some(auth) = effective {
        let (is_basic, is_digest, is_bearer, is_apikey) = match auth.get_str("type") {
            Some(t) => (
                text_eq(t.as_str(), "basic"),
                text_eq(t.as_str(), "digest"),
                text_eq(t.as_str(), "bearer"),
                text_eq(t.as_str(), "apikey"),
            ),
            None => (false, false, false, false),
        };
        if is_basic || is_digest {
            let key = if is_basic { "basic" } else { "digest" };
            if let Some(list) = auth.get(key) {
                let user = auth_param_of(list, "username", vars);
                let pass = auth_param_of(list, "password", vars);
                let mut cred = String::new();
                push_str(&mut cred, user.as_str());
                push_str(&mut cred, ":");
                push_str(&mut cred, pass.as_str());
                let encoded = base64_standard(cred.as_str());
                let mut value = String::new();
                push_str(&mut value, "Basic ");
                push_str(&mut value, encoded.as_str());
                let mut name = String::new();
                push_str(&mut name, "Authorization");
                header = Some((name, value));
            }
        } else if is_bearer {
            if let Some(list) = auth.get("bearer") {
                let token = auth_param_of(list, "token", vars);
                let mut value = String::new();
                push_str(&mut value, "Bearer ");
                push_str(&mut value, token.as_str());
                let mut name = String::new();
                push_str(&mut name, "Authorization");
                header = Some((name, value));
            }
        } else if is_apikey {
            if let Some(list) = auth.get("apikey") {
                let key_name = auth_param_of(list, "key", vars);
                let key_val = auth_param_of(list, "value", vars);
                let in_query = match raw_param_of(list, "in") {
                    Some(loc) => text_eq(loc.as_str(), "query"),
                    None => false,
                };
                if in_query {
                    apikey_query = Some((key_name, key_val));
                } else {
                    header = Some((key_name, key_val));
                }
            }
        }
    }
    AuthResult { header, apikey_query }
}


/// A request whose auth is `noauth` is authenticated as the collection is.
pub proof fn law_noauth_uses_collection_auth(
    request_auth: Json,
    collection_auth: Option<Json>,
    vars: Map<Seq<char>, Seq<char>>,
)
    requires
        request_auth.get_str("type"@) == Some("noauth"@),
    ensures
        auth_header(Some(request_auth), collection_auth, vars) == auth_header(None, collection_auth, vars),
        auth_query(Some(request_auth), collection_auth, vars) == auth_query(None, collection_auth, vars),
{
}

/// A request with an auth of its own (other than `noauth`) ignores the collection's.
pub proof fn law_request_auth_wins(
    request_auth: Json,
    collection_auth: Option<Json>,
    vars: Map<Seq<char>, Seq<char>>,
)
    requires
        request_auth.get_str("type"@) != Some("noauth"@),
    ensures
        auth_header(Some(request_auth), collection_auth, vars) == auth_header(Some(request_auth), None, vars),
        auth_query(Some(request_auth), collection_auth, vars) == auth_query(Some(request_auth), None, vars),
{
}

/// Authentication adds a header or a query parameter, never both.
pub proof fn law_header_or_query(
    request_auth: Option<Json>,
    collection_auth: Option<Json>,
    vars: Map<Seq<char>, Seq<char>>,
)
    ensures
        !(auth_header(request_auth, collection_auth, vars) is Some && auth_query(request_auth, collection_auth, vars) is Some),
{
    reveal_strlit("apikey");
    reveal_strlit("basic");
    reveal_strlit("digest");
    reveal_strlit("bearer");
}

} // verus!
