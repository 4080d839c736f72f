//! Request endpoints of a collection.

use vstd::prelude::*;
use crate::client::{ApiRequest, HttpMethod, PostmanApiClient, api_url, api_url_of, body_json};
use crate::client::collections::opt_text;
use crate::json::JsonValue;
use crate::text::{chars_of, push_str, push_char};

verus! {

/// A hexadecimal digit.
pub open spec fn is_hex_digit(c: char) -> bool {
    ('0' <= c && c <= '9') || ('a' <= c && c <= 'f') || ('A' <= c && c <= 'F')
}

/// The collection UUID inside a full UID `{8 hex}-{uuid}`; any other text
/// is taken to be the UUID already.
pub open spec fn collection_uuid_of(uid: Seq<char>) -> Seq<char> {
    if uid.len() > 8 && uid[8] == '-' && (forall|i: int| 0 <= i < 8 ==> is_hex_digit(#[trigger] uid[i])) {
        uid.skip(9)
    } else {
        uid
    }
}

fn is_hex(c: char) -> (r: bool)
    ensures
        r == is_hex_digit(c),
{
    ('0' <= c && c <= '9') || ('a' <= c && c <= 'f') || ('A' <= c && c <= 'F')
}

/// Extracts the collection UUID from a full collection UID (the request
/// endpoints want the UUID alone).
pub fn collection_uuid(uid: &str) -> (r: String)
    ensures
        r@ == collection_uuid_of(uid@),
{
    let cs = chars_of(uid);
    let n = cs.len();
    let mut prefixed = n > 8 && cs[8] == '-';
    let mut i: usize = 0;
    while prefixed && i < 8
        invariant
            n == cs@.len(),
            cs@ == uid@,
            i <= 8,
            prefixed ==> n > 8 && cs@[8] == '-' && (forall|j: int| 0 <= j < i ==> is_hex_digit(#[trigger] cs@[j])),
            !prefixed ==> !(n > 8 && cs@[8] == '-' && (forall|j: int| 0 <= j < 8 ==> is_hex_digit(#[trigger] cs@[j]))),
        decreases 8 - i,
    {
        if !is_hex(cs[i]) {
            prefixed = false;
        }
        i = i + 1;
    }
    let start: usize = if prefixed { 9 } else { 0 };
    let mut out = String::new();
    let mut k: usize = start;
    while k < n
        invariant
            n == cs@.len(),
            start <= k <= n,
            out@ == cs@.subrange(start as int, k as int),
        decreases n - k,
    {
        push_char(&mut out, cs[k]);
        assert(cs@.subrange(start as int, k + 1) =~= cs@.subrange(start as int, k as int).push(cs@[k as int]));
        k = k + 1;
    }
    proof {
        if prefixed {
            assert(cs@.subrange(9, n as int) =~= uid@.skip(9));
        } else {
            assert(cs@.subrange(0, n as int) =~= uid@);
        }
    }
    out
}

/// The path of a collection's requests (by UUID).
pub open spec fn requests_path(collection_id: Seq<char>) -> Seq<char> {
    "/collections/"@ + collection_uuid_of(collection_id) + "/requests"@
}

fn requests_path_of(collection_id: &str) -> (p: String)
    ensures
        p@ == requests_path(collection_id@),
{
    let cid = collection_uuid(collection_id);
    let mut p = String::new();
    push_str(&mut p, "/collections/");
    push_str(&mut p, cid.as_str());
    push_str(&mut p, "/requests");
    p
}

impl PostmanApiClient {
    /// `POST /collections/{uuid}/requests`, in a folder when one is given.
    pub fn create_request_request(&self, collection_id: &str, request_body: JsonValue, folder_id: Option<&str>) -> (r: ApiRequest)
        ensures
            r.method == HttpMethod::Post,
            r.url@ == api_url(requests_path(collection_id@)) + match opt_text(folder_id) {
                Some(f) => "?folder="@ + f,
                None => Seq::empty(),
            },
            r.api_key == self.api_key,
            body_json(r.body) == Some(request_body.view_json()),
    {
        let path = requests_path_of(collection_id);
        let mut url = api_url_of(path.as_str());
        match folder_id {
            Some(f) => {
                push_str(&mut url, "?folder=");
                push_str(&mut url, f);
            },
            None => {},
        }
        assert(url@ =~= api_url(requests_path(collection_id@)) + match opt_text(folder_id) {
            Some(f) => "?folder="@ + f,
            None => Seq::empty(),
        });
        self.call(HttpMethod::Post, url, Some(request_body))
    }

    /// `PUT /collections/{uuid}/requests/{request_id}`.
    pub fn update_request_request(&self, collection_id: &str, request_id: &str, request_body: JsonValue) -> (r: ApiRequest)
        ensures
            r.method == HttpMethod::Put,
            r.url@ == api_url(requests_path(collection_id@) + "/"@ + request_id@),
            r.api_key == self.api_key,
            body_json(r.body) == Some(request_body.view_json()),
    {
        let mut path = requests_path_of(collection_id);
        push_str(&mut path, "/");
        push_str(&mut path, request_id);
        self.call(HttpMethod::Put, api_url_of(path.as_str()), Some(request_body))
    }

    /// `DELETE /collections/{uuid}/requests/{request_id}`.
    pub fn delete_request_request(&self, collection_id: &str, request_id: &str) -> (r: ApiRequest)
        ensures
            r.method == HttpMethod::Delete,
            r.url@ == api_url(requests_path(collection_id@) + "/"@ + request_id@),
            r.api_key == self.api_key,
            r.body is None,
    {
        let mut path = requests_path_of(collection_id);
        push_str(&mut path, "/");
        push_str(&mut path, request_id);
        self.call(HttpMethod::Delete, api_url_of(path.as_str()), None)
    }
}

} // verus!
