//! The store that entries are published to, and the write that stores one entry.

use crate::codec::json_text;
use crate::codec::serialize_json;
use crate::json::Json;
use crate::json::JsonView;
use crate::text::join3;
use vstd::prelude::*;

verus! {

/// The name of the request header that carries the access token.
pub const TOKEN_HEADER: &'static str = "x-consul-token";

/// A store target as specifications see it.
pub struct ConsulView {
    pub kv_prefix: Seq<char>,
    pub host: Seq<char>,
    pub token: Seq<char>,
}

/// Where entries are published: the namespace that every key is put under,
/// the base URL of the store, and the access token sent with every write.
#[derive(Debug, PartialEq, Eq)]
pub struct Consul {
    pub kv_prefix: String,
    pub host: String,
    pub token: String,
}

impl View for Consul {
    type V = ConsulView;

    open spec fn view(&self) -> ConsulView {
        ConsulView { kv_prefix: self.kv_prefix@, host: self.host@, token: self.token@ }
    }
}

/// One write as specifications see it.
pub struct PutRequestView {
    pub key: Seq<char>,
    pub uri: Seq<char>,
    pub body: Seq<char>,
    pub token: Seq<char>,
}

/// One write: a `PUT` of `body` to `uri`, with `token` in the header
/// `TOKEN_HEADER`. `key` is the full key that the write stores.
#[derive(Debug, PartialEq, Eq)]
pub struct PutRequest {
    pub key: String,
    pub uri: String,
    pub body: String,
    pub token: String,
}

impl View for PutRequest {
    type V = PutRequestView;

    open spec fn view(&self) -> PutRequestView {
        PutRequestView { key: self.key@, uri: self.uri@, body: self.body@, token: self.token@ }
    }
}

/// The full key of an entry: the namespace, `/` and the entry's key.
pub open spec fn full_key(kv_prefix: Seq<char>, key: Seq<char>) -> Seq<char> {
    kv_prefix + "/"@ + key
}

/// The address that a full key is written to: the base URL, `/v1/kv/` and the
/// full key.
pub open spec fn request_uri(host: Seq<char>, full_key: Seq<char>) -> Seq<char> {
    host + "/v1/kv/"@ + full_key
}

/// The write that stores `body` under an entry's key.
pub open spec fn put_request(target: ConsulView, key: Seq<char>, body: Seq<char>) -> PutRequestView {
    PutRequestView {
        key: full_key(target.kv_prefix, key),
        uri: request_uri(target.host, full_key(target.kv_prefix, key)),
        body,
        token: target.token,
    }
}

impl Consul {
    /// The write that stores an already serialized value under `key`.
    pub fn put_request(&self, key: &str, body: String) -> (request: PutRequest)
        ensures
            request@ == put_request(self@, key@, body@),
    {
        let key_value = join3(self.kv_prefix.as_str(), "/", key);
        let uri = join3(self.host.as_str(), "/v1/kv/", key_value.as_str());
        PutRequest { key: key_value, uri, body, token: self.token.clone() }
    }

    /// The write that stores `value` under `key`: its body is the compact JSON
    /// text of `value`.
    pub fn store_kv(&self, key: &str, value: &Json) -> (request: PutRequest)
        ensures
            request@ == put_request(self@, key@, json_text(value@)),
            value@ is Null ==> request@.body == "null"@,
            value@ == JsonView::Bool(true) ==> request@.body == "true"@,
            value@ == JsonView::Bool(false) ==> request@.body == "false"@,
    {
        self.put_request(key, serialize_json(value))
    }
}

} // verus!
