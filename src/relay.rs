//! The loopback relay: every request must carry the session's bearer token,
//! and only then is the credential store consulted for the named service.

use vstd::prelude::*;
use vstd::string::*;
use crate::keychain::{KeyLookup, keychain_service, keychain_service_spec};

verus! {

/// Scheme word that opens a valid `Authorization` header value.
pub const BEARER_PREFIX: &'static str = "Bearer ";

pub const STATUS_OK: u16 = 200;

pub const STATUS_UNAUTHORIZED: u16 = 401;

pub const STATUS_NOT_FOUND: u16 = 404;

pub const STATUS_INTERNAL_ERROR: u16 = 500;

/// Shared state of the relay.
pub struct BridgeState {
    /// The bearer token required for all requests.
    pub token: String,
}

/// A response of the relay: an HTTP status and a body.
pub struct RelayResponse {
    pub status: u16,
    pub body: String,
}

impl View for RelayResponse {
    type V = (u16, Seq<char>);

    open spec fn view(&self) -> (u16, Seq<char>) {
        (self.status, self.body@)
    }
}

/// The text of an optional header value.
pub open spec fn header_text(h: Option<&str>) -> Option<Seq<char>> {
    match h {
        Some(s) => Some(s@),
        None => None,
    }
}

/// The text of an optional owned string.
pub open spec fn opt_text(o: Option<String>) -> Option<Seq<char>> {
    match o {
        Some(s) => Some(s@),
        None => None,
    }
}

/// The only `Authorization` header value that a request may carry.
pub open spec fn bearer_header(token: Seq<char>) -> Seq<char> {
    BEARER_PREFIX@ + token
}

/// Whether a request whose `Authorization` header is `auth` (absent, or not
/// readable as text, when `None`) is let through.
pub open spec fn authorized(auth: Option<Seq<char>>, token: Seq<char>) -> bool {
    auth == Some(bearer_header(token))
}

/// What the relay does first with a request for `service`: the name to look
/// up in the credential store, or `None` when it answers `401` at once.
pub open spec fn relay_step(token: Seq<char>, auth: Option<Seq<char>>, service: Seq<char>) -> Option<
    Seq<char>,
> {
    if authorized(auth, token) {
        Some(keychain_service_spec(service))
    } else {
        None
    }
}

/// The body that carries a key, given its encoding as a JSON string literal.
pub open spec fn key_body(encoded: Seq<char>) -> Seq<char> {
    "{\"key\":"@ + encoded + "}"@
}

/// The JSON string literal that serde_json writes for `s`, or `None` when it fails.
pub uninterp spec fn json_string_literal(s: Seq<char>) -> Option<Seq<char>>;

/// The response to a key whose JSON encoding came out as `encoded`.
pub open spec fn key_response_spec(encoded: Option<Seq<char>>) -> (u16, Seq<char>) {
    match encoded {
        Some(e) => (STATUS_OK, key_body(e)),
        None => (STATUS_INTERNAL_ERROR, Seq::empty()),
    }
}

/// The response to what the credential store gave.
pub open spec fn lookup_response_spec(lookup: KeyLookup) -> (u16, Seq<char>) {
    match lookup {
        KeyLookup::Found(k) => key_response_spec(json_string_literal(k@)),
        KeyLookup::Missing => (STATUS_NOT_FOUND, Seq::empty()),
        KeyLookup::Failed => (STATUS_INTERNAL_ERROR, Seq::empty()),
    }
}

/// Relies on serde_json::to_string on a `str`: it writes the JSON string
/// literal for the text, which depends on the text alone.
#[verifier::external_body]
fn encode_json_string(s: &str) -> (r: Option<String>)
    ensures
        match r {
            Some(v) => json_string_literal(s@) == Some(v@),
            None => json_string_literal(s@) is None,
        },
{
    serde_json::to_string(s).ok()
}

/// Compares two texts character by character, without stopping at the first
/// difference once their lengths agree.
fn same_text(a: &str, b: &str) -> (r: bool)
    ensures
        r == (a@ == b@),
{
    let n = a.unicode_len();
    let m = b.unicode_len();
    if n != m {
        return false;
    }
    let mut same = true;
    let mut i: usize = 0;
    while i < n
        invariant
            i <= n,
            n == a@.len(),
            m == b@.len(),
            n == m,
            same <==> forall|j: int| 0 <= j < i ==> a@[j] == b@[j],
        decreases n - i,
    {
        let ca = a.get_char(i);
        let cb = b.get_char(i);
        if ca != cb {
            same = false;
        }
        i = i + 1;
    }
    if same {
        assert(a@ =~= b@);
    }
    same
}

/// Checks the `Authorization` header value of a request against the token.
pub fn validate_token(auth: Option<&str>, expected: &str) -> (r: Result<(), u16>)
    ensures
        r is Ok <==> authorized(header_text(auth), expected@),
        r matches Err(status) ==> status == STATUS_UNAUTHORIZED,
{
    match auth {
        None => Err(STATUS_UNAUTHORIZED),
        Some(value) => {
            let mut wanted = String::from_str(BEARER_PREFIX);
            wanted.append(expected);
            if same_text(value, wanted.as_str()) {
                Ok(())
            } else {
                Err(STATUS_UNAUTHORIZED)
            }
        },
    }
}

/// The response for a key, given its JSON encoding (`None` when encoding failed).
pub fn key_response(encoded: Option<String>) -> (r: RelayResponse)
    ensures
        r@ == key_response_spec(opt_text(encoded)),
{
    match encoded {
        Some(e) => {
            let mut body = String::from_str("{\"key\":");
            body.append(e.as_str());
            body.append("}");
            RelayResponse { status: STATUS_OK, body }
        },
        None => RelayResponse { status: STATUS_INTERNAL_ERROR, body: String::new() },
    }
}

/// The response for what the credential store gave.
pub fn lookup_response(lookup: KeyLookup) -> (r: RelayResponse)
    ensures
        r@ == lookup_response_spec(lookup),
{
    match lookup {
        KeyLookup::Found(k) => key_response(encode_json_string(k.as_str())),
        KeyLookup::Missing => RelayResponse { status: STATUS_NOT_FOUND, body: String::new() },
        KeyLookup::Failed => RelayResponse { status: STATUS_INTERNAL_ERROR, body: String::new() },
    }
}

/// The whole answer of the relay to `GET /api-key/{service}` carrying the
/// `Authorization` value `auth`, where `store` maps credential-store names
/// to the keys stored under them.
pub open spec fn served(
    token: Seq<char>,
    auth: Option<Seq<char>>,
    service: Seq<char>,
    store: Map<Seq<char>, Seq<char>>,
) -> (u16, Seq<char>) {
    match relay_step(token, auth, service) {
        None => (STATUS_UNAUTHORIZED, Seq::empty()),
        Some(name) => if store.contains_key(name) {
            key_response_spec(json_string_literal(store[name]))
        } else {
            (STATUS_NOT_FOUND, Seq::empty())
        },
    }
}

/// A request without the exact bearer token is answered `401` with an empty
/// body, whatever the store holds, and the store is not consulted.
pub proof fn lemma_unauthorized_never_reaches_store(
    token: Seq<char>,
    auth: Option<Seq<char>>,
    service: Seq<char>,
    store: Map<Seq<char>, Seq<char>>,
)
    requires
        !authorized(auth, token),
    ensures
        relay_step(token, auth, service) is None,
        served(token, auth, service, store) == (STATUS_UNAUTHORIZED, Seq::<char>::empty()),
{
}

/// With the right token, a stored key is answered `200` with a body that
/// carries exactly that key, `{"key":<key as a JSON string>}`.
pub proof fn lemma_stored_key_is_served(
    token: Seq<char>,
    service: Seq<char>,
    store: Map<Seq<char>, Seq<char>>,
    encoded: Seq<char>,
)
    requires
        store.contains_key(keychain_service_spec(service)),
        json_string_literal(store[keychain_service_spec(service)]) == Some(encoded),
    ensures
        relay_step(token, Some(bearer_header(token)), service) == Some(
            keychain_service_spec(service),
        ),
        served(token, Some(bearer_header(token)), service, store) == (STATUS_OK, key_body(encoded)),
{
}

/// With the right token, a service with no stored key is answered `404`,
/// never `401`.
pub proof fn lemma_missing_key_is_not_found(
    token: Seq<char>,
    service: Seq<char>,
    store: Map<Seq<char>, Seq<char>>,
)
    requires
        !store.contains_key(keychain_service_spec(service)),
    ensures
        served(token, Some(bearer_header(token)), service, store) == (STATUS_NOT_FOUND, Seq::<
            char,
        >::empty()),
        served(token, Some(bearer_header(token)), service, store).0 != STATUS_UNAUTHORIZED,
{
}

impl BridgeState {
    pub fn new(token: String) -> (r: BridgeState)
        ensures
            r.token == token,
    {
        BridgeState { token }
    }

    /// First step of `GET /api-key/{service}`: either the credential-store
    /// name to read, or the `401` response when the token does not match.
    pub fn begin_request(&self, auth: Option<&str>, service: &str) -> (r: Result<
        String,
        RelayResponse,
    >)
        ensures
            match relay_step(self.token@, header_text(auth), service@) {
                Some(name) => r matches Ok(n) && n@ == name,
                None => r matches Err(resp) && resp@ == (STATUS_UNAUTHORIZED, Seq::<char>::empty()),
            },
    {
        match validate_token(auth, self.token.as_str()) {
            Ok(()) => Ok(keychain_service(service)),
            Err(status) => Err(RelayResponse { status, body: String::new() }),
        }
    }
}

} // verus!
