//! Naming of credential-store entries and the status of known API key services.

use vstd::prelude::*;
use vstd::string::*;

verus! {

/// Application-identifying prefix of every credential-store service name.
pub const KEYCHAIN_SERVICE_PREFIX: &'static str = "com.THATBLADEBOY.cortex";

/// Separator between the application prefix and the per-service suffix.
pub const API_KEY_INFIX: &'static str = ".api-key.";

/// Account name under which each API key is stored.
pub const KEYCHAIN_ACCOUNT: &'static str = "api-key";

/// The credential-store service name of the API key for `service`.
pub open spec fn keychain_service_spec(service: Seq<char>) -> Seq<char> {
    KEYCHAIN_SERVICE_PREFIX@ + API_KEY_INFIX@ + service
}

/// Builds the full credential-store service string for a given service id.
pub fn keychain_service(service: &str) -> (r: String)
    ensures
        r@ == keychain_service_spec(service@),
{
    let mut r = String::from_str(KEYCHAIN_SERVICE_PREFIX);
    r.append(API_KEY_INFIX);
    r.append(service);
    r
}

/// What reading one API key from the credential store gave.
pub enum KeyLookup {
    /// A key is stored; it is carried here.
    Found(String),
    /// No key is stored under that name.
    Missing,
    /// The credential store itself failed.
    Failed,
}

/// Entry describing an API key service and whether a key is stored.
pub struct ApiKeyEntry {
    /// Machine-readable service identifier (e.g., "openai").
    pub service: String,
    /// Human-readable display name (e.g., "OpenAI").
    pub display_name: String,
    /// Whether a key is currently stored in the credential store.
    pub has_key: bool,
}

/// The known API key services: identifier and display name.
pub open spec fn known_services_spec() -> Seq<(Seq<char>, Seq<char>)> {
    seq![("openai"@, "OpenAI"@), ("anthropic"@, "Anthropic"@), ("google"@, "Google AI"@)]
}

/// The known API key services, in display order.
pub fn known_services() -> (r: Vec<(String, String)>)
    ensures
        r@.len() == known_services_spec().len(),
        forall|i: int|
            0 <= i < r@.len() ==> (#[trigger] r@[i]).0@ == known_services_spec()[i].0
                && r@[i].1@ == known_services_spec()[i].1,
{
    let mut r: Vec<(String, String)> = Vec::new();
    r.push((String::from_str("openai"), String::from_str("OpenAI")));
    r.push((String::from_str("anthropic"), String::from_str("Anthropic")));
    r.push((String::from_str("google"), String::from_str("Google AI")));
    r
}

/// Whether a key is stored, from what reading it gave: `None` when the
/// credential store failed.
pub fn has_key_of(lookup: &KeyLookup) -> (r: Option<bool>)
    ensures
        r == match lookup {
            KeyLookup::Found(_) => Some(true),
            KeyLookup::Missing => Some(false),
            KeyLookup::Failed => None,
        },
{
    match lookup {
        KeyLookup::Found(_) => Some(true),
        KeyLookup::Missing => Some(false),
        KeyLookup::Failed => None,
    }
}

/// Whether the entry of the `i`-th known service shows a stored key, where
/// `checks[i]` is what checking it gave: a failed check shows none.
pub open spec fn shows_key(checks: Seq<Option<bool>>, i: int) -> bool {
    0 <= i < checks.len() && checks[i] == Some(true)
}

/// Lists the known services with their storage status; `checks[i]` is what
/// checking the `i`-th known service gave (`None`, or no element, when the
/// check failed).
pub fn api_key_entries(checks: &Vec<Option<bool>>) -> (r: Vec<ApiKeyEntry>)
    ensures
        r@.len() == known_services_spec().len(),
        forall|i: int|
            0 <= i < r@.len() ==> (#[trigger] r@[i]).service@ == known_services_spec()[i].0
                && r@[i].display_name@ == known_services_spec()[i].1
                && r@[i].has_key == shows_key(checks@, i),
{
    let known = known_services();
    let mut r: Vec<ApiKeyEntry> = Vec::new();
    let mut i: usize = 0;
    while i < known.len()
        invariant
            i <= known@.len(),
            known@.len() == known_services_spec().len(),
            forall|j: int|
                0 <= j < known@.len() ==> (#[trigger] known@[j]).0@ == known_services_spec()[j].0
                    && known@[j].1@ == known_services_spec()[j].1,
            r@.len() == i,
            forall|j: int|
                0 <= j < i ==> (#[trigger] r@[j]).service@ == known_services_spec()[j].0
                    && r@[j].display_name@ == known_services_spec()[j].1
                    && r@[j].has_key == shows_key(checks@, j),
        decreases known@.len() - i,
    {
        let has_key = if i < checks.len() {
            match checks[i] {
                Some(b) => b,
                None => false,
            }
        } else {
            false
        };
        let service = known[i].0.clone();
        let display_name = known[i].1.clone();
        r.push(ApiKeyEntry { service, display_name, has_key });
        i = i + 1;
    }
    r
}

} // verus!
