use cortex_core::keychain::{api_key_entries, has_key_of, known_services, KeyLookup};
use cortex_core::token::generate_token;

#[test]
fn known_services_in_order() {
    let k = known_services();
    assert_eq!(k.len(), 3);
    assert_eq!(k[0], ("openai".to_string(), "OpenAI".to_string()));
    assert_eq!(k[1], ("anthropic".to_string(), "Anthropic".to_string()));
    assert_eq!(k[2], ("google".to_string(), "Google AI".to_string()));
}

#[test]
fn has_key_from_lookup() {
    assert_eq!(has_key_of(&KeyLookup::Found("x".to_string())), Some(true));
    assert_eq!(has_key_of(&KeyLookup::Missing), Some(false));
    assert_eq!(has_key_of(&KeyLookup::Failed), None);
}

#[test]
fn entries_show_stored_keys() {
    let e = api_key_entries(&vec![Some(true), None, Some(false)]);
    assert_eq!(e.len(), 3);
    assert_eq!(e[0].service, "openai");
    assert_eq!(e[0].display_name, "OpenAI");
    assert!(e[0].has_key);
    assert_eq!(e[1].service, "anthropic");
    assert!(!e[1].has_key);
    assert_eq!(e[2].display_name, "Google AI");
    assert!(!e[2].has_key);
    let short = api_key_entries(&vec![]);
    assert_eq!(short.len(), 3);
    assert!(short.iter().all(|x| !x.has_key));
}

#[test]
fn tokens_are_fresh() {
    let a = generate_token();
    let b = generate_token();
    assert_eq!(a.len(), 36);
    assert_ne!(a, b);
    assert_eq!(a.matches('-').count(), 4);
}
