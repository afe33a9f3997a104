use meilisearch_auth::action::Action;
use meilisearch_auth::error::AuthControllerError;
use meilisearch_auth::expiration::{parse_expiration_date, parse_expiration_date_at, parse_instant, Timestamp};
use meilisearch_auth::id::{generate_id, id_symbol, KEY_ID_LENGTH};
use meilisearch_auth::json::{take_field, JsonValue};
use meilisearch_auth::key::Key;

fn text(s: &str) -> JsonValue {
    JsonValue::String(s.to_string())
}

fn object(entries: Vec<(&str, JsonValue)>) -> JsonValue {
    JsonValue::Object(entries.into_iter().map(|(k, v)| (k.to_string(), v)).collect())
}

fn list(items: &[&str]) -> JsonValue {
    JsonValue::Array(items.iter().map(|s| text(s)).collect())
}

fn is_alphabet_id(id: &[u8]) -> bool {
    id.len() == 64 && id.iter().all(|b| b.is_ascii_lowercase() || b.is_ascii_digit() || b.is_ascii_uppercase())
}

fn valid_input() -> JsonValue {
    object(vec![
        ("description", text("a key")),
        ("actions", list(&["search", "documents.add"])),
        ("indexes", list(&["*"])),
        ("expiresAt", JsonValue::Null),
    ])
}

#[test]
fn create_valid_input() {
    let key = Key::create_from_value(valid_input()).unwrap();
    assert_eq!(key.description.as_deref(), Some("a key"));
    assert_eq!(key.actions, vec![Action::Search, Action::DocumentsAdd]);
    assert_eq!(key.indexes, vec!["*".to_string()]);
    assert!(is_alphabet_id(&key.id));
    assert_eq!(key.created_at, key.updated_at);
}

#[test]
fn create_null_expiration_never_expires() {
    let key = Key::create_from_value(valid_input()).unwrap();
    assert_eq!(key.expires_at, None);
}

#[test]
fn create_without_description() {
    let input = object(vec![
        ("actions", list(&["*"])),
        ("indexes", list(&["movies"])),
        ("expiresAt", JsonValue::Null),
    ]);
    let key = Key::create_from_value(input).unwrap();
    assert_eq!(key.description, None);
    assert_eq!(key.actions, vec![Action::All]);
}

#[test]
fn create_missing_actions() {
    let input = object(vec![("indexes", list(&["*"])), ("expiresAt", JsonValue::Null)]);
    let r = Key::create_from_value(input);
    assert!(matches!(r, Err(AuthControllerError::MissingParameter("actions"))));
}

#[test]
fn create_missing_indexes() {
    let input = object(vec![("actions", list(&["*"])), ("expiresAt", JsonValue::Null)]);
    let r = Key::create_from_value(input);
    assert!(matches!(r, Err(AuthControllerError::MissingParameter("indexes"))));
}

#[test]
fn create_missing_expires_at() {
    let input = object(vec![("actions", list(&["*"])), ("indexes", list(&["*"]))]);
    let r = Key::create_from_value(input);
    assert!(matches!(r, Err(AuthControllerError::MissingParameter("expiresAt"))));
}

#[test]
fn create_from_non_object_misses_actions() {
    let r = Key::create_from_value(text("key"));
    assert!(matches!(r, Err(AuthControllerError::MissingParameter("actions"))));
}

#[test]
fn create_past_expiration_refused() {
    let input = object(vec![
        ("actions", list(&["*"])),
        ("indexes", list(&["*"])),
        ("expiresAt", text("2000-01-01")),
    ]);
    let r = Key::create_from_value(input);
    match r {
        Err(AuthControllerError::InvalidApiKeyExpiresAt(JsonValue::String(s))) => assert_eq!(s, "2000-01-01"),
        other => panic!("unexpected {:?}", other),
    }
}

#[test]
fn create_future_expiration_kept() {
    let input = object(vec![
        ("actions", list(&["*"])),
        ("indexes", list(&["*"])),
        ("expiresAt", text("2999-01-01")),
    ]);
    let key = Key::create_from_value(input).unwrap();
    assert_eq!(key.expires_at, parse_instant("2999-01-01T00:00:00Z"));
}

#[test]
fn create_invalid_description() {
    let input = object(vec![
        ("description", JsonValue::Number("42".to_string())),
        ("actions", list(&["*"])),
        ("indexes", list(&["*"])),
        ("expiresAt", JsonValue::Null),
    ]);
    let r = Key::create_from_value(input);
    assert!(matches!(r, Err(AuthControllerError::InvalidApiKeyDescription(JsonValue::Number(_)))));
}

#[test]
fn create_invalid_actions() {
    let input = object(vec![
        ("actions", list(&["search", "fly"])),
        ("indexes", list(&["*"])),
        ("expiresAt", JsonValue::Null),
    ]);
    let r = Key::create_from_value(input);
    assert!(matches!(r, Err(AuthControllerError::InvalidApiKeyActions(JsonValue::Array(_)))));
}

#[test]
fn create_invalid_indexes() {
    let input = object(vec![
        ("actions", list(&["*"])),
        ("indexes", JsonValue::Array(vec![JsonValue::Bool(true)])),
        ("expiresAt", JsonValue::Null),
    ]);
    let r = Key::create_from_value(input);
    assert!(matches!(r, Err(AuthControllerError::InvalidApiKeyIndexes(JsonValue::Array(_)))));
}

#[test]
fn create_invalid_expiration_shapes() {
    for bad in [text("tomorrow"), JsonValue::Bool(false), text("2999-01-01T00:00:00+25:00")] {
        let input = object(vec![("actions", list(&["*"])), ("indexes", list(&["*"])), ("expiresAt", bad)]);
        let r = Key::create_from_value(input);
        assert!(matches!(r, Err(AuthControllerError::InvalidApiKeyExpiresAt(_))));
    }
}

#[test]
fn four_formats_agree() {
    let a = parse_instant("2999-03-04T00:00:00Z");
    let b = parse_instant("2999-03-04T00:00:00");
    let c = parse_instant("2999-03-04 00:00:00");
    let d = parse_instant("2999-03-04");
    assert!(a.is_some());
    assert_eq!(a, b);
    assert_eq!(a, c);
    assert_eq!(a, d);
    let parsed: Vec<_> = ["2999-03-04T00:00:00Z", "2999-03-04T00:00:00", "2999-03-04 00:00:00", "2999-03-04"]
        .iter()
        .map(|s| parse_expiration_date(text(s)).unwrap())
        .collect();
    assert!(parsed.iter().all(|p| *p == a));
}

#[test]
fn instant_exact_values() {
    assert_eq!(parse_instant("1970-01-02"), Some(Timestamp { unix_nanos: 86_400_000_000_000 }));
    assert_eq!(parse_instant("1970-01-01T00:00:01Z"), Some(Timestamp { unix_nanos: 1_000_000_000 }));
    assert_eq!(parse_instant("1970-01-01T01:00:00+01:00"), Some(Timestamp { unix_nanos: 0 }));
    assert_eq!(parse_instant("1970-01-01 00:01:00"), Some(Timestamp { unix_nanos: 60_000_000_000 }));
    assert_eq!(parse_instant("not a date"), None);
}

#[test]
fn expiration_against_a_given_clock() {
    let now = Timestamp { unix_nanos: 86_400_000_000_000 };
    assert!(matches!(parse_expiration_date_at(JsonValue::Null, now), Ok(None)));
    assert!(matches!(parse_expiration_date_at(text("1970-01-02"), now), Err(AuthControllerError::InvalidApiKeyExpiresAt(_))));
    let r = parse_expiration_date_at(text("1970-01-02T00:00:01Z"), now);
    assert!(matches!(r, Ok(Some(Timestamp { unix_nanos: 86_401_000_000_000 }))));
    assert!(matches!(parse_expiration_date_at(list(&[]), now), Err(AuthControllerError::InvalidApiKeyExpiresAt(_))));
}

#[test]
fn update_description_only() {
    let mut key = Key::create_from_value_at(valid_input(), [b'x'; KEY_ID_LENGTH], Timestamp { unix_nanos: 10 }).unwrap();
    key.update_from_value_at(object(vec![("description", text("new text"))]), Timestamp { unix_nanos: 20 }).unwrap();
    assert_eq!(key.description.as_deref(), Some("new text"));
    assert_eq!(key.id, [b'x'; KEY_ID_LENGTH]);
    assert_eq!(key.created_at, Timestamp { unix_nanos: 10 });
    assert_eq!(key.updated_at, Timestamp { unix_nanos: 20 });
    assert_eq!(key.actions, vec![Action::Search, Action::DocumentsAdd]);
    assert_eq!(key.indexes, vec!["*".to_string()]);
    assert_eq!(key.expires_at, None);
}

#[test]
fn update_with_clock_keeps_identity() {
    let mut key = Key::create_from_value(valid_input()).unwrap();
    let id = key.id;
    let created = key.created_at;
    key.update_from_value(object(vec![("description", JsonValue::Null), ("indexes", list(&["a", "b"]))])).unwrap();
    assert_eq!(key.id, id);
    assert_eq!(key.created_at, created);
    assert_eq!(key.description, None);
    assert_eq!(key.indexes, vec!["a".to_string(), "b".to_string()]);
    assert!(key.updated_at.unix_nanos >= created.unix_nanos);
}

#[test]
fn update_invalid_actions_changes_nothing() {
    let mut key = Key::create_from_value_at(valid_input(), [b'y'; KEY_ID_LENGTH], Timestamp { unix_nanos: 10 }).unwrap();
    let r = key.update_from_value_at(
        object(vec![
            ("description", text("changed")),
            ("actions", text("search")),
            ("indexes", list(&["movies"])),
            ("expiresAt", text("2999-01-01")),
        ]),
        Timestamp { unix_nanos: 20 },
    );
    assert!(matches!(r, Err(AuthControllerError::InvalidApiKeyActions(JsonValue::String(_)))));
    assert_eq!(key.description.as_deref(), Some("a key"));
    assert_eq!(key.actions, vec![Action::Search, Action::DocumentsAdd]);
    assert_eq!(key.indexes, vec!["*".to_string()]);
    assert_eq!(key.expires_at, None);
    assert_eq!(key.updated_at, Timestamp { unix_nanos: 10 });
}

#[test]
fn update_empty_refreshes_time() {
    let mut key = Key::create_from_value_at(valid_input(), [b'z'; KEY_ID_LENGTH], Timestamp { unix_nanos: 10 }).unwrap();
    key.update_from_value_at(object(vec![]), Timestamp { unix_nanos: 30 }).unwrap();
    assert_eq!(key.updated_at, Timestamp { unix_nanos: 30 });
    assert_eq!(key.description.as_deref(), Some("a key"));
}

#[test]
fn update_invalid_description_and_expiration() {
    let mut key = Key::create_from_value_at(valid_input(), [b'z'; KEY_ID_LENGTH], Timestamp { unix_nanos: 10 }).unwrap();
    let r = key.update_from_value_at(object(vec![("description", JsonValue::Bool(true))]), Timestamp { unix_nanos: 30 });
    assert!(matches!(r, Err(AuthControllerError::InvalidApiKeyDescription(JsonValue::Bool(true)))));
    let r = key.update_from_value_at(object(vec![("expiresAt", text("1969-12-31"))]), Timestamp { unix_nanos: 30 });
    assert!(matches!(r, Err(AuthControllerError::InvalidApiKeyExpiresAt(_))));
    assert_eq!(key.updated_at, Timestamp { unix_nanos: 10 });
}

#[test]
fn generated_ids_differ() {
    let ids: Vec<[u8; KEY_ID_LENGTH]> = (0..200).map(|_| generate_id()).collect();
    for (i, a) in ids.iter().enumerate() {
        assert!(is_alphabet_id(a));
        for b in &ids[i + 1..] {
            assert_ne!(a, b);
        }
    }
}

#[test]
fn id_symbols_cover_alphabet() {
    assert_eq!(id_symbol(0), b'a');
    assert_eq!(id_symbol(25), b'z');
    assert_eq!(id_symbol(26), b'0');
    assert_eq!(id_symbol(35), b'9');
    assert_eq!(id_symbol(36), b'A');
    assert_eq!(id_symbol(61), b'Z');
}

#[test]
fn default_keys() {
    let admin = Key::default_admin();
    let admin2 = Key::default_admin();
    assert_eq!(admin.expires_at, None);
    assert_eq!(admin.actions, vec![Action::All]);
    assert_eq!(admin.indexes, vec!["*".to_string()]);
    assert!(is_alphabet_id(&admin.id));
    assert_ne!(admin.id, admin2.id);
    let search = Key::default_search();
    let search2 = Key::default_search();
    assert_eq!(search.expires_at, None);
    assert_eq!(search.actions, vec![Action::Search]);
    assert_eq!(search.indexes, vec!["*".to_string()]);
    assert_ne!(search.id, search2.id);
    assert_eq!(search.description.as_deref(), Some("Default Search API Key (Use it to search from the frontend)"));
}

#[test]
fn action_tags() {
    assert_eq!(Action::from_tag(&"*".to_string()), Some(Action::All));
    assert_eq!(Action::from_tag(&"indexes.create".to_string()), Some(Action::IndexesAdd));
    assert_eq!(Action::from_tag(&"version".to_string()), Some(Action::Version));
    assert_eq!(Action::from_tag(&"Search".to_string()), None);
}

#[test]
fn take_field_first_wins() {
    let mut entries = vec![
        ("a".to_string(), text("1")),
        ("b".to_string(), text("2")),
        ("a".to_string(), text("3")),
    ];
    match take_field(&mut entries, "a") {
        Some(JsonValue::String(s)) => assert_eq!(s, "1"),
        other => panic!("unexpected {:?}", other),
    }
    assert_eq!(entries.len(), 2);
    assert!(take_field(&mut entries, "c").is_none());
}
