//! The API-key record, built and updated from untyped input.

use vstd::prelude::*;

use crate::action::Action;
use crate::error::AuthControllerError;
use crate::expiration::{expiration_at, now_utc, parse_expiration_date_at, Timestamp};
use crate::fields::{
    actions_of, description_of, indexes_of, opt_text, parse_actions, parse_description,
    parse_indexes, texts,
};
use crate::id::{generate_id, is_key_id, KeyId};
use crate::json::{field_of, take_field, JsonValue};

verus! {

/// An API key.
#[derive(Debug)]
pub struct Key {
    pub description: Option<String>,
    pub id: KeyId,
    pub actions: Vec<Action>,
    pub indexes: Vec<String>,
    pub expires_at: Option<Timestamp>,
    pub created_at: Timestamp,
    pub updated_at: Timestamp,
}

/// The mathematical content of a key.
pub struct KeyView {
    pub description: Option<Seq<char>>,
    pub id: Seq<u8>,
    pub actions: Seq<Action>,
    pub indexes: Seq<Seq<char>>,
    pub expires_at: Option<Timestamp>,
    pub created_at: Timestamp,
    pub updated_at: Timestamp,
}

impl View for Key {
    type V = KeyView;

    open spec fn view(&self) -> KeyView {
        KeyView {
            description: opt_text(self.description),
            id: self.id@,
            actions: self.actions@,
            indexes: texts(self.indexes@),
            expires_at: self.expires_at,
            created_at: self.created_at,
            updated_at: self.updated_at,
        }
    }
}

/// The view of a key that may have failed to come.
pub open spec fn key_result(r: Result<Key, AuthControllerError>) -> Result<KeyView, AuthControllerError> {
    match r {
        Ok(k) => Ok(k@),
        Err(e) => Err(e),
    }
}

/// Whether `d`, the description field of an input if present, is acceptable.
pub open spec fn description_ok(d: Option<JsonValue>) -> bool {
    d is None || description_of(d->0) is Some
}

/// The first failure met when creating a key from `value` with the clock at
/// `now`, the fields being checked in the order description, actions, indexes,
/// expiration.
pub open spec fn creation_error(value: JsonValue, now: Timestamp) -> Option<AuthControllerError> {
    let d = field_of(value, "description"@);
    let a = field_of(value, "actions"@);
    let i = field_of(value, "indexes"@);
    let e = field_of(value, "expiresAt"@);
    if !description_ok(d) {
        Some(AuthControllerError::InvalidApiKeyDescription(d->0))
    } else if a is None {
        Some(AuthControllerError::MissingParameter("actions"))
    } else if actions_of(a->0) is None {
        Some(AuthControllerError::InvalidApiKeyActions(a->0))
    } else if i is None {
        Some(AuthControllerError::MissingParameter("indexes"))
    } else if indexes_of(i->0) is None {
        Some(AuthControllerError::InvalidApiKeyIndexes(i->0))
    } else if e is None {
        Some(AuthControllerError::MissingParameter("expiresAt"))
    } else if expiration_at(e->0, now) is Err {
        Some(expiration_at(e->0, now)->Err_0)
    } else {
        None
    }
}

/// The key created from a valid `value`, with identifier `id` at time `now`.
pub open spec fn created_view(value: JsonValue, id: Seq<u8>, now: Timestamp) -> KeyView {
    let d = field_of(value, "description"@);
    KeyView {
        description: if d is Some { description_of(d->0)->0 } else { None },
        id,
        actions: actions_of(field_of(value, "actions"@)->0)->0,
        indexes: indexes_of(field_of(value, "indexes"@)->0)->0,
        expires_at: expiration_at(field_of(value, "expiresAt"@)->0, now)->Ok_0,
        created_at: now,
        updated_at: now,
    }
}

/// What creating a key from `value` with identifier `id` at time `now` gives.
pub open spec fn creation(value: JsonValue, id: Seq<u8>, now: Timestamp) -> Result<KeyView, AuthControllerError> {
    match creation_error(value, now) {
        Some(e) => Err(e),
        None => Ok(created_view(value, id, now)),
    }
}

/// The first failure met when updating a key from `value` with the clock at
/// `now`; only the fields present are checked, in the same order as on creation.
pub open spec fn update_error(value: JsonValue, now: Timestamp) -> Option<AuthControllerError> {
    let d = field_of(value, "description"@);
    let a = field_of(value, "actions"@);
    let i = field_of(value, "indexes"@);
    let e = field_of(value, "expiresAt"@);
    if !description_ok(d) {
        Some(AuthControllerError::InvalidApiKeyDescription(d->0))
    } else if a is Some && actions_of(a->0) is None {
        Some(AuthControllerError::InvalidApiKeyActions(a->0))
    } else if i is Some && indexes_of(i->0) is None {
        Some(AuthControllerError::InvalidApiKeyIndexes(i->0))
    } else if e is Some && expiration_at(e->0, now) is Err {
        Some(expiration_at(e->0, now)->Err_0)
    } else {
        None
    }
}

/// Key `k` after a valid update from `value` at time `now`: each field present
/// replaces the old one, the others are kept, and the update time is `now`.
pub open spec fn updated_view(k: KeyView, value: JsonValue, now: Timestamp) -> KeyView {
    let d = field_of(value, "description"@);
    let a = field_of(value, "actions"@);
    let i = field_of(value, "indexes"@);
    let e = field_of(value, "expiresAt"@);
    KeyView {
        description: if d is Some { description_of(d->0)->0 } else { k.description },
        actions: if a is Some { actions_of(a->0)->0 } else { k.actions },
        indexes: if i is Some { indexes_of(i->0)->0 } else { k.indexes },
        expires_at: if e is Some { expiration_at(e->0, now)->Ok_0 } else { k.expires_at },
        updated_at: now,
        ..k
    }
}

/// What updating key `k` from `value` at time `now` gives.
pub open spec fn update_outcome(k: KeyView, value: JsonValue, now: Timestamp) -> Result<KeyView, AuthControllerError> {
    match update_error(value, now) {
        Some(e) => Err(e),
        None => Ok(updated_view(k, value, now)),
    }
}

/// Whether an update of `before` from `value` at time `now` that left the key
/// as `after` and returned `r` is the one described: on success the key is the
/// updated one, on failure it is unchanged.
pub open spec fn update_done(before: KeyView, value: JsonValue, now: Timestamp, after: KeyView, r: Result<(), AuthControllerError>) -> bool {
    match update_outcome(before, value, now) {
        Ok(v) => r is Ok && after == v,
        Err(e) => r == Err::<(), AuthControllerError>(e) && after == before,
    }
}

/// The object entries of `value`, taken out of it; none when it is no object.
fn into_entries(value: JsonValue) -> (r: Vec<(String, JsonValue)>)
    ensures
        forall|k: Seq<char>| #[trigger] crate::json::lookup(r@, k) == field_of(value, k),
{
    match value {
        JsonValue::Object(entries) => entries,
        _ => {
            let r: Vec<(String, JsonValue)> = Vec::new();
            assert forall|k: Seq<char>| #[trigger] crate::json::lookup(r@, k) == field_of(value, k) by {
                assert(r@.len() == 0);
            }
            r
        },
    }
}

/// The fields of an input that a key is made of, taken out of it.
struct KeyFields {
    description: Option<JsonValue>,
    actions: Option<JsonValue>,
    indexes: Option<JsonValue>,
    expires_at: Option<JsonValue>,
}

fn split_fields(value: JsonValue) -> (r: KeyFields)
    ensures
        r.description == field_of(value, "description"@),
        r.actions == field_of(value, "actions"@),
        r.indexes == field_of(value, "indexes"@),
        r.expires_at == field_of(value, "expiresAt"@),
{
    proof {
        reveal_strlit("description");
        reveal_strlit("actions");
        reveal_strlit("indexes");
        reveal_strlit("expiresAt");
        assert("actions"@.len() != "description"@.len());
        assert("indexes"@.len() != "description"@.len());
        assert("expiresAt"@.len() != "description"@.len());
        assert("indexes"@[0] != "actions"@[0]);
        assert("expiresAt"@[0] != "actions"@[0]);
        assert("expiresAt"@[0] != "indexes"@[0]);
    }
    let mut entries = into_entries(value);
    let ghost e0 = entries@;
    let description = take_field(&mut entries, "description");
    let ghost e1 = entries@;
    assert(crate::json::lookup(e1, "actions"@) == crate::json::lookup(e0, "actions"@));
    assert(crate::json::lookup(e1, "indexes"@) == crate::json::lookup(e0, "indexes"@));
    assert(crate::json::lookup(e1, "expiresAt"@) == crate::json::lookup(e0, "expiresAt"@));
    let actions = take_field(&mut entries, "actions");
    let ghost e2 = entries@;
    assert(crate::json::lookup(e2, "indexes"@) == crate::json::lookup(e1, "indexes"@));
    assert(crate::json::lookup(e2, "expiresAt"@) == crate::json::lookup(e1, "expiresAt"@));
    let indexes = take_field(&mut entries, "indexes");
    let ghost e3 = entries@;
    assert(crate::json::lookup(e3, "expiresAt"@) == crate::json::lookup(e2, "expiresAt"@));
    let expires_at = take_field(&mut entries, "expiresAt");
    KeyFields { description, actions, indexes, expires_at }
}

impl Key {
    /// Creates a key from `value`, with identifier `id`, the clock reading `now`.
    pub fn create_from_value_at(value: JsonValue, id: KeyId, now: Timestamp) -> (r: Result<Key, AuthControllerError>)
        ensures
            key_result(r) == creation(value, id@, now),
    {
        let fields = split_fields(value);
        let description = match fields.description {
            None => None,
            Some(d) => match parse_description(d) {
                Ok(d) => d,
                Err(e) => return Err(e),
            },
        };
        let actions = match fields.actions {
            None => return Err(AuthControllerError::MissingParameter("actions")),
            Some(a) => match parse_actions(a) {
                Ok(a) => a,
                Err(e) => return Err(e),
            },
        };
        let indexes = match fields.indexes {
            None => return Err(AuthControllerError::MissingParameter("indexes")),
            Some(i) => match parse_indexes(i) {
                Ok(i) => i,
                Err(e) => return Err(e),
            },
        };
        let expires_at = match fields.expires_at {
            None => return Err(AuthControllerError::MissingParameter("expiresAt")),
            Some(e) => match parse_expiration_date_at(e, now) {
                Ok(e) => e,
                Err(e) => return Err(e),
            },
        };
        let key = Key { description, id, actions, indexes, expires_at, created_at: now, updated_at: now };
        assert(key@ == created_view(value, id@, now));
        Ok(key)
    }

    /// Creates a key from `value`, with a fresh identifier, at the current time.
    pub fn create_from_value(value: JsonValue) -> (r: Result<Key, AuthControllerError>)
        ensures
            exists|id: Seq<u8>, now: Timestamp| is_key_id(id) && key_result(r) == creation(value, id, now),
    {
        let id = generate_id();
        let now = now_utc();
        let r = Self::create_from_value_at(value, id, now);
        assert(is_key_id(id@) && key_result(r) == creation(value, id@, now));
        r
    }

    /// Updates the key from `value`, the clock reading `now`. Every field is
    /// checked before any is written: on failure the key is left as it was.
    pub fn update_from_value_at(&mut self, value: JsonValue, now: Timestamp) -> (r: Result<(), AuthControllerError>)
        ensures
            update_done(old(self)@, value, now, final(self)@, r),
    {
        let fields = split_fields(value);
        let description = match fields.description {
            None => None,
            Some(d) => match parse_description(d) {
                Ok(d) => Some(d),
                Err(e) => return Err(e),
            },
        };
        let actions = match fields.actions {
            None => None,
            Some(a) => match parse_actions(a) {
                Ok(a) => Some(a),
                Err(e) => return Err(e),
            },
        };
        let indexes = match fields.indexes {
            None => None,
            Some(i) => match parse_indexes(i) {
                Ok(i) => Some(i),
                Err(e) => return Err(e),
            },
        };
        let expires_at = match fields.expires_at {
            None => None,
            Some(e) => match parse_expiration_date_at(e, now) {
                Ok(e) => Some(e),
                Err(e) => return Err(e),
            },
        };
        if let Some(d) = description {
            self.description = d;
        }
        if let Some(a) = actions {
            self.actions = a;
        }
        if let Some(i) = indexes {
            self.indexes = i;
        }
        if let Some(e) = expires_at {
            self.expires_at = e;
        }
        self.updated_at = now;
        assert(self@ == updated_view(old(self)@, value, now));
        Ok(())
    }

    /// Updates the key from `value` at the current time.
    pub fn update_from_value(&mut self, value: JsonValue) -> (r: Result<(), AuthControllerError>)
        ensures
            exists|now: Timestamp| update_done(old(self)@, value, now, final(self)@, r),
    {
        let now = now_utc();
        let r = self.update_from_value_at(value, now);
        assert(update_done(old(self)@, value, now, self@, r));
        r
    }

    /// The administrator's key: every capability, on every index, never expiring.
    pub fn default_admin() -> (r: Key)
        ensures
            is_key_id(r@.id),
            r@.description == Some("Default Admin API Key (Use it for all other operations. Caution! Do not use it on a public frontend)"@),
            r@.actions == seq![Action::All],
            r@.indexes == seq!["*"@],
            r@.expires_at is None,
            r@.created_at == r@.updated_at,
    {
        let now = now_utc();
        let key = Key {
            description: Some("Default Admin API Key (Use it for all other operations. Caution! Do not use it on a public frontend)".to_owned()),
            id: generate_id(),
            actions: vec![Action::All],
            indexes: vec!["*".to_owned()],
            expires_at: None,
            created_at: now,
            updated_at: now,
        };
        assert(key@.indexes =~= seq!["*"@]);
        key
    }

    /// The search key: search only, on every index, never expiring.
    pub fn default_search() -> (r: Key)
        ensures
            is_key_id(r@.id),
            r@.description == Some("Default Search API Key (Use it to search from the frontend)"@),
            r@.actions == seq![Action::Search],
            r@.indexes == seq!["*"@],
            r@.expires_at is None,
            r@.created_at == r@.updated_at,
    {
        let now = now_utc();
        let key = Key {
            description: Some("Default Search API Key (Use it to search from the frontend)".to_owned()),
            id: generate_id(),
            actions: vec![Action::Search],
            indexes: vec!["*".to_owned()],
            expires_at: None,
            created_at: now,
            updated_at: now,
        };
        assert(key@.indexes =~= seq!["*"@]);
        key
    }
}

/// An input whose description is absent, null or a string, whose actions and
/// indexes are well-formed lists, and whose expiration is null or a future
/// date, creates a key: it bears the identifier given, and was created and
/// last updated at the same instant.
pub proof fn lemma_valid_input_creates(value: JsonValue, id: Seq<u8>, now: Timestamp)
    requires
        is_key_id(id),
        description_ok(field_of(value, "description"@)),
        field_of(value, "actions"@) is Some,
        actions_of(field_of(value, "actions"@)->0) is Some,
        field_of(value, "indexes"@) is Some,
        indexes_of(field_of(value, "indexes"@)->0) is Some,
        field_of(value, "expiresAt"@) is Some,
        expiration_at(field_of(value, "expiresAt"@)->0, now) is Ok,
    ensures
        creation(value, id, now) is Ok,
        creation(value, id, now)->Ok_0.id == id,
        is_key_id(creation(value, id, now)->Ok_0.id),
        creation(value, id, now)->Ok_0.created_at == creation(value, id, now)->Ok_0.updated_at,
{
}

/// A creation input that lacks actions, indexes or the expiration, all the
/// fields before it being valid, is refused with the name of the missing field.
pub proof fn lemma_missing_field_named(value: JsonValue, id: Seq<u8>, now: Timestamp)
    ensures
        description_ok(field_of(value, "description"@)) && field_of(value, "actions"@) is None
            ==> creation(value, id, now) == Err::<KeyView, AuthControllerError>(
            AuthControllerError::MissingParameter("actions"),
        ),
        description_ok(field_of(value, "description"@)) && field_of(value, "actions"@) is Some
            && actions_of(field_of(value, "actions"@)->0) is Some && field_of(value, "indexes"@) is None
            ==> creation(value, id, now) == Err::<KeyView, AuthControllerError>(
            AuthControllerError::MissingParameter("indexes"),
        ),
        description_ok(field_of(value, "description"@)) && field_of(value, "actions"@) is Some
            && actions_of(field_of(value, "actions"@)->0) is Some && field_of(value, "indexes"@) is Some
            && indexes_of(field_of(value, "indexes"@)->0) is Some && field_of(value, "expiresAt"@) is None
            ==> creation(value, id, now) == Err::<KeyView, AuthControllerError>(
            AuthControllerError::MissingParameter("expiresAt"),
        ),
{
}

/// A key created with a null expiration never expires.
pub proof fn lemma_null_expiration_never_expires(value: JsonValue, id: Seq<u8>, now: Timestamp)
    requires
        field_of(value, "expiresAt"@) == Some(JsonValue::Null),
        creation(value, id, now) is Ok,
    ensures
        creation(value, id, now)->Ok_0.expires_at is None,
{
}

/// An expiration that is not strictly after the creation time is refused.
pub proof fn lemma_past_expiration_refused(value: JsonValue, id: Seq<u8>, now: Timestamp)
    requires
        field_of(value, "expiresAt"@) matches Some(JsonValue::String(s))
            && crate::expiration::instant_of(s@) matches Some(t) && t.unix_nanos <= now.unix_nanos,
    ensures
        creation(value, id, now) is Err,
        description_ok(field_of(value, "description"@)) && field_of(value, "actions"@) is Some
            && actions_of(field_of(value, "actions"@)->0) is Some && field_of(value, "indexes"@) is Some
            && indexes_of(field_of(value, "indexes"@)->0) is Some
            ==> creation(value, id, now) == Err::<KeyView, AuthControllerError>(
            AuthControllerError::InvalidApiKeyExpiresAt(field_of(value, "expiresAt"@)->0),
        ),
{
}

/// An update that carries a valid description and nothing else changes the
/// description and the update time only; the update time moves forward when
/// the clock does.
pub proof fn lemma_description_only_update(k: KeyView, value: JsonValue, now: Timestamp)
    requires
        field_of(value, "description"@) is Some,
        description_of(field_of(value, "description"@)->0) is Some,
        field_of(value, "actions"@) is None,
        field_of(value, "indexes"@) is None,
        field_of(value, "expiresAt"@) is None,
    ensures
        update_outcome(k, value, now) == Ok::<KeyView, AuthControllerError>(
            KeyView { description: description_of(field_of(value, "description"@)->0)->0, updated_at: now, ..k },
        ),
        k.updated_at.unix_nanos < now.unix_nanos
            ==> update_outcome(k, value, now)->Ok_0.updated_at.unix_nanos > k.updated_at.unix_nanos,
{
}

/// An update whose actions are invalid, its description being absent or
/// valid, is refused for its actions and leaves the key entirely unchanged,
/// whatever else it carries.
pub proof fn lemma_invalid_actions_update_rejected(
    k: KeyView,
    value: JsonValue,
    now: Timestamp,
    after: KeyView,
    r: Result<(), AuthControllerError>,
)
    requires
        description_ok(field_of(value, "description"@)),
        field_of(value, "actions"@) is Some,
        actions_of(field_of(value, "actions"@)->0) is None,
        update_done(k, value, now, after, r),
    ensures
        r == Err::<(), AuthControllerError>(
            AuthControllerError::InvalidApiKeyActions(field_of(value, "actions"@)->0),
        ),
        after == k,
{
}

/// An update never touches the identifier or the creation time, and one made
/// no earlier than the last keeps the creation time at or before the update time.
pub proof fn lemma_update_keeps_identity(k: KeyView, value: JsonValue, now: Timestamp)
    requires
        update_outcome(k, value, now) is Ok,
    ensures
        update_outcome(k, value, now)->Ok_0.id == k.id,
        update_outcome(k, value, now)->Ok_0.created_at == k.created_at,
        k.created_at.unix_nanos <= k.updated_at.unix_nanos <= now.unix_nanos
            ==> update_outcome(k, value, now)->Ok_0.created_at.unix_nanos
            <= update_outcome(k, value, now)->Ok_0.updated_at.unix_nanos,
{
}

} // verus!
