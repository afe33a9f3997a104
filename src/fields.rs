//! Reading the fields of a key from untyped values.

use vstd::prelude::*;

use crate::action::{tag_action, Action};
use crate::error::AuthControllerError;
use crate::json::JsonValue;

verus! {

/// The views of a list of strings.
pub open spec fn texts(v: Seq<String>) -> Seq<Seq<char>> {
    v.map_values(|s: String| s@)
}

/// The view of an optional string.
pub open spec fn opt_text(o: Option<String>) -> Option<Seq<char>> {
    match o {
        Some(s) => Some(s@),
        None => None,
    }
}

/// A description read from `v`: null means none, a string is taken as it is,
/// anything else is invalid (`None`).
pub open spec fn description_of(v: JsonValue) -> Option<Option<Seq<char>>> {
    match v {
        JsonValue::Null => Some(None),
        JsonValue::String(s) => Some(Some(s@)),
        _ => None,
    }
}

/// The capability that the `i`-th item names, if it is a string naming one.
pub open spec fn tag_at(items: Seq<JsonValue>, i: int) -> Option<Action> {
    match items[i] {
        JsonValue::String(s) => tag_action(s@),
        _ => None,
    }
}

/// The capabilities listed by `v`, if it is an array of capability tags.
pub open spec fn actions_of(v: JsonValue) -> Option<Seq<Action>> {
    match v {
        JsonValue::Array(items) => if forall|i: int| 0 <= i < items@.len() ==> #[trigger] tag_at(items@, i) is Some {
            Some(Seq::new(items@.len(), |i: int| tag_at(items@, i)->0))
        } else {
            None
        },
        _ => None,
    }
}

/// The text of the `i`-th item, if it is a string.
pub open spec fn text_at(items: Seq<JsonValue>, i: int) -> Option<Seq<char>> {
    match items[i] {
        JsonValue::String(s) => Some(s@),
        _ => None,
    }
}

/// The strings listed by `v`, if it is an array of strings.
pub open spec fn indexes_of(v: JsonValue) -> Option<Seq<Seq<char>>> {
    match v {
        JsonValue::Array(items) => if forall|i: int| 0 <= i < items@.len() ==> #[trigger] text_at(items@, i) is Some {
            Some(Seq::new(items@.len(), |i: int| text_at(items@, i)->0))
        } else {
            None
        },
        _ => None,
    }
}

/// Reads a description.
pub fn parse_description(value: JsonValue) -> (r: Result<Option<String>, AuthControllerError>)
    ensures
        match r {
            Ok(d) => description_of(value) == Some(opt_text(d)),
            Err(e) => description_of(value) is None && e == AuthControllerError::InvalidApiKeyDescription(value),
        },
{
    match value {
        JsonValue::Null => Ok(None),
        JsonValue::String(s) => Ok(Some(s)),
        other => Err(AuthControllerError::InvalidApiKeyDescription(other)),
    }
}

/// Reads a list of capabilities.
pub fn parse_actions(value: JsonValue) -> (r: Result<Vec<Action>, AuthControllerError>)
    ensures
        match r {
            Ok(a) => actions_of(value) == Some(a@),
            Err(e) => actions_of(value) is None && e == AuthControllerError::InvalidApiKeyActions(value),
        },
{
    match value {
        JsonValue::Array(items) => {
            let mut out: Vec<Action> = Vec::new();
            let mut i: usize = 0;
            while i < items.len()
                invariant
                    value == JsonValue::Array(items),
                    i <= items@.len(),
                    out@.len() == i,
                    forall|j: int| 0 <= j < i ==> #[trigger] tag_at(items@, j) == Some(out@[j]),
                decreases items@.len() - i,
            {
                let found = match &items[i] {
                    JsonValue::String(s) => Action::from_tag(s),
                    _ => None,
                };
                match found {
                    Some(a) => out.push(a),
                    None => {
                        assert(tag_at(items@, i as int) is None);
                        return Err(AuthControllerError::InvalidApiKeyActions(JsonValue::Array(items)));
                    },
                }
                i = i + 1;
            }
            assert(out@ =~= Seq::new(items@.len(), |j: int| tag_at(items@, j)->0));
            Ok(out)
        },
        other => Err(AuthControllerError::InvalidApiKeyActions(other)),
    }
}

/// Reads a list of index patterns.
pub fn parse_indexes(value: JsonValue) -> (r: Result<Vec<String>, AuthControllerError>)
    ensures
        match r {
            Ok(x) => indexes_of(value) == Some(texts(x@)),
            Err(e) => indexes_of(value) is None && e == AuthControllerError::InvalidApiKeyIndexes(value),
        },
{
    match value {
        JsonValue::Array(items) => {
            let mut out: Vec<String> = Vec::new();
            let mut i: usize = 0;
            while i < items.len()
                invariant
                    value == JsonValue::Array(items),
                    i <= items@.len(),
                    out@.len() == i,
                    forall|j: int| 0 <= j < i ==> #[trigger] text_at(items@, j) == Some(out@[j]@),
                decreases items@.len() - i,
            {
                match &items[i] {
                    JsonValue::String(s) => out.push(s.clone()),
                    _ => {
                        assert(text_at(items@, i as int) is None);
                        return Err(AuthControllerError::InvalidApiKeyIndexes(JsonValue::Array(items)));
                    },
                }
                i = i + 1;
            }
            assert(texts(out@) =~= Seq::new(items@.len(), |j: int| text_at(items@, j)->0));
            Ok(out)
        },
        other => Err(AuthControllerError::InvalidApiKeyIndexes(other)),
    }
}

} // verus!
