//! A dynamically typed value, as found in a decoded JSON document.

use vstd::prelude::*;

verus! {

/// A JSON value. Numbers are kept in their textual form: the key logic never
/// reads them, it only reports them back in errors.
#[derive(Debug)]
pub enum JsonValue {
    Null,
    Bool(bool),
    Number(String),
    String(String),
    Array(Vec<JsonValue>),
    Object(Vec<(String, JsonValue)>),
}

/// The value bound to `key` in a list of object entries: the first entry
/// carrying that key wins.
pub open spec fn lookup(entries: Seq<(String, JsonValue)>, key: Seq<char>) -> Option<JsonValue>
    decreases entries.len(),
{
    if entries.len() == 0 {
        None
    } else if entries[0].0@ == key {
        Some(entries[0].1)
    } else {
        lookup(entries.drop_first(), key)
    }
}

/// The value bound to `key` when `v` is an object; nothing otherwise.
pub open spec fn field_of(v: JsonValue, key: Seq<char>) -> Option<JsonValue> {
    match v {
        JsonValue::Object(entries) => lookup(entries@, key),
        _ => None,
    }
}

/// Whether `s` holds exactly the characters of `lit`.
pub fn text_is(s: &String, lit: &str) -> (r: bool)
    ensures
        r == (s@ == lit@),
{
    let owned = lit.to_owned();
    s.eq(&owned)
}

/// Removing an entry with key `k` leaves the lookup of every other key unchanged,
/// provided the removed entry is the first one with that key.
proof fn lemma_remove_keeps_others(entries: Seq<(String, JsonValue)>, i: int, k: Seq<char>, other: Seq<char>)
    requires
        0 <= i < entries.len(),
        entries[i].0@ == k,
        forall|j: int| 0 <= j < i ==> entries[j].0@ != k,
        other != k,
    ensures
        lookup(entries.remove(i), other) == lookup(entries, other),
    decreases i,
{
    if i > 0 {
        assert(entries.remove(i).drop_first() =~= entries.drop_first().remove(i - 1));
        assert forall|j: int| 0 <= j < i - 1 implies entries.drop_first()[j].0@ != k by {
            assert(entries.drop_first()[j] == entries[j + 1]);
        }
        lemma_remove_keeps_others(entries.drop_first(), i - 1, k, other);
    } else {
        assert(entries.remove(0) =~= entries.drop_first());
    }
}

/// Looking a key up gives the first entry that carries it.
proof fn lemma_lookup_first(entries: Seq<(String, JsonValue)>, i: int, k: Seq<char>)
    requires
        0 <= i < entries.len(),
        entries[i].0@ == k,
        forall|j: int| 0 <= j < i ==> entries[j].0@ != k,
    ensures
        lookup(entries, k) == Some(entries[i].1),
    decreases i,
{
    if i > 0 {
        assert forall|j: int| 0 <= j < i - 1 implies entries.drop_first()[j].0@ != k by {
            assert(entries.drop_first()[j] == entries[j + 1]);
        }
        lemma_lookup_first(entries.drop_first(), i - 1, k);
    }
}

/// No entry carries the key: the lookup finds nothing.
proof fn lemma_lookup_absent(entries: Seq<(String, JsonValue)>, k: Seq<char>)
    requires
        forall|j: int| 0 <= j < entries.len() ==> entries[j].0@ != k,
    ensures
        lookup(entries, k) == None::<JsonValue>,
    decreases entries.len(),
{
    if entries.len() > 0 {
        assert forall|j: int| 0 <= j < entries.len() - 1 implies entries.drop_first()[j].0@ != k by {
            assert(entries.drop_first()[j] == entries[j + 1]);
        }
        lemma_lookup_absent(entries.drop_first(), k);
    }
}

/// Takes out of `entries` the value bound to `key`, removing its entry; the
/// lookup of every other key is left as it was.
pub fn take_field(entries: &mut Vec<(String, JsonValue)>, key: &str) -> (r: Option<JsonValue>)
    ensures
        r == lookup(old(entries)@, key@),
        forall|other: Seq<char>|
            other != key@ ==> #[trigger] lookup(final(entries)@, other) == lookup(old(entries)@, other),
{
    let mut i: usize = 0;
    while i < entries.len()
        invariant
            0 <= i <= entries.len(),
            entries@ == old(entries)@,
            forall|j: int| 0 <= j < i ==> entries@[j].0@ != key@,
        decreases entries.len() - i,
    {
        if text_is(&entries[i].0, key) {
            proof {
                lemma_lookup_first(entries@, i as int, key@);
                assert forall|other: Seq<char>| other != key@ implies
                    #[trigger] lookup(entries@.remove(i as int), other) == lookup(entries@, other) by {
                    lemma_remove_keeps_others(entries@, i as int, key@, other);
                }
            }
            let ghost before = entries@;
            let (_, value) = entries.remove(i);
            assert(entries@ == before.remove(i as int));
            return Some(value);
        }
        i = i + 1;
    }
    proof {
        lemma_lookup_absent(entries@, key@);
    }
    None
}

} // verus!
