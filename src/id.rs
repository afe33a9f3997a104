//! Key identifiers: fixed-length strings of letters and digits, drawn at random.

use vstd::prelude::*;

use rand::Rng;

verus! {

/// The number of characters in a key identifier.
pub const KEY_ID_LENGTH: usize = 64;

/// The number of symbols an identifier is drawn from.
pub const ID_ALPHABET_SIZE: usize = 62;

/// A key identifier, as ASCII bytes.
pub type KeyId = [u8; KEY_ID_LENGTH];

/// The symbol at position `i` of the alphabet `a..z`, `0..9`, `A..Z`.
pub open spec fn alphabet_symbol(i: int) -> u8
    recommends
        0 <= i < ID_ALPHABET_SIZE,
{
    if i < 26 {
        (97 + i) as u8
    } else if i < 36 {
        (48 + (i - 26)) as u8
    } else {
        (65 + (i - 36)) as u8
    }
}

/// Whether `b` is a lower-case ASCII letter, an ASCII digit or an upper-case ASCII letter.
pub open spec fn is_id_symbol(b: u8) -> bool {
    (97 <= b <= 122) || (48 <= b <= 57) || (65 <= b <= 90)
}

/// Whether `id` is a well-formed identifier: the right length, every byte from the alphabet.
pub open spec fn is_key_id(id: Seq<u8>) -> bool {
    &&& id.len() == KEY_ID_LENGTH
    &&& forall|i: int| 0 <= i < id.len() ==> is_id_symbol(#[trigger] id[i])
}

/// Relies on `rand::thread_rng` and `Rng::gen_range`, which panics on an empty
/// range: a value drawn from `0..bound`.
#[verifier::external_body]
fn random_below(bound: usize) -> (r: usize)
    requires
        bound > 0,
    ensures
        r < bound,
{
    rand::thread_rng().gen_range(0..bound)
}

/// The alphabet's symbol for a random draw.
pub fn id_symbol(draw: usize) -> (r: u8)
    requires
        draw < ID_ALPHABET_SIZE,
    ensures
        r == alphabet_symbol(draw as int),
        is_id_symbol(r),
{
    if draw < 26 {
        97 + draw as u8
    } else if draw < 36 {
        48 + (draw - 26) as u8
    } else {
        65 + (draw - 36) as u8
    }
}

/// A fresh identifier, each character drawn uniformly from the alphabet.
pub fn generate_id() -> (r: KeyId)
    ensures
        is_key_id(r@),
{
    let mut bytes: KeyId = [0u8; KEY_ID_LENGTH];
    let mut i: usize = 0;
    while i < KEY_ID_LENGTH
        invariant
            i <= KEY_ID_LENGTH,
            forall|j: int| 0 <= j < i ==> is_id_symbol(#[trigger] bytes@[j]),
        decreases KEY_ID_LENGTH - i,
    {
        let draw = random_below(ID_ALPHABET_SIZE);
        bytes[i] = id_symbol(draw);
        i = i + 1;
    }
    bytes
}

} // verus!
