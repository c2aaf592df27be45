//! A list of x25519 public keys written as a list of hex strings.

use vstd::prelude::*;

use crate::crypto::{
    grin_from_hex, hex_decode, hex_encode, hex_lower, is_lower_hex, lemma_hex_lower_injective, lemma_hex_lower_shape,
    str_trim, trim_whitespace,
};
use crate::error::Error;
use crate::mwixnet::types::XPublicKey;

verus! {

/// The hex strings of the keys, in order.
pub fn serialize(keys: &Vec<XPublicKey>) -> (r: Vec<String>)
    ensures
        r@.len() == keys@.len(),
        forall|i: int| 0 <= i < keys@.len() ==> (#[trigger] r@[i])@ == hex_lower(keys@[i]@),
{
    let mut hexes: Vec<String> = Vec::new();
    let mut i: usize = 0;
    while i < keys.len()
        invariant
            i <= keys@.len(),
            hexes@.len() == i,
            forall|j: int| 0 <= j < i ==> (#[trigger] hexes@[j])@ == hex_lower(keys@[j]@),
        decreases keys@.len() - i,
    {
        hexes.push(hex_encode(keys[i].as_slice()));
        i = i + 1;
    }
    hexes
}

/// The hex string `text` decodes to a 32-byte key, and is ASCII once
/// trimmed of whitespace, as the decoder reads it.
pub open spec fn decodes_to_key(text: Seq<char>) -> bool {
    &&& vstd::utf8::is_ascii_chars(str_trim(text))
    &&& grin_from_hex(text) matches Ok(b) && b.len() == 32
}

/// What `deserialize` gives for the strings `hexes`: keys exactly when every
/// string decodes to a key, each the bytes its string decodes to, and the
/// bytes whose lowercase hex a lowercase string is; otherwise the error of
/// the first string that does not decode to a key.
pub open spec fn deserialized(hexes: Seq<String>, r: Result<Vec<XPublicKey>, Error>) -> bool {
    &&& r is Ok <==> forall|i: int| 0 <= i < hexes.len() ==> decodes_to_key(#[trigger] hexes[i]@)
    &&& (forall|i: int| 0 <= i < hexes.len() ==> (#[trigger] hexes[i]@).len() == 64 && is_lower_hex(hexes[i]@))
        ==> r is Ok
    &&& r matches Ok(keys) ==> {
        &&& keys@.len() == hexes.len()
        &&& forall|i: int| 0 <= i < hexes.len()
            ==> grin_from_hex(hexes[i]@) == Ok::<Seq<u8>, Seq<char>>((#[trigger] keys@[i])@)
        &&& forall|i: int| 0 <= i < hexes.len() && is_lower_hex(hexes[i]@)
            ==> hex_lower((#[trigger] keys@[i])@) == hexes[i]@
    }
    &&& r matches Err(e) ==> exists|i: int| {
        &&& 0 <= i < hexes.len()
        &&& !decodes_to_key(hexes[i]@)
        &&& forall|j: int| 0 <= j < i ==> decodes_to_key(#[trigger] hexes[j]@)
        &&& if !vstd::utf8::is_ascii_chars(str_trim(hexes[i]@)) {
            e matches Error::InvalidHex(s) && s@ == hexes[i]@
        } else {
            match grin_from_hex(hexes[i]@) {
                Ok(b) => e == Error::XPubKeyLength(b.len() as usize),
                Err(t) => e matches Error::InvalidHex(s) && s@ == t,
            }
        }
    }
}

/// Reads the keys back from their hex strings. Fails on the first string that
/// is not ASCII once trimmed of whitespace or is not hex, with its text (as
/// the decoder reports it), or that does not decode to 32 bytes.
pub fn deserialize(hexes: &Vec<String>) -> (r: Result<Vec<XPublicKey>, Error>)
    ensures
        deserialized(hexes@, r),
{
    let mut keys: Vec<XPublicKey> = Vec::new();
    let mut i: usize = 0;
    while i < hexes.len()
        invariant
            i <= hexes@.len(),
            keys@.len() == i,
            forall|j: int| 0 <= j < i ==> decodes_to_key(#[trigger] hexes@[j]@),
            forall|j: int| 0 <= j < i ==> grin_from_hex(hexes@[j]@) == Ok::<Seq<u8>, Seq<char>>((#[trigger] keys@[j])@),
            forall|j: int| 0 <= j < i && is_lower_hex(hexes@[j]@) ==> hex_lower((#[trigger] keys@[j])@) == hexes@[j]@,
        decreases hexes@.len() - i,
    {
        // The decoder reads the text trimmed of whitespace two bytes at a time
        let trimmed = trim_whitespace(hexes[i].as_str());
        if !trimmed.is_ascii() {
            return Err(Error::InvalidHex(hexes[i].clone()));
        }
        let bytes = match hex_decode(hexes[i].as_str()) {
            Ok(b) => b,
            Err(t) => return Err(Error::InvalidHex(t)),
        };
        if bytes.len() != 32 {
            proof {
                lemma_hex_lower_shape(bytes@);
            }
            return Err(Error::XPubKeyLength(bytes.len()));
        }
        let mut key = [0u8; 32];
        let mut j: usize = 0;
        while j < 32
            invariant
                j <= 32,
                bytes@.len() == 32,
                forall|k: int| 0 <= k < j ==> key@[k] == bytes@[k],
            decreases 32 - j,
        {
            key[j] = bytes[j];
            j = j + 1;
        }
        assert(key@ =~= bytes@);
        keys.push(key);
        i = i + 1;
    }
    Ok(keys)
}

/// Keys written by `serialize` read back by `deserialize` as the same keys.
pub proof fn lemma_keys_read_back(keys: Seq<XPublicKey>, hexes: Seq<String>, r: Result<Vec<XPublicKey>, Error>)
    requires
        hexes.len() == keys.len(),
        forall|i: int| 0 <= i < keys.len() ==> (#[trigger] hexes[i])@ == hex_lower(keys[i]@),
        deserialized(hexes, r),
    ensures
        r matches Ok(read) && read@ == keys,
{
    assert forall|i: int| 0 <= i < hexes.len() implies (#[trigger] hexes[i]@).len() == 64 && is_lower_hex(hexes[i]@) by {
        lemma_hex_lower_shape(keys[i]@);
    }
    let read = r->Ok_0;
    assert forall|i: int| 0 <= i < keys.len() implies #[trigger] read@[i] == keys[i] by {
        lemma_hex_lower_shape(keys[i]@);
        lemma_hex_lower_injective(read@[i]@, keys[i]@);
        assert(read@[i] =~= keys[i]);
    }
    assert(read@ =~= keys);
}

} // verus!
