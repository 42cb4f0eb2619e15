//! An in-memory model of a JSON document.
//!
//! The decoders in this crate work on this tree, never on raw text: the
//! parsing of bytes into the tree is delegated to an outside JSON library
//! (see `decode::parse_json`), and everything from the tree to the typed
//! records is verified. Numbers are kept exactly as the wire had them: a
//! non-negative integer, a negative integer, or any other number as its
//! decimal text, so that nothing is lost to rounding before a decoder
//! chooses what to do with the value.

use vstd::prelude::*;

verus! {

/// A JSON number: a non-negative integer, a negative integer, or any other
/// number (a fraction or an exponent form) carried as its decimal text.
#[derive(Clone, Debug)]
pub enum JsonNumber {
    PosInt(u64),
    NegInt(i64),
    Float(String),
}

/// The mathematical image of a `JsonNumber`: the text of a non-integral
/// number becomes a sequence of characters.
pub enum JsonNumberV {
    PosInt(u64),
    NegInt(i64),
    Float(Seq<char>),
}

impl DeepView for JsonNumber {
    type V = JsonNumberV;

    open spec fn deep_view(&self) -> JsonNumberV {
        match self {
            JsonNumber::PosInt(n) => JsonNumberV::PosInt(*n),
            JsonNumber::NegInt(n) => JsonNumberV::NegInt(*n),
            JsonNumber::Float(t) => JsonNumberV::Float(t@),
        }
    }
}

/// A JSON document. An object is kept as the sequence of its fields in
/// order; `spec_lookup` below says which field a key denotes (the first
/// one of that name).
#[derive(Debug)]
pub enum JsonValue {
    Null,
    Bool(bool),
    Num(JsonNumber),
    Str(String),
    Arr(Vec<JsonValue>),
    Obj(Vec<(String, JsonValue)>),
}

/// The field a key denotes in an object's field list: the first pair whose
/// name reads as `key`.
pub open spec fn spec_lookup(fields: Seq<(String, JsonValue)>, key: Seq<char>) -> Option<JsonValue>
    decreases fields.len(),
{
    if fields.len() == 0 {
        None
    } else if fields[0].0@ == key {
        Some(fields[0].1)
    } else {
        spec_lookup(fields.drop_first(), key)
    }
}

/// Whether two string slices read the same.
pub fn str_eq(a: &str, b: &str) -> (r: bool)
    ensures
        r == (a@ == b@),
{
    let sa: String = a.to_owned();
    let sb: String = b.to_owned();
    sa == sb
}

/// Finds the field `key` denotes in an object's field list, as
/// `spec_lookup` defines it.
pub fn lookup<'a>(fields: &'a Vec<(String, JsonValue)>, key: &str) -> (r: Option<&'a JsonValue>)
    ensures
        match r {
            Some(v) => spec_lookup(fields@, key@) == Some(*v),
            None => spec_lookup(fields@, key@) is None,
        },
{
    let n: usize = fields.len();
    let mut i: usize = 0;
    proof {
        assert(fields@.skip(0) =~= fields@);
    }
    while i < n
        invariant
            0 <= i <= n,
            n == fields@.len(),
            spec_lookup(fields@, key@) == spec_lookup(fields@.skip(i as int), key@),
        decreases n - i,
    {
        let pair = &fields[i];
        proof {
            assert(fields@.skip(i as int)[0] == fields@[i as int]);
        }
        if str_eq(pair.0.as_str(), key) {
            return Some(&pair.1);
        }
        proof {
            assert(fields@.skip(i as int).drop_first() =~= fields@.skip(i as int + 1));
        }
        i = i + 1;
    }
    proof {
        assert(fields@.skip(n as int) =~= Seq::<(String, JsonValue)>::empty());
    }
    None
}

} // verus!
