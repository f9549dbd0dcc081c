//! Record ids as they travel in paths, bodies and sessions: 24 hexadecimal digits.

use vstd::prelude::*;

use crate::outside::{is_object_id_text, object_id_bytes, object_id_parse};

verus! {

/// The 12 bytes of a record id.
#[derive(Clone, Debug)]
pub struct ObjectKey {
    pub bytes: Vec<u8>,
}

impl View for ObjectKey {
    type V = Seq<u8>;

    open spec fn view(&self) -> Seq<u8> {
        self.bytes@
    }
}

/// The view of an optional record id.
pub open spec fn key_view(k: Option<ObjectKey>) -> Option<Seq<u8>> {
    match k {
        Some(v) => Some(v@),
        None => None,
    }
}

/// The record id a text stands for: the id it spells, or none when it is not a record id.
pub open spec fn key_of_text(text: Seq<char>) -> Option<Seq<u8>> {
    if is_object_id_text(text) {
        Some(object_id_bytes(text))
    } else {
        None
    }
}

/// The record id that `s` spells, or `None` when `s` is not 24 hexadecimal digits.
pub fn parse_object_id(s: &str) -> (r: Option<ObjectKey>)
    ensures
        r is Some <==> is_object_id_text(s@),
        r matches Some(k) ==> k@ == object_id_bytes(s@),
{
    match object_id_parse(s) {
        Some(b) => Some(ObjectKey { bytes: b }),
        None => None,
    }
}

} // verus!
