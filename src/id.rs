use vstd::prelude::*;

verus! {

/// The twelve bytes of a record's identifier, as the store assigns them.
#[derive(Clone, Copy, Debug, Eq, Hash)]
pub struct GameId {
    pub bytes: [u8; 12],
}

/// A digit of base sixteen, in either case.
pub open spec fn is_hex_digit(c: char) -> bool {
    (('0' as u32) <= (c as u32) && (c as u32) <= ('9' as u32))
        || (('a' as u32) <= (c as u32) && (c as u32) <= ('f' as u32))
        || (('A' as u32) <= (c as u32) && (c as u32) <= ('F' as u32))
}

/// A digit of base sixteen written in lower case.
pub open spec fn is_lower_hex_digit(c: char) -> bool {
    (('0' as u32) <= (c as u32) && (c as u32) <= ('9' as u32))
        || (('a' as u32) <= (c as u32) && (c as u32) <= ('f' as u32))
}

/// The value of a digit of base sixteen.
pub open spec fn hex_value(c: char) -> int {
    if (c as u32) <= ('9' as u32) {
        (c as u32) - ('0' as u32)
    } else if (c as u32) <= ('F' as u32) {
        (c as u32) - ('A' as u32) + 10
    } else {
        (c as u32) - ('a' as u32) + 10
    }
}

/// `s` spells the bytes `b`, two digits per byte, the high digit first.
pub open spec fn decodes_to(s: Seq<char>, b: Seq<u8>) -> bool {
    &&& s.len() == 2 * b.len()
    &&& forall|i: int|
        0 <= i < b.len() ==> b[i] as int == 16 * hex_value(#[trigger] s[2 * i]) + hex_value(
            s[2 * i + 1],
        )
}

/// The text form of an identifier: twenty-four digits of base sixteen.
pub open spec fn is_id_text(s: Seq<char>) -> bool {
    &&& s.len() == 24
    &&& forall|i: int| 0 <= i < s.len() ==> is_hex_digit(#[trigger] s[i])
}

/// `s` is the lower-case text form of the bytes `b`.
pub open spec fn lower_hex_of(s: Seq<char>, b: Seq<u8>) -> bool {
    &&& decodes_to(s, b)
    &&& forall|i: int| 0 <= i < s.len() ==> is_lower_hex_digit(#[trigger] s[i])
}

/// Relies on bson's `ObjectId::parse_str`, which decodes the text with
/// `hex::decode` and accepts exactly twelve bytes.
#[verifier::external_body]
fn parse_object_id(s: &str) -> (r: Option<[u8; 12]>)
    ensures
        r.is_some() <==> is_id_text(s@),
        r matches Some(b) ==> decodes_to(s@, b@),
{
    bson::oid::ObjectId::parse_str(s).ok().map(|o| o.bytes())
}

/// Relies on bson's `ObjectId::to_hex`, which is `hex::encode` of the bytes:
/// two lower-case digits per byte.
#[verifier::external_body]
fn object_id_hex(bytes: [u8; 12]) -> (r: String)
    ensures
        lower_hex_of(r@, bytes@),
{
    bson::oid::ObjectId::from_bytes(bytes).to_hex()
}

impl GameId {
    /// Reads the text form of an identifier; `None` where `s` is not one.
    pub fn parse(s: &str) -> (r: Option<GameId>)
        ensures
            r.is_some() <==> is_id_text(s@),
            r matches Some(g) ==> decodes_to(s@, g.bytes@),
    {
        match parse_object_id(s) {
            Some(b) => Some(GameId { bytes: b }),
            None => None,
        }
    }

    /// The text form of the identifier, in lower case.
    pub fn to_hex(&self) -> (r: String)
        ensures
            lower_hex_of(r@, self.bytes@),
    {
        object_id_hex(self.bytes)
    }
}

impl PartialEq for GameId {
    fn eq(&self, other: &GameId) -> (r: bool)
        ensures
            r == (self.bytes@ == other.bytes@),
    {
        let mut i: usize = 0;
        while i < 12
            invariant
                i <= 12,
                forall|j: int| 0 <= j < i ==> self.bytes@[j] == other.bytes@[j],
            decreases 12 - i,
        {
            if self.bytes[i] != other.bytes[i] {
                return false;
            }
            i = i + 1;
        }
        assert(self.bytes@ =~= other.bytes@);
        true
    }
}

impl vstd::std_specs::cmp::PartialEqSpecImpl for GameId {
    open spec fn obeys_eq_spec() -> bool {
        true
    }

    open spec fn eq_spec(&self, other: &GameId) -> bool {
        self.bytes@ == other.bytes@
    }
}

/// Text decodes to one byte sequence at most.
proof fn lemma_decode_unique(s: Seq<char>, a: Seq<u8>, b: Seq<u8>)
    requires
        decodes_to(s, a),
        decodes_to(s, b),
    ensures
        a == b,
{
    assert forall|i: int| 0 <= i < a.len() implies a[i] == b[i] by {
        assert(a[i] as int == 16 * hex_value(s[2 * i]) + hex_value(s[2 * i + 1]));
        assert(b[i] as int == 16 * hex_value(s[2 * i]) + hex_value(s[2 * i + 1]));
    }
    assert(a =~= b);
}

/// The text that `to_hex` gives for an identifier is read back by `parse` as
/// that same identifier.
pub proof fn lemma_text_round_trip(id: GameId, text: Seq<char>)
    requires
        lower_hex_of(text, id.bytes@),
    ensures
        is_id_text(text),
        forall|b: Seq<u8>| decodes_to(text, b) ==> b == id.bytes@,
{
    assert forall|i: int| 0 <= i < text.len() implies is_hex_digit(#[trigger] text[i]) by {
        assert(is_lower_hex_digit(text[i]));
    }
    assert forall|b: Seq<u8>| decodes_to(text, b) implies b == id.bytes@ by {
        lemma_decode_unique(text, b, id.bytes@);
    }
}

} // verus!
