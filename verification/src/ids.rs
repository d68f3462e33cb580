//! Identifiers of users, snakes, tournaments and everything else that is
//! stored.

use vstd::prelude::*;

verus! {

/// A 128-bit identifier.
#[derive(Clone, Copy, Debug, PartialEq, Eq, Hash, Structural)]
pub struct Id {
    pub bits: u128,
}

/// The lower-case hexadecimal digit `d`.
pub open spec fn hex_char(d: int) -> char {
    if d < 10 {
        (d + 48) as char
    } else {
        (d + 87) as char
    }
}

/// The last `k` hexadecimal digits of `v`.
pub open spec fn hex(v: nat, k: nat) -> Seq<char>
    decreases k,
{
    if k == 0 {
        Seq::empty()
    } else {
        hex(v / 16, (k - 1) as nat).push(hex_char((v % 16) as int))
    }
}

impl Id {
    /// The hyphenated form of an identifier: 32 hexadecimal digits in groups
    /// of 8, 4, 4, 4 and 12.
    pub open spec fn text(self) -> Seq<char> {
        let v = self.bits as nat;
        hex(v / 0x1_0000_0000_0000_0000_0000_0000nat, 8) + seq!['-'] + hex(
            v / 0x1_0000_0000_0000_0000_0000nat,
            4,
        ) + seq!['-'] + hex(v / 0x1_0000_0000_0000_0000nat, 4) + seq!['-'] + hex(
            v / 0x1_0000_0000_0000nat,
            4,
        ) + seq!['-'] + hex(v, 12)
    }

    /// The identifier with the given bits.
    pub fn from_u128(bits: u128) -> (r: Id)
        ensures
            r == (Id { bits }),
    {
        Id { bits }
    }
}

/// `uuid::Uuid::from_u128` and the `Display` of `uuid::Uuid`: the identifier
/// with these 128 bits, written in lower-case hexadecimal, most significant
/// digit first, with hyphens after 8, 12, 16 and 20 digits.
#[verifier::external_body]
pub(crate) fn id_text(id: Id) -> (r: String)
    ensures
        r@ == id.text(),
{
    uuid::Uuid::from_u128(id.bits).to_string()
}

/// Whether an optional identifier is the given one.
pub fn is_id(candidate: Option<Id>, id: Id) -> (r: bool)
    ensures
        r == (candidate == Some(id)),
{
    match candidate {
        Some(c) => c == id,
        None => false,
    }
}

} // verus!
