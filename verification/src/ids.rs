//! Identifiers of the billing's records.

use vstd::prelude::*;
use vstd::string::StringSliceAdditionalSpecFns;
use vstd::utf8::encode_utf8;
use vstd::utf8::is_ascii_chars_encode_utf8;
use crate::text::{
    IntErrorKind, parse_i32_spec, int_text, ascii_bytes, lemma_int_text_parses_back, parse_i32, int_to_string,
    i32_text_parses_exactly, i32_text_value, is_i32_text,
};

verus! {

/// The identifier of a user.
#[derive(Clone, Copy, Debug, PartialEq, Eq, Structural)]
pub struct UserId(pub i32);

impl Default for UserId {
    /// The user identifier zero.
    fn default() -> (u: UserId)
        ensures
            u == UserId(0),
    {
        UserId(0)
    }
}

/// What reading a user identifier from the bytes of a text gives.
pub open spec fn user_id_from_bytes(bytes: Seq<u8>) -> Result<UserId, IntErrorKind> {
    match parse_i32_spec(bytes) {
        Ok(v) => Ok(UserId(v as i32)),
        Err(e) => Err(e),
    }
}

impl UserId {
    pub fn new(id: i32) -> (u: UserId)
        ensures
            u.0 == id,
    {
        UserId(id)
    }

    pub fn inner(&self) -> (id: i32)
        ensures
            id == self.0,
    {
        self.0
    }

    /// Reads a user identifier from its decimal text.
    pub fn from_str(s: &str) -> (r: Result<UserId, IntErrorKind>)
        ensures
            r == user_id_from_bytes(s.spec_bytes()),
    {
        match parse_i32(s.as_bytes()) {
            Ok(v) => Ok(UserId(v)),
            Err(e) => Err(e),
        }
    }

    /// The decimal text of the identifier.
    pub fn to_string(&self) -> (s: String)
        ensures
            s@ == int_text(self.0 as int),
    {
        int_to_string(self.0 as i64)
    }
}

/// Reading back the text that `UserId::to_string` writes gives the same
/// identifier.
pub proof fn user_id_text_round_trip(id: UserId)
    ensures
        user_id_from_bytes(encode_utf8(int_text(id.0 as int))) == Ok::<UserId, IntErrorKind>(id),
{
    lemma_int_text_parses_back(id.0);
    is_ascii_chars_encode_utf8(int_text(id.0 as int));
    assert(encode_utf8(int_text(id.0 as int)) =~= ascii_bytes(int_text(id.0 as int)));
}

/// A text reads as a user identifier exactly when it is the decimal text
/// of an `i32` (an optional sign, then digits only, in range), and then as
/// the identifier of that value; every other text, such as `4x` or the
/// empty text, is refused.
pub proof fn user_id_text_accepted_exactly(bytes: Seq<u8>)
    ensures
        user_id_from_bytes(bytes) is Ok <==> is_i32_text(bytes),
        user_id_from_bytes(bytes) matches Ok(u) ==> u.0 == i32_text_value(bytes),
{
    i32_text_parses_exactly(bytes);
}

/// The identifier of a store.
#[derive(Clone, Copy, Debug, PartialEq, Eq, Structural, Hash)]
pub struct StoreId(pub i32);

/// The identifier of a subscription record.
#[derive(Clone, Copy, Debug, PartialEq, Eq, Structural)]
pub struct SubscriptionId(pub i32);

/// The identifier of a subscription payment record.
#[derive(Clone, Copy, Debug, PartialEq, Eq, Structural)]
pub struct SubscriptionPaymentId(pub i32);

/// A count of published base products.
#[derive(Clone, Copy, Debug, PartialEq, Eq, Structural)]
pub struct Quantity(pub i32);

/// The identifier of an order (a UUID held as its 128 bits).
#[derive(Clone, Copy, Debug, PartialEq, Eq, Structural, Hash)]
pub struct OrderId(pub u128);

/// The identifier of an invoice (a UUID held as its 128 bits).
#[derive(Clone, Copy, Debug, PartialEq, Eq, Structural)]
pub struct InvoiceId(pub u128);

/// The identifier of a fee record.
#[derive(Clone, Copy, Debug, PartialEq, Eq, Structural)]
pub struct FeeId(pub i32);

/// The identifier of a payout (a UUID held as its 128 bits).
#[derive(Clone, Copy, Debug, PartialEq, Eq, Structural)]
pub struct PayoutId(pub u128);

/// The identifier of a payments account (a UUID held as its 128 bits).
#[derive(Clone, Copy, Debug, PartialEq, Eq, Structural)]
pub struct AccountId(pub u128);

/// The identifier of an internal transaction (a UUID held as its 128 bits).
#[derive(Clone, Copy, Debug, PartialEq, Eq, Structural)]
pub struct TransactionId(pub u128);

/// The identifier of a reserved exchange rate (a UUID held as its 128 bits).
#[derive(Clone, Copy, Debug, PartialEq, Eq, Structural)]
pub struct ExchangeId(pub u128);

} // verus!
