//! Blockchain wallets of users.

use vstd::prelude::*;
use vstd::arithmetic::power::pow;
use crate::ids::UserId;
use crate::money::TureCurrency;
use crate::time::Timestamp;

verus! {

/// The 128 bits of a version-4 (random) UUID of the RFC 4122 variant: the
/// version nibble is 4 and the two top bits of the variant byte are `10`.
pub open spec fn is_v4_uuid(bits: u128) -> bool {
    (bits >> 76u128) & 0xfu128 == 4u128 && (bits >> 62u128) & 0x3u128 == 2u128
}

/// Calls `uuid::Uuid::new_v4` and hands out its 128 bits: a random UUID
/// whose version and variant bits the crate sets to those of a version-4
/// UUID; nothing more is promised of the value, and two calls may give any
/// two such values.
#[verifier::external_body]
pub(crate) fn random_uuid_bits() -> (bits: u128)
    ensures
        is_v4_uuid(bits),
{
    uuid::Uuid::new_v4().as_u128()
}

/// The lowercase hexadecimal digit for `n`, which is below sixteen.
pub open spec fn hex_digit(n: int) -> char {
    if n < 10 {
        (48 + n) as char
    } else {
        (87 + n) as char
    }
}

/// The `k`-th hexadecimal digit of `bits`, the most significant first.
pub open spec fn uuid_nibble(bits: u128, k: int) -> int {
    (bits as int / pow(16, (31 - k) as nat)) % 16
}

/// How many hyphens come before the character at `i` of a hyphenated UUID.
pub open spec fn hyphens_before(i: int) -> int {
    if i < 8 {
        0
    } else if i < 13 {
        1
    } else if i < 18 {
        2
    } else if i < 23 {
        3
    } else {
        4
    }
}

/// The hyphenated text of the UUID whose 128 bits (most significant first)
/// are `bits`: its 32 lowercase hexadecimal digits in groups of 8, 4, 4, 4
/// and 12, joined by hyphens.
pub open spec fn hyphenated_uuid(bits: u128) -> Seq<char> {
    Seq::new(
        36,
        |i: int|
            if i == 8 || i == 13 || i == 18 || i == 23 {
                '-'
            } else {
                hex_digit(uuid_nibble(bits, i - hyphens_before(i)))
            },
    )
}

/// Calls `uuid::Uuid::from_u128` (which reads the bits most significant
/// first) and writes the UUID in its hyphenated form
/// (`Uuid::hyphenated`, then `to_string`): the 32 lowercase hexadecimal
/// digits in groups of 8, 4, 4, 4 and 12, joined by hyphens.
#[verifier::external_body]
pub(crate) fn uuid_hyphenated_text(bits: u128) -> (text: String)
    ensures
        text@ == hyphenated_uuid(bits),
{
    uuid::Uuid::from_u128(bits).hyphenated().to_string()
}

/// The identifier of a user wallet (a UUID held as its 128 bits).
#[derive(Clone, Copy, Debug, PartialEq, Eq, Structural)]
pub struct UserWalletId(pub u128);

impl UserWalletId {
    pub fn new(id: u128) -> (w: UserWalletId)
        ensures
            w.0 == id,
    {
        UserWalletId(id)
    }

    pub fn inner(&self) -> (id: u128)
        ensures
            id == self.0,
    {
        self.0
    }

    pub fn into_inner(self) -> (id: u128)
        ensures
            id == self.0,
    {
        self.0
    }

    /// A fresh random identifier.
    pub fn generate() -> (w: UserWalletId)
        ensures
            is_v4_uuid(w.0),
    {
        UserWalletId(random_uuid_bits())
    }
}

/// The address of a blockchain wallet.
#[derive(Clone, Debug)]
pub struct WalletAddress(pub String);

impl WalletAddress {
    pub fn new(address: String) -> (w: WalletAddress)
        ensures
            w.0@ == address@,
    {
        WalletAddress(address)
    }

    pub fn inner(&self) -> (s: &str)
        ensures
            s@ == self.0@,
    {
        self.0.as_str()
    }

    pub fn into_inner(self) -> (s: String)
        ensures
            s@ == self.0@,
    {
        self.0
    }
}

/// A wallet of a user, as the billing hands it out.
#[derive(Clone, Debug)]
pub struct UserWallet {
    pub id: UserWalletId,
    pub address: WalletAddress,
    pub currency: TureCurrency,
    pub user_id: UserId,
    pub created_at: Timestamp,
}

/// A wallet to be stored.
#[derive(Clone, Debug)]
pub struct NewUserWallet {
    pub id: UserWalletId,
    pub address: WalletAddress,
    pub currency: TureCurrency,
    pub user_id: UserId,
}

/// A wallet as it is stored.
#[derive(Clone, Debug)]
pub struct RawUserWallet {
    pub id: UserWalletId,
    pub address: WalletAddress,
    pub currency: TureCurrency,
    pub user_id: UserId,
    pub created_at: Timestamp,
}

impl RawUserWallet {
    pub fn into_domain(self) -> (w: UserWallet)
        ensures
            w.id == self.id,
            w.address.0@ == self.address.0@,
            w.currency == self.currency,
            w.user_id == self.user_id,
            w.created_at == self.created_at,
    {
        let RawUserWallet { id, address, currency, user_id, created_at } = self;
        UserWallet { id, address, currency, user_id, created_at }
    }
}

/// What access to a wallet is checked against: its owner.
#[derive(Clone, Copy, Debug, PartialEq, Eq, Structural)]
pub struct UserWalletAccess {
    pub user_id: UserId,
}

impl UserWalletAccess {
    pub fn from_wallet(user_wallet: &UserWallet) -> (a: UserWalletAccess)
        ensures
            a.user_id == user_wallet.user_id,
    {
        UserWalletAccess { user_id: user_wallet.user_id }
    }

    pub fn from_new_wallet(new_user_wallet: &NewUserWallet) -> (a: UserWalletAccess)
        ensures
            a.user_id == new_user_wallet.user_id,
    {
        UserWalletAccess { user_id: new_user_wallet.user_id }
    }
}

} // verus!
