//! Monetary amounts in minimal units, and currencies.

use vstd::prelude::*;

verus! {

/// An amount of money in the minimal units of its currency
/// (cents for EUR, wei for STQ).
#[derive(Clone, Copy, Debug, PartialEq, Eq, Structural)]
pub struct Amount(pub u128);

impl Amount {
    pub fn new(value: u128) -> (a: Amount)
        ensures
            a.0 == value,
    {
        Amount(value)
    }

    pub fn zero() -> (a: Amount)
        ensures
            a.0 == 0,
    {
        Amount(0)
    }

    pub fn inner(&self) -> (v: u128)
        ensures
            v == self.0,
    {
        self.0
    }

    pub fn checked_add(self, other: Amount) -> (r: Option<Amount>)
        ensures
            r is Some <==> self.0 + other.0 <= u128::MAX,
            r is Some ==> r.unwrap().0 == self.0 + other.0,
    {
        match self.0.checked_add(other.0) {
            Some(v) => Some(Amount(v)),
            None => None,
        }
    }

    pub fn checked_sub(self, other: Amount) -> (r: Option<Amount>)
        ensures
            r is Some <==> self.0 >= other.0,
            r is Some ==> r.unwrap().0 == self.0 - other.0,
    {
        match self.0.checked_sub(other.0) {
            Some(v) => Some(Amount(v)),
            None => None,
        }
    }

    pub fn checked_mul(self, other: Amount) -> (r: Option<Amount>)
        ensures
            r is Some <==> self.0 * other.0 <= u128::MAX,
            r is Some ==> r.unwrap().0 == self.0 * other.0,
    {
        match self.0.checked_mul(other.0) {
            Some(v) => Some(Amount(v)),
            None => None,
        }
    }

    pub fn checked_div(self, other: Amount) -> (r: Option<Amount>)
        ensures
            r is Some <==> other.0 != 0,
            r is Some ==> r.unwrap().0 == self.0 / other.0,
    {
        match self.0.checked_div(other.0) {
            Some(v) => Some(Amount(v)),
            None => None,
        }
    }
}

/// Every currency the billing knows.
#[derive(Clone, Copy, Debug, PartialEq, Eq, Structural, Hash)]
pub enum Currency {
    Eth,
    Stq,
    Btc,
    Eur,
    Usd,
    Rub,
}

/// Currencies held in blockchain wallets.
#[derive(Clone, Copy, Debug, PartialEq, Eq, Structural, Hash)]
pub enum TureCurrency {
    Stq,
    Eth,
    Btc,
}

/// Currencies paid through card payments.
#[derive(Clone, Copy, Debug, PartialEq, Eq, Structural, Hash)]
pub enum FiatCurrency {
    Eur,
    Usd,
    Rub,
}

/// A currency sorted into its kind.
#[derive(Clone, Copy, Debug, PartialEq, Eq, Structural)]
pub enum CurrencyChoice {
    Crypto(TureCurrency),
    Fiat(FiatCurrency),
}

impl TureCurrency {
    pub open spec fn as_currency(self) -> Currency {
        match self {
            TureCurrency::Stq => Currency::Stq,
            TureCurrency::Eth => Currency::Eth,
            TureCurrency::Btc => Currency::Btc,
        }
    }

    pub fn into_currency(self) -> (c: Currency)
        ensures
            c == self.as_currency(),
    {
        match self {
            TureCurrency::Stq => Currency::Stq,
            TureCurrency::Eth => Currency::Eth,
            TureCurrency::Btc => Currency::Btc,
        }
    }
}

impl FiatCurrency {
    pub open spec fn as_currency(self) -> Currency {
        match self {
            FiatCurrency::Eur => Currency::Eur,
            FiatCurrency::Usd => Currency::Usd,
            FiatCurrency::Rub => Currency::Rub,
        }
    }
}

impl Currency {
    pub open spec fn kind(self) -> CurrencyChoice {
        match self {
            Currency::Eth => CurrencyChoice::Crypto(TureCurrency::Eth),
            Currency::Stq => CurrencyChoice::Crypto(TureCurrency::Stq),
            Currency::Btc => CurrencyChoice::Crypto(TureCurrency::Btc),
            Currency::Eur => CurrencyChoice::Fiat(FiatCurrency::Eur),
            Currency::Usd => CurrencyChoice::Fiat(FiatCurrency::Usd),
            Currency::Rub => CurrencyChoice::Fiat(FiatCurrency::Rub),
        }
    }

    /// Sorts the currency into crypto or fiat.
    pub fn classify(self) -> (c: CurrencyChoice)
        ensures
            c == self.kind(),
            c matches CurrencyChoice::Crypto(t) ==> t.as_currency() == self,
            c matches CurrencyChoice::Fiat(f) ==> f.as_currency() == self,
    {
        match self {
            Currency::Eth => CurrencyChoice::Crypto(TureCurrency::Eth),
            Currency::Stq => CurrencyChoice::Crypto(TureCurrency::Stq),
            Currency::Btc => CurrencyChoice::Crypto(TureCurrency::Btc),
            Currency::Eur => CurrencyChoice::Fiat(FiatCurrency::Eur),
            Currency::Usd => CurrencyChoice::Fiat(FiatCurrency::Usd),
            Currency::Rub => CurrencyChoice::Fiat(FiatCurrency::Rub),
        }
    }

    pub open spec fn spec_is_fiat(self) -> bool {
        self.kind() is Fiat
    }

    pub fn is_fiat(self) -> (r: bool)
        ensures
            r == self.spec_is_fiat(),
    {
        match self.classify() {
            CurrencyChoice::Fiat(_) => true,
            CurrencyChoice::Crypto(_) => false,
        }
    }
}

} // verus!
