//! Statuses of store subscriptions and subscription payments, and their
//! text form in the database.

use vstd::prelude::*;

verus! {

/// The state of a store's subscription.
#[derive(Clone, Copy, Debug, PartialEq, Eq, Structural, Hash)]
pub enum StoreSubscriptionStatus {
    Trial,
    Paid,
    Free,
}

/// The outcome of a subscription payment.
#[derive(Clone, Copy, Debug, PartialEq, Eq, Structural, Hash)]
pub enum SubscriptionPaymentStatus {
    Paid,
    Failed,
}

/// Why a database value is not a status.
#[derive(Clone, Debug)]
pub enum SqlDecodeError {
    /// The column held these bytes, which name no status.
    UnrecognizedVariant(Vec<u8>),
    /// The column was null.
    UnexpectedNull,
}

/// `trial`
pub open spec fn trial_word() -> Seq<u8> {
    seq![116u8, 114u8, 105u8, 97u8, 108u8]
}

/// `paid`
pub open spec fn paid_word() -> Seq<u8> {
    seq![112u8, 97u8, 105u8, 100u8]
}

/// `free`
pub open spec fn free_word() -> Seq<u8> {
    seq![102u8, 114u8, 101u8, 101u8]
}

/// `failed`
pub open spec fn failed_word() -> Seq<u8> {
    seq![102u8, 97u8, 105u8, 108u8, 101u8, 100u8]
}

fn trial_bytes() -> (w: Vec<u8>)
    ensures
        w@ == trial_word(),
{
    let w = vec![116u8, 114u8, 105u8, 97u8, 108u8];
    assert(w@ =~= trial_word());
    w
}

fn paid_bytes() -> (w: Vec<u8>)
    ensures
        w@ == paid_word(),
{
    let w = vec![112u8, 97u8, 105u8, 100u8];
    assert(w@ =~= paid_word());
    w
}

fn free_bytes() -> (w: Vec<u8>)
    ensures
        w@ == free_word(),
{
    let w = vec![102u8, 114u8, 101u8, 101u8];
    assert(w@ =~= free_word());
    w
}

fn failed_bytes() -> (w: Vec<u8>)
    ensures
        w@ == failed_word(),
{
    let w = vec![102u8, 97u8, 105u8, 108u8, 101u8, 100u8];
    assert(w@ =~= failed_word());
    w
}

/// Whether `data` holds exactly the bytes of `word`.
fn same_bytes(data: &[u8], word: &[u8]) -> (r: bool)
    ensures
        r == (data@ == word@),
{
    if data.len() != word.len() {
        return false;
    }
    let mut i: usize = 0;
    while i < data.len()
        invariant
            i <= data@.len(),
            data@.len() == word@.len(),
            forall|j: int| 0 <= j < i ==> data@[j] == word@[j],
        decreases data@.len() - i,
    {
        if data[i] != word[i] {
            return false;
        }
        i = i + 1;
    }
    assert(data@ =~= word@);
    true
}

fn copy_bytes(data: &[u8]) -> (v: Vec<u8>)
    ensures
        v@ == data@,
{
    let mut v: Vec<u8> = Vec::new();
    let mut i: usize = 0;
    while i < data.len()
        invariant
            i <= data@.len(),
            v@ == data@.take(i as int),
        decreases data@.len() - i,
    {
        v.push(data[i]);
        i = i + 1;
        assert(v@ =~= data@.take(i as int));
    }
    assert(data@.take(data@.len() as int) =~= data@);
    v
}

impl StoreSubscriptionStatus {
    pub open spec fn word(self) -> Seq<u8> {
        match self {
            StoreSubscriptionStatus::Trial => trial_word(),
            StoreSubscriptionStatus::Paid => paid_word(),
            StoreSubscriptionStatus::Free => free_word(),
        }
    }

    /// The status whose stored text is `d`, if any.
    pub open spec fn from_word(d: Seq<u8>) -> Option<StoreSubscriptionStatus> {
        if d == trial_word() {
            Some(StoreSubscriptionStatus::Trial)
        } else if d == paid_word() {
            Some(StoreSubscriptionStatus::Paid)
        } else if d == free_word() {
            Some(StoreSubscriptionStatus::Free)
        } else {
            None
        }
    }

    /// Reads a status from the text of its database column.
    pub fn from_sql(data: Option<&[u8]>) -> (r: Result<StoreSubscriptionStatus, SqlDecodeError>)
        ensures
            data is None ==> r matches Err(SqlDecodeError::UnexpectedNull),
            data matches Some(d) ==> match Self::from_word(d@) {
                Some(st) => r == Ok::<_, SqlDecodeError>(st),
                None => r matches Err(SqlDecodeError::UnrecognizedVariant(v)) && v@ == d@,
            },
    {
        match data {
            None => Err(SqlDecodeError::UnexpectedNull),
            Some(d) => {
                let trial = trial_bytes();
                let paid = paid_bytes();
                let free = free_bytes();
                if same_bytes(d, trial.as_slice()) {
                    Ok(StoreSubscriptionStatus::Trial)
                } else if same_bytes(d, paid.as_slice()) {
                    Ok(StoreSubscriptionStatus::Paid)
                } else if same_bytes(d, free.as_slice()) {
                    Ok(StoreSubscriptionStatus::Free)
                } else {
                    Err(SqlDecodeError::UnrecognizedVariant(copy_bytes(d)))
                }
            },
        }
    }

    /// The text a status is stored as.
    pub fn to_sql(&self) -> (w: Vec<u8>)
        ensures
            w@ == self.word(),
    {
        match self {
            StoreSubscriptionStatus::Trial => trial_bytes(),
            StoreSubscriptionStatus::Paid => paid_bytes(),
            StoreSubscriptionStatus::Free => free_bytes(),
        }
    }
}

impl SubscriptionPaymentStatus {
    pub open spec fn word(self) -> Seq<u8> {
        match self {
            SubscriptionPaymentStatus::Paid => paid_word(),
            SubscriptionPaymentStatus::Failed => failed_word(),
        }
    }

    /// The status whose stored text is `d`, if any.
    pub open spec fn from_word(d: Seq<u8>) -> Option<SubscriptionPaymentStatus> {
        if d == paid_word() {
            Some(SubscriptionPaymentStatus::Paid)
        } else if d == failed_word() {
            Some(SubscriptionPaymentStatus::Failed)
        } else {
            None
        }
    }

    /// Reads a status from the text of its database column.
    pub fn from_sql(data: Option<&[u8]>) -> (r: Result<SubscriptionPaymentStatus, SqlDecodeError>)
        ensures
            data is None ==> r matches Err(SqlDecodeError::UnexpectedNull),
            data matches Some(d) ==> match Self::from_word(d@) {
                Some(st) => r == Ok::<_, SqlDecodeError>(st),
                None => r matches Err(SqlDecodeError::UnrecognizedVariant(v)) && v@ == d@,
            },
    {
        match data {
            None => Err(SqlDecodeError::UnexpectedNull),
            Some(d) => {
                let paid = paid_bytes();
                let failed = failed_bytes();
                if same_bytes(d, paid.as_slice()) {
                    Ok(SubscriptionPaymentStatus::Paid)
                } else if same_bytes(d, failed.as_slice()) {
                    Ok(SubscriptionPaymentStatus::Failed)
                } else {
                    Err(SqlDecodeError::UnrecognizedVariant(copy_bytes(d)))
                }
            },
        }
    }

    /// The text a status is stored as.
    pub fn to_sql(&self) -> (w: Vec<u8>)
        ensures
            w@ == self.word(),
    {
        match self {
            SubscriptionPaymentStatus::Paid => paid_bytes(),
            SubscriptionPaymentStatus::Failed => failed_bytes(),
        }
    }
}

/// Reading back the text that `StoreSubscriptionStatus::to_sql` writes
/// gives the status that was written.
pub proof fn store_subscription_status_sql_round_trip(st: StoreSubscriptionStatus)
    ensures
        StoreSubscriptionStatus::from_word(st.word()) == Some(st),
{
    assert(trial_word() != paid_word() && trial_word() != free_word() && paid_word() != free_word()) by {
        assert(trial_word()[0] != paid_word()[0]);
        assert(trial_word()[0] != free_word()[0]);
        assert(paid_word()[0] != free_word()[0]);
    }
}

/// Reading back the text that `SubscriptionPaymentStatus::to_sql` writes
/// gives the status that was written.
pub proof fn subscription_payment_status_sql_round_trip(st: SubscriptionPaymentStatus)
    ensures
        SubscriptionPaymentStatus::from_word(st.word()) == Some(st),
{
    assert(paid_word()[0] != failed_word()[0]);
}

} // verus!
