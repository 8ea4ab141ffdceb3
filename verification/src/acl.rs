//! Which records a user may reach: the scopes of access rules.

use vstd::prelude::*;
use crate::ids::{StoreId, UserId};
use crate::roles::{UserRole, has_store_role, user_is_store_manager};

verus! {

/// How far an access rule reaches: every record, or the user's own.
#[derive(Clone, Copy, Debug, PartialEq, Eq, Structural)]
pub enum Scope {
    All,
    Owned,
}

/// A record owned by `owner` (if the check has a record) is in `scope` for
/// the user `user_id`: every record is in `Scope::All`, the user's own in
/// `Scope::Owned`.
pub open spec fn owned_record_in_scope(scope: Scope, user_id: UserId, owner: Option<UserId>) -> bool {
    match scope {
        Scope::All => true,
        Scope::Owned => owner == Some(user_id),
    }
}

/// Whether a record owned by `owner` (if the check has a record) is in
/// `scope` for the user `user_id`.
pub fn user_owned_in_scope(scope: Scope, user_id: UserId, owner: Option<UserId>) -> (r: bool)
    ensures
        r == owned_record_in_scope(scope, user_id, owner),
{
    match scope {
        Scope::All => true,
        Scope::Owned => match owner {
            Some(o) => o == user_id,
            None => false,
        },
    }
}

/// Whether a record of the store `store` (if the check has a record and
/// its store could be found) is in `scope` for a user whose roles are
/// `user_roles`: owned records are those of the stores the user manages.
pub fn store_owned_in_scope(scope: Scope, user_roles: &[UserRole], store: Option<StoreId>) -> (r: bool)
    ensures
        r == match scope {
            Scope::All => true,
            Scope::Owned => match store {
                Some(s) => has_store_role(user_roles@, s),
                None => false,
            },
        },
{
    match scope {
        Scope::All => true,
        Scope::Owned => match store {
            Some(s) => user_is_store_manager(user_roles, s),
            None => false,
        },
    }
}

/// The owner of a merchant: a user, or a store.
#[derive(Clone, Copy, Debug, PartialEq, Eq, Structural)]
pub struct MerchantOwner {
    pub user_id: Option<UserId>,
    pub store_id: Option<StoreId>,
}

/// Whether a merchant (if the check has one) is in `scope` for the user
/// `user_id` with roles `user_roles`: a user merchant is the user's own, a
/// store merchant is the user's if the user manages the store.
pub fn merchant_in_scope(scope: Scope, user_id: UserId, user_roles: &[UserRole], merchant: Option<MerchantOwner>) -> (r:
    bool)
    ensures
        r == match scope {
            Scope::All => true,
            Scope::Owned => match merchant {
                Some(m) => match m.user_id {
                    Some(u) => u == user_id,
                    None => match m.store_id {
                        Some(s) => has_store_role(user_roles@, s),
                        None => false,
                    },
                },
                None => false,
            },
        },
{
    match scope {
        Scope::All => true,
        Scope::Owned => match merchant {
            Some(m) => match m.user_id {
                Some(u) => u == user_id,
                None => match m.store_id {
                    Some(s) => user_is_store_manager(user_roles, s),
                    None => false,
                },
            },
            None => false,
        },
    }
}

/// Whether an exchange rate is in `scope` for the user `user_id`, given
/// what looking up the buyer of its order gave: `None` where the lookup
/// failed, `Some(None)` where the order has no invoice, `Some(Some(b))`
/// for the buyer `b`. A rate whose order has no invoice is anyone's.
pub fn exchange_rate_in_scope(scope: Scope, user_id: UserId, has_record: bool, buyer: Option<Option<UserId>>) -> (r:
    bool)
    ensures
        r == match scope {
            Scope::All => true,
            Scope::Owned => has_record && match buyer {
                None => false,
                Some(None) => true,
                Some(Some(b)) => b == user_id,
            },
        },
{
    match scope {
        Scope::All => true,
        Scope::Owned => {
            if !has_record {
                return false;
            }
            match buyer {
                None => false,
                Some(None) => true,
                Some(Some(b)) => b == user_id,
            }
        },
    }
}

/// `Scope::All` is never narrower than `Scope::Owned`: whatever record a
/// user reaches as its owner, the user reaches with `Scope::All`.
pub proof fn all_scope_widest(user_id: UserId, owner: Option<UserId>)
    ensures
        owned_record_in_scope(Scope::Owned, user_id, owner) ==> owned_record_in_scope(Scope::All, user_id, owner),
{
}

} // verus!
