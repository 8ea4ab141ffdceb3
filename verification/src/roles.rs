//! Roles of users, and the cache of them.

use vstd::prelude::*;
use std::collections::HashMap;
use crate::ids::{StoreId, UserId};

verus! {

/// The identifier of a role record (a UUID held as its 128 bits).
#[derive(Clone, Copy, Debug, PartialEq, Eq, Structural)]
pub struct RoleId(pub u128);

/// A role a user has in the billing.
#[derive(Clone, Copy, Debug, PartialEq, Eq, Structural, Hash)]
pub enum BillingRole {
    Superuser,
    User,
}

/// A role of a user; `data` is the integer the role's data holds, if it
/// holds one (the store a store role is for).
#[derive(Clone, Copy, Debug, PartialEq, Eq, Structural)]
pub struct UserRole {
    pub id: RoleId,
    pub user_id: UserId,
    pub name: BillingRole,
    pub data: Option<i64>,
}

/// A role to be stored.
#[derive(Clone, Copy, Debug, PartialEq, Eq, Structural)]
pub struct NewUserRole {
    pub id: RoleId,
    pub user_id: UserId,
    pub name: BillingRole,
    pub data: Option<i64>,
}

/// A role to be removed.
#[derive(Clone, Copy, Debug, PartialEq, Eq, Structural)]
pub struct RemoveUserRole {
    pub user_id: UserId,
    pub name: BillingRole,
}

/// Whether one of `roles` is for the store `store_id`.
pub open spec fn has_store_role(roles: Seq<UserRole>, store_id: StoreId) -> bool {
    exists|i: int| 0 <= i < roles.len() && (#[trigger] roles[i]).data == Some(store_id.0 as i64)
}

/// Whether a user, whose roles are `roles`, manages the store `store_id`:
/// one of the roles is for that store.
pub fn user_is_store_manager(roles: &[UserRole], store_id: StoreId) -> (r: bool)
    ensures
        r == has_store_role(roles@, store_id),
{
    let mut i: usize = 0;
    while i < roles.len()
        invariant
            i <= roles@.len(),
            forall|j: int| 0 <= j < i ==> (#[trigger] roles@[j]).data != Some(store_id.0 as i64),
        decreases roles@.len() - i,
    {
        match roles[i].data {
            Some(d) => {
                if d == store_id.0 as i64 {
                    return true;
                }
            },
            None => {},
        }
        i = i + 1;
    }
    false
}

/// The roles cached for the user `user_id` in the cache `cached`: those
/// last added for the user, or none.
pub open spec fn cached_roles(cached: Map<UserId, Seq<BillingRole>>, user_id: UserId) -> Seq<BillingRole> {
    if cached.contains_key(user_id) {
        cached[user_id]
    } else {
        Seq::empty()
    }
}

/// The cache of the roles read for users from the database, by user.
#[derive(Clone, Debug)]
pub struct RolesCacheImpl {
    roles_cache: HashMap<i32, Vec<BillingRole>>,
}

impl View for RolesCacheImpl {
    type V = Map<UserId, Seq<BillingRole>>;

    /// The roles cached for each user that has an entry.
    closed spec fn view(&self) -> Map<UserId, Seq<BillingRole>> {
        Map::new(|u: UserId| self.roles_cache@.contains_key(u.0), |u: UserId| self.roles_cache@[u.0]@)
    }
}

impl Default for RolesCacheImpl {
    fn default() -> (c: RolesCacheImpl)
        ensures
            c@ == Map::<UserId, Seq<BillingRole>>::empty(),
    {
        RolesCacheImpl::new()
    }
}

impl RolesCacheImpl {
    /// An empty cache.
    pub fn new() -> (c: RolesCacheImpl)
        ensures
            c@ == Map::<UserId, Seq<BillingRole>>::empty(),
    {
        let c = RolesCacheImpl { roles_cache: HashMap::new() };
        assert(c@ =~= Map::<UserId, Seq<BillingRole>>::empty());
        c
    }

    /// The roles cached for `user_id`: those last added, or none.
    pub fn get(&self, user_id: UserId) -> (roles: Vec<BillingRole>)
        ensures
            roles@ == cached_roles(self@, user_id),
    {
        broadcast use vstd::std_specs::hash::group_hash_axioms;
        match self.roles_cache.get(&user_id.0) {
            Some(cached) => {
                let mut roles: Vec<BillingRole> = Vec::new();
                let mut i: usize = 0;
                while i < cached.len()
                    invariant
                        i <= cached@.len(),
                        roles@ == cached@.take(i as int),
                    decreases cached@.len() - i,
                {
                    roles.push(cached[i]);
                    assert(cached@.take(i + 1) =~= cached@.take(i as int).push(cached@[i as int]));
                    i = i + 1;
                }
                assert(cached@.take(cached@.len() as int) =~= cached@);
                assert(self@.contains_key(user_id));
                roles
            },
            None => {
                assert(!self@.contains_key(user_id));
                Vec::new()
            },
        }
    }

    /// Forgets every cached role.
    pub fn clear(&mut self)
        ensures
            final(self)@ == Map::<UserId, Seq<BillingRole>>::empty(),
    {
        self.roles_cache.clear();
        assert(self@ =~= Map::<UserId, Seq<BillingRole>>::empty());
    }

    /// Forgets the roles cached for `user_id`.
    pub fn remove(&mut self, user_id: UserId)
        ensures
            final(self)@ == old(self)@.remove(user_id),
    {
        broadcast use vstd::std_specs::hash::group_hash_axioms;
        let ghost before = self@;
        self.roles_cache.remove(&user_id.0);
        assert forall|u: UserId| #[trigger] self@.contains_key(u) == before.remove(user_id).contains_key(u) by {
            if u != user_id {
                assert(u.0 != user_id.0);
            }
        }
        assert(self@ =~= before.remove(user_id));
    }

    /// Whether roles are cached for `user_id`.
    pub fn contains(&self, user_id: UserId) -> (r: bool)
        ensures
            r == self@.contains_key(user_id),
    {
        broadcast use vstd::std_specs::hash::group_hash_axioms;
        self.roles_cache.contains_key(&user_id.0)
    }

    /// Caches `roles` for `user_id`, in place of what was cached for it.
    pub fn add_roles(&mut self, user_id: UserId, roles: &[BillingRole])
        ensures
            final(self)@ == old(self)@.insert(user_id, roles@),
    {
        broadcast use vstd::std_specs::hash::group_hash_axioms;
        let ghost before = self@;
        let mut copy: Vec<BillingRole> = Vec::new();
        let mut i: usize = 0;
        while i < roles.len()
            invariant
                i <= roles@.len(),
                copy@ == roles@.take(i as int),
            decreases roles@.len() - i,
        {
            copy.push(roles[i]);
            assert(roles@.take(i + 1) =~= roles@.take(i as int).push(roles@[i as int]));
            i = i + 1;
        }
        assert(roles@.take(roles@.len() as int) =~= roles@);
        self.roles_cache.insert(user_id.0, copy);
        assert forall|u: UserId| #[trigger] self@.contains_key(u) == before.insert(user_id, roles@).contains_key(u) by {
            if u != user_id {
                assert(u.0 != user_id.0);
            }
        }
        assert(self@ =~= before.insert(user_id, roles@));
    }
}

/// The cache gives back what was added: after roles are added for a user
/// it returns them for that user and keeps every other user's roles;
/// after the user is removed, or the cache cleared, it returns none for
/// the user.
pub proof fn cache_returns_added_roles(
    cached: Map<UserId, Seq<BillingRole>>,
    user_id: UserId,
    other: UserId,
    roles: Seq<BillingRole>,
)
    requires
        other != user_id,
    ensures
        cached_roles(cached.insert(user_id, roles), user_id) == roles,
        cached.insert(user_id, roles).contains_key(user_id),
        cached_roles(cached.insert(user_id, roles), other) == cached_roles(cached, other),
        cached_roles(cached.remove(user_id), user_id) == Seq::<BillingRole>::empty(),
        !cached.remove(user_id).contains_key(user_id),
        cached_roles(Map::empty(), user_id) == Seq::<BillingRole>::empty(),
{
}

} // verus!
