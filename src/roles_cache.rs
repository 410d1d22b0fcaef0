use vstd::prelude::*;
use std::collections::HashMap;

verus! {

broadcast use vstd::std_specs::hash::group_hash_axioms;

/// The roles that a cache model reports for `user_id`: the stored set when the
/// user is known, and an empty one when the user has not been loaded.
pub open spec fn roles_of<R>(entries: Map<i32, Seq<R>>, user_id: i32) -> Seq<R> {
    if entries.contains_key(user_id) {
        entries[user_id]
    } else {
        Seq::empty()
    }
}

/// After `add_roles(u, roles)` the user is known and `get(u)` gives `roles`.
pub proof fn lemma_add_roles_then_get<R>(entries: Map<i32, Seq<R>>, user_id: i32, roles: Seq<R>)
    ensures
        entries.insert(user_id, roles).contains_key(user_id),
        roles_of(entries.insert(user_id, roles), user_id) == roles,
{
}

/// After `remove(u)` the user is unknown.
pub proof fn lemma_remove_then_unknown<R>(entries: Map<i32, Seq<R>>, user_id: i32)
    ensures
        !entries.remove(user_id).contains_key(user_id),
        roles_of(entries.remove(user_id), user_id) == Seq::<R>::empty(),
{
}

/// After `clear()` no user that was known before is known any more: `after` is
/// the cache as `clear` left `before`.
pub proof fn lemma_clear_forgets_all<C: RolesCache>(before: C, after: C)
    requires
        after.entries() == Map::<i32, Seq<C::Role>>::empty(),
    ensures
        forall|user_id: i32|
            #[trigger] before.entries().contains_key(user_id) ==> !after.entries().contains_key(user_id),
        forall|user_id: i32| #[trigger] roles_of(after.entries(), user_id).len() == 0,
{
}

/// Adding the same roles for the same user twice leaves the cache as adding them once.
pub proof fn lemma_add_roles_idempotent<R>(entries: Map<i32, Seq<R>>, user_id: i32, roles: Seq<R>)
    ensures
        entries.insert(user_id, roles).insert(user_id, roles) == entries.insert(user_id, roles),
{
    assert(entries.insert(user_id, roles).insert(user_id, roles) =~= entries.insert(user_id, roles));
}

/// A second `add_roles` for a user replaces the first set; nothing accumulates.
pub proof fn lemma_add_roles_replaces<R>(
    entries: Map<i32, Seq<R>>,
    user_id: i32,
    first: Seq<R>,
    second: Seq<R>,
)
    ensures
        roles_of(entries.insert(user_id, first).insert(user_id, second), user_id) == second,
        entries.insert(user_id, first).insert(user_id, second) == entries.insert(user_id, second),
{
    assert(entries.insert(user_id, first).insert(user_id, second) =~= entries.insert(user_id, second));
}

/// Updates of one user leave every other user's entry as it was, and updates of
/// two different users give the same cache in either order.
pub proof fn lemma_disjoint_users_independent<R>(
    entries: Map<i32, Seq<R>>,
    u: i32,
    v: i32,
    roles_u: Seq<R>,
    roles_v: Seq<R>,
)
    requires
        u != v,
    ensures
        roles_of(entries.insert(u, roles_u), v) == roles_of(entries, v),
        entries.insert(u, roles_u).contains_key(v) == entries.contains_key(v),
        roles_of(entries.remove(u), v) == roles_of(entries, v),
        entries.remove(u).contains_key(v) == entries.contains_key(v),
        entries.insert(u, roles_u).insert(v, roles_v) == entries.insert(v, roles_v).insert(u, roles_u),
        entries.insert(u, roles_u).remove(v) == entries.remove(v).insert(u, roles_u),
        entries.remove(u).remove(v) == entries.remove(v).remove(u),
{
    assert(entries.insert(u, roles_u).insert(v, roles_v) =~= entries.insert(v, roles_v).insert(u, roles_u));
    assert(entries.insert(u, roles_u).remove(v) =~= entries.remove(v).insert(u, roles_u));
    assert(entries.remove(u).remove(v) =~= entries.remove(v).remove(u));
}

/// A store from user id to the roles currently known for that user.
///
/// The absence of an entry means "not loaded yet", which differs from an entry
/// that holds no role. Entries change only through the mutating methods below:
/// nothing is evicted behind the caller's back.
pub trait RolesCache {
    type Role;

    /// What the cache holds, one entry per loaded user.
    spec fn entries(&self) -> Map<i32, Seq<Self::Role>>;

    /// The roles of `user_id`, or none when the user is unknown.
    fn get(&self, user_id: i32) -> (r: Vec<Self::Role>)
        ensures
            r@ == roles_of(self.entries(), user_id),
    ;

    /// Forgets every user.
    fn clear(&mut self)
        ensures
            final(self).entries() == Map::<i32, Seq<Self::Role>>::empty(),
    ;

    /// Forgets one user.
    fn remove(&mut self, user_id: i32)
        ensures
            final(self).entries() == old(self).entries().remove(user_id),
    ;

    /// Whether roles were loaded for `user_id` (possibly none).
    fn contains(&self, user_id: i32) -> (r: bool)
        ensures
            r == self.entries().contains_key(user_id),
    ;

    /// Replaces the roles stored for `user_id` by `roles`.
    fn add_roles(&mut self, user_id: i32, roles: &Vec<Self::Role>)
        ensures
            final(self).entries() == old(self).entries().insert(user_id, roles@),
    ;
}

/// Copies a slice of roles element by element.
fn copy_roles<R: Copy>(roles: &Vec<R>) -> (r: Vec<R>)
    ensures
        r@ == roles@,
{
    let mut out: Vec<R> = Vec::new();
    let mut i: usize = 0;
    while i < roles.len()
        invariant
            i <= roles.len(),
            out@ == roles@.subrange(0, i as int),
        decreases roles.len() - i,
    {
        out.push(roles[i]);
        i = i + 1;
    }
    assert(roles@.subrange(0, roles.len() as int) =~= roles@);
    out
}

/// An in-memory role cache held in a hash map keyed by user id. Roles are taken
/// to be plain tags, so `R` is `Copy`: the cache hands out copies of them.
pub struct MemoryRolesCache<R> {
    map: HashMap<i32, Vec<R>>,
}

impl<R> View for MemoryRolesCache<R> {
    type V = Map<i32, Seq<R>>;

    closed spec fn view(&self) -> Map<i32, Seq<R>> {
        self.map@.map_values(|v: Vec<R>| v@)
    }
}

impl<R: Copy> MemoryRolesCache<R> {
    /// An empty cache: no user is known.
    pub fn new() -> (r: Self)
        ensures
            r@ == Map::<i32, Seq<R>>::empty(),
    {
        let r = MemoryRolesCache { map: HashMap::new() };
        assert(r@ =~= Map::<i32, Seq<R>>::empty());
        r
    }
}

impl<R: Copy> Default for MemoryRolesCache<R> {
    fn default() -> (r: Self)
        ensures
            r@ == Map::<i32, Seq<R>>::empty(),
    {
        MemoryRolesCache::new()
    }
}

impl<R: Copy> RolesCache for MemoryRolesCache<R> {
    type Role = R;

    open spec fn entries(&self) -> Map<i32, Seq<R>> {
        self@
    }

    fn get(&self, user_id: i32) -> (r: Vec<R>) {
        match self.map.get(&user_id) {
            Some(roles) => copy_roles(roles),
            None => Vec::new(),
        }
    }

    fn clear(&mut self) {
        self.map.clear();
        assert(self@ =~= Map::<i32, Seq<R>>::empty());
    }

    fn remove(&mut self, user_id: i32) {
        let ghost before = self@;
        self.map.remove(&user_id);
        assert(self@ =~= before.remove(user_id));
    }

    fn contains(&self, user_id: i32) -> (r: bool) {
        self.map.contains_key(&user_id)
    }

    fn add_roles(&mut self, user_id: i32, roles: &Vec<R>) {
        let ghost before = self@;
        let copied = copy_roles(roles);
        self.map.insert(user_id, copied);
        assert(self@ =~= before.insert(user_id, roles@));
    }
}

} // verus!
