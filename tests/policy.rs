use std::cell::RefCell;

use acl::acl::Acl;
use acl::policy::{cached_roles, load_roles, rule_permits, rules_permit, Rule};
use acl::roles_cache::{MemoryRolesCache, RolesCache};
use acl::scope::{CheckScope, ScopeAnswers};

#[derive(Clone, Copy, Debug, PartialEq)]
enum Role {
    StoreOwner,
    Moderator,
}

#[derive(Debug, PartialEq)]
enum Resource {
    Store,
    Product,
}

#[derive(Debug, PartialEq)]
enum Action {
    Update,
    Read,
}

#[derive(Clone, Copy, Debug, PartialEq)]
enum Scope {
    Owner,
}

#[derive(Debug, PartialEq)]
enum StoreError {
    Unavailable,
}

#[allow(dead_code)]
struct Store {
    id: i32,
    user_id: i32,
}

/// A store lies in the owner scope of the user that owns it.
struct Ownership;

impl CheckScope<Scope, Store> for Ownership {
    fn is_in_scope(&self, user_id: i32, scope: &Scope, obj: Option<&Store>) -> bool {
        self.in_scope(user_id, scope, obj)
    }

    fn in_scope(&self, user_id: i32, scope: &Scope, obj: Option<&Store>) -> bool {
        match (scope, obj) {
            (Scope::Owner, Some(store)) => store.user_id == user_id,
            (Scope::Owner, None) => false,
        }
    }
}

fn table(role: Role, resource: &Resource, action: &Action) -> Rule<Scope> {
    match (role, resource, action) {
        (Role::StoreOwner, Resource::Store, Action::Update) => Rule::AllowInScope(Scope::Owner),
        (Role::StoreOwner, _, Action::Read) => Rule::Allow,
        (Role::Moderator, _, _) => Rule::Allow,
        _ => Rule::Deny,
    }
}

/// An evaluator that loads roles from a role source on a cache miss.
struct StoreAcl<F: Fn(i32) -> Result<Vec<Role>, StoreError>> {
    user_id: i32,
    cache: RefCell<MemoryRolesCache<Role>>,
    source: F,
}

impl<F: Fn(i32) -> Result<Vec<Role>, StoreError>> Acl<Resource, Action, Scope, StoreError, Store> for StoreAcl<F> {
    // A specification, read by the verifier only: nothing calls it when the
    // program runs.
    fn decision(
        &self,
        _resource: &Resource,
        _action: &Action,
        _in_scope: ScopeAnswers<Scope, Store>,
        _obj: Option<&Store>,
    ) -> Result<bool, StoreError> {
        unreachable!()
    }

    fn allows<C: CheckScope<Scope, Store>>(
        &self,
        resource: &Resource,
        action: &Action,
        scope_checker: &C,
        obj: Option<&Store>,
    ) -> Result<bool, StoreError> {
        let cached = cached_roles(&*self.cache.borrow(), self.user_id);
        let roles = match cached {
            Some(roles) => roles,
            None => load_roles(&mut *self.cache.borrow_mut(), self.user_id, (self.source)(self.user_id))?,
        };
        let rules: Vec<Rule<Scope>> = roles.iter().map(|r| table(*r, resource, action)).collect();
        Ok(rules_permit(&rules, scope_checker, self.user_id, obj))
    }
}

#[test]
fn owner_may_update_own_store_only() {
    let mut cache = MemoryRolesCache::new();
    cache.add_roles(7, &vec![Role::StoreOwner]);
    let acl = StoreAcl { user_id: 7, cache: RefCell::new(cache), source: |_| Ok(vec![]) };
    let store42 = Store { id: 42, user_id: 7 };
    let store99 = Store { id: 99, user_id: 8 };
    assert_eq!(acl.allows(&Resource::Store, &Action::Update, &Ownership, Some(&store42)), Ok(true));
    assert_eq!(acl.allows(&Resource::Store, &Action::Update, &Ownership, Some(&store99)), Ok(false));
}

#[test]
fn no_roles_means_denied() {
    let mut cache = MemoryRolesCache::new();
    cache.add_roles(7, &vec![]);
    let acl = StoreAcl { user_id: 7, cache: RefCell::new(cache), source: |_| Ok(vec![Role::Moderator]) };
    let store = Store { id: 42, user_id: 7 };
    for r in [Resource::Store, Resource::Product] {
        for a in [Action::Update, Action::Read] {
            assert_eq!(acl.allows(&r, &a, &Ownership, Some(&store)), Ok(false));
            assert_eq!(acl.allows(&r, &a, &Ownership, None), Ok(false));
        }
    }
}

#[test]
fn backing_store_failure_keeps_user_unknown() {
    let acl = StoreAcl { user_id: 7, cache: RefCell::new(MemoryRolesCache::new()), source: |_| Err(StoreError::Unavailable) };
    let store = Store { id: 42, user_id: 7 };
    assert_eq!(acl.allows(&Resource::Store, &Action::Update, &Ownership, Some(&store)), Err(StoreError::Unavailable));
    assert!(!acl.cache.borrow().contains(7));

    let recovered = StoreAcl { user_id: 7, cache: acl.cache, source: |_| Ok(vec![Role::StoreOwner]) };
    assert_eq!(recovered.allows(&Resource::Store, &Action::Update, &Ownership, Some(&store)), Ok(true));
    assert!(recovered.cache.borrow().contains(7));
    assert_eq!(recovered.cache.borrow().get(7), vec![Role::StoreOwner]);
}

#[test]
fn load_roles_stores_fetched_roles() {
    let mut cache = MemoryRolesCache::new();
    let r: Result<Vec<Role>, StoreError> = load_roles(&mut cache, 4, Ok(vec![Role::Moderator]));
    assert_eq!(r, Ok(vec![Role::Moderator]));
    assert_eq!(cached_roles(&cache, 4), Some(vec![Role::Moderator]));
}

#[test]
fn load_roles_failure_leaves_cache_alone() {
    let mut cache = MemoryRolesCache::new();
    cache.add_roles(1, &vec![Role::StoreOwner]);
    let r: Result<Vec<Role>, StoreError> = load_roles(&mut cache, 4, Err(StoreError::Unavailable));
    assert_eq!(r, Err(StoreError::Unavailable));
    assert_eq!(cached_roles(&cache, 4), None);
    assert_eq!(cached_roles(&cache, 1), Some(vec![Role::StoreOwner]));
}

#[test]
fn cached_roles_tells_empty_from_unknown() {
    let mut cache: MemoryRolesCache<Role> = MemoryRolesCache::new();
    assert_eq!(cached_roles(&cache, 2), None);
    cache.add_roles(2, &vec![]);
    assert_eq!(cached_roles(&cache, 2), Some(vec![]));
}

#[test]
fn single_rules() {
    let mine = Store { id: 1, user_id: 3 };
    let theirs = Store { id: 2, user_id: 4 };
    assert!(rule_permits(&Rule::Allow, &Ownership, 3, None::<&Store>));
    assert!(!rule_permits(&Rule::Deny, &Ownership, 3, Some(&mine)));
    assert!(rule_permits(&Rule::AllowInScope(Scope::Owner), &Ownership, 3, Some(&mine)));
    assert!(!rule_permits(&Rule::AllowInScope(Scope::Owner), &Ownership, 3, Some(&theirs)));
    assert!(!rule_permits(&Rule::AllowInScope(Scope::Owner), &Ownership, 3, None));
}

#[test]
fn any_permitting_rule_wins() {
    let theirs = Store { id: 2, user_id: 4 };
    let rules = vec![Rule::Deny, Rule::AllowInScope(Scope::Owner), Rule::Allow];
    assert!(rules_permit(&rules, &Ownership, 3, Some(&theirs)));
    let rules = vec![Rule::Deny, Rule::AllowInScope(Scope::Owner)];
    assert!(!rules_permit(&rules, &Ownership, 3, Some(&theirs)));
    assert!(!rules_permit(&Vec::<Rule<Scope>>::new(), &Ownership, 3, Some(&theirs)));
}
