use vstd::prelude::*;
use crate::roles_cache::RolesCache;
use crate::scope::{answer, answers_of, CheckScope, ScopeAnswers};

verus! {

/// What a decision table says of one (role, resource, action) triple.
#[derive(Clone, Copy, Debug)]
pub enum Rule<Scope> {
    /// The action is permitted.
    Allow,
    /// The action is not permitted by this role.
    Deny,
    /// The action is permitted when the object lies in the given scope.
    AllowInScope(Scope),
}

/// Whether `rule` permits the action for `user_id` on `obj`, where `in_scope`
/// gives the answers of the scope checker.
pub open spec fn rule_grants<Scope, T>(
    rule: Rule<Scope>,
    in_scope: ScopeAnswers<Scope, T>,
    user_id: i32,
    obj: Option<&T>,
) -> bool {
    match rule {
        Rule::Allow => true,
        Rule::Deny => false,
        Rule::AllowInScope(scope) => answer(in_scope, user_id, scope, obj),
    }
}

/// Whether one of `rules` (one per role that the user holds) permits the action.
pub open spec fn some_rule_grants<Scope, T>(
    rules: Seq<Rule<Scope>>,
    in_scope: ScopeAnswers<Scope, T>,
    user_id: i32,
    obj: Option<&T>,
) -> bool {
    exists|i: int| 0 <= i < rules.len() && rule_grants(#[trigger] rules[i], in_scope, user_id, obj)
}

/// Applies one rule, asking the scope checker only for a scope-qualified rule.
pub fn rule_permits<Scope, T, C: CheckScope<Scope, T>>(
    rule: &Rule<Scope>,
    scope_checker: &C,
    user_id: i32,
    obj: Option<&T>,
) -> (r: bool)
    ensures
        r == rule_grants(*rule, answers_of(scope_checker), user_id, obj),
{
    match rule {
        Rule::Allow => true,
        Rule::Deny => false,
        Rule::AllowInScope(scope) => scope_checker.is_in_scope(user_id, scope, obj),
    }
}

/// Permits the action when at least one of the user's rules permits it. With no
/// rule at all (a user without roles) the action is denied.
pub fn rules_permit<Scope, T, C: CheckScope<Scope, T>>(
    rules: &Vec<Rule<Scope>>,
    scope_checker: &C,
    user_id: i32,
    obj: Option<&T>,
) -> (r: bool)
    ensures
        r == some_rule_grants(rules@, answers_of(scope_checker), user_id, obj),
{
    let mut i: usize = 0;
    while i < rules.len()
        invariant
            i <= rules.len(),
            forall|j: int| 0 <= j < i ==> !rule_grants(#[trigger] rules@[j], answers_of(scope_checker), user_id, obj),
        decreases rules.len() - i,
    {
        if rule_permits(&rules[i], scope_checker, user_id, obj) {
            return true;
        }
        i = i + 1;
    }
    false
}

/// The roles of `user_id` when the cache has loaded them, `None` on a miss.
/// A user loaded with no role gives `Some` of an empty list.
pub fn cached_roles<C: RolesCache>(cache: &C, user_id: i32) -> (r: Option<Vec<C::Role>>)
    ensures
        match r {
            Some(roles) => cache.entries().contains_key(user_id) && roles@ == cache.entries()[user_id],
            None => !cache.entries().contains_key(user_id),
        },
{
    if cache.contains(user_id) {
        Some(cache.get(user_id))
    } else {
        None
    }
}

/// Records what the authoritative role source answered on a cache miss. On
/// success the roles are stored for `user_id` and handed back; on failure the
/// error is handed back unchanged and the cache is left as it was, so the user
/// stays unknown and a later attempt may load it.
pub fn load_roles<C: RolesCache, E>(
    cache: &mut C,
    user_id: i32,
    fetched: Result<Vec<C::Role>, E>,
) -> (r: Result<Vec<C::Role>, E>)
    ensures
        r == fetched,
        match fetched {
            Ok(roles) => final(cache).entries() == old(cache).entries().insert(user_id, roles@),
            Err(_) => final(cache).entries() == old(cache).entries(),
        },
{
    match fetched {
        Ok(roles) => {
            cache.add_roles(user_id, &roles);
            Ok(roles)
        },
        Err(e) => Err(e),
    }
}

} // verus!
