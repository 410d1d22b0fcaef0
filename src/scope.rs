use vstd::prelude::*;

verus! {

/// Implement this trait on a resource to tell whether an object lies in a scope
/// for a given user (for instance, whether the user owns it).
pub trait CheckScope<Scope, T> {
    /// The answer of the checker, as a pure function of its arguments.
    spec fn in_scope(&self, user_id: i32, scope: &Scope, obj: Option<&T>) -> bool;

    fn is_in_scope(&self, user_id: i32, scope: &Scope, obj: Option<&T>) -> (r: bool)
        ensures
            r == self.in_scope(user_id, scope, obj),
    ;
}

/// What a scope checker answers, as a function of user id, scope and object.
pub type ScopeAnswers<Scope, T> = spec_fn(i32, Scope, Option<T>) -> bool;

/// The answers of `scope_checker`.
pub open spec fn answers_of<Scope, T, C: CheckScope<Scope, T>>(scope_checker: &C) -> ScopeAnswers<Scope, T> {
    |user_id: i32, scope: Scope, obj: Option<T>|
        match obj {
            Some(o) => scope_checker.in_scope(user_id, &scope, Some(&o)),
            None => scope_checker.in_scope(user_id, &scope, None),
        }
}

/// What `in_scope` answers for an object given by reference.
pub open spec fn answer<Scope, T>(in_scope: ScopeAnswers<Scope, T>, user_id: i32, scope: Scope, obj: Option<&T>) -> bool {
    match obj {
        Some(o) => in_scope(user_id, scope, Some(*o)),
        None => in_scope(user_id, scope, None),
    }
}

} // verus!
