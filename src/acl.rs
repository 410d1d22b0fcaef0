use vstd::prelude::*;
use crate::scope::{answers_of, CheckScope, ScopeAnswers};

verus! {

/// Access control layer for repositories: it tells whether a user may perform an
/// action on a resource. The rules for roles and permissions live in each
/// implementation.
pub trait Acl<Resource, Action, Scope, Error, T> {
    /// The answer of the evaluator for these arguments, where `in_scope` gives the
    /// answers of the scope checker that it is asked with.
    spec fn decision(
        &self,
        resource: &Resource,
        action: &Action,
        in_scope: ScopeAnswers<Scope, T>,
        obj: Option<&T>,
    ) -> Result<bool, Error>;

    /// Tells whether the acting user may perform `action` on `resource`.
    /// `scope_checker` tells whether `obj` lies in a scope, which some rules ask
    /// for (a user may update a store only as its owner). A denial is `Ok(false)`;
    /// an error means that the answer could not be determined.
    fn allows<C: CheckScope<Scope, T>>(
        &self,
        resource: &Resource,
        action: &Action,
        scope_checker: &C,
        obj: Option<&T>,
    ) -> (r: Result<bool, Error>)
        ensures
            r == self.decision(resource, action, answers_of(scope_checker), obj),
    ;
}

/// `SystemACL` allows every action on every resource.
#[derive(Clone, Copy, Debug)]
pub struct SystemACL {}

impl SystemACL {
    pub fn new() -> (r: Self)
        ensures
            r == (SystemACL {}),
    {
        SystemACL {}
    }

    /// Allows whatever the resource, action, scope checker and object; never fails.
    pub fn verdict<Resource, Action, Scope, E, T, C: CheckScope<Scope, T>>(
        &self,
        resource: &Resource,
        action: &Action,
        scope_checker: &C,
        obj: Option<&T>,
    ) -> (r: Result<bool, E>)
        ensures
            r matches Ok(true),
    {
        Ok(true)
    }
}

impl Default for SystemACL {
    fn default() -> (r: Self)
        ensures
            r == (SystemACL {}),
    {
        SystemACL {}
    }
}

/// Always `Ok(true)`, as `verdict`.
impl<Resource, Action, Scope, E, T> Acl<Resource, Action, Scope, E, T> for SystemACL {
    open spec fn decision(
        &self,
        resource: &Resource,
        action: &Action,
        in_scope: ScopeAnswers<Scope, T>,
        obj: Option<&T>,
    ) -> Result<bool, E> {
        Ok(true)
    }

    fn allows<C: CheckScope<Scope, T>>(
        &self,
        resource: &Resource,
        action: &Action,
        scope_checker: &C,
        obj: Option<&T>,
    ) -> (r: Result<bool, E>) {
        self.verdict(resource, action, scope_checker, obj)
    }
}

/// `UnauthorizedACL` denies every action on every resource.
#[derive(Clone, Copy, Debug)]
pub struct UnauthorizedACL {}

impl UnauthorizedACL {
    pub fn new() -> (r: Self)
        ensures
            r == (UnauthorizedACL {}),
    {
        UnauthorizedACL {}
    }

    /// Denies whatever the resource, action, scope checker and object; never fails.
    pub fn verdict<Resource, Action, Scope, E, T, C: CheckScope<Scope, T>>(
        &self,
        resource: &Resource,
        action: &Action,
        scope_checker: &C,
        obj: Option<&T>,
    ) -> (r: Result<bool, E>)
        ensures
            r matches Ok(false),
    {
        Ok(false)
    }
}

impl Default for UnauthorizedACL {
    fn default() -> (r: Self)
        ensures
            r == (UnauthorizedACL {}),
    {
        UnauthorizedACL {}
    }
}

/// Always `Ok(false)`, as `verdict`.
impl<Resource, Action, Scope, E, T> Acl<Resource, Action, Scope, E, T> for UnauthorizedACL {
    open spec fn decision(
        &self,
        resource: &Resource,
        action: &Action,
        in_scope: ScopeAnswers<Scope, T>,
        obj: Option<&T>,
    ) -> Result<bool, E> {
        Ok(false)
    }

    fn allows<C: CheckScope<Scope, T>>(
        &self,
        resource: &Resource,
        action: &Action,
        scope_checker: &C,
        obj: Option<&T>,
    ) -> (r: Result<bool, E>) {
        self.verdict(resource, action, scope_checker, obj)
    }
}

} // verus!
