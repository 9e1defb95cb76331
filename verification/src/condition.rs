//! The requirement that a handler is declared with, and its evaluation
//! against the authorities of a caller.

use vstd::prelude::*;
use vstd::string::*;
use crate::authority::{models, AuthDetails, Authority};
use crate::text::{join, joined, views};

verus! {

/// How the literals of a requirement combine.
#[derive(Clone, Copy, Debug, PartialEq, Eq, Structural)]
pub enum CheckKind {
    /// Every literal must be held.
    AllOf,
    /// At least one literal must be held.
    AnyOf,
    /// Every literal, taken as a role name, must be held as a role.
    RoleAllOf,
    /// At least one literal, taken as a role name, must be held as a role.
    RoleAnyOf,
}

impl CheckKind {
    /// Whether the literals are role names.
    pub open spec fn spec_is_role(self) -> bool {
        self == CheckKind::RoleAllOf || self == CheckKind::RoleAnyOf
    }

    /// Whether every literal is required, rather than any one.
    pub open spec fn spec_is_all(self) -> bool {
        self == CheckKind::AllOf || self == CheckKind::RoleAllOf
    }

    /// What stands between two literals in the text of a requirement.
    pub open spec fn spec_separator(self) -> Seq<char> {
        if self.spec_is_all() {
            " && "@
        } else {
            " || "@
        }
    }

    /// Whether the literals are role names.
    #[verifier::when_used_as_spec(spec_is_role)]
    pub fn is_role(self) -> (b: bool)
        ensures
            b == self.spec_is_role(),
    {
        match self {
            CheckKind::AllOf => false,
            CheckKind::AnyOf => false,
            CheckKind::RoleAllOf => true,
            CheckKind::RoleAnyOf => true,
        }
    }

    /// Whether every literal is required, rather than any one.
    #[verifier::when_used_as_spec(spec_is_all)]
    pub fn is_all(self) -> (b: bool)
        ensures
            b == self.spec_is_all(),
    {
        match self {
            CheckKind::AllOf => true,
            CheckKind::AnyOf => false,
            CheckKind::RoleAllOf => true,
            CheckKind::RoleAnyOf => false,
        }
    }

    /// What stands between two literals in the text of a requirement.
    pub fn separator(self) -> (s: &'static str)
        ensures
            s@ == self.spec_separator(),
    {
        if self.is_all() {
            " && "
        } else {
            " || "
        }
    }
}

/// Every token of `required` is in `held`.
pub open spec fn all_held<V>(required: Seq<V>, held: Set<V>) -> bool {
    forall|i: int| 0 <= i < required.len() ==> held.contains(#[trigger] required[i])
}

/// Some token of `required` is in `held`.
pub open spec fn any_held<V>(required: Seq<V>, held: Set<V>) -> bool {
    exists|i: int| 0 <= i < required.len() && held.contains(#[trigger] required[i])
}

/// The tokens that the literals `literals` stand for under `kind`: the
/// literals themselves, or the role tokens for them.
pub open spec fn required_tokens<T: Authority>(kind: CheckKind, literals: Seq<T::V>) -> Seq<T::V> {
    if kind.spec_is_role() {
        Seq::new(literals.len(), |i: int| T::role_model(literals[i]))
    } else {
        literals
    }
}

/// Whether a caller that holds `held` meets the literal part of a requirement.
pub open spec fn satisfied<T: Authority>(kind: CheckKind, literals: Seq<T::V>, held: Set<T::V>) -> bool {
    if kind.spec_is_all() {
        all_held(required_tokens::<T>(kind, literals), held)
    } else {
        any_held(required_tokens::<T>(kind, literals), held)
    }
}

/// The text of a requirement: its required tokens as they are written,
/// with `&&` or `||` between them.
pub open spec fn requirement_text<T: Authority>(kind: CheckKind, literals: Seq<T::V>) -> Seq<char> {
    let tokens = required_tokens::<T>(kind, literals);
    joined(Seq::new(tokens.len(), |i: int| T::text_model(tokens[i])), kind.spec_separator())
}

/// The decision once the guard is taken into account. A requirement without
/// a guard is decided by its literals alone.
pub open spec fn decided(literals_met: bool, guard: Option<bool>) -> bool {
    literals_met && match guard {
        Some(value) => value,
        None => true,
    }
}

/// Combines the literal part of a requirement with the value of its guard.
pub fn decide(literals_met: bool, guard: Option<bool>) -> (granted: bool)
    ensures
        granted == decided(literals_met, guard),
        !literals_met ==> !granted,
        literals_met && guard.is_none() ==> granted,
        literals_met && guard.is_some() ==> granted == guard.unwrap(),
{
    match guard {
        Some(value) => literals_met && value,
        None => literals_met,
    }
}

/// What the evaluation of a requirement gives.
#[derive(Clone, Debug, PartialEq, Eq)]
pub struct Decision {
    /// Whether the caller may proceed.
    pub granted: bool,
    /// The text of the requirement, to report when it is not met.
    pub reason: String,
}

/// The literal part of a declared requirement.
#[derive(Debug)]
pub struct Condition<T: Authority> {
    pub kind: CheckKind,
    pub literals: Vec<T>,
}

impl<T: Authority> Condition<T> {
    /// The tokens that a caller must hold, all or any of them.
    pub open spec fn tokens(&self) -> Seq<T::V> {
        required_tokens::<T>(self.kind, models(self.literals@))
    }

    /// Whether a caller that holds `held` meets the requirement.
    pub open spec fn holds(&self, held: Set<T::V>) -> bool {
        satisfied::<T>(self.kind, models(self.literals@), held)
    }

    /// The text of the requirement.
    pub open spec fn reason_text(&self) -> Seq<char> {
        requirement_text::<T>(self.kind, models(self.literals@))
    }

    /// A requirement of the kind `kind` over `literals`.
    pub fn new(kind: CheckKind, literals: Vec<T>) -> (cond: Self)
        ensures
            cond.kind == kind,
            cond.literals == literals,
    {
        Condition { kind, literals }
    }

    /// The role tokens for the literals.
    fn role_tokens(&self) -> (roles: Vec<T>)
        ensures
            models(roles@) == Seq::new(
                self.literals@.len(),
                |i: int| T::role_model(models(self.literals@)[i]),
            ),
    {
        let mut roles: Vec<T> = Vec::new();
        let mut i: usize = 0;
        while i < self.literals.len()
            invariant
                i <= self.literals.len(),
                roles@.len() == i,
                forall|j: int| 0 <= j < i ==> (#[trigger] roles@[j])@ == T::role_model(self.literals@[j]@),
            decreases self.literals.len() - i,
        {
            roles.push(self.literals[i].as_role());
            i = i + 1;
        }
        assert(models(roles@) =~= Seq::new(
            self.literals@.len(),
            |i: int| T::role_model(models(self.literals@)[i]),
        ));
        roles
    }

    /// Tells whether the authorities `held` meet the requirement.
    pub fn check(&self, held: &AuthDetails<T>) -> (met: bool)
        ensures
            met == self.holds(held@),
    {
        if self.kind.is_role() {
            let roles = self.role_tokens();
            proof {
                lemma_held_as_sets(models(roles@), held@);
            }
            if self.kind.is_all() {
                held.contains_all(&roles)
            } else {
                held.contains_any(&roles)
            }
        } else {
            proof {
                lemma_held_as_sets(models(self.literals@), held@);
            }
            if self.kind.is_all() {
                held.contains_all(&self.literals)
            } else {
                held.contains_any(&self.literals)
            }
        }
    }

    /// Writes the text of the requirement.
    pub fn reason(&self) -> (text: String)
        ensures
            text@ == self.reason_text(),
    {
        let role = self.kind.is_role();
        let mut parts: Vec<String> = Vec::new();
        let mut i: usize = 0;
        let ghost tokens = self.tokens();
        while i < self.literals.len()
            invariant
                i <= self.literals.len(),
                role == self.kind.spec_is_role(),
                tokens == self.tokens(),
                parts@.len() == i,
                forall|j: int| 0 <= j < i ==> (#[trigger] parts@[j])@ == T::text_model(tokens[j]),
            decreases self.literals.len() - i,
        {
            let part = if role {
                self.literals[i].as_role().text()
            } else {
                self.literals[i].text()
            };
            parts.push(part);
            i = i + 1;
        }
        assert(views(parts@) =~= Seq::new(tokens.len(), |i: int| T::text_model(tokens[i])));
        join(&parts, self.kind.separator())
    }

    /// Evaluates the requirement for a caller that holds `held`. `guard` is
    /// the value of the guard expression where one is declared.
    pub fn evaluate(&self, held: &AuthDetails<T>, guard: Option<bool>) -> (decision: Decision)
        ensures
            decision.granted == decided(self.holds(held@), guard),
            decision.reason@ == self.reason_text(),
    {
        let met = self.check(held);
        Decision { granted: decide(met, guard), reason: self.reason() }
    }
}

/// `all_held` is set inclusion and `any_held` is a common element: a
/// requirement of all literals is met exactly when the literals are a subset
/// of what the caller holds, and one of any literal exactly when the two sets
/// meet.
pub proof fn lemma_held_as_sets<V>(required: Seq<V>, held: Set<V>)
    ensures
        all_held(required, held) <==> required.to_set().subset_of(held),
        any_held(required, held) <==> !required.to_set().disjoint(held),
        any_held(required, held) <==> required.to_set().intersect(held) != Set::<V>::empty(),
{
    if all_held(required, held) {
        assert forall|v: V| required.to_set().contains(v) implies held.contains(v) by {
            let i = choose|i: int| 0 <= i < required.len() && required[i] == v;
            assert(held.contains(required[i]));
        }
    }
    if required.to_set().subset_of(held) {
        assert forall|i: int| 0 <= i < required.len() implies held.contains(
            #[trigger] required[i],
        ) by {
            assert(required.to_set().contains(required[i]));
        }
    }
    if any_held(required, held) {
        let i = choose|i: int| 0 <= i < required.len() && held.contains(#[trigger] required[i]);
        assert(required.to_set().contains(required[i]));
        assert(required.to_set().intersect(held).contains(required[i]));
    }
    if !required.to_set().disjoint(held) {
        let v = choose|v: V| required.to_set().contains(v) && held.contains(v);
        let i = choose|i: int| 0 <= i < required.len() && required[i] == v;
        assert(held.contains(required[i]));
    }
    if required.to_set().intersect(held) != Set::<V>::empty() {
        if required.to_set().disjoint(held) {
            assert(required.to_set().intersect(held) =~= Set::<V>::empty());
        }
    }
}

/// A requirement of all literals is met exactly when the literals are a
/// subset of what the caller holds; a requirement of any literal exactly
/// when the literals and what the caller holds have an authority in common.
pub proof fn lemma_plain_requirements<T: Authority>(literals: Seq<T::V>, held: Set<T::V>)
    ensures
        satisfied::<T>(CheckKind::AllOf, literals, held) <==> literals.to_set().subset_of(held),
        satisfied::<T>(CheckKind::AnyOf, literals, held) <==> literals.to_set().intersect(held)
            != Set::<T::V>::empty(),
{
    lemma_held_as_sets(literals, held);
}

/// A requirement of roles is the requirement of the role tokens for its
/// literals: it is met by the same callers and has the same text.
pub proof fn lemma_role_requirements<T: Authority>(literals: Seq<T::V>, held: Set<T::V>)
    ensures
        satisfied::<T>(CheckKind::RoleAllOf, literals, held) == satisfied::<T>(
            CheckKind::AllOf,
            Seq::new(literals.len(), |i: int| T::role_model(literals[i])),
            held,
        ),
        satisfied::<T>(CheckKind::RoleAnyOf, literals, held) == satisfied::<T>(
            CheckKind::AnyOf,
            Seq::new(literals.len(), |i: int| T::role_model(literals[i])),
            held,
        ),
        requirement_text::<T>(CheckKind::RoleAllOf, literals) == requirement_text::<T>(
            CheckKind::AllOf,
            Seq::new(literals.len(), |i: int| T::role_model(literals[i])),
        ),
        requirement_text::<T>(CheckKind::RoleAnyOf, literals) == requirement_text::<T>(
            CheckKind::AnyOf,
            Seq::new(literals.len(), |i: int| T::role_model(literals[i])),
        ),
{
}

/// Where the literals are not met the caller is denied, whatever the guard
/// says. Where they are met the decision is the value of the guard, and a
/// grant where no guard is declared.
pub proof fn lemma_guard_composition(literals_met: bool, guard: Option<bool>)
    ensures
        !literals_met ==> !decided(literals_met, guard),
        literals_met ==> decided(literals_met, guard) == match guard {
            Some(value) => value,
            None => true,
        },
{
}

/// Evaluation is a function: two evaluations of one requirement for one
/// caller, under one value of the guard, give the same decision and the
/// same reason.
pub proof fn lemma_evaluate_twice<T: Authority>(
    cond: &Condition<T>,
    held: &AuthDetails<T>,
    guard: Option<bool>,
    first: Decision,
    second: Decision,
)
    requires
        call_ensures(Condition::<T>::evaluate, (cond, held, guard), first),
        call_ensures(Condition::<T>::evaluate, (cond, held, guard), second),
    ensures
        first.granted == second.granted,
        first.reason@ == second.reason@,
{
}

} // verus!
