//! What a declaration means for a request: the decision that the guarded
//! handler takes, stated over the declaration that it was written from.
//!
//! This holds for declarations of text authorities. Under a type override
//! the literals are expressions of another type, and only the written
//! handler can evaluate them.

use vstd::prelude::*;
use crate::authority::{models, role_prefix, AuthDetails, Authority};
use crate::condition::{
    decided, lemma_plain_requirements, lemma_role_requirements, satisfied, CheckKind, Decision,
};
use crate::config::{
    resolved, DenialHandler, GeneralHandler, GrantErrorConfig, GrantsConfig, MissingHandler,
    Response,
};
use crate::declaration::{declared, protected, DeclarationErrorView};
use crate::endpoint::{declared_reason, ArgsView, HandlerFnView, ProtectEndpoint};
use crate::protect::{guarded, protect, Either};
use crate::syntax::MetaItemView;
use crate::text::views;

verus! {

/// The guard of a declaration as it counts for one request: the value of
/// the guard expression where one is declared, and nothing where the
/// declaration has none.
pub open spec fn counted_guard(args: ArgsView, guard_value: bool) -> Option<bool> {
    if args.secure is Some {
        Some(guard_value)
    } else {
        None
    }
}

/// Whether the handler declared with `args` runs for a caller that holds
/// `held`, when the guard expression has the value `guard_value`.
pub open spec fn declared_decision(args: ArgsView, held: Set<Seq<char>>, guard_value: bool) -> bool {
    decided(satisfied::<String>(args.kind, args.literals, held), counted_guard(args, guard_value))
}

/// The declaration of the kind `kind` with the literals `literals` and
/// nothing else.
pub open spec fn plain_args(kind: CheckKind, literals: Seq<Seq<char>>) -> ArgsView {
    ArgsView { kind, literals, secure: None, ty: None, error_fn: None }
}

/// The arguments that are the string literals `literals`, in order.
pub open spec fn literal_arguments(literals: Seq<Seq<char>>) -> Seq<MetaItemView> {
    Seq::new(literals.len(), |i: int| MetaItemView::Literal(literals[i]))
}

impl ProtectEndpoint {
    /// Whether the declaration is one of text authorities.
    pub open spec fn of_text(&self) -> bool {
        self.args.ty is None
    }

    /// Takes the decision of the guarded handler for a caller that holds
    /// `held`. `guard_value` is the value of the guard expression; it
    /// counts only where the declaration has a guard.
    pub fn decide(&self, held: &AuthDetails<String>, guard_value: bool) -> (decision: Decision)
        requires
            self.of_text(),
        ensures
            decision.granted == declared_decision(self.args@, held@, guard_value),
            decision.reason@ == declared_reason(self.args@),
    {
        let guard = if self.args.secure.is_some() {
            Some(guard_value)
        } else {
            None
        };
        assert(models(self.args.cond.literals@) =~= views(self.args.cond.literals@));
        self.args.cond.evaluate(held, guard)
    }

    /// Does for one request what the guarded handler does: without attached
    /// authorities it answers as the configuration lays down for that; with
    /// them it runs `handler` where the decision is a grant, and answers
    /// with `error_fn`, or without one as the configuration lays down,
    /// where it is a denial.
    pub fn run<
        O,
        A: FnOnce() -> O,
        E: FnOnce() -> Response,
        H: DenialHandler<String>,
        G: GeneralHandler,
        M: MissingHandler,
    >(
        &self,
        authorities: Option<&AuthDetails<String>>,
        guard_value: bool,
        handler: A,
        error_fn: Option<E>,
        typed: &GrantErrorConfig<String, H>,
        general: &GrantsConfig<G, M>,
    ) -> (out: Either<O, Response>)
        requires
            self.of_text(),
            call_requires(handler, ()),
            error_fn matches Some(f) ==> call_requires(f, ()),
        ensures
            guarded(
                &self.args.cond,
                authorities,
                counted_guard(self.args@, guard_value),
                handler,
                error_fn,
                typed,
                general,
                out,
            ),
            authorities matches Some(held) ==> (out is Left <==> declared_decision(
                self.args@,
                held@,
                guard_value,
            )),
            authorities is None ==> out is Right,
    {
        let guard = if self.args.secure.is_some() {
            Some(guard_value)
        } else {
            None
        };
        proof {
            assert(models(self.args.cond.literals@) =~= views(self.args.cond.literals@));
        }
        protect(&self.args.cond, authorities, guard, handler, error_fn, typed, general)
    }
}

/// The arguments that are string literals and nothing else make the plain
/// declaration of these literals, and that declaration guards every handler
/// that is `async`.
pub proof fn lemma_plain_declaration(kind: CheckKind, literals: Seq<Seq<char>>, func: HandlerFnView)
    ensures
        declared(kind, literal_arguments(literals)) == Ok::<
            ArgsView,
            DeclarationErrorView,
        >(plain_args(kind, literals)),
        func.sig.is_async ==> protected(kind, literal_arguments(literals), func) == Ok::<
            ArgsView,
            DeclarationErrorView,
        >(plain_args(kind, literals)),
    decreases literals.len(),
{
    let items = literal_arguments(literals);
    if literals.len() == 0 {
        assert(literals =~= Seq::<Seq<char>>::empty());
    } else {
        lemma_plain_declaration(kind, literals.drop_last(), func);
        assert(items.drop_last() =~= literal_arguments(literals.drop_last()));
        assert(items.last() == MetaItemView::Literal(literals.last()));
        assert(literals.drop_last().push(literals.last()) =~= literals);
    }
}

/// A handler declared with all of its permissions and no guard runs exactly
/// for the callers that hold every literal; one declared with any of its
/// permissions, exactly for the callers that hold at least one.
pub proof fn lemma_declared_permissions(
    literals: Seq<Seq<char>>,
    held: Set<Seq<char>>,
    guard_value: bool,
)
    ensures
        declared_decision(plain_args(CheckKind::AllOf, literals), held, guard_value)
            <==> literals.to_set().subset_of(held),
        declared_decision(plain_args(CheckKind::AnyOf, literals), held, guard_value)
            <==> literals.to_set().intersect(held) != Set::<Seq<char>>::empty(),
{
    lemma_plain_requirements::<String>(literals, held);
}

/// A handler declared with roles decides as the handler declared with the
/// permissions that carry the role prefix, and reports the same reason.
pub proof fn lemma_declared_roles(args: ArgsView, held: Set<Seq<char>>, guard_value: bool)
    requires
        args.ty is None,
    ensures
        args.kind == CheckKind::RoleAllOf ==> declared_decision(args, held, guard_value)
            == declared_decision(prefixed(args, CheckKind::AllOf), held, guard_value)
            && declared_reason(args) == declared_reason(prefixed(args, CheckKind::AllOf)),
        args.kind == CheckKind::RoleAnyOf ==> declared_decision(args, held, guard_value)
            == declared_decision(prefixed(args, CheckKind::AnyOf), held, guard_value)
            && declared_reason(args) == declared_reason(prefixed(args, CheckKind::AnyOf)),
{
    lemma_role_requirements::<String>(args.literals, held);
    assert(prefixed(args, CheckKind::AllOf).literals =~= Seq::new(
        args.literals.len(),
        |i: int| <String as Authority>::role_model(args.literals[i]),
    ));
}

/// The declaration `args` with the kind `kind` and with the role prefix in
/// front of each literal.
pub open spec fn prefixed(args: ArgsView, kind: CheckKind) -> ArgsView {
    ArgsView {
        kind,
        literals: Seq::new(args.literals.len(), |i: int| role_prefix() + args.literals[i]),
        secure: args.secure,
        ty: args.ty,
        error_fn: args.error_fn,
    }
}

/// Where the literals of a declaration are not met the caller is denied,
/// whatever the guard says. Where they are met and a guard is declared, the
/// decision is the value of the guard. Without a declared guard the literals
/// decide alone, and the value handed in for the guard has no influence.
pub proof fn lemma_declared_guard(args: ArgsView, held: Set<Seq<char>>, guard_value: bool)
    ensures
        !satisfied::<String>(args.kind, args.literals, held) ==> !declared_decision(
            args,
            held,
            guard_value,
        ),
        satisfied::<String>(args.kind, args.literals, held) && args.secure is Some
            ==> declared_decision(args, held, guard_value) == guard_value,
        args.secure is None ==> declared_decision(args, held, guard_value) == satisfied::<String>(
            args.kind,
            args.literals,
            held,
        ),
        args.secure is None ==> declared_decision(args, held, guard_value) == declared_decision(
            args,
            held,
            !guard_value,
        ),
{
}

/// Two decisions of one guarded handler for one caller, under one value of
/// the guard, are the same decision with the same reason.
pub proof fn lemma_decide_twice(
    endpoint: &ProtectEndpoint,
    held: &AuthDetails<String>,
    guard_value: bool,
    first: Decision,
    second: Decision,
)
    requires
        call_ensures(ProtectEndpoint::decide, (endpoint, held, guard_value), first),
        call_ensures(ProtectEndpoint::decide, (endpoint, held, guard_value), second),
    ensures
        first.granted == second.granted,
        first.reason@ == second.reason@,
{
}

/// A denial of a guarded handler without an error function of its own is
/// answered by the handler configured for text authorities where there is
/// one, whether or not a general handler is configured beside it; and by
/// the fixed forbidden response where neither is configured.
pub proof fn lemma_denial_of_guarded_handler<
    O,
    A: FnOnce() -> O,
    E: FnOnce() -> Response,
    H: DenialHandler<String>,
    G: GeneralHandler,
    M: MissingHandler,
>(
    endpoint: &ProtectEndpoint,
    held: &AuthDetails<String>,
    guard_value: bool,
    handler: A,
    error_fn: Option<E>,
    typed: &GrantErrorConfig<String, H>,
    general: &GrantsConfig<G, M>,
    out: Either<O, Response>,
)
    requires
        endpoint.of_text(),
        error_fn is None,
        !declared_decision(endpoint.args@, held@, guard_value),
        guarded(
            &endpoint.args.cond,
            Some(held),
            counted_guard(endpoint.args@, guard_value),
            handler,
            error_fn,
            typed,
            general,
            out,
        ),
    ensures
        out is Right,
        typed.err_handler is Some ==> exists|reason: &str|
            reason@ == declared_reason(endpoint.args@) && #[trigger] typed.err_handler.unwrap().answers(
                reason,
                held,
                out->Right_0,
            ),
        typed.err_handler is None && general.grants_err_handler is None ==> out->Right_0.is_forbidden()
            && out->Right_0.well_formed(),
{
    assert(models(endpoint.args.cond.literals@) =~= views(endpoint.args.cond.literals@));
    let response = out->Right_0;
    let reason = choose|reason: &str|
        reason@ == endpoint.args.cond.reason_text() && #[trigger] resolved(
            reason,
            Some(held),
            typed,
            general,
            response,
        );
    if typed.err_handler is Some {
        assert(typed.err_handler.unwrap().answers(reason, held, response));
    }
}

} // verus!
