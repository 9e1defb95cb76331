//! The guarded handler at work: what a request is answered with, from the
//! authorities attached to it to the handler's output or an error response.

use vstd::prelude::*;
use crate::authority::{AuthDetails, Authority};
use crate::condition::{decided, Condition};
use crate::config::{
    resolve, resolved, DenialHandler, GeneralHandler, GrantErrorConfig, GrantsConfig,
    MissingHandler, Response,
};

verus! {

/// The output of a guarded handler: what the handler gives, or the error
/// response that takes its place.
#[derive(Clone, Debug, PartialEq, Eq)]
pub enum Either<L, R> {
    /// The output of the handler.
    Left(L),
    /// The error response.
    Right(R),
}

/// Whether `response` is the error response that the configuration lays
/// down, with the text of the requirement as the reason.
pub open spec fn configured<T: Authority, H: DenialHandler<T>, G: GeneralHandler, M: MissingHandler>(
    cond: &Condition<T>,
    authorities: Option<&AuthDetails<T>>,
    typed: &GrantErrorConfig<T, H>,
    general: &GrantsConfig<G, M>,
    response: Response,
) -> bool {
    exists|reason: &str|
        reason@ == cond.reason_text() && #[trigger] resolved(
            reason,
            authorities,
            typed,
            general,
            response,
        )
}

/// Whether `out` is what a guarded handler gives.
///
/// Without attached authorities it is the error response that the
/// configuration lays down for that, whatever else is declared. With them,
/// and the requirement met, it is an output of the handler. With the
/// requirement not met it is an answer of the error function where the
/// declaration has one, and else the error response that the configuration
/// lays down for the denial, with the text of the requirement as the reason.
pub open spec fn guarded<
    T: Authority,
    O,
    A: FnOnce() -> O,
    E: FnOnce() -> Response,
    H: DenialHandler<T>,
    G: GeneralHandler,
    M: MissingHandler,
>(
    cond: &Condition<T>,
    authorities: Option<&AuthDetails<T>>,
    guard: Option<bool>,
    handler: A,
    error_fn: Option<E>,
    typed: &GrantErrorConfig<T, H>,
    general: &GrantsConfig<G, M>,
    out: Either<O, Response>,
) -> bool {
    match authorities {
        Some(held) => if decided(cond.holds(held@), guard) {
            out matches Either::Left(output) && call_ensures(handler, (), output)
        } else if error_fn is Some {
            out matches Either::Right(response) && call_ensures(error_fn.unwrap(), (), response)
        } else {
            out matches Either::Right(response) && configured(
                cond,
                authorities,
                typed,
                general,
                response,
            )
        },
        None => out matches Either::Right(response) && configured(
            cond,
            authorities,
            typed,
            general,
            response,
        ),
    }
}

/// Runs a guarded handler for one request.
///
/// `authorities` is what was attached to the request, `guard` the value of
/// the guard expression where the declaration has one, `handler` the
/// declared handler with its parameters bound, and `error_fn` the error
/// function of the declaration, if any.
pub fn protect<
    T: Authority,
    O,
    A: FnOnce() -> O,
    E: FnOnce() -> Response,
    H: DenialHandler<T>,
    G: GeneralHandler,
    M: MissingHandler,
>(
    cond: &Condition<T>,
    authorities: Option<&AuthDetails<T>>,
    guard: Option<bool>,
    handler: A,
    error_fn: Option<E>,
    typed: &GrantErrorConfig<T, H>,
    general: &GrantsConfig<G, M>,
) -> (out: Either<O, Response>)
    requires
        call_requires(handler, ()),
        error_fn matches Some(f) ==> call_requires(f, ()),
    ensures
        guarded(cond, authorities, guard, handler, error_fn, typed, general, out),
{
    match authorities {
        Some(held) => {
            let decision = cond.evaluate(held, guard);
            if decision.granted {
                Either::Left(handler())
            } else {
                match error_fn {
                    Some(f) => Either::Right(f()),
                    None => {
                        let response = resolve(decision.reason.as_str(), authorities, typed, general);
                        Either::Right(response)
                    },
                }
            }
        },
        None => {
            let reason = cond.reason();
            let response = resolve(reason.as_str(), authorities, typed, general);
            Either::Right(response)
        },
    }
}

} // verus!
