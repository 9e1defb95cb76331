//! The responses of a denial and the configuration that chooses among them.

use vstd::prelude::*;
use vstd::string::*;
use std::marker::PhantomData;
use crate::authority::{AuthDetails, Authority};
use crate::text::views;

verus! {

/// What a caller is answered with in place of the handler's output.
#[derive(Clone, Debug, PartialEq, Eq)]
pub struct Response {
    /// The status code.
    pub status: u16,
    /// The body.
    pub body: String,
}

impl Response {
    /// Whether the response carries a status code: a number of three
    /// digits.
    pub open spec fn well_formed(&self) -> bool {
        100 <= self.status <= 999
    }

    /// Whether this is the fixed answer to a denial: forbidden, with an
    /// empty body.
    pub open spec fn is_forbidden(&self) -> bool {
        self.status == 403 && self.body@ == Seq::<char>::empty()
    }

    /// Whether this is the fixed answer to a request that no authorities
    /// were attached to: a failure on the server's side, with an empty
    /// body.
    pub open spec fn is_server_failure(&self) -> bool {
        self.status == 500 && self.body@ == Seq::<char>::empty()
    }

    /// A response with the status `status` and the body `body`.
    pub fn new(status: u16, body: String) -> (response: Self)
        ensures
            response.status == status,
            response.body == body,
    {
        Response { status, body }
    }

    /// The fixed answer to a denial.
    pub fn forbidden() -> (response: Self)
        ensures
            response.is_forbidden(),
            response.well_formed(),
    {
        Response { status: 403, body: String::new() }
    }

    /// The fixed answer to a request that no authorities were attached to.
    pub fn server_failure() -> (response: Self)
        ensures
            response.is_server_failure(),
            response.well_formed(),
    {
        Response { status: 500, body: String::new() }
    }
}

/// Answers a denial for callers whose authorities are of the type `T`.
pub trait DenialHandler<T: Authority> {
    /// Whether `response` can be the answer to a denial for the reason
    /// `reason` of a caller that holds `authorities`.
    spec fn answers(&self, reason: &str, authorities: &AuthDetails<T>, response: Response) -> bool;

    /// Answers a denial.
    fn handle(&self, reason: &str, authorities: &AuthDetails<T>) -> (response: Response)
        ensures
            self.answers(reason, authorities, response),
    ;
}

/// Answers a denial for callers with authorities of any type. It is handed
/// the authorities with their type erased, one for each that the caller
/// holds: for text authorities, the tokens themselves.
pub trait GeneralHandler {
    /// Whether `response` can be the answer to a denial for the reason
    /// `reason` of a caller that holds `authorities`.
    spec fn answers(&self, reason: &str, authorities: &Vec<String>, response: Response) -> bool;

    /// Answers a denial.
    fn handle(&self, reason: &str, authorities: &Vec<String>) -> (response: Response)
        ensures
            self.answers(reason, authorities, response),
    ;
}

/// Answers a request that no authorities were attached to.
pub trait MissingHandler {
    /// Whether `response` can be the answer.
    spec fn answers(&self, response: Response) -> bool;

    /// Answers the request.
    fn handle(&self) -> (response: Response)
        ensures
            self.answers(response),
    ;
}

/// The handler of a configuration that none was given to: it answers with
/// the fixed forbidden response.
pub struct Forbidden;

impl<T: Authority> DenialHandler<T> for Forbidden {
    open spec fn answers(&self, reason: &str, authorities: &AuthDetails<T>, response: Response) -> bool {
        response.is_forbidden()
    }

    fn handle(&self, reason: &str, authorities: &AuthDetails<T>) -> (response: Response) {
        Response::forbidden()
    }
}

impl GeneralHandler for Forbidden {
    open spec fn answers(&self, reason: &str, authorities: &Vec<String>, response: Response) -> bool {
        response.is_forbidden()
    }

    fn handle(&self, reason: &str, authorities: &Vec<String>) -> (response: Response) {
        Response::forbidden()
    }
}

/// The handler of missing authorities of a configuration that none was
/// given to: it answers with the fixed server failure.
pub struct ServerFailure;

impl MissingHandler for ServerFailure {
    open spec fn answers(&self, response: Response) -> bool {
        response.is_server_failure()
    }

    fn handle(&self) -> (response: Response) {
        Response::server_failure()
    }
}

/// A function as the handler for one authority type. The function takes
/// every reason and every set of authorities.
pub struct FnDenialHandler<T: Authority, F: Fn(&str, &AuthDetails<T>) -> Response> {
    f: F,
    authority: PhantomData<T>,
}

impl<T: Authority, F: Fn(&str, &AuthDetails<T>) -> Response> FnDenialHandler<T, F> {
    #[verifier::type_invariant]
    spec fn total(&self) -> bool {
        forall|reason: &str, authorities: &AuthDetails<T>| #[trigger]
            call_requires(self.f, (reason, authorities))
    }

    /// The function that answers.
    pub closed spec fn func(&self) -> F {
        self.f
    }

    /// Makes `f` a handler.
    pub fn new(f: F) -> (handler: Self)
        requires
            forall|reason: &str, authorities: &AuthDetails<T>| #[trigger]
                call_requires(f, (reason, authorities)),
        ensures
            handler.func() == f,
            forall|reason: &str, authorities: &AuthDetails<T>, response: Response|
                #[trigger] handler.answers(reason, authorities, response) == call_ensures(
                    f,
                    (reason, authorities),
                    response,
                ),
    {
        FnDenialHandler { f, authority: PhantomData }
    }
}

impl<T: Authority, F: Fn(&str, &AuthDetails<T>) -> Response> DenialHandler<T> for FnDenialHandler<
    T,
    F,
> {
    open spec fn answers(&self, reason: &str, authorities: &AuthDetails<T>, response: Response) -> bool {
        call_ensures(self.func(), (reason, authorities), response)
    }

    fn handle(&self, reason: &str, authorities: &AuthDetails<T>) -> (response: Response) {
        proof {
            use_type_invariant(self);
        }
        (self.f)(reason, authorities)
    }
}

/// A function as the handler for authorities of any type. The function
/// takes every reason and every list of authorities.
pub struct FnGeneralHandler<F: Fn(&str, &Vec<String>) -> Response> {
    f: F,
}

impl<F: Fn(&str, &Vec<String>) -> Response> FnGeneralHandler<F> {
    #[verifier::type_invariant]
    spec fn total(&self) -> bool {
        forall|reason: &str, authorities: &Vec<String>| #[trigger]
            call_requires(self.f, (reason, authorities))
    }

    /// The function that answers.
    pub closed spec fn func(&self) -> F {
        self.f
    }

    /// Makes `f` a handler.
    pub fn new(f: F) -> (handler: Self)
        requires
            forall|reason: &str, authorities: &Vec<String>| #[trigger]
                call_requires(f, (reason, authorities)),
        ensures
            handler.func() == f,
            forall|reason: &str, authorities: &Vec<String>, response: Response|
                #[trigger] handler.answers(reason, authorities, response) == call_ensures(
                    f,
                    (reason, authorities),
                    response,
                ),
    {
        FnGeneralHandler { f }
    }
}

impl<F: Fn(&str, &Vec<String>) -> Response> GeneralHandler for FnGeneralHandler<F> {
    open spec fn answers(&self, reason: &str, authorities: &Vec<String>, response: Response) -> bool {
        call_ensures(self.func(), (reason, authorities), response)
    }

    fn handle(&self, reason: &str, authorities: &Vec<String>) -> (response: Response) {
        proof {
            use_type_invariant(self);
        }
        (self.f)(reason, authorities)
    }
}

/// A function as the handler of missing authorities.
pub struct FnMissingHandler<F: Fn() -> Response> {
    f: F,
}

impl<F: Fn() -> Response> FnMissingHandler<F> {
    #[verifier::type_invariant]
    spec fn total(&self) -> bool {
        call_requires(self.f, ())
    }

    /// The function that answers.
    pub closed spec fn func(&self) -> F {
        self.f
    }

    /// Makes `f` a handler.
    pub fn new(f: F) -> (handler: Self)
        requires
            call_requires(f, ()),
        ensures
            handler.func() == f,
            forall|response: Response| #[trigger]
                handler.answers(response) == call_ensures(f, (), response),
    {
        FnMissingHandler { f }
    }
}

impl<F: Fn() -> Response> MissingHandler for FnMissingHandler<F> {
    open spec fn answers(&self, response: Response) -> bool {
        call_ensures(self.func(), (), response)
    }

    fn handle(&self) -> (response: Response) {
        proof {
            use_type_invariant(self);
        }
        (self.f)()
    }
}

/// The configuration for the authority type `T`: the handler, if any, that
/// answers a denial of a caller with authorities of that type.
pub struct GrantErrorConfig<T: Authority, H: DenialHandler<T> = Forbidden> {
    pub err_handler: Option<H>,
    pub authority: PhantomData<T>,
}

impl<T: Authority> GrantErrorConfig<T, Forbidden> {
    /// The configuration without a handler.
    pub fn new() -> (config: Self)
        ensures
            config.err_handler is None,
    {
        GrantErrorConfig { err_handler: None, authority: PhantomData }
    }
}

impl<T: Authority> Default for GrantErrorConfig<T, Forbidden> {
    fn default() -> (config: Self)
        ensures
            config.err_handler is None,
    {
        GrantErrorConfig::new()
    }
}

impl<T: Authority, H: DenialHandler<T>> GrantErrorConfig<T, H> {
    /// Sets the handler: `f` answers from now on, in place of any earlier
    /// handler.
    pub fn error_handler<F>(self, f: F) -> (config: GrantErrorConfig<T, FnDenialHandler<T, F>>) where
        F: Fn(&str, &AuthDetails<T>) -> Response + Send + Sync + 'static,

        requires
            forall|reason: &str, authorities: &AuthDetails<T>| #[trigger]
                call_requires(f, (reason, authorities)),
        ensures
            config.err_handler matches Some(handler) && handler.func() == f,
            forall|reason: &str, authorities: &AuthDetails<T>, response: Response|
                #[trigger] config.err_handler.unwrap().answers(reason, authorities, response)
                    == call_ensures(f, (reason, authorities), response),
    {
        GrantErrorConfig { err_handler: Some(FnDenialHandler::new(f)), authority: PhantomData }
    }
}

/// The configuration for all authority types: the handler, if any, that
/// answers a denial where the authority type has none of its own, and the
/// handler, if any, that answers a request without attached authorities.
pub struct GrantsConfig<G: GeneralHandler = Forbidden, M: MissingHandler = ServerFailure> {
    pub grants_err_handler: Option<G>,
    pub auth_details_err_handler: Option<M>,
}

impl GrantsConfig<Forbidden, ServerFailure> {
    /// The configuration without handlers.
    pub fn new() -> (config: Self)
        ensures
            config.grants_err_handler is None,
            config.auth_details_err_handler is None,
    {
        GrantsConfig { grants_err_handler: None, auth_details_err_handler: None }
    }
}

impl Default for GrantsConfig<Forbidden, ServerFailure> {
    fn default() -> (config: Self)
        ensures
            config.grants_err_handler is None,
            config.auth_details_err_handler is None,
    {
        GrantsConfig::new()
    }
}

impl<G: GeneralHandler, M: MissingHandler> GrantsConfig<G, M> {
    /// Sets the handler of denials: `f` answers from now on, in place of
    /// any earlier one. The handler of missing authorities stays.
    pub fn default_grants_error_handler<F>(self, f: F) -> (config: GrantsConfig<
        FnGeneralHandler<F>,
        M,
    >) where F: Fn(&str, &Vec<String>) -> Response + Send + Sync + 'static
        requires
            forall|reason: &str, authorities: &Vec<String>| #[trigger]
                call_requires(f, (reason, authorities)),
        ensures
            config.grants_err_handler matches Some(handler) && handler.func() == f,
            forall|reason: &str, authorities: &Vec<String>, response: Response|
                #[trigger] config.grants_err_handler.unwrap().answers(reason, authorities, response)
                    == call_ensures(f, (reason, authorities), response),
            config.auth_details_err_handler == self.auth_details_err_handler,
    {
        GrantsConfig {
            grants_err_handler: Some(FnGeneralHandler::new(f)),
            auth_details_err_handler: self.auth_details_err_handler,
        }
    }

    /// Sets the handler of missing authorities: `f` answers from now on,
    /// in place of any earlier one. The handler of denials stays.
    pub fn missing_auth_details_error_handler<F>(self, f: F) -> (config: GrantsConfig<
        G,
        FnMissingHandler<F>,
    >) where F: Fn() -> Response + Send + Sync + 'static
        requires
            call_requires(f, ()),
        ensures
            config.grants_err_handler == self.grants_err_handler,
            config.auth_details_err_handler matches Some(handler) && handler.func() == f,
            forall|response: Response| #[trigger]
                config.auth_details_err_handler.unwrap().answers(response) == call_ensures(
                    f,
                    (),
                    response,
                ),
    {
        GrantsConfig {
            grants_err_handler: self.grants_err_handler,
            auth_details_err_handler: Some(FnMissingHandler::new(f)),
        }
    }
}

/// Which answer a failed request gets.
#[derive(Clone, Copy, Debug, PartialEq, Eq, Structural)]
pub enum Resolution {
    /// The configured handler of missing authorities answers.
    MissingHandler,
    /// The fixed server failure.
    ServerFailure,
    /// The handler configured for the authority type answers.
    TypeHandler,
    /// The handler configured for all authority types answers.
    GeneralHandler,
    /// The fixed forbidden response.
    Forbidden,
}

/// The answer that a failed request gets. Without attached authorities the
/// handler of missing authorities answers, and the fixed server failure
/// where none is configured. A denial is answered by the handler for the
/// authority type; without one, by the general handler; without that, by
/// the fixed forbidden response.
pub open spec fn resolution(attached: bool, missing: bool, typed: bool, general: bool) -> Resolution {
    if !attached {
        if missing {
            Resolution::MissingHandler
        } else {
            Resolution::ServerFailure
        }
    } else if typed {
        Resolution::TypeHandler
    } else if general {
        Resolution::GeneralHandler
    } else {
        Resolution::Forbidden
    }
}

/// Chooses the answer to a failed request from what is attached and
/// configured.
pub fn select(attached: bool, missing: bool, typed: bool, general: bool) -> (choice: Resolution)
    ensures
        choice == resolution(attached, missing, typed, general),
{
    if !attached {
        if missing {
            Resolution::MissingHandler
        } else {
            Resolution::ServerFailure
        }
    } else if typed {
        Resolution::TypeHandler
    } else if general {
        Resolution::GeneralHandler
    } else {
        Resolution::Forbidden
    }
}

/// Whether `response` answers a failed request as `resolution` lays down:
/// it is what the chosen handler can give for the reason and the
/// authorities, or the fixed response. The general handler is handed the
/// held authorities with their type erased: as many as are held, each once.
pub open spec fn resolved<T: Authority, H: DenialHandler<T>, G: GeneralHandler, M: MissingHandler>(
    reason: &str,
    authorities: Option<&AuthDetails<T>>,
    typed: &GrantErrorConfig<T, H>,
    general: &GrantsConfig<G, M>,
    response: Response,
) -> bool {
    match resolution(
        authorities is Some,
        general.auth_details_err_handler is Some,
        typed.err_handler is Some,
        general.grants_err_handler is Some,
    ) {
        Resolution::MissingHandler => general.auth_details_err_handler.unwrap().answers(response),
        Resolution::ServerFailure => response.is_server_failure(),
        Resolution::TypeHandler => typed.err_handler.unwrap().answers(
            reason,
            authorities.unwrap(),
            response,
        ),
        Resolution::GeneralHandler => exists|tokens: Vec<String>|
            views(tokens@) == authorities.unwrap().listed_erased() && tokens@.len()
                == authorities.unwrap()@.len() && #[trigger] general.grants_err_handler.unwrap().answers(
                reason,
                &tokens,
                response,
            ),
        Resolution::Forbidden => response.is_forbidden(),
    }
}

/// Answers a failed request: one without attached authorities, or one
/// whose caller was denied for the reason `reason`.
pub fn resolve<T: Authority, H: DenialHandler<T>, G: GeneralHandler, M: MissingHandler>(
    reason: &str,
    authorities: Option<&AuthDetails<T>>,
    typed: &GrantErrorConfig<T, H>,
    general: &GrantsConfig<G, M>,
) -> (response: Response)
    ensures
        resolved(reason, authorities, typed, general, response),
{
    let choice = select(
        authorities.is_some(),
        general.auth_details_err_handler.is_some(),
        typed.err_handler.is_some(),
        general.grants_err_handler.is_some(),
    );
    match choice {
        Resolution::MissingHandler => match &general.auth_details_err_handler {
            Some(handler) => handler.handle(),
            None => Response::server_failure(),
        },
        Resolution::ServerFailure => Response::server_failure(),
        Resolution::TypeHandler => match (&typed.err_handler, authorities) {
            (Some(handler), Some(held)) => handler.handle(reason, held),
            _ => Response::forbidden(),
        },
        Resolution::GeneralHandler => match (&general.grants_err_handler, authorities) {
            (Some(handler), Some(held)) => {
                let tokens = held.erased();
                handler.handle(reason, &tokens)
            },
            _ => Response::forbidden(),
        },
        Resolution::Forbidden => Response::forbidden(),
    }
}

/// The handler configured for the authority type answers a denial, whether
/// or not a general handler is configured beside it.
pub proof fn lemma_type_handler_first<
    T: Authority,
    H: DenialHandler<T>,
    G: GeneralHandler,
    M: MissingHandler,
>(
    reason: &str,
    held: &AuthDetails<T>,
    typed: &GrantErrorConfig<T, H>,
    general: &GrantsConfig<G, M>,
    response: Response,
)
    requires
        typed.err_handler is Some,
    ensures
        forall|missing: bool, other: bool| resolution(true, missing, true, other) == Resolution::TypeHandler,
        resolved(reason, Some(held), typed, general, response) == typed.err_handler.unwrap().answers(
            reason,
            held,
            response,
        ),
{
}

/// Without any handler configured a denial is answered all the same: with
/// the fixed forbidden response, which carries a status code.
pub proof fn lemma_unconfigured_denial<
    T: Authority,
    H: DenialHandler<T>,
    G: GeneralHandler,
    M: MissingHandler,
>(
    reason: &str,
    held: &AuthDetails<T>,
    typed: &GrantErrorConfig<T, H>,
    general: &GrantsConfig<G, M>,
    response: Response,
)
    requires
        typed.err_handler is None,
        general.grants_err_handler is None,
        resolved(reason, Some(held), typed, general, response),
    ensures
        response.is_forbidden(),
        response.well_formed(),
{
}

} // verus!
