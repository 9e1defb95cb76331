//! Where the authorities of a caller are kept between the middleware that
//! establishes them and the guarded handler that reads them.

use vstd::prelude::*;
use poem::Request;
use crate::authority::{distinct, models, AuthDetails, Authority};

verus! {

/// The request of `poem`. Nothing inside it is read here but the
/// authorities among its extensions.
#[verifier::external_type_specification]
#[verifier::external_body]
pub struct ExRequest(poem::Request);

/// Allows a middleware to hand the authorities of the caller to the guarded
/// handlers of a request.
pub trait AttachAuthorities<Type: Authority> {
    /// The authorities attached, in order and without repetition; `None`
    /// where none were attached.
    spec fn attached(&self) -> Option<Seq<Type::V>>;

    /// Attaches `authorities`, in place of any that were attached before.
    fn attach(&mut self, authorities: Vec<Type>)
        ensures
            final(self).attached() == Some(distinct(models(authorities@))),
    ;
}

/// The text authorities that the extensions of `request` hold: the content
/// of the `AuthDetails<String>` among them, or `None` where there is none.
pub uninterp spec fn request_authorities(request: Request) -> Option<Seq<Seq<char>>>;

/// Puts `details` among the extensions of `request`, with
/// `Request::extensions_mut` and `Extensions::insert`.
///
/// Trusted: afterwards the extensions hold `details` as their
/// `AuthDetails<String>`, whatever they held before.
#[verifier::external_body]
fn insert_details(request: &mut Request, details: AuthDetails<String>)
    ensures
        request_authorities(*final(request)) == Some(details.listed()),
{
    request.extensions_mut().insert(details);
}

/// Reads the `AuthDetails<String>` among the extensions of `request`, with
/// `Request::extensions` and `Extensions::get`.
///
/// Trusted: the result is what the extensions hold, and `None` where they
/// hold no value of that type.
#[verifier::external_body]
fn get_details(request: &Request) -> (details: Option<&AuthDetails<String>>)
    ensures
        match details {
            Some(held) => request_authorities(*request) == Some(held.listed()),
            None => request_authorities(*request) is None,
        },
{
    request.extensions().get::<AuthDetails<String>>()
}

impl AttachAuthorities<String> for Request {
    open spec fn attached(&self) -> Option<Seq<Seq<char>>> {
        request_authorities(*self)
    }

    fn attach(&mut self, authorities: Vec<String>) {
        insert_details(self, AuthDetails::new(authorities));
    }
}

/// Reads the authorities attached to `request`; `None` where none were
/// attached.
pub fn extract(request: &Request) -> (details: Option<&AuthDetails<String>>)
    ensures
        match details {
            Some(held) => request.attached() == Some(held.listed()),
            None => request.attached() is None,
        },
{
    get_details(request)
}

} // verus!
