//! The four forms of declaration. Each takes the arguments of a requirement
//! and the handler that it stands above, both as source text, and gives the
//! source text that takes the handler's place.

use vstd::prelude::*;
use vstd::string::*;
use crate::condition::CheckKind;
use crate::declaration::{compile_error_text, protected, DeclarationError, DeclarationErrorView};
use crate::arguments::{arguments_of, items_view, read_arguments};
use crate::endpoint::{
    func_view, guarded_handler_text, handler_of, read_handler, HandlerFn, HandlerFnView,
    ProtectEndpoint,
};
use crate::syntax::{MetaItem, MetaItemView};

verus! {

/// What takes the place of a declared handler. Where the arguments cannot
/// be read, the parser's error for them; else, where the handler cannot be
/// read, the parser's error for it; else the guarded handler, or the
/// compile error that reports why the declaration cannot guard it.
pub open spec fn expansion(
    kind: CheckKind,
    items: Result<Seq<MetaItemView>, Seq<char>>,
    func: Result<HandlerFnView, Seq<char>>,
) -> Seq<char> {
    match items {
        Err(error) => error,
        Ok(items) => match func {
            Err(error) => error,
            Ok(func) => match protected(kind, items, func) {
                Ok(args) => guarded_handler_text(func, args),
                Err(error) => compile_error_text(error),
            },
        },
    }
}

/// The kind of check that a form of declaration stands for.
pub open spec fn kind_named(name: Seq<char>) -> Option<CheckKind> {
    if name == "has_permissions"@ {
        Some(CheckKind::AllOf)
    } else if name == "has_any_permission"@ {
        Some(CheckKind::AnyOf)
    } else if name == "has_roles"@ {
        Some(CheckKind::RoleAllOf)
    } else if name == "has_any_role"@ {
        Some(CheckKind::RoleAnyOf)
    } else {
        None
    }
}

/// What takes the place of a handler declared in the form `check_fn_name`
/// with the arguments `args`: the expansion of what is read from both
/// texts. A form that does not exist gives a compile error.
pub open spec fn check_expansion(check_fn_name: Seq<char>, args: Seq<char>, input: Seq<char>) -> Seq<
    char,
> {
    match kind_named(check_fn_name) {
        Some(kind) => expansion(kind, arguments_of(args), handler_of(input)),
        None => compile_error_text(DeclarationErrorView::UnknownCheck(check_fn_name)),
    }
}

/// Tells which kind of check the form `name` stands for.
pub fn kind_of_name(name: &str) -> (kind: Option<CheckKind>)
    ensures
        kind == kind_named(name@),
{
    let name = String::from_str(name);
    if name.eq(&String::from_str("has_permissions")) {
        Some(CheckKind::AllOf)
    } else if name.eq(&String::from_str("has_any_permission")) {
        Some(CheckKind::AnyOf)
    } else if name.eq(&String::from_str("has_roles")) {
        Some(CheckKind::RoleAllOf)
    } else if name.eq(&String::from_str("has_any_role")) {
        Some(CheckKind::RoleAnyOf)
    } else {
        None
    }
}

/// Writes what takes the place of a declared handler, from what the parser
/// made of the arguments and of the handler.
pub fn expand(kind: CheckKind, items: Result<Vec<MetaItem>, String>, func: Result<
    HandlerFn,
    String,
>) -> (text: String)
    ensures
        text@ == expansion(kind, items_view(items), func_view(func)),
{
    let items = match items {
        Ok(items) => items,
        Err(error) => {
            return error;
        },
    };
    let func = match func {
        Ok(func) => func,
        Err(error) => {
            return error;
        },
    };
    match ProtectEndpoint::new(kind, &items, func) {
        Ok(endpoint) => {
            let mut text = String::new();
            endpoint.to_tokens_actix_web(&mut text);
            assert(text@ =~= guarded_handler_text(endpoint.func@, endpoint.args@));
            text
        },
        Err(error) => error.to_compile_error(),
    }
}

/// Writes what takes the place of a handler declared in the form
/// `check_fn_name`.
pub fn check_permissions(check_fn_name: &str, args: &str, input: &str) -> (text: String)
    ensures
        text@ == check_expansion(check_fn_name@, args@, input@),
{
    match kind_of_name(check_fn_name) {
        Some(kind) => {
            let items = read_arguments(args);
            let func = read_handler(input);
            expand(kind, items, func)
        },
        None => DeclarationError::UnknownCheck(String::from_str(check_fn_name)).to_compile_error(),
    }
}

/// Guards a handler by the requirement that the caller holds every one of
/// the permissions in `args`.
pub fn has_permissions(args: &str, input: &str) -> (text: String)
    ensures
        text@ == expansion(CheckKind::AllOf, arguments_of(args@), handler_of(input@)),
{
    check_permissions("has_permissions", args, input)
}

/// Guards a handler by the requirement that the caller holds at least one
/// of the permissions in `args`.
pub fn has_any_permission(args: &str, input: &str) -> (text: String)
    ensures
        text@ == expansion(CheckKind::AnyOf, arguments_of(args@), handler_of(input@)),
{
    proof {
        reveal_strlit("has_permissions");
        reveal_strlit("has_any_permission");
        assert("has_permissions"@.len() != "has_any_permission"@.len());
    }
    check_permissions("has_any_permission", args, input)
}

/// Guards a handler by the requirement that the caller holds every one of
/// the roles in `args`. A role is a permission with the prefix `ROLE_`.
pub fn has_roles(args: &str, input: &str) -> (text: String)
    ensures
        text@ == expansion(
            CheckKind::RoleAllOf,
            arguments_of(args@),
            handler_of(input@),
        ),
{
    proof {
        reveal_strlit("has_permissions");
        reveal_strlit("has_any_permission");
        reveal_strlit("has_roles");
        assert("has_permissions"@.len() != "has_roles"@.len());
        assert("has_any_permission"@.len() != "has_roles"@.len());
    }
    check_permissions("has_roles", args, input)
}

/// Guards a handler by the requirement that the caller holds at least one
/// of the roles in `args`. A role is a permission with the prefix `ROLE_`.
pub fn has_any_role(args: &str, input: &str) -> (text: String)
    ensures
        text@ == expansion(
            CheckKind::RoleAnyOf,
            arguments_of(args@),
            handler_of(input@),
        ),
{
    proof {
        reveal_strlit("has_permissions");
        reveal_strlit("has_any_permission");
        reveal_strlit("has_roles");
        reveal_strlit("has_any_role");
        assert("has_permissions"@.len() != "has_any_role"@.len());
        assert("has_any_permission"@.len() != "has_any_role"@.len());
        assert("has_roles"@.len() != "has_any_role"@.len());
    }
    check_permissions("has_any_role", args, input)
}

} // verus!
