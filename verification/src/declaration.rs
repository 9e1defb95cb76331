//! From the arguments of a requirement to the declaration that guards a
//! handler, and the errors that stop a declaration.

use vstd::prelude::*;
use vstd::string::*;
use crate::condition::{CheckKind, Condition};
use crate::endpoint::{text_view, Args, ArgsView, HandlerFn, HandlerFnView, ProtectEndpoint};
use crate::syntax::{item_views, parse_expr, parsed_expr, MetaItem, MetaItemView};
use crate::text::{quote_literal, quoted, views};

verus! {

/// Why a declaration cannot guard a handler.
#[derive(Clone, Debug, PartialEq, Eq)]
pub enum DeclarationError {
    /// A text of the declaration cannot be read; holds the compile error
    /// that the parser wrote for it.
    Syntax(String),
    /// A named argument other than `secure`, `type` and `error`; holds the
    /// name.
    UnknownIdentifier(String),
    /// An argument that is neither a string literal nor a name with a
    /// string literal; holds its text.
    UnknownAttribute(String),
    /// The handler is not declared `async`.
    NotAsync,
    /// The form of declaration does not exist; holds its name.
    UnknownCheck(String),
}

/// The mathematical content of a [`DeclarationError`].
pub enum DeclarationErrorView {
    Syntax(Seq<char>),
    UnknownIdentifier(Seq<char>),
    UnknownAttribute(Seq<char>),
    NotAsync,
    UnknownCheck(Seq<char>),
}

impl View for DeclarationError {
    type V = DeclarationErrorView;

    open spec fn view(&self) -> DeclarationErrorView {
        match self {
            DeclarationError::Syntax(text) => DeclarationErrorView::Syntax(text@),
            DeclarationError::UnknownIdentifier(name) => DeclarationErrorView::UnknownIdentifier(
                name@,
            ),
            DeclarationError::UnknownAttribute(text) => DeclarationErrorView::UnknownAttribute(
                text@,
            ),
            DeclarationError::NotAsync => DeclarationErrorView::NotAsync,
            DeclarationError::UnknownCheck(name) => DeclarationErrorView::UnknownCheck(name@),
        }
    }
}

/// The message of an error that the parser did not write.
pub open spec fn error_message(error: DeclarationErrorView) -> Seq<char> {
    match error {
        DeclarationErrorView::Syntax(text) => text,
        DeclarationErrorView::UnknownIdentifier(_) =>
            "Unknown identifier. Available: 'secure', 'type' and 'error'"@,
        DeclarationErrorView::UnknownAttribute(_) => "Unknown attribute."@,
        DeclarationErrorView::NotAsync => "only async functions are supported"@,
        DeclarationErrorView::UnknownCheck(_) => "Unknown check."@,
    }
}

/// The compile error that reports `error`: the parser's own for a syntax
/// error, and for another an invocation of `compile_error!` with the
/// message.
pub open spec fn compile_error_text(error: DeclarationErrorView) -> Seq<char> {
    match error {
        DeclarationErrorView::Syntax(text) => text,
        _ => ":: core :: compile_error ! { "@ + quoted(error_message(error)) + " }"@,
    }
}

impl DeclarationError {
    /// Writes the compile error that reports this error.
    pub fn to_compile_error(&self) -> (text: String)
        ensures
            text@ == compile_error_text(self@),
    {
        let message = match self {
            DeclarationError::Syntax(text) => {
                return text.clone();
            },
            DeclarationError::UnknownIdentifier(_) =>
                "Unknown identifier. Available: 'secure', 'type' and 'error'",
            DeclarationError::UnknownAttribute(_) => "Unknown attribute.",
            DeclarationError::NotAsync => "only async functions are supported",
            DeclarationError::UnknownCheck(_) => "Unknown check.",
        };
        let mut text = String::from_str(":: core :: compile_error ! { ");
        text.append(quote_literal(message).as_str());
        text.append(" }");
        text
    }
}

/// The declaration before its first argument.
pub open spec fn bare_declaration(kind: CheckKind) -> ArgsView {
    ArgsView { kind, literals: Seq::empty(), secure: None, ty: None, error_fn: None }
}

/// The declaration `args` with one more argument: a string literal is one
/// more literal; `secure`, `type` and `error` set the guard, the authority
/// type and the error function, a later one in place of an earlier one; any
/// other argument is an error.
pub open spec fn with_item(args: ArgsView, item: MetaItemView) -> Result<
    ArgsView,
    DeclarationErrorView,
> {
    match item {
        MetaItemView::Literal(value) => Ok(
            ArgsView {
                kind: args.kind,
                literals: args.literals.push(value),
                secure: args.secure,
                ty: args.ty,
                error_fn: args.error_fn,
            },
        ),
        MetaItemView::NameValue { name, value } => if name == "secure"@ {
            Ok(
                ArgsView {
                    kind: args.kind,
                    literals: args.literals,
                    secure: Some(value),
                    ty: args.ty,
                    error_fn: args.error_fn,
                },
            )
        } else if name == "type"@ {
            Ok(
                ArgsView {
                    kind: args.kind,
                    literals: args.literals,
                    secure: args.secure,
                    ty: Some(value),
                    error_fn: args.error_fn,
                },
            )
        } else if name == "error"@ {
            Ok(
                ArgsView {
                    kind: args.kind,
                    literals: args.literals,
                    secure: args.secure,
                    ty: args.ty,
                    error_fn: Some(value),
                },
            )
        } else {
            Err(DeclarationErrorView::UnknownIdentifier(name))
        },
        MetaItemView::Other(text) => Err(DeclarationErrorView::UnknownAttribute(text)),
    }
}

/// The declaration that the arguments `items` make, taken in order; the
/// first argument that is an error stops it.
pub open spec fn declared(kind: CheckKind, items: Seq<MetaItemView>) -> Result<
    ArgsView,
    DeclarationErrorView,
>
    decreases items.len(),
{
    if items.len() == 0 {
        Ok(bare_declaration(kind))
    } else {
        match declared(kind, items.drop_last()) {
            Ok(args) => with_item(args, items.last()),
            Err(error) => Err(error),
        }
    }
}

/// An optional expression as the parser prints it, or the parser's error.
pub open spec fn checked_expr(text: Option<Seq<char>>) -> Result<Option<Seq<char>>, Seq<char>> {
    match text {
        None => Ok(None),
        Some(source) => match parsed_expr(source) {
            Ok(expr) => Ok(Some(expr)),
            Err(error) => Err(error),
        },
    }
}

/// Each expression of `texts` as the parser prints it, or the error of the
/// first that is no expression.
pub open spec fn checked_exprs(texts: Seq<Seq<char>>) -> Result<Seq<Seq<char>>, Seq<char>>
    decreases texts.len(),
{
    if texts.len() == 0 {
        Ok(Seq::empty())
    } else {
        match checked_exprs(texts.drop_last()) {
            Ok(exprs) => match parsed_expr(texts.last()) {
                Ok(expr) => Ok(exprs.push(expr)),
                Err(error) => Err(error),
            },
            Err(error) => Err(error),
        }
    }
}

/// The literals of a checked declaration: under a type override they are
/// expressions and are checked as such; text authorities stay as they are.
pub open spec fn checked_literals(args: ArgsView) -> Result<Seq<Seq<char>>, Seq<char>> {
    if args.ty is Some {
        checked_exprs(args.literals)
    } else {
        Ok(args.literals)
    }
}

/// The declaration `args` with its guard, authority type, error function
/// and typed literals read as expressions. The first of them, in this
/// order, that is no expression makes the declaration a syntax error.
pub open spec fn checked_args(args: ArgsView) -> Result<ArgsView, DeclarationErrorView> {
    match checked_expr(args.secure) {
        Err(error) => Err(DeclarationErrorView::Syntax(error)),
        Ok(secure) => match checked_expr(args.ty) {
            Err(error) => Err(DeclarationErrorView::Syntax(error)),
            Ok(ty) => match checked_expr(args.error_fn) {
                Err(error) => Err(DeclarationErrorView::Syntax(error)),
                Ok(error_fn) => match checked_literals(args) {
                    Err(error) => Err(DeclarationErrorView::Syntax(error)),
                    Ok(literals) => Ok(
                        ArgsView { kind: args.kind, literals, secure, ty, error_fn },
                    ),
                },
            },
        },
    }
}

/// The guarded declaration of the handler `func` under the arguments
/// `items`: the checked declaration, for a handler that is `async`.
pub open spec fn protected(kind: CheckKind, items: Seq<MetaItemView>, func: HandlerFnView) -> Result<
    ArgsView,
    DeclarationErrorView,
> {
    match declared(kind, items) {
        Err(error) => Err(error),
        Ok(args) => match checked_args(args) {
            Err(error) => Err(error),
            Ok(args) => if func.sig.is_async {
                Ok(args)
            } else {
                Err(DeclarationErrorView::NotAsync)
            },
        },
    }
}

/// Tells whether `name` is the name `expected`.
fn is_name(name: &String, expected: &str) -> (b: bool)
    ensures
        b == (name@ == expected@),
{
    let expected = String::from_str(expected);
    name.eq(&expected)
}

/// Reads an optional expression.
fn check_expr(text: &Option<String>) -> (checked: Result<Option<String>, DeclarationError>)
    ensures
        match checked {
            Ok(expr) => checked_expr(text_view(*text)) == Ok::<Option<Seq<char>>, Seq<char>>(
                text_view(expr),
            ),
            Err(error) => error matches DeclarationError::Syntax(e) && checked_expr(
                text_view(*text),
            ) == Err::<Option<Seq<char>>, Seq<char>>(e@),
        },
{
    match text {
        None => Ok(None),
        Some(source) => match parse_expr(source.as_str()) {
            Ok(expr) => Ok(Some(expr)),
            Err(error) => Err(DeclarationError::Syntax(error)),
        },
    }
}

/// Reads each text of `texts` as an expression.
fn check_exprs(texts: &Vec<String>) -> (checked: Result<Vec<String>, DeclarationError>)
    ensures
        match checked {
            Ok(exprs) => checked_exprs(views(texts@)) == Ok::<Seq<Seq<char>>, Seq<char>>(
                views(exprs@),
            ),
            Err(error) => error matches DeclarationError::Syntax(e) && checked_exprs(views(texts@))
                == Err::<Seq<Seq<char>>, Seq<char>>(e@),
        },
{
    let ghost all = views(texts@);
    let mut exprs: Vec<String> = Vec::new();
    let mut i: usize = 0;
    assert(all.subrange(0, 0) =~= Seq::<Seq<char>>::empty());
    assert(views(exprs@) =~= Seq::<Seq<char>>::empty());
    while i < texts.len()
        invariant
            i <= texts.len(),
            all == views(texts@),
            checked_exprs(all.subrange(0, i as int)) == Ok::<Seq<Seq<char>>, Seq<char>>(
                views(exprs@),
            ),
        decreases texts.len() - i,
    {
        let ghost before = views(exprs@);
        proof {
            let next = all.subrange(0, i + 1);
            assert(next.drop_last() =~= all.subrange(0, i as int));
            assert(next.last() == texts@[i as int]@);
        }
        match parse_expr(texts[i].as_str()) {
            Ok(expr) => {
                exprs.push(expr);
                assert(views(exprs@) =~= before.push(expr@));
            },
            Err(error) => {
                proof {
                    lemma_checked_exprs_error(all, i + 1);
                }
                return Err(DeclarationError::Syntax(error));
            },
        }
        i = i + 1;
    }
    assert(all.subrange(0, texts.len() as int) =~= all);
    Ok(exprs)
}

/// An error among the first `n` texts is the error of all of them.
proof fn lemma_checked_exprs_error(texts: Seq<Seq<char>>, n: int)
    requires
        0 <= n <= texts.len(),
        checked_exprs(texts.subrange(0, n)) is Err,
    ensures
        checked_exprs(texts) == checked_exprs(texts.subrange(0, n)),
    decreases texts.len() - n,
{
    if n < texts.len() {
        let next = texts.subrange(0, n + 1);
        assert(next.drop_last() =~= texts.subrange(0, n));
        lemma_checked_exprs_error(texts, n + 1);
    } else {
        assert(texts.subrange(0, n) =~= texts);
    }
}

/// An error among the first `n` arguments is the error of all of them.
proof fn lemma_declared_error(kind: CheckKind, items: Seq<MetaItemView>, n: int)
    requires
        0 <= n <= items.len(),
        declared(kind, items.subrange(0, n)) is Err,
    ensures
        declared(kind, items) == declared(kind, items.subrange(0, n)),
    decreases items.len() - n,
{
    if n < items.len() {
        let next = items.subrange(0, n + 1);
        assert(next.drop_last() =~= items.subrange(0, n));
        lemma_declared_error(kind, items, n + 1);
    } else {
        assert(items.subrange(0, n) =~= items);
    }
}

impl Args {
    /// Assembles the declaration that the arguments `items` make.
    pub fn from_meta(kind: CheckKind, items: &Vec<MetaItem>) -> (made: Result<
        Args,
        DeclarationError,
    >)
        ensures
            match made {
                Ok(args) => declared(kind, item_views(items@)) == Ok::<
                    ArgsView,
                    DeclarationErrorView,
                >(args@),
                Err(error) => declared(kind, item_views(items@)) == Err::<
                    ArgsView,
                    DeclarationErrorView,
                >(error@),
            },
    {
        let ghost all = item_views(items@);
        let mut literals: Vec<String> = Vec::new();
        let mut secure: Option<String> = None;
        let mut ty: Option<String> = None;
        let mut error_fn: Option<String> = None;
        let mut i: usize = 0;
        assert(all.subrange(0, 0) =~= Seq::<MetaItemView>::empty());
        assert(views(literals@) =~= Seq::<Seq<char>>::empty());
        while i < items.len()
            invariant
                i <= items.len(),
                all == item_views(items@),
                declared(kind, all.subrange(0, i as int)) == Ok::<ArgsView, DeclarationErrorView>(
                    ArgsView {
                        kind,
                        literals: views(literals@),
                        secure: text_view(secure),
                        ty: text_view(ty),
                        error_fn: text_view(error_fn),
                    },
                ),
            decreases items.len() - i,
        {
            let ghost before = views(literals@);
            proof {
                let next = all.subrange(0, i + 1);
                assert(next.drop_last() =~= all.subrange(0, i as int));
                assert(next.last() == items@[i as int]@);
            }
            match &items[i] {
                MetaItem::Literal(value) => {
                    literals.push(value.clone());
                    assert(views(literals@) =~= before.push(value@));
                },
                MetaItem::NameValue { name, value } => {
                    if is_name(name, "secure") {
                        secure = Some(value.clone());
                    } else if is_name(name, "type") {
                        ty = Some(value.clone());
                    } else if is_name(name, "error") {
                        error_fn = Some(value.clone());
                    } else {
                        proof {
                            lemma_declared_error(kind, all, i + 1);
                        }
                        return Err(DeclarationError::UnknownIdentifier(name.clone()));
                    }
                },
                MetaItem::Other(text) => {
                    proof {
                        lemma_declared_error(kind, all, i + 1);
                    }
                    return Err(DeclarationError::UnknownAttribute(text.clone()));
                },
            }
            i = i + 1;
        }
        assert(all.subrange(0, items.len() as int) =~= all);
        Ok(Args { cond: Condition::new(kind, literals), secure, ty, error_fn })
    }

    /// Reads the guard, the authority type, the error function and, under a
    /// type override, the literals as expressions, and replaces each by
    /// what the parser prints for it.
    pub fn checked(self) -> (made: Result<Args, DeclarationError>)
        ensures
            match made {
                Ok(args) => checked_args(self@) == Ok::<ArgsView, DeclarationErrorView>(args@),
                Err(error) => checked_args(self@) == Err::<ArgsView, DeclarationErrorView>(error@),
            },
    {
        let secure = match check_expr(&self.secure) {
            Ok(secure) => secure,
            Err(error) => {
                return Err(error);
            },
        };
        let ty = match check_expr(&self.ty) {
            Ok(ty) => ty,
            Err(error) => {
                return Err(error);
            },
        };
        let error_fn = match check_expr(&self.error_fn) {
            Ok(error_fn) => error_fn,
            Err(error) => {
                return Err(error);
            },
        };
        let kind = self.cond.kind;
        let literals = if self.ty.is_some() {
            match check_exprs(&self.cond.literals) {
                Ok(literals) => literals,
                Err(error) => {
                    return Err(error);
                },
            }
        } else {
            self.cond.literals
        };
        Ok(Args { cond: Condition::new(kind, literals), secure, ty, error_fn })
    }
}

impl ProtectEndpoint {
    /// Declares the handler `func` guarded under the arguments `items`.
    pub fn new(kind: CheckKind, items: &Vec<MetaItem>, func: HandlerFn) -> (made: Result<
        ProtectEndpoint,
        DeclarationError,
    >)
        ensures
            match made {
                Ok(endpoint) => endpoint.well_formed() && endpoint.func == func && protected(
                    kind,
                    item_views(items@),
                    func@,
                ) == Ok::<ArgsView, DeclarationErrorView>(endpoint.args@),
                Err(error) => protected(kind, item_views(items@), func@) == Err::<
                    ArgsView,
                    DeclarationErrorView,
                >(error@),
            },
    {
        let args = match Args::from_meta(kind, items) {
            Ok(args) => args,
            Err(error) => {
                return Err(error);
            },
        };
        let args = match args.checked() {
            Ok(args) => args,
            Err(error) => {
                return Err(error);
            },
        };
        if func.sig.is_async {
            Ok(ProtectEndpoint { func, args })
        } else {
            Err(DeclarationError::NotAsync)
        }
    }
}

} // verus!
