//! Where declarations are read: the source text of a handler and of the
//! arguments of its requirement is taken apart by `proc_macro2` and `syn`,
//! and each part is handed on as text.

use vstd::prelude::*;
use std::str::FromStr;
use proc_macro2::{TokenStream, TokenTree};
use quote::ToTokens;
use syn::{Expr, ItemFn, Lit, ReturnType};
use crate::endpoint::{Signature, SignatureView};
use crate::text::views;

verus! {

/// One token of the arguments of a requirement.
#[derive(Clone, Debug, PartialEq, Eq)]
pub enum Token {
    /// A string literal; holds the string that it denotes.
    Str(String),
    /// An identifier or a keyword; holds its text.
    Ident(String),
    /// A punctuation character; holds it as a text of one character.
    Punct(String),
    /// Any other literal, or a group in brackets; holds its text.
    Other(String),
}

/// The mathematical content of a [`Token`].
pub enum TokenView {
    Str(Seq<char>),
    Ident(Seq<char>),
    Punct(Seq<char>),
    Other(Seq<char>),
}

impl View for Token {
    type V = TokenView;

    open spec fn view(&self) -> TokenView {
        match self {
            Token::Str(value) => TokenView::Str(value@),
            Token::Ident(text) => TokenView::Ident(text@),
            Token::Punct(text) => TokenView::Punct(text@),
            Token::Other(text) => TokenView::Other(text@),
        }
    }
}

/// The views of the tokens of `tokens`, in order.
pub open spec fn token_views(tokens: Seq<Token>) -> Seq<TokenView> {
    Seq::new(tokens.len(), |i: int| tokens[i]@)
}

/// One argument of a requirement.
#[derive(Clone, Debug, PartialEq, Eq)]
pub enum MetaItem {
    /// A string literal; holds the string that it denotes.
    Literal(String),
    /// A name with a string literal behind `=`; holds the name and the
    /// string that the literal denotes.
    NameValue { name: String, value: String },
    /// Anything else; holds its text.
    Other(String),
}

/// The mathematical content of a [`MetaItem`].
pub enum MetaItemView {
    Literal(Seq<char>),
    NameValue { name: Seq<char>, value: Seq<char> },
    Other(Seq<char>),
}

impl View for MetaItem {
    type V = MetaItemView;

    open spec fn view(&self) -> MetaItemView {
        match self {
            MetaItem::Literal(value) => MetaItemView::Literal(value@),
            MetaItem::NameValue { name, value } => MetaItemView::NameValue {
                name: name@,
                value: value@,
            },
            MetaItem::Other(text) => MetaItemView::Other(text@),
        }
    }
}

/// The views of the items of `items`, in order.
pub open spec fn item_views(items: Seq<MetaItem>) -> Seq<MetaItemView> {
    Seq::new(items.len(), |i: int| items[i]@)
}

/// A function item in its four parts.
#[derive(Clone, Debug, PartialEq, Eq)]
pub struct ItemParts {
    /// The attributes above the function, one text for each.
    pub attrs: Vec<String>,
    /// The visibility; empty for a private function.
    pub vis: String,
    /// The signature, from its qualifiers to its where clause.
    pub sig: String,
    /// The body with its braces.
    pub block: String,
}

/// The mathematical content of an [`ItemParts`].
pub struct ItemPartsView {
    pub attrs: Seq<Seq<char>>,
    pub vis: Seq<char>,
    pub sig: Seq<char>,
    pub block: Seq<char>,
}

impl View for ItemParts {
    type V = ItemPartsView;

    open spec fn view(&self) -> ItemPartsView {
        ItemPartsView {
            attrs: views(self.attrs@),
            vis: self.vis@,
            sig: self.sig@,
            block: self.block@,
        }
    }
}

/// The view of tokens as they come from the lexer.
pub open spec fn tokens_view(tokens: Result<Vec<Token>, String>) -> Result<
    Seq<TokenView>,
    Seq<char>,
> {
    match tokens {
        Ok(tokens) => Ok(token_views(tokens@)),
        Err(error) => Err(error@),
    }
}

/// The view of a function item as it comes from the parser.
pub open spec fn parts_view(parts: Result<ItemParts, String>) -> Result<ItemPartsView, Seq<char>> {
    match parts {
        Ok(parts) => Ok(parts@),
        Err(error) => Err(error@),
    }
}

/// The view of a signature as it comes from the parser.
pub open spec fn signature_view(sig: Result<Signature, String>) -> Result<
    SignatureView,
    Seq<char>,
> {
    match sig {
        Ok(sig) => Ok(sig@),
        Err(error) => Err(error@),
    }
}

/// The view of an expression as it comes from the parser.
pub open spec fn expr_view(expr: Result<String, String>) -> Result<Seq<char>, Seq<char>> {
    match expr {
        Ok(expr) => Ok(expr@),
        Err(error) => Err(error@),
    }
}

/// What the lexer of `proc_macro2` makes of `source`: its tokens at the top
/// level, in order, or the compile error that reports why `source` is no
/// sequence of tokens.
pub uninterp spec fn lexed(source: Seq<char>) -> Result<Seq<TokenView>, Seq<char>>;

/// What `syn` makes of `source` read as a function item: its four parts,
/// each printed as tokens, or the compile error that reports why `source`
/// is no function item.
pub uninterp spec fn parsed_item_fn(source: Seq<char>) -> Result<ItemPartsView, Seq<char>>;

/// What `syn` makes of `source` read as the signature of a function: its
/// parts, each printed as tokens, or the compile error that reports why
/// `source` is no signature.
pub uninterp spec fn parsed_signature(source: Seq<char>) -> Result<SignatureView, Seq<char>>;

/// What `syn` makes of `source` read as an expression: the expression
/// printed as tokens, or the compile error that reports why `source` is no
/// expression.
pub uninterp spec fn parsed_expr(source: Seq<char>) -> Result<Seq<char>, Seq<char>>;

/// Splits a text into tokens: `TokenStream::from_str` of `proc_macro2`,
/// a literal classified with `Lit::new` of `syn`, an error written with
/// `Error::to_compile_error`.
///
/// Trusted: the result is the function of the source text that [`lexed`]
/// names. `proc_macro2::fallback::force` is called first, so that the lexer
/// and the printer are those of `proc_macro2` itself in every process, also
/// inside a compiler, and the result depends on the text alone. A string
/// literal is handed on as the string that it denotes, by `LitStr::value`;
/// an identifier and any other token as it is printed.
#[verifier::external_body]
pub(crate) fn lex(source: &str) -> (tokens: Result<Vec<Token>, String>)
    ensures
        tokens_view(tokens) == lexed(source@),
{
    proc_macro2::fallback::force();
    let stream = TokenStream::from_str(source)
        .map_err(|e| syn::Error::from(e).to_compile_error().to_string())?;
    Ok(stream.into_iter().map(|tree| match tree {
        TokenTree::Ident(ident) => Token::Ident(ident.to_string()),
        TokenTree::Punct(punct) => Token::Punct(punct.as_char().to_string()),
        TokenTree::Literal(literal) => match Lit::new(literal) {
            Lit::Str(s) => Token::Str(s.value()),
            other => Token::Other(other.to_token_stream().to_string()),
        },
        group => Token::Other(group.to_string()),
    }).collect())
}

/// Reads a function item: `syn::parse_str` for an `ItemFn`, each part
/// printed with `ToTokens::to_token_stream` and `to_string`, an error written
/// with `Error::to_compile_error`.
///
/// Trusted: the result is the function of the source text that
/// [`parsed_item_fn`] names, with the lexer and the printer of `proc_macro2`
/// itself as in [`lex`].
#[verifier::external_body]
pub(crate) fn parse_item_fn(source: &str) -> (parsed: Result<ItemParts, String>)
    ensures
        parts_view(parsed) == parsed_item_fn(source@),
{
    proc_macro2::fallback::force();
    let ItemFn { attrs, vis, sig, block } =
        syn::parse_str(source).map_err(|e| e.to_compile_error().to_string())?;
    let text = |t: &dyn ToTokens| t.to_token_stream().to_string();
    Ok(ItemParts {
        attrs: attrs.iter().map(|a| text(a)).collect(),
        vis: text(&vis),
        sig: text(&sig),
        block: text(&block),
    })
}

/// Reads the signature of a function: `syn::parse_str` for a `Signature`,
/// each part printed with `ToTokens::to_token_stream` and `to_string`, an
/// error written with `Error::to_compile_error`.
///
/// Trusted: the result is the function of the source text that
/// [`parsed_signature`] names, with the lexer and the printer of
/// `proc_macro2` itself as in [`lex`]. A variadic parameter is not among
/// the parts.
#[verifier::external_body]
pub(crate) fn parse_signature(source: &str) -> (parsed: Result<Signature, String>)
    ensures
        signature_view(parsed) == parsed_signature(source@),
{
    proc_macro2::fallback::force();
    let sig: syn::Signature = syn::parse_str(source).map_err(|e| e.to_compile_error().to_string())?;
    let text = |t: &dyn ToTokens| t.to_token_stream().to_string();
    Ok(Signature {
        is_const: sig.constness.is_some(),
        is_async: sig.asyncness.is_some(),
        is_unsafe: sig.unsafety.is_some(),
        abi: text(&sig.abi),
        name: sig.ident.to_string(),
        generics: text(&sig.generics),
        inputs: sig.inputs.iter().map(|a| text(a)).collect(),
        output: if let ReturnType::Type(_, ty) = &sig.output { Some(text(ty)) } else { None },
        where_clause: text(&sig.generics.where_clause),
    })
}

/// Reads an expression: `syn::parse_str` for an `Expr`, printed with
/// `ToTokens::to_token_stream` and `to_string`, an error written with
/// `Error::to_compile_error`.
///
/// Trusted: the result is the function of the source text that
/// [`parsed_expr`] names, with the lexer and the printer of `proc_macro2`
/// itself as in [`lex`].
#[verifier::external_body]
pub(crate) fn parse_expr(source: &str) -> (parsed: Result<String, String>)
    ensures
        expr_view(parsed) == parsed_expr(source@),
{
    proc_macro2::fallback::force();
    match syn::parse_str::<Expr>(source) {
        Ok(expr) => Ok(expr.to_token_stream().to_string()),
        Err(e) => Err(e.to_compile_error().to_string()),
    }
}

} // verus!
