//! The arguments of a requirement: string literals and named string
//! literals, separated by commas.

use vstd::prelude::*;
use vstd::string::*;
use crate::syntax::{item_views, lex, lexed, token_views, MetaItem, MetaItemView, Token, TokenView};
use crate::text::{join, joined, quote_literal, quoted, views};

verus! {

/// Whether `token` is the comma that separates two arguments.
pub open spec fn is_comma(token: TokenView) -> bool {
    token == TokenView::Punct(","@)
}

/// The number of tokens in front of the first comma of `tokens`; the number
/// of all tokens where there is no comma.
pub open spec fn first_len(tokens: Seq<TokenView>) -> int
    decreases tokens.len(),
{
    if tokens.len() == 0 || is_comma(tokens[0]) {
        0
    } else {
        1 + first_len(tokens.subrange(1, tokens.len() as int))
    }
}

/// How a token is written in the text of an argument.
pub open spec fn token_text(token: TokenView) -> Seq<char> {
    match token {
        TokenView::Str(value) => quoted(value),
        TokenView::Ident(text) => text,
        TokenView::Punct(text) => text,
        TokenView::Other(text) => text,
    }
}

/// The argument that the tokens `tokens` make: a string literal alone is a
/// literal; an identifier, `=` and a string literal are a named value;
/// anything else is handed on as its text, the tokens with a space between
/// them.
pub open spec fn item_of(tokens: Seq<TokenView>) -> MetaItemView {
    if tokens.len() == 1 && tokens[0] is Str {
        MetaItemView::Literal(tokens[0]->Str_0)
    } else if tokens.len() == 3 && tokens[0] is Ident && tokens[1] == TokenView::Punct("="@)
        && tokens[2] is Str {
        MetaItemView::NameValue { name: tokens[0]->Ident_0, value: tokens[2]->Str_0 }
    } else {
        MetaItemView::Other(
            joined(Seq::new(tokens.len(), |i: int| token_text(tokens[i])), " "@),
        )
    }
}

/// The arguments that `tokens` hold: the tokens between the commas, one
/// argument for each stretch. A comma behind the last argument adds none;
/// any other comma with nothing in front of it stands behind an argument
/// without tokens.
pub open spec fn items_of(tokens: Seq<TokenView>) -> Seq<MetaItemView>
    decreases tokens.len(),
{
    if tokens.len() == 0 {
        Seq::empty()
    } else {
        let n = first_len(tokens);
        if n >= tokens.len() {
            seq![item_of(tokens)]
        } else if 0 <= n {
            seq![item_of(tokens.subrange(0, n))] + items_of(
                tokens.subrange(n + 1, tokens.len() as int),
            )
        } else {
            Seq::empty()
        }
    }
}

/// `first_len` is the place of the first comma.
proof fn lemma_first_len(tokens: Seq<TokenView>, n: int)
    requires
        0 <= n <= tokens.len(),
        forall|k: int| 0 <= k < n ==> !is_comma(#[trigger] tokens[k]),
        n == tokens.len() || is_comma(tokens[n]),
    ensures
        first_len(tokens) == n,
    decreases n,
{
    if n > 0 {
        let rest = tokens.subrange(1, tokens.len() as int);
        assert(!is_comma(tokens[0]));
        assert forall|k: int| 0 <= k < n - 1 implies !is_comma(#[trigger] rest[k]) by {
            assert(rest[k] == tokens[k + 1]);
        }
        lemma_first_len(rest, n - 1);
    }
}

/// Tells whether `token` is the comma that separates two arguments.
fn comma(token: &Token) -> (b: bool)
    ensures
        b == is_comma(token@),
{
    match token {
        Token::Punct(text) => is_text(text, ","),
        _ => false,
    }
}

/// Writes a token as it stands in the text of an argument.
fn text_of_token(token: &Token) -> (text: String)
    ensures
        text@ == token_text(token@),
{
    match token {
        Token::Str(value) => quote_literal(value.as_str()),
        Token::Ident(text) => text.clone(),
        Token::Punct(text) => text.clone(),
        Token::Other(text) => text.clone(),
    }
}

/// Tells whether `text` is the text `expected`.
fn is_text(text: &String, expected: &str) -> (b: bool)
    ensures
        b == (text@ == expected@),
{
    let expected = String::from_str(expected);
    text.eq(&expected)
}

/// The argument that the tokens from `start` up to `end` make.
fn item_between(tokens: &Vec<Token>, start: usize, end: usize) -> (item: MetaItem)
    requires
        start <= end <= tokens.len(),
    ensures
        item@ == item_of(token_views(tokens@).subrange(start as int, end as int)),
{
    let ghost part = token_views(tokens@).subrange(start as int, end as int);
    if end - start == 1 {
        assert(part[0] == tokens@[start as int]@);
        if let Token::Str(value) = &tokens[start] {
            return MetaItem::Literal(value.clone());
        }
    }
    if end - start == 3 {
        assert(part[0] == tokens@[start as int]@);
        assert(part[1] == tokens@[start + 1]@);
        assert(part[2] == tokens@[start + 2]@);
        if let Token::Ident(name) = &tokens[start] {
            if let Token::Punct(sign) = &tokens[start + 1] {
                if is_text(sign, "=") {
                    if let Token::Str(value) = &tokens[start + 2] {
                        return MetaItem::NameValue { name: name.clone(), value: value.clone() };
                    }
                }
            }
        }
    }
    let mut texts: Vec<String> = Vec::new();
    let mut i: usize = start;
    while i < end
        invariant
            start <= i <= end <= tokens.len(),
            part == token_views(tokens@).subrange(start as int, end as int),
            texts@.len() == i - start,
            forall|j: int| 0 <= j < i - start ==> (#[trigger] texts@[j])@ == token_text(part[j]),
        decreases end - i,
    {
        assert(part[i - start] == tokens@[i as int]@);
        texts.push(text_of_token(&tokens[i]));
        i = i + 1;
    }
    assert(views(texts@) =~= Seq::new(part.len(), |i: int| token_text(part[i])));
    MetaItem::Other(join(&texts, " "))
}

/// Reads the arguments of a requirement from its tokens.
pub fn meta_items(tokens: &Vec<Token>) -> (items: Vec<MetaItem>)
    ensures
        item_views(items@) == items_of(token_views(tokens@)),
{
    let ghost all = token_views(tokens@);
    let mut items: Vec<MetaItem> = Vec::new();
    let mut start: usize = 0;
    assert(all.subrange(0, all.len() as int) =~= all);
    assert(item_views(items@) =~= Seq::<MetaItemView>::empty());
    while start < tokens.len()
        invariant
            start <= tokens.len(),
            all == token_views(tokens@),
            items_of(all) == item_views(items@) + items_of(
                all.subrange(start as int, all.len() as int),
            ),
        decreases tokens.len() - start,
    {
        let ghost rest = all.subrange(start as int, all.len() as int);
        let ghost before = item_views(items@);
        let mut end: usize = start;
        while end < tokens.len() && !comma(&tokens[end])
            invariant
                start <= end <= tokens.len(),
                all == token_views(tokens@),
                forall|k: int| start <= k < end ==> !is_comma(#[trigger] all[k]),
            decreases tokens.len() - end,
        {
            end = end + 1;
        }
        let item = item_between(tokens, start, end);
        proof {
            assert forall|k: int| 0 <= k < end - start implies !is_comma(#[trigger] rest[k]) by {
                assert(rest[k] == all[start + k]);
            }
            if end < tokens.len() {
                assert(rest[end - start] == all[end as int]);
                assert(all[end as int] == tokens@[end as int]@);
            }
            lemma_first_len(rest, end - start);
            assert(rest.subrange(0, end - start) =~= all.subrange(start as int, end as int));
            if end < tokens.len() {
                assert(rest.subrange(end - start + 1, rest.len() as int) =~= all.subrange(
                    end + 1,
                    all.len() as int,
                ));
            } else {
                assert(rest.subrange(0, end - start) =~= rest);
                assert(all.subrange(end as int, all.len() as int) =~= Seq::<TokenView>::empty());
            }
        }
        items.push(item);
        proof {
            assert(item_views(items@) =~= before + seq![item@]);
        }
        if end < tokens.len() {
            start = end + 1;
        } else {
            start = end;
        }
        proof {
            let tail = items_of(all.subrange(start as int, all.len() as int));
            assert(items_of(rest) =~= seq![item@] + tail);
            assert(before + (seq![item@] + tail) =~= (before + seq![item@]) + tail);
        }
    }
    assert(all.subrange(start as int, all.len() as int) =~= Seq::<TokenView>::empty());
    assert(item_views(items@) + Seq::<MetaItemView>::empty() =~= item_views(items@));
    items
}

/// The view of arguments as they are read.
pub open spec fn items_view(items: Result<Vec<MetaItem>, String>) -> Result<
    Seq<MetaItemView>,
    Seq<char>,
> {
    match items {
        Ok(items) => Ok(item_views(items@)),
        Err(error) => Err(error@),
    }
}

/// The arguments that the text `source` holds: those of its tokens, or the
/// compile error that reports why `source` is no sequence of tokens.
pub open spec fn arguments_of(source: Seq<char>) -> Result<Seq<MetaItemView>, Seq<char>> {
    match lexed(source) {
        Ok(tokens) => Ok(items_of(tokens)),
        Err(error) => Err(error),
    }
}

/// Reads the arguments of a requirement from their text.
pub fn read_arguments(source: &str) -> (items: Result<Vec<MetaItem>, String>)
    ensures
        items_view(items) == arguments_of(source@),
{
    match lex(source) {
        Ok(tokens) => Ok(meta_items(&tokens)),
        Err(error) => Err(error),
    }
}

} // verus!
