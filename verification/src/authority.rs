//! Authorities and the set of them that a caller holds.

use vstd::prelude::*;
use vstd::string::*;
use crate::text::{quote_literal, quoted, views};

verus! {

/// A permission or role token.
///
/// The view of a token is what it is compared by: two tokens are the same
/// authority exactly when their views are equal.
pub trait Authority: View + Sized {
    /// The role token that stands for the bare role name `name`.
    spec fn role_model(name: Self::V) -> Self::V;

    /// How a token is written in the text of a requirement.
    spec fn text_model(token: Self::V) -> Seq<char>;

    /// The token with its type erased: the text that stands for it where
    /// authorities of any type are handed on together.
    spec fn erased_model(token: Self::V) -> Seq<char>;

    /// Tells whether two tokens are the same authority.
    fn same(&self, other: &Self) -> (b: bool)
        ensures
            b == (self@ == other@),
    ;

    /// Takes the token as a bare role name and gives the role token for it.
    fn as_role(&self) -> (r: Self)
        ensures
            r@ == Self::role_model(self@),
    ;

    /// Writes the token as it stands in the text of a requirement.
    fn text(&self) -> (s: String)
        ensures
            s@ == Self::text_model(self@),
    ;

    /// Gives the token with its type erased.
    fn erased(&self) -> (s: String)
        ensures
            s@ == Self::erased_model(self@),
    ;
}

/// The prefix that marks a text token as a role.
pub open spec fn role_prefix() -> Seq<char> {
    "ROLE_"@
}

/// Text tokens: a role is a token that starts with `ROLE_`, a token is
/// written as the string literal that denotes it, and a token with its type
/// erased is the token itself.
impl Authority for String {
    open spec fn role_model(name: Seq<char>) -> Seq<char> {
        role_prefix() + name
    }

    open spec fn text_model(token: Seq<char>) -> Seq<char> {
        quoted(token)
    }

    open spec fn erased_model(token: Seq<char>) -> Seq<char> {
        token
    }

    fn same(&self, other: &Self) -> (b: bool) {
        self.eq(other)
    }

    fn as_role(&self) -> (r: Self) {
        let mut r = String::from_str("ROLE_");
        r.append(self.as_str());
        r
    }

    fn text(&self) -> (s: String) {
        quote_literal(self.as_str())
    }

    fn erased(&self) -> (s: String) {
        self.clone()
    }
}

/// The views of the tokens of `items`, in order.
pub open spec fn models<T: View>(items: Seq<T>) -> Seq<T::V> {
    Seq::new(items.len(), |i: int| items[i]@)
}

/// The tokens of `given` in order, each at its first place only.
pub open spec fn distinct<V>(given: Seq<V>) -> Seq<V>
    decreases given.len(),
{
    if given.len() == 0 {
        Seq::empty()
    } else {
        let before = distinct(given.drop_last());
        if before.contains(given.last()) {
            before
        } else {
            before.push(given.last())
        }
    }
}

/// `distinct` keeps every token once.
pub proof fn lemma_distinct<V>(given: Seq<V>)
    ensures
        distinct(given).no_duplicates(),
        distinct(given).to_set() == given.to_set(),
    decreases given.len(),
{
    if given.len() == 0 {
        assert(distinct(given).to_set() =~= given.to_set());
    } else {
        let before = distinct(given.drop_last());
        lemma_distinct(given.drop_last());
        assert forall|v: V| distinct(given).to_set().contains(v) == given.to_set().contains(
            v,
        ) by {
            if given.contains(v) {
                let j = choose|j: int| 0 <= j < given.len() && given[j] == v;
                if j < given.len() - 1 {
                    assert(given.drop_last()[j] == v);
                    assert(given.drop_last().to_set().contains(v));
                    assert(before.contains(v));
                    let k = choose|k: int| 0 <= k < before.len() && before[k] == v;
                    assert(distinct(given)[k] == v);
                } else if !before.contains(v) {
                    assert(distinct(given)[before.len() as int] == v);
                }
            }
            if distinct(given).contains(v) {
                let k = choose|k: int| 0 <= k < distinct(given).len() && distinct(given)[k] == v;
                if k < before.len() {
                    assert(before.contains(v));
                    assert(given.drop_last().to_set().contains(v));
                    let j = choose|j: int|
                        0 <= j < given.drop_last().len() && given.drop_last()[j] == v;
                    assert(given[j] == v);
                } else {
                    assert(given[given.len() - 1] == v);
                }
            }
        }
        assert(distinct(given).to_set() =~= given.to_set());
    }
}

/// The authorities that one caller holds: an unordered collection in which no
/// authority occurs twice.
#[derive(Debug)]
pub struct AuthDetails<T: Authority> {
    authorities: Vec<T>,
}

impl<T: Authority> View for AuthDetails<T> {
    type V = Set<T::V>;

    open spec fn view(&self) -> Set<T::V> {
        self.listed().to_set()
    }
}

impl<T: Authority> AuthDetails<T> {
    #[verifier::type_invariant]
    spec fn no_authority_twice(&self) -> bool {
        models(self.authorities@).no_duplicates()
    }

    /// The held authorities, in the order in which they were first given.
    pub closed spec fn listed(&self) -> Seq<T::V> {
        models(self.authorities@)
    }

    /// The held authorities with their type erased, in the order in which
    /// they were first given.
    pub open spec fn listed_erased(&self) -> Seq<Seq<char>> {
        Seq::new(self.listed().len(), |i: int| T::erased_model(self.listed()[i]))
    }

    /// Collects the authorities of `authorities`. One that is given more
    /// than once is held once, at its first place.
    pub fn new(authorities: Vec<T>) -> (details: Self)
        ensures
            details.listed() == distinct(models(authorities@)),
            details@ == models(authorities@).to_set(),
    {
        let ghost given = models(authorities@);
        let ghost mut done: int = 0;
        let mut rest = authorities;
        let mut kept: Vec<T> = Vec::new();
        assert(given.subrange(0, 0) =~= Seq::<T::V>::empty());
        assert(models(kept@) =~= Seq::<T::V>::empty());
        assert(models(rest@) =~= given.subrange(0, given.len() as int));
        while rest.len() > 0
            invariant
                0 <= done <= given.len(),
                models(rest@) == given.subrange(done, given.len() as int),
                models(kept@) == distinct(given.subrange(0, done)),
            decreases rest.len(),
        {
            let ghost rest_before = models(rest@);
            let ghost kept_before = models(kept@);
            let ghost rest_items = rest@;
            assert(rest_before.len() == rest@.len());
            assert(done < given.len());
            let item = rest.remove(0);
            proof {
                assert(rest_before[0] == item@);
                assert forall|k: int| 0 <= k < rest@.len() implies #[trigger] models(rest@)[k]
                    == given[done + 1 + k] by {
                    assert(rest@[k] == rest_items[k + 1]);
                    assert(rest_before[k + 1] == rest_items[k + 1]@);
                }
                assert(models(rest@) =~= given.subrange(done + 1, given.len() as int));
                let next = given.subrange(0, done + 1);
                assert(next.drop_last() =~= given.subrange(0, done));
                assert(next.last() == item@);
            }
            if !contains_token(&kept, &item) {
                kept.push(item);
                assert(models(kept@) =~= kept_before.push(given[done]));
            }
            proof {
                done = done + 1;
            }
        }
        proof {
            assert(given.subrange(0, done) =~= given);
            lemma_distinct(given);
        }
        AuthDetails { authorities: kept }
    }

    /// Gives the held authorities with their type erased, one for each
    /// and in the order in which they were first given.
    pub fn erased(&self) -> (tokens: Vec<String>)
        ensures
            views(tokens@) == self.listed_erased(),
            tokens@.len() == self@.len(),
    {
        let mut tokens: Vec<String> = Vec::new();
        let mut i: usize = 0;
        while i < self.authorities.len()
            invariant
                i <= self.authorities.len(),
                tokens@.len() == i,
                forall|j: int| 0 <= j < i ==> (#[trigger] tokens@[j])@ == T::erased_model(self.authorities@[j]@),
            decreases self.authorities.len() - i,
        {
            tokens.push(self.authorities[i].erased());
            i = i + 1;
        }
        proof {
            use_type_invariant(self);
            models(self.authorities@).unique_seq_to_set();
        }
        assert(views(tokens@) =~= self.listed_erased());
        tokens
    }

    /// The number of authorities held.
    pub fn len(&self) -> (n: usize)
        ensures
            n == self@.len(),
            n == self.listed().len(),
            self.listed().no_duplicates(),
    {
        proof {
            use_type_invariant(self);
            models(self.authorities@).unique_seq_to_set();
        }
        self.authorities.len()
    }

    /// Tells whether `authority` is held.
    pub fn contains(&self, authority: &T) -> (b: bool)
        ensures
            b == self@.contains(authority@),
    {
        contains_token(&self.authorities, authority)
    }

    /// Tells whether every authority of `required` is held.
    pub fn contains_all(&self, required: &Vec<T>) -> (b: bool)
        ensures
            b == models(required@).to_set().subset_of(self@),
    {
        let mut i: usize = 0;
        while i < required.len()
            invariant
                i <= required.len(),
                forall|j: int| 0 <= j < i ==> self@.contains(#[trigger] models(required@)[j]),
            decreases required.len() - i,
        {
            if !self.contains(&required[i]) {
                assert(models(required@)[i as int] == required@[i as int]@);
                assert(models(required@).to_set().contains(models(required@)[i as int]));
                return false;
            }
            i = i + 1;
        }
        true
    }

    /// Tells whether at least one authority of `required` is held.
    pub fn contains_any(&self, required: &Vec<T>) -> (b: bool)
        ensures
            b == !models(required@).to_set().disjoint(self@),
    {
        let mut i: usize = 0;
        while i < required.len()
            invariant
                i <= required.len(),
                forall|j: int| 0 <= j < i ==> !self@.contains(#[trigger] models(required@)[j]),
            decreases required.len() - i,
        {
            if self.contains(&required[i]) {
                assert(models(required@)[i as int] == required@[i as int]@);
                assert(models(required@).to_set().contains(models(required@)[i as int]));
                return true;
            }
            i = i + 1;
        }
        false
    }
}

/// Tells whether `item` is among `items`.
fn contains_token<T: Authority>(items: &Vec<T>, item: &T) -> (b: bool)
    ensures
        b == models(items@).contains(item@),
{
    let mut i: usize = 0;
    while i < items.len()
        invariant
            i <= items.len(),
            forall|j: int| 0 <= j < i ==> #[trigger] models(items@)[j] != item@,
        decreases items.len() - i,
    {
        if items[i].same(item) {
            assert(models(items@)[i as int] == item@);
            return true;
        }
        i = i + 1;
    }
    false
}

} // verus!
