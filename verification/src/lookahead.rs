//! The lookahead probe and the diagnostic it ends in.

use crate::buffer::Cursor;
use crate::error::{blamed_span, new_at, Error};
use crate::private::Sealed;
use crate::token::{Brace, Bracket, Comma, Ident, Lit, Paren, Semi, Token};
use proc_macro2::{Delimiter, Span};
use vstd::prelude::*;

verus! {

/// The names that a list of strings holds, in its order.
pub open spec fn names_of(list: Seq<String>) -> Seq<Seq<char>> {
    Seq::new(list.len(), |i: int| list[i]@)
}

/// `names` in their order, with a comma and a space between each two.
pub open spec fn joined(names: Seq<Seq<char>>) -> Seq<char>
    decreases names.len(),
{
    if names.len() == 0 {
        Seq::empty()
    } else if names.len() == 1 {
        names[0]
    } else {
        joined(names.drop_last()) + ", "@ + names.last()
    }
}

/// The text of the diagnostic for a position at which the alternatives
/// `names` were tried, in that order, and none matched. There are four
/// shapes and no others. With no alternative tried, nothing can be said to
/// have been expected, so the text only says what was met: the end of the
/// input, or some token. With one, it names that one. With more, it names
/// them all, repeated names repeated.
pub open spec fn diagnostic_text(names: Seq<Seq<char>>, at_end: bool) -> Seq<char> {
    if names.len() == 0 {
        if at_end {
            "unexpected end of input"@
        } else {
            "unexpected token"@
        }
    } else if names.len() == 1 {
        "expected "@ + names[0]
    } else {
        "expected one of: "@ + joined(names)
    }
}

/// What a probe remembers after one more alternative was tried: the name of
/// the alternative is added at the end if it did not match, and nothing
/// changes if it did.
pub open spec fn recorded(attempted: Seq<Seq<char>>, hit: bool, name: Seq<char>) -> Seq<
    Seq<char>,
> {
    if hit {
        attempted
    } else {
        attempted.push(name)
    }
}

/// What a probe remembers after a run of trials, each given as the outcome
/// and the name of the alternative tried.
pub open spec fn recorded_all(attempted: Seq<Seq<char>>, trials: Seq<(bool, Seq<char>)>) -> Seq<
    Seq<char>,
>
    decreases trials.len(),
{
    if trials.len() == 0 {
        attempted
    } else {
        recorded(recorded_all(attempted, trials.drop_last()), trials.last().0, trials.last().1)
    }
}

/// The names of the trials that did not match, in the order of the trials.
pub open spec fn failed_names(trials: Seq<(bool, Seq<char>)>) -> Seq<Seq<char>> {
    trials.filter(|trial: (bool, Seq<char>)| !trial.0).map_values(
        |trial: (bool, Seq<char>)| trial.1,
    )
}

/// After any run of trials a probe remembers what it remembered before,
/// followed by the name of each trial that did not match, in the order of
/// the trials and as often as it was tried. So the number of names grows by
/// exactly the number of trials that did not match.
pub proof fn lemma_recorded_all(attempted: Seq<Seq<char>>, trials: Seq<(bool, Seq<char>)>)
    ensures
        recorded_all(attempted, trials) == attempted + failed_names(trials),
        recorded_all(attempted, trials).len() == attempted.len() + trials.filter(
            |trial: (bool, Seq<char>)| !trial.0,
        ).len(),
    decreases trials.len(),
{
    let failed = |trial: (bool, Seq<char>)| !trial.0;
    if trials.len() == 0 {
        assert(trials.filter(failed) =~= Seq::empty()) by {
            reveal(Seq::filter);
        }
        assert(recorded_all(attempted, trials) =~= attempted + failed_names(trials));
    } else {
        let front = trials.drop_last();
        lemma_recorded_all(attempted, front);
        assert(trials.filter(failed) == if failed(trials.last()) {
            front.filter(failed).push(trials.last())
        } else {
            front.filter(failed)
        }) by {
            reveal(Seq::filter);
        }
        assert(recorded_all(attempted, trials) =~= attempted + failed_names(trials));
    }
}

/// A probe at one read position. It answers whether the next token is of a
/// given kind without reading it, remembers each kind that was asked for and
/// not found, and at the end turns them into one diagnostic.
///
/// The same kind asked for twice and not found is remembered twice: the
/// diagnostic lists what was tried, not the set of what was tried.
pub struct Lookahead1<'a> {
    scope: Span,
    cursor: Cursor<'a>,
    comparisons: Vec<String>,
}

/// A request that [`Lookahead1::peek`] takes: a value whose type alone says
/// which kind of token is asked for. The trait is sealed, so the kinds are
/// those of this crate.
pub trait Peek: Sealed {
    type Token: Token;
}

impl Peek for Ident {
    type Token = Ident;
}

impl Peek for Lit {
    type Token = Lit;
}

impl Peek for Comma {
    type Token = Comma;
}

impl Peek for Semi {
    type Token = Semi;
}

impl Peek for Paren {
    type Token = Paren;
}

impl Peek for Brace {
    type Token = Brace;
}

impl Peek for Bracket {
    type Token = Bracket;
}

impl<'a> Lookahead1<'a> {
    /// The span to blame where the position is the end of the input.
    pub closed spec fn anchor(&self) -> Span {
        self.scope
    }

    /// The position that the probe is bound to.
    pub closed spec fn position(&self) -> Cursor<'a> {
        self.cursor
    }

    /// The names of the kinds that were asked for and not found, in the
    /// order in which they were asked for.
    pub closed spec fn attempted(&self) -> Seq<Seq<char>> {
        names_of(self.comparisons@)
    }

    /// A probe at `cursor` that has tried nothing yet.
    pub fn new(scope: Span, cursor: Cursor<'a>) -> (lookahead: Self)
        ensures
            lookahead.anchor() == scope,
            lookahead.position() == cursor,
            lookahead.attempted() == Seq::<Seq<char>>::empty(),
    {
        let lookahead = Lookahead1 { scope: scope, cursor: cursor, comparisons: Vec::new() };
        assert(lookahead.attempted() =~= Seq::<Seq<char>>::empty());
        lookahead
    }

    /// Whether a token of the kind that `token` designates stands at the
    /// position. The position and the anchor stay as they are. If the answer
    /// is no, the name of the kind is remembered; if it is yes, nothing is.
    pub fn peek<T: Peek>(&mut self, token: T) -> (hit: bool)
        ensures
            hit == <T::Token as Token>::matches(old(self).position()),
            final(self).position() == old(self).position(),
            final(self).anchor() == old(self).anchor(),
            final(self).attempted() == recorded(
                old(self).attempted(),
                hit,
                <T::Token as Token>::name(),
            ),
            hit ==> final(self).attempted() == old(self).attempted(),
            !hit ==> final(self).attempted().len() == old(self).attempted().len() + 1,
    {
        let _ = token;
        if <T::Token as Token>::peek(&*self) {
            return true;
        }
        let name = <T::Token as Token>::display();
        self.comparisons.push(name);
        assert(self.attempted() =~= old(self).attempted().push(<T::Token as Token>::name()));
        false
    }

    /// Whether a group enclosed by `delimiter` starts at the position.
    /// Nothing is remembered, whatever the answer.
    pub fn peek_delimiter(&self, delimiter: Delimiter) -> (hit: bool)
        ensures
            hit == self.position().at_group(delimiter),
    {
        self.cursor.group(delimiter).is_some()
    }

    /// Ends the probe in the diagnostic for what it has tried: the text is
    /// [`diagnostic_text`] of the names remembered, and the span blamed is
    /// that of the token at the position, or the anchor at the end of the
    /// input.
    pub fn error(self) -> (error: Error)
        ensures
            error.span == blamed_span(self.anchor(), self.position()),
            error.message@ == diagnostic_text(self.attempted(), self.position().at_end()),
    {
        let message = message(&self.comparisons, self.cursor.eof());
        new_at(self.scope, self.cursor, message.as_str())
    }

    /// The position that the probe is bound to.
    pub fn cursor(&self) -> (cursor: Cursor<'a>)
        ensures
            cursor == self.position(),
    {
        self.cursor
    }
}

/// `names` in their order, with a comma and a space between each two.
pub fn join(names: &Vec<String>) -> (text: String)
    ensures
        text@ == joined(names_of(names@)),
{
    let ghost all = names_of(names@);
    let mut text = String::new();
    let mut i: usize = 0;
    assert(joined(all.take(0)) =~= Seq::<char>::empty());
    while i < names.len()
        invariant
            i <= names.len(),
            all == names_of(names@),
            text@ == joined(all.take(i as int)),
        decreases names.len() - i,
    {
        if i > 0 {
            text.append(", ");
        }
        text.append(names[i].as_str());
        proof {
            let next = all.take(i + 1);
            assert(next.drop_last() =~= all.take(i as int));
            assert(next.last() == names@[i as int]@);
            if i == 0 {
                assert(text@ =~= names@[0]@);
            }
        }
        i += 1;
    }
    assert(all.take(i as int) =~= all);
    text
}

/// The text of the diagnostic for a position at which the alternatives
/// `names` were tried and none matched; `at_end` says whether the position
/// is the end of the input.
pub fn message(names: &Vec<String>, at_end: bool) -> (text: String)
    ensures
        text@ == diagnostic_text(names_of(names@), at_end),
{
    if names.len() == 0 {
        if at_end {
            String::from_str("unexpected end of input")
        } else {
            String::from_str("unexpected token")
        }
    } else if names.len() == 1 {
        let mut text = String::from_str("expected ");
        text.append(names[0].as_str());
        text
    } else {
        let mut text = String::from_str("expected one of: ");
        let list = join(names);
        text.append(list.as_str());
        text
    }
}

/// Whether a group enclosed by `delimiter` starts at the position of
/// `lookahead`. The kinds of token that are groups test themselves with it.
pub fn is_delimiter(lookahead: &Lookahead1, delimiter: Delimiter) -> (hit: bool)
    ensures
        hit == lookahead.position().at_group(delimiter),
{
    lookahead.peek_delimiter(delimiter)
}

} // verus!
