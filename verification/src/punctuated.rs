//! Punctuated lists and delimited spans: the two shapes that make a node's
//! traversal order irregular.
use vstd::prelude::*;

use crate::token::Token;

verus! {

/// One element of a punctuated list: a value and, for every pair but
/// (conventionally) the last, the separator token that follows it.
pub struct Pair<T> {
    pub value: T,
    pub separator: Option<Token>,
}

/// An ordered sequence of value/separator pairs, the building block for
/// comma-like lists. Concatenating the source text of every value and
/// separator in order reproduces the list's original source text.
pub struct Punctuated<T> {
    pub pairs: Vec<Pair<T>>,
}

/// A pair of bracketing tokens exclusively owning some enclosed content.
/// Traversal visits the open token, then the content, then the close token;
/// that order is hand-specified for every node holding one of these.
pub struct ContainedSpan {
    pub open_token: Token,
    pub close_token: Token,
}

/// Whether at most one pair of a list omits its separator: of any two
/// distinct pairs, at least one carries its separator token.
pub open spec fn at_most_one_unseparated<T>(pairs: Seq<Pair<T>>) -> bool {
    forall|i: int, j: int|
        0 <= i < pairs.len() && 0 <= j < pairs.len() && i != j ==> ((
        #[trigger] pairs[i].separator) is Some || (#[trigger] pairs[j].separator) is Some)
}

impl<T> Punctuated<T> {
    /// Well-formedness: at most one pair — conventionally, but not
    /// necessarily, the last — may omit its separator.
    pub open spec fn wf(self) -> bool {
        at_most_one_unseparated(self.pairs@)
    }

    /// An empty list.
    pub fn new() -> (r: Punctuated<T>)
        ensures
            r.pairs@.len() == 0,
    {
        Punctuated { pairs: Vec::new() }
    }

    /// Append one value/separator pair at the end of the list.
    pub fn push(&mut self, value: T, separator: Option<Token>)
        ensures
            final (self).pairs@ == old(self).pairs@.push(Pair { value, separator }),
    {
        self.pairs.push(Pair { value, separator });
    }

    /// How many pairs the list holds.
    pub fn len(&self) -> (r: usize)
        ensures
            r == self.pairs@.len(),
    {
        self.pairs.len()
    }
}

} // verus!
