//! The atomic leaf of the tree: a token carrying its exact source text and
//! the trivia (whitespace, comments) attached to its edges.
use vstd::prelude::*;

verus! {

/// A token: the exact source text of one lexeme, together with the trivia
/// that precedes and follows it. Tokens are immutable leaves; a rewrite
/// replaces a token wholesale, never edits it in parts.
pub struct Token {
    pub leading: Vec<u8>,
    pub text: Vec<u8>,
    pub trailing: Vec<u8>,
}

/// The mathematical model of a token: its three spans of source bytes.
pub struct TokenView {
    pub leading: Seq<u8>,
    pub text: Seq<u8>,
    pub trailing: Seq<u8>,
}

impl TokenView {
    /// All bytes the token contributes to the printed source, in order.
    pub open spec fn full(self) -> Seq<u8> {
        self.leading + self.text + self.trailing
    }
}

impl View for Token {
    type V = TokenView;

    open spec fn view(&self) -> TokenView {
        TokenView { leading: self.leading@, text: self.text@, trailing: self.trailing@ }
    }
}

impl Token {
    /// Build a token from its three spans of bytes.
    pub fn new(leading: Vec<u8>, text: Vec<u8>, trailing: Vec<u8>) -> (r: Token)
        ensures
            r@ == (TokenView { leading: leading@, text: text@, trailing: trailing@ }),
    {
        Token { leading, text, trailing }
    }
}

impl Clone for Token {
    fn clone(&self) -> (r: Token)
        ensures
            r@ == self@,
    {
        Token {
            leading: self.leading.clone(),
            text: self.text.clone(),
            trailing: self.trailing.clone(),
        }
    }
}

} // verus!
