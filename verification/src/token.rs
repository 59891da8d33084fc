//! The token alphabet of the DSL.
//!
//! The library parses a flat sequence of tokens produced by a host-side
//! tokenizer: identifiers (keywords are ordinary identifiers), unsigned
//! integer literals kept as their base-10 digit text, float literals kept
//! as written, string literal contents, and punctuation.
use vstd::prelude::*;

verus! {

/// Punctuation tokens of the DSL grammar.
#[derive(Clone, Copy, PartialEq, Eq, Structural, Debug)]
pub enum Punct {
    Colon,
    Semi,
    Comma,
    At,
    Star,
    Equals,
    Minus,
    Dot,
    DotDot,
    Shr,
    OpenParen,
    CloseParen,
    OpenBrace,
    CloseBrace,
    OpenBracket,
    CloseBracket,
}

impl DeepView for Punct {
    type V = Punct;

    open spec fn deep_view(&self) -> Punct {
        *self
    }
}

/// One lexical unit handed to the parser.
#[derive(Clone, Debug)]
pub enum Token {
    /// An identifier or keyword.
    Ident(String),
    /// An unsigned integer literal, kept as its base-10 digit text.
    Int(String),
    /// A float literal, kept exactly as written (no sign).
    Float(String),
    /// The contents of a string literal.
    Str(String),
    /// A punctuation token.
    Punct(Punct),
}

/// The mathematical value of a token.
#[verifier::ext_equal]
pub enum SpecToken {
    Ident(Seq<char>),
    Int(Seq<char>),
    Float(Seq<char>),
    Str(Seq<char>),
    Punct(Punct),
}

impl DeepView for Token {
    type V = SpecToken;

    open spec fn deep_view(&self) -> SpecToken {
        match self {
            Token::Ident(s) => SpecToken::Ident(s@),
            Token::Int(s) => SpecToken::Int(s@),
            Token::Float(s) => SpecToken::Float(s@),
            Token::Str(s) => SpecToken::Str(s@),
            Token::Punct(p) => SpecToken::Punct(*p),
        }
    }
}

/// True when position `pos` of `t` holds the punctuation token `p`.
pub open spec fn at_punct(t: Seq<SpecToken>, pos: int, p: Punct) -> bool {
    0 <= pos < t.len() && t[pos] == SpecToken::Punct(p)
}

/// True when position `pos` of `t` holds the identifier spelled `s`.
pub open spec fn at_kw(t: Seq<SpecToken>, pos: int, s: Seq<char>) -> bool {
    0 <= pos < t.len() && t[pos] == SpecToken::Ident(s)
}

/// Relies on str's PartialEq implementation: two string slices compare
/// equal exactly when their character sequences do.
#[verifier::external_body]
pub(crate) fn str_eq(a: &str, b: &str) -> (r: bool)
    ensures
        r == (a@ == b@),
{
    a == b
}

impl Token {
    /// True when this token is the punctuation `p`.
    pub fn is_punct(&self, p: Punct) -> (r: bool)
        ensures
            r == (self.deep_view() == SpecToken::Punct(p)),
    {
        match self {
            Token::Punct(q) => *q == p,
            _ => false,
        }
    }

    /// True when this token is the identifier spelled `s`.
    pub fn is_kw(&self, s: &str) -> (r: bool)
        ensures
            r == (self.deep_view() == SpecToken::Ident(s@)),
    {
        match self {
            Token::Ident(t) => str_eq(t.as_str(), s),
            _ => false,
        }
    }
}

} // verus!
