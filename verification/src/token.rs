//! The token stream the parser consumes, and the error it reports.
//!
//! Tokenization itself is host-provided: a driver turns raw template text into
//! a `Vec<Token>` and hands it to the parser. Every token carries the byte
//! position it started at in the template source, so that a `SyntaxError` can
//! point at the offending token.

use vstd::prelude::*;

verus! {

/// A punctuation token of the template grammar.
#[derive(Clone, Copy, Debug, PartialEq, Eq, Structural)]
pub enum Punct {
    /// `<`
    Lt,
    /// `>`
    Gt,
    /// `/`
    Slash,
    /// `@`
    At,
    /// `=`
    Eq,
}

/// What a token is: punctuation, an identifier, a string literal (its cooked
/// contents, without the surrounding quotes), or a brace-delimited group
/// (the raw source text between the braces).
#[derive(Clone, Debug, PartialEq, Eq)]
pub enum TokenKind {
    Punct(Punct),
    Ident(String),
    Str(String),
    Braced(String),
}

/// One token of the template source, with the byte position it started at.
#[derive(Clone, Debug, PartialEq, Eq)]
pub struct Token {
    pub kind: TokenKind,
    pub pos: usize,
}

/// What the parser expected when it stopped.
#[derive(Clone, Debug, PartialEq, Eq)]
pub enum ErrorKind {
    /// A specific punctuation token was required.
    ExpectedPunct(Punct),
    /// An identifier was required.
    ExpectedIdent,
    /// Inside an opening tag, only `@event={..}` or `name=value` may follow.
    ExpectedAttributeOrEvent,
    /// A child or attribute value must be a string, an element, or `{ expr }`.
    ExpectedStringElementOrExpr,
    /// An event value must be a brace-delimited group.
    ExpectedBraces,
    /// A brace-delimited group must hold exactly one host expression.
    ExpectedExpression,
    /// The closing tag's name differs from the opening one; the payload is the
    /// name that was expected.
    MismatchedClosingTag(String),
    /// Tokens remained after the template's one root element.
    UnexpectedToken,
}

/// A syntax error: what was expected, and the byte position of the token at
/// which parsing stopped (the position after the last token when the input
/// ended too early).
#[derive(Clone, Debug, PartialEq, Eq)]
pub struct SyntaxError {
    pub kind: ErrorKind,
    pub pos: usize,
}

/// Ghost counterpart of `ErrorKind`, with the mismatched-tag name as a
/// sequence of characters.
pub enum SpecErrorKind {
    ExpectedPunct(Punct),
    ExpectedIdent,
    ExpectedAttributeOrEvent,
    ExpectedStringElementOrExpr,
    ExpectedBraces,
    ExpectedExpression,
    MismatchedClosingTag(Seq<char>),
    UnexpectedToken,
}

/// Ghost counterpart of `SyntaxError`.
pub struct SpecError {
    pub kind: SpecErrorKind,
    pub pos: int,
}

pub open spec fn error_kind_view(k: ErrorKind) -> SpecErrorKind {
    match k {
        ErrorKind::ExpectedPunct(p) => SpecErrorKind::ExpectedPunct(p),
        ErrorKind::ExpectedIdent => SpecErrorKind::ExpectedIdent,
        ErrorKind::ExpectedAttributeOrEvent => SpecErrorKind::ExpectedAttributeOrEvent,
        ErrorKind::ExpectedStringElementOrExpr => SpecErrorKind::ExpectedStringElementOrExpr,
        ErrorKind::ExpectedBraces => SpecErrorKind::ExpectedBraces,
        ErrorKind::ExpectedExpression => SpecErrorKind::ExpectedExpression,
        ErrorKind::MismatchedClosingTag(s) => SpecErrorKind::MismatchedClosingTag(s@),
        ErrorKind::UnexpectedToken => SpecErrorKind::UnexpectedToken,
    }
}

impl View for ErrorKind {
    type V = SpecErrorKind;

    open spec fn view(&self) -> SpecErrorKind {
        error_kind_view(*self)
    }
}

impl View for SyntaxError {
    type V = SpecError;

    open spec fn view(&self) -> SpecError {
        SpecError { kind: error_kind_view(self.kind), pos: self.pos as int }
    }
}

/// The position a diagnostic at index `i` points at: the token's own position
/// while `i` is in range, and the last token's position (or 0 on an empty
/// stream) once the input has run out.
pub open spec fn spec_pos_at(toks: Seq<Token>, i: int) -> int {
    if 0 <= i < toks.len() {
        toks[i].pos as int
    } else if toks.len() > 0 {
        toks[toks.len() - 1].pos as int
    } else {
        0
    }
}

/// Executable counterpart of `spec_pos_at`.
pub fn pos_at(toks: &Vec<Token>, i: usize) -> (r: usize)
    ensures
        r as int == spec_pos_at(toks@, i as int),
{
    if i < toks.len() {
        toks[i].pos
    } else if toks.len() > 0 {
        toks[toks.len() - 1].pos
    } else {
        0
    }
}

} // verus!
