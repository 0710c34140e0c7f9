//! The recursive-descent parser: from a token stream to the AST.
//!
//! The grammar, with one token of lookahead per choice:
//!
//! ```text
//! Element   ::= '<' IDENT (Event | Attribute)* ( '/' '>' | '>' Child* '<' '/' IDENT '>' )
//! Attribute ::= IDENT '=' (STR | Element | BRACED)
//! Event     ::= '@' IDENT '=' BRACED
//! Child     ::= STR | Element | BRACED
//! ```
//!
//! where a `BRACED` group must hold exactly one host-language expression,
//! which is captured verbatim. The closing identifier must equal the opening
//! one; a mismatch is reported at the closing identifier, naming the opening
//! name as expected.
//!
//! The whole grammar is stated once as spec functions (`spec_parse_*`), and
//! every executable parse function is proved to return exactly what they say:
//! the same AST and resting index on success, the same error and position on
//! failure.

use vstd::prelude::*;

use crate::ast::{Attribute, AttributeValue, Child, Element, Event};
use crate::ast::{SpecAttribute, SpecAttributeValue, SpecChild, SpecElement, SpecEvent};
use crate::ast::{attributes_view, children_view, events_view};
use crate::token::{ErrorKind, Punct, SpecError, SpecErrorKind, SyntaxError, Token, TokenKind};
use crate::token::{pos_at, spec_pos_at};

verus! {

broadcast use vstd::std_specs::vec::axiom_spec_len;

/// Whether a string parses as exactly one host-language expression, with no
/// tokens left over. The parser accepts a brace-delimited group only when
/// this holds of its contents; what the predicate is on given characters is
/// known only to the host parser behind `check_expr`.
pub uninterp spec fn is_expr(s: Seq<char>) -> bool;

/// Relies on `syn::parse_str::<syn::Expr>`: it returns `Ok` exactly when the
/// whole string is one Rust expression (trailing tokens are an error), and
/// its verdict depends on the string alone.
#[verifier::external_body]
fn check_expr(s: &str) -> (r: bool)
    ensures
        r == is_expr(s@),
{
    syn::parse_str::<syn::Expr>(s).is_ok()
}

/// Whether the token at `i` is the punctuation `p`.
pub open spec fn spec_is_punct(toks: Seq<Token>, i: int, p: Punct) -> bool {
    0 <= i < toks.len() && toks[i].kind == TokenKind::Punct(p)
}

/// The identifier at `i`, if the token there is one.
pub open spec fn spec_ident_at(toks: Seq<Token>, i: int) -> Option<Seq<char>> {
    if 0 <= i < toks.len() {
        match toks[i].kind {
            TokenKind::Ident(s) => Some(s@),
            _ => None,
        }
    } else {
        None
    }
}

/// The string literal at `i`, if the token there is one.
pub open spec fn spec_str_at(toks: Seq<Token>, i: int) -> Option<Seq<char>> {
    if 0 <= i < toks.len() {
        match toks[i].kind {
            TokenKind::Str(s) => Some(s@),
            _ => None,
        }
    } else {
        None
    }
}

/// Whether the token at `i` opens a brace-delimited group.
pub open spec fn spec_is_braced(toks: Seq<Token>, i: int) -> bool {
    0 <= i < toks.len() && toks[i].kind is Braced
}

/// The contents of the brace-delimited group at `i`.
pub open spec fn spec_braced_at(toks: Seq<Token>, i: int) -> Seq<char>
    recommends
        spec_is_braced(toks, i),
{
    toks[i].kind->Braced_0@
}

pub open spec fn spec_err(kind: SpecErrorKind, toks: Seq<Token>, i: int) -> SpecError {
    SpecError { kind, pos: spec_pos_at(toks, i) }
}

/// One brace-delimited group holding exactly one expression: the expression's
/// verbatim text and the index after the group. Fails when the group is
/// absent, or when its contents are not exactly one expression (empty, or
/// trailing tokens).
pub open spec fn spec_parse_braced_expr(toks: Seq<Token>, i: int) -> Result<
    (Seq<char>, int),
    SpecError,
> {
    if spec_is_braced(toks, i) {
        if is_expr(spec_braced_at(toks, i)) {
            Ok((spec_braced_at(toks, i), i + 1))
        } else {
            Err(spec_err(SpecErrorKind::ExpectedExpression, toks, i))
        }
    } else {
        Err(spec_err(SpecErrorKind::ExpectedBraces, toks, i))
    }
}

/// An event binding `@name={ expr }`: unconditional once the `@` lookahead
/// has matched; any deviation after it is a hard failure.
pub open spec fn spec_parse_event(toks: Seq<Token>, i: int) -> Result<(SpecEvent, int), SpecError> {
    if !spec_is_punct(toks, i, Punct::At) {
        Err(spec_err(SpecErrorKind::ExpectedPunct(Punct::At), toks, i))
    } else {
        match spec_ident_at(toks, i + 1) {
            None => Err(spec_err(SpecErrorKind::ExpectedIdent, toks, i + 1)),
            Some(name) => if !spec_is_punct(toks, i + 2, Punct::Eq) {
                Err(spec_err(SpecErrorKind::ExpectedPunct(Punct::Eq), toks, i + 2))
            } else {
                match spec_parse_braced_expr(toks, i + 3) {
                    Err(e) => Err(e),
                    Ok((x, j)) => Ok((SpecEvent { name, expr: x }, j)),
                }
            },
        }
    }
}

/// One attribute `name = (STR | Element | BRACED)`.
pub open spec fn spec_parse_attribute(toks: Seq<Token>, i: int) -> Result<
    (SpecAttribute, int),
    SpecError,
>
    decreases toks.len() - i, 1int,
{
    match spec_ident_at(toks, i) {
        None => Err(spec_err(SpecErrorKind::ExpectedIdent, toks, i)),
        Some(name) => if !spec_is_punct(toks, i + 1, Punct::Eq) {
            Err(spec_err(SpecErrorKind::ExpectedPunct(Punct::Eq), toks, i + 1))
        } else {
            match spec_str_at(toks, i + 2) {
                Some(s) => Ok((SpecAttribute { name, value: SpecAttributeValue::Str(s) }, i + 3)),
                None => if spec_is_punct(toks, i + 2, Punct::Lt) {
                    match spec_parse_element(toks, i + 2) {
                        Err(e) => Err(e),
                        Ok((el, j)) => Ok(
                            (SpecAttribute { name, value: SpecAttributeValue::Element(el) }, j),
                        ),
                    }
                } else if spec_is_braced(toks, i + 2) {
                    match spec_parse_braced_expr(toks, i + 2) {
                        Err(e) => Err(e),
                        Ok((x, j)) => Ok(
                            (SpecAttribute { name, value: SpecAttributeValue::Expr(x) }, j),
                        ),
                    }
                } else {
                    Err(spec_err(SpecErrorKind::ExpectedStringElementOrExpr, toks, i + 2))
                },
            }
        },
    }
}

/// One child: a string literal, a nested element, or a braced expression.
pub open spec fn spec_parse_child(toks: Seq<Token>, i: int) -> Result<(SpecChild, int), SpecError>
    decreases toks.len() - i, 1int,
{
    match spec_str_at(toks, i) {
        Some(s) => Ok((SpecChild::Text(s), i + 1)),
        None => if spec_is_punct(toks, i, Punct::Lt) {
            match spec_parse_element(toks, i) {
                Err(e) => Err(e),
                Ok((el, j)) => Ok((SpecChild::Element(el), j)),
            }
        } else if spec_is_braced(toks, i) {
            match spec_parse_braced_expr(toks, i) {
                Err(e) => Err(e),
                Ok((x, j)) => Ok((SpecChild::Expr(x), j)),
            }
        } else {
            Err(spec_err(SpecErrorKind::ExpectedStringElementOrExpr, toks, i))
        },
    }
}

/// The attribute/event list of an opening tag, from `i` up to the first `/`
/// or `>`, with the items seen so far accumulated in source order. Input that
/// ends inside the list fails like any other stray token: neither an `@` nor
/// an identifier follows, so an attribute or event was expected.
pub open spec fn spec_parse_attrs(
    toks: Seq<Token>,
    i: int,
    attrs: Seq<SpecAttribute>,
    events: Seq<SpecEvent>,
) -> Result<(Seq<SpecAttribute>, Seq<SpecEvent>, int), SpecError>
    decreases toks.len() - i, 2int,
{
    if spec_is_punct(toks, i, Punct::Slash) || spec_is_punct(toks, i, Punct::Gt) {
        Ok((attrs, events, i))
    } else if spec_is_punct(toks, i, Punct::At) {
        match spec_parse_event(toks, i) {
            Err(e) => Err(e),
            Ok((ev, j)) => if i < j <= toks.len() {
                spec_parse_attrs(toks, j, attrs, events.push(ev))
            } else {
                // never reached: a parsed event always advances the index
                Err(spec_err(SpecErrorKind::UnexpectedToken, toks, i))
            },
        }
    } else if spec_ident_at(toks, i) is Some {
        match spec_parse_attribute(toks, i) {
            Err(e) => Err(e),
            Ok((a, j)) => if i < j <= toks.len() {
                spec_parse_attrs(toks, j, attrs.push(a), events)
            } else {
                // never reached: a parsed attribute always advances the index
                Err(spec_err(SpecErrorKind::UnexpectedToken, toks, i))
            },
        }
    } else {
        Err(spec_err(SpecErrorKind::ExpectedAttributeOrEvent, toks, i))
    }
}

/// The child list of an element, from `i` up to the first `<` immediately
/// followed by `/`, with the children seen so far accumulated in document
/// order.
pub open spec fn spec_parse_children(toks: Seq<Token>, i: int, acc: Seq<SpecChild>) -> Result<
    (Seq<SpecChild>, int),
    SpecError,
>
    decreases toks.len() - i, 2int,
{
    if spec_is_punct(toks, i, Punct::Lt) && spec_is_punct(toks, i + 1, Punct::Slash) {
        Ok((acc, i))
    } else {
        match spec_parse_child(toks, i) {
            Err(e) => Err(e),
            Ok((c, j)) => if i < j <= toks.len() {
                spec_parse_children(toks, j, acc.push(c))
            } else {
                // never reached: a parsed child always advances the index
                Err(spec_err(SpecErrorKind::UnexpectedToken, toks, i))
            },
        }
    }
}

/// One whole element starting at `i`: `<name`, its attribute/event list, then
/// either `/>` (self-closing, no children) or `>` children `</name>`. On
/// success the result is the element's model and the index just after its
/// closing `>`.
pub open spec fn spec_parse_element(toks: Seq<Token>, i: int) -> Result<
    (SpecElement, int),
    SpecError,
>
    decreases toks.len() - i, 0int,
{
    if !spec_is_punct(toks, i, Punct::Lt) {
        Err(spec_err(SpecErrorKind::ExpectedPunct(Punct::Lt), toks, i))
    } else {
        match spec_ident_at(toks, i + 1) {
            None => Err(spec_err(SpecErrorKind::ExpectedIdent, toks, i + 1)),
            Some(name) => match spec_parse_attrs(toks, i + 2, Seq::empty(), Seq::empty()) {
                Err(e) => Err(e),
                Ok((attrs, events, k)) => if !(i + 2 <= k <= toks.len()) {
                    // never reached: the attribute list starts at i + 2 and stays in range
                    Err(spec_err(SpecErrorKind::UnexpectedToken, toks, i))
                } else if spec_is_punct(toks, k, Punct::Slash) {
                    if spec_is_punct(toks, k + 1, Punct::Gt) {
                        Ok(
                            (
                                SpecElement {
                                    name,
                                    attributes: attrs,
                                    events,
                                    children: Seq::empty(),
                                },
                                k + 2,
                            ),
                        )
                    } else {
                        Err(spec_err(SpecErrorKind::ExpectedPunct(Punct::Gt), toks, k + 1))
                    }
                } else if !spec_is_punct(toks, k, Punct::Gt) {
                    Err(spec_err(SpecErrorKind::ExpectedPunct(Punct::Gt), toks, k))
                } else {
                    match spec_parse_children(toks, k + 1, Seq::empty()) {
                        Err(e) => Err(e),
                        Ok((children, m)) => if !(k + 1 <= m <= toks.len()) {
                            // never reached: the child list starts at k + 1 and stays in range
                            Err(spec_err(SpecErrorKind::UnexpectedToken, toks, i))
                        } else if !spec_is_punct(toks, m, Punct::Lt) {
                            Err(spec_err(SpecErrorKind::ExpectedPunct(Punct::Lt), toks, m))
                        } else if !spec_is_punct(toks, m + 1, Punct::Slash) {
                            Err(spec_err(SpecErrorKind::ExpectedPunct(Punct::Slash), toks, m + 1))
                        } else {
                            match spec_ident_at(toks, m + 2) {
                                None => Err(spec_err(SpecErrorKind::ExpectedIdent, toks, m + 2)),
                                Some(closing) => if closing != name {
                                    Err(
                                        spec_err(
                                            SpecErrorKind::MismatchedClosingTag(name),
                                            toks,
                                            m + 2,
                                        ),
                                    )
                                } else if !spec_is_punct(toks, m + 3, Punct::Gt) {
                                    Err(spec_err(SpecErrorKind::ExpectedPunct(Punct::Gt), toks, m + 3))
                                } else {
                                    Ok(
                                        (
                                            SpecElement {
                                                name,
                                                attributes: attrs,
                                                events,
                                                children,
                                            },
                                            m + 4,
                                        ),
                                    )
                                },
                            }
                        },
                    }
                },
            },
        }
    }
}

/// Whether the token at `i` is the punctuation `p`.
fn is_punct_at(toks: &Vec<Token>, i: usize, p: Punct) -> (r: bool)
    ensures
        r == spec_is_punct(toks@, i as int, p),
        toks@.len() <= usize::MAX,
{
    if i < toks.len() {
        match &toks[i].kind {
            TokenKind::Punct(q) => *q == p,
            _ => false,
        }
    } else {
        false
    }
}

/// Whether the token at `i` is an identifier.
fn is_ident_at(toks: &Vec<Token>, i: usize) -> (r: bool)
    ensures
        r == (spec_ident_at(toks@, i as int) is Some),
        toks@.len() <= usize::MAX,
{
    if i < toks.len() {
        match &toks[i].kind {
            TokenKind::Ident(_) => true,
            _ => false,
        }
    } else {
        false
    }
}

/// The identifier at `i`, if the token there is one.
fn ident_at(toks: &Vec<Token>, i: usize) -> (r: Option<String>)
    ensures
        (match r {
            Some(s) => spec_ident_at(toks@, i as int) == Some(s@) && i < toks@.len(),
            None => spec_ident_at(toks@, i as int) is None,
        }),
        toks@.len() <= usize::MAX,
{
    if i < toks.len() {
        match &toks[i].kind {
            TokenKind::Ident(s) => Some(s.clone()),
            _ => None,
        }
    } else {
        None
    }
}

/// The string literal at `i`, if the token there is one.
fn str_at(toks: &Vec<Token>, i: usize) -> (r: Option<String>)
    ensures
        (match r {
            Some(s) => spec_str_at(toks@, i as int) == Some(s@) && i < toks@.len(),
            None => spec_str_at(toks@, i as int) is None,
        }),
        toks@.len() <= usize::MAX,
{
    if i < toks.len() {
        match &toks[i].kind {
            TokenKind::Str(s) => Some(s.clone()),
            _ => None,
        }
    } else {
        None
    }
}

/// The contents of the brace-delimited group at `i`, if one is there.
fn braced_at(toks: &Vec<Token>, i: usize) -> (r: Option<String>)
    ensures
        (match r {
            Some(c) => spec_is_braced(toks@, i as int) && c@ == spec_braced_at(toks@, i as int)
                && i < toks@.len(),
            None => !spec_is_braced(toks@, i as int),
        }),
        toks@.len() <= usize::MAX,
{
    if i < toks.len() {
        match &toks[i].kind {
            TokenKind::Braced(c) => Some(c.clone()),
            _ => None,
        }
    } else {
        None
    }
}

/// Whether the next token opens a brace-delimited group: a non-consuming
/// lookahead, never a failure.
pub fn is_braced(toks: &Vec<Token>, i: usize) -> (r: bool)
    ensures
        r == spec_is_braced(toks@, i as int),
        toks@.len() <= usize::MAX,
{
    if i < toks.len() {
        match &toks[i].kind {
            TokenKind::Braced(_) => true,
            _ => false,
        }
    } else {
        false
    }
}

/// Consumes one brace-delimited group whose contents are exactly one host
/// expression, and returns that expression verbatim with the index after the
/// group.
pub fn parse_braced_expr(toks: &Vec<Token>, i: usize) -> (r: Result<(String, usize), SyntaxError>)
    ensures
        (match r {
            Ok((x, j)) => i < j <= toks@.len() && spec_parse_braced_expr(toks@, i as int)
                == Ok::<_, SpecError>((x@, j as int)),
            Err(e) => spec_parse_braced_expr(toks@, i as int) == Err::<(Seq<char>, int), _>(e@),
        }),
{
    match braced_at(toks, i) {
        Some(c) => if check_expr(c.as_str()) {
            Ok((c, i + 1))
        } else {
            Err(SyntaxError { kind: ErrorKind::ExpectedExpression, pos: pos_at(toks, i) })
        },
        None => Err(SyntaxError { kind: ErrorKind::ExpectedBraces, pos: pos_at(toks, i) }),
    }
}

impl Event {
    /// Parses `@name={ expr }` at `i`.
    pub fn parse(toks: &Vec<Token>, i: usize) -> (r: Result<(Event, usize), SyntaxError>)
        ensures
            (match r {
                Ok((ev, j)) => i < j <= toks@.len() && spec_parse_event(toks@, i as int)
                    == Ok::<_, SpecError>((ev@, j as int)),
                Err(e) => spec_parse_event(toks@, i as int) == Err::<(SpecEvent, int), _>(e@),
            }),
    {
        if !is_punct_at(toks, i, Punct::At) {
            return Err(
                SyntaxError { kind: ErrorKind::ExpectedPunct(Punct::At), pos: pos_at(toks, i) },
            );
        }
        match ident_at(toks, i + 1) {
            None => Err(SyntaxError { kind: ErrorKind::ExpectedIdent, pos: pos_at(toks, i + 1) }),
            Some(name) => {
                if !is_punct_at(toks, i + 2, Punct::Eq) {
                    return Err(
                        SyntaxError {
                            kind: ErrorKind::ExpectedPunct(Punct::Eq),
                            pos: pos_at(toks, i + 2),
                        },
                    );
                }
                match parse_braced_expr(toks, i + 3) {
                    Ok((x, j)) => Ok((Event { name, expr: x }, j)),
                    Err(e) => Err(e),
                }
            },
        }
    }
}

impl Child {
    /// Parses one child at `i`: a string literal, a nested element, or a
    /// braced expression, in that order of trial.
    pub fn parse(toks: &Vec<Token>, i: usize) -> (r: Result<(Child, usize), SyntaxError>)
        ensures
            (match r {
                Ok((c, j)) => i < j <= toks@.len() && spec_parse_child(toks@, i as int)
                    == Ok::<_, SpecError>((c@, j as int)),
                Err(e) => spec_parse_child(toks@, i as int) == Err::<(SpecChild, int), _>(e@),
            }),
        decreases toks@.len() - i, 1int,
    {
        match str_at(toks, i) {
            Some(s) => Ok((Child::Text(s), i + 1)),
            None => if is_punct_at(toks, i, Punct::Lt) {
                match Element::parse(toks, i) {
                    Ok((el, j)) => Ok((Child::Element(el), j)),
                    Err(e) => Err(e),
                }
            } else if is_braced(toks, i) {
                match parse_braced_expr(toks, i) {
                    Ok((x, j)) => Ok((Child::Expr(x), j)),
                    Err(e) => Err(e),
                }
            } else {
                Err(
                    SyntaxError {
                        kind: ErrorKind::ExpectedStringElementOrExpr,
                        pos: pos_at(toks, i),
                    },
                )
            },
        }
    }
}

impl Attribute {
    /// Parses `name = (STR | Element | BRACED)` at `i`.
    pub fn parse(toks: &Vec<Token>, i: usize) -> (r: Result<(Attribute, usize), SyntaxError>)
        ensures
            (match r {
                Ok((a, j)) => i < j <= toks@.len() && spec_parse_attribute(toks@, i as int)
                    == Ok::<_, SpecError>((a@, j as int)),
                Err(e) => spec_parse_attribute(toks@, i as int) == Err::<(SpecAttribute, int), _>(
                    e@,
                ),
            }),
        decreases toks@.len() - i, 1int,
    {
        match ident_at(toks, i) {
            None => Err(SyntaxError { kind: ErrorKind::ExpectedIdent, pos: pos_at(toks, i) }),
            Some(name) => {
                if !is_punct_at(toks, i + 1, Punct::Eq) {
                    return Err(
                        SyntaxError {
                            kind: ErrorKind::ExpectedPunct(Punct::Eq),
                            pos: pos_at(toks, i + 1),
                        },
                    );
                }
                match str_at(toks, i + 2) {
                    Some(s) => Ok((Attribute { name, value: AttributeValue::Str(s) }, i + 3)),
                    None => if is_punct_at(toks, i + 2, Punct::Lt) {
                        match Element::parse(toks, i + 2) {
                            Ok((el, j)) => Ok(
                                (Attribute { name, value: AttributeValue::Element(el) }, j),
                            ),
                            Err(e) => Err(e),
                        }
                    } else if is_braced(toks, i + 2) {
                        match parse_braced_expr(toks, i + 2) {
                            Ok((x, j)) => Ok(
                                (Attribute { name, value: AttributeValue::Expr(x) }, j),
                            ),
                            Err(e) => Err(e),
                        }
                    } else {
                        Err(
                            SyntaxError {
                                kind: ErrorKind::ExpectedStringElementOrExpr,
                                pos: pos_at(toks, i + 2),
                            },
                        )
                    },
                }
            },
        }
    }
}

impl Element {
    /// Parses one whole element at `i` and returns it with the index just
    /// after its closing `>`.
    pub fn parse(toks: &Vec<Token>, i: usize) -> (r: Result<(Element, usize), SyntaxError>)
        ensures
            (match r {
                Ok((el, j)) => i < j <= toks@.len() && spec_parse_element(toks@, i as int)
                    == Ok::<_, SpecError>((el@, j as int)),
                Err(e) => spec_parse_element(toks@, i as int) == Err::<(SpecElement, int), _>(e@),
            }),
        decreases toks@.len() - i, 0int,
    {
        // Opening tag
        if !is_punct_at(toks, i, Punct::Lt) {
            return Err(
                SyntaxError { kind: ErrorKind::ExpectedPunct(Punct::Lt), pos: pos_at(toks, i) },
            );
        }
        let name: String = match ident_at(toks, i + 1) {
            None => {
                return Err(
                    SyntaxError { kind: ErrorKind::ExpectedIdent, pos: pos_at(toks, i + 1) },
                );
            },
            Some(name) => name,
        };

        // Events and attributes
        let mut attributes: Vec<Attribute> = Vec::new();
        let mut events: Vec<Event> = Vec::new();
        let mut j: usize = i + 2;
        proof {
            assert(attributes_view(attributes@) =~= Seq::<SpecAttribute>::empty());
            assert(events_view(events@) =~= Seq::<SpecEvent>::empty());
        }
        while !is_punct_at(toks, j, Punct::Slash) && !is_punct_at(toks, j, Punct::Gt)
            invariant
                i + 2 <= j <= toks@.len(),
                spec_is_punct(toks@, i as int, Punct::Lt),
                spec_ident_at(toks@, i as int + 1) == Some(name@),
                spec_parse_attrs(toks@, i as int + 2, Seq::empty(), Seq::empty())
                    == spec_parse_attrs(
                    toks@,
                    j as int,
                    attributes_view(attributes@),
                    events_view(events@),
                ),
            decreases toks@.len() - j,
        {
            if is_punct_at(toks, j, Punct::At) {
                match Event::parse(toks, j) {
                    Ok((ev, j2)) => {
                        proof {
                            assert(events_view(events@.push(ev)) =~= events_view(events@).push(
                                ev@,
                            ));
                        }
                        events.push(ev);
                        j = j2;
                    },
                    Err(e) => {
                        return Err(e);
                    },
                }
            } else if is_ident_at(toks, j) {
                match Attribute::parse(toks, j) {
                    Ok((a, j2)) => {
                        proof {
                            assert(attributes_view(attributes@.push(a)) =~= attributes_view(
                                attributes@,
                            ).push(a@));
                        }
                        attributes.push(a);
                        j = j2;
                    },
                    Err(e) => {
                        return Err(e);
                    },
                }
            } else {
                return Err(
                    SyntaxError { kind: ErrorKind::ExpectedAttributeOrEvent, pos: pos_at(toks, j) },
                );
            }
        }

        // Self-closing element
        if is_punct_at(toks, j, Punct::Slash) {
            if is_punct_at(toks, j + 1, Punct::Gt) {
                let el = Element { name, attributes, events, children: Vec::new() };
                proof {
                    assert(children_view(el.children@) =~= Seq::<SpecChild>::empty());
                }
                return Ok((el, j + 2));
            } else {
                return Err(
                    SyntaxError {
                        kind: ErrorKind::ExpectedPunct(Punct::Gt),
                        pos: pos_at(toks, j + 1),
                    },
                );
            }
        }
        if !is_punct_at(toks, j, Punct::Gt) {
            return Err(
                SyntaxError { kind: ErrorKind::ExpectedPunct(Punct::Gt), pos: pos_at(toks, j) },
            );
        }

        // Children
        let mut children: Vec<Child> = Vec::new();
        let mut m: usize = j + 1;
        proof {
            assert(children_view(children@) =~= Seq::<SpecChild>::empty());
        }
        loop
            invariant
                i + 2 <= j,
                j + 1 <= m <= toks@.len(),
                spec_is_punct(toks@, i as int, Punct::Lt),
                spec_ident_at(toks@, i as int + 1) == Some(name@),
                spec_parse_attrs(toks@, i as int + 2, Seq::empty(), Seq::empty())
                    == Ok::<_, SpecError>(
                    (attributes_view(attributes@), events_view(events@), j as int),
                ),
                spec_is_punct(toks@, j as int, Punct::Gt),
                spec_parse_children(toks@, j as int + 1, Seq::empty()) == spec_parse_children(
                    toks@,
                    m as int,
                    children_view(children@),
                ),
            ensures
                spec_is_punct(toks@, m as int, Punct::Lt),
                spec_is_punct(toks@, m as int + 1, Punct::Slash),
            decreases toks@.len() - m,
        {
            if is_punct_at(toks, m, Punct::Lt) {
                if is_punct_at(toks, m + 1, Punct::Slash) {
                    break;
                }
            }
            match Child::parse(toks, m) {
                Ok((c, m2)) => {
                    proof {
                        assert(children_view(children@.push(c)) =~= children_view(children@).push(
                            c@,
                        ));
                    }
                    children.push(c);
                    m = m2;
                },
                Err(e) => {
                    return Err(e);
                },
            }
        }

        // Closing tag
        match ident_at(toks, m + 2) {
            None => Err(SyntaxError { kind: ErrorKind::ExpectedIdent, pos: pos_at(toks, m + 2) }),
            Some(closing) => {
                if !(closing == name) {
                    return Err(
                        SyntaxError {
                            kind: ErrorKind::MismatchedClosingTag(name),
                            pos: pos_at(toks, m + 2),
                        },
                    );
                }
                if !is_punct_at(toks, m + 3, Punct::Gt) {
                    return Err(
                        SyntaxError {
                            kind: ErrorKind::ExpectedPunct(Punct::Gt),
                            pos: pos_at(toks, m + 3),
                        },
                    );
                }
                Ok((Element { name, attributes, events, children }, m + 4))
            },
        }
    }
}

} // verus!
