//! A compiler for a small markup-like template language: a recursive-descent
//! parser from a token stream to an AST, and a deterministic code generator
//! that lowers the AST to equivalent host-language construction code against
//! a small runtime contract (`element`, `text`, `append_children`,
//! `add_event_listener`, `into_nodes`).
//!
//! The one entry point is [`html`]: the whole token stream must parse as one
//! element, which is then lowered. All failure surfaces at parse time as a
//! [`SyntaxError`] with the position of the offending token; lowering is
//! total over parsed ASTs.
//!
//! The crate also holds the verified decision cores of the runtime's two
//! simple collaborators: the reactive value container ([`Reactive`]) and the
//! batched task queue ([`TaskQueue`]).

use vstd::prelude::*;

mod ast;
mod codegen;
mod parser;
mod reactive;
mod task_queue;
mod token;

pub use ast::{Element, Child, Attribute, AttributeValue, Event};
pub use ast::{SpecElement, SpecChild, SpecAttribute, SpecAttributeValue, SpecEvent};
pub use ast::{attributes_view, children_view, events_view};
pub use ast::{attribute_view, attribute_value_view, child_view, element_view, event_view};
pub use codegen::{Codegen, ExprChildMode, expr_child_mode, spec_gen_element, spec_gen_attrs, spec_gen_attribute, spec_gen_value,
    spec_gen_appends, spec_gen_child, spec_gen_events, spec_gen_event};
pub use parser::{spec_parse_element, spec_parse_attrs, spec_parse_children, spec_parse_child,
    spec_parse_attribute, spec_parse_event, spec_parse_braced_expr, is_expr, is_braced,
    parse_braced_expr, spec_is_punct, spec_ident_at, spec_str_at, spec_is_braced, spec_braced_at,
    spec_err};
pub use reactive::Reactive;
pub use task_queue::TaskQueue;
pub use token::{Token, TokenKind, Punct, SyntaxError, ErrorKind, SpecError, SpecErrorKind,
    pos_at, spec_pos_at, error_kind_view};

verus! {

/// The compilation of one whole template: the token stream parsed as exactly
/// one element — trailing tokens are an error at the first extra token — and
/// that element's lowering.
pub open spec fn spec_html(toks: Seq<Token>) -> Result<Seq<char>, SpecError> {
    match spec_parse_element(toks, 0) {
        Err(e) => Err(e),
        Ok((el, j)) => if j == toks.len() {
            Ok(spec_gen_element(el))
        } else {
            Err(SpecError { kind: SpecErrorKind::UnexpectedToken, pos: spec_pos_at(toks, j) })
        },
    }
}

/// Compiles one template occurrence: parses the whole token stream as one
/// element and lowers it to the host-language fragment that builds the
/// equivalent node tree.
pub fn html(toks: &Vec<Token>) -> (r: Result<String, SyntaxError>)
    ensures
        (match r {
            Ok(out) => spec_html(toks@) == Ok::<_, SpecError>(out@),
            Err(e) => spec_html(toks@) == Err::<Seq<char>, _>(e@),
        }),
{
    match Element::parse(toks, 0) {
        Err(e) => Err(e),
        Ok((el, j)) => if j == toks.len() {
            Ok(el.gen())
        } else {
            Err(SyntaxError { kind: ErrorKind::UnexpectedToken, pos: pos_at(toks, j) })
        },
    }
}

/// Compilation is deterministic, and total on well-formed templates: equal
/// token streams always yield the same parse and the same compilation, and a
/// stream that parses as one element consuming all input always lowers
/// successfully, to exactly the lowering of its AST.
pub proof fn lemma_compile_deterministic_and_total(t1: Seq<Token>, t2: Seq<Token>)
    requires
        t1 == t2,
    ensures
        spec_parse_element(t1, 0) == spec_parse_element(t2, 0),
        spec_html(t1) == spec_html(t2),
        forall|e: SpecElement, j: int|
            spec_parse_element(t1, 0) == Ok::<_, SpecError>((e, j)) && j == t1.len()
                ==> spec_html(t1) == Ok::<_, SpecError>(spec_gen_element(e)),
{
}

/// Lowering has no hidden state: the emitted fragment is a function of the
/// AST alone, so lowering equal ASTs — or the same AST twice — yields
/// identical output.
pub proof fn lemma_lowering_deterministic(a: SpecElement, b: SpecElement)
    requires
        a == b,
    ensures
        spec_gen_element(a) == spec_gen_element(b),
{
}

/// A self-closing tag `< name / >` parses to an element with an empty child
/// list, the same element that the open-close form `< name > < / name >`
/// yields, whatever the tag name and the token positions.
pub proof fn lemma_self_closing_equivalent(
    t_self: Seq<Token>,
    t_open: Seq<Token>,
    name: Seq<char>,
)
    requires
        t_self.len() == 4,
        t_self[0].kind == TokenKind::Punct(Punct::Lt),
        spec_ident_at(t_self, 1) == Some(name),
        t_self[2].kind == TokenKind::Punct(Punct::Slash),
        t_self[3].kind == TokenKind::Punct(Punct::Gt),
        t_open.len() == 7,
        t_open[0].kind == TokenKind::Punct(Punct::Lt),
        spec_ident_at(t_open, 1) == Some(name),
        t_open[2].kind == TokenKind::Punct(Punct::Gt),
        t_open[3].kind == TokenKind::Punct(Punct::Lt),
        t_open[4].kind == TokenKind::Punct(Punct::Slash),
        spec_ident_at(t_open, 5) == Some(name),
        t_open[6].kind == TokenKind::Punct(Punct::Gt),
    ensures
        spec_parse_element(t_self, 0) == Ok::<_, SpecError>(
            (
                SpecElement {
                    name,
                    attributes: Seq::empty(),
                    events: Seq::empty(),
                    children: Seq::empty(),
                },
                4int,
            ),
        ),
        spec_parse_element(t_open, 0) == Ok::<_, SpecError>(
            (
                SpecElement {
                    name,
                    attributes: Seq::empty(),
                    events: Seq::empty(),
                    children: Seq::empty(),
                },
                7int,
            ),
        ),
{
    assert(spec_parse_attrs(t_self, 2, Seq::empty(), Seq::empty()) == Ok::<_, SpecError>(
        (Seq::<SpecAttribute>::empty(), Seq::<SpecEvent>::empty(), 2int),
    ));
    assert(spec_parse_attrs(t_open, 2, Seq::empty(), Seq::empty()) == Ok::<_, SpecError>(
        (Seq::<SpecAttribute>::empty(), Seq::<SpecEvent>::empty(), 2int),
    ));
    assert(spec_parse_children(t_open, 3, Seq::empty()) == Ok::<_, SpecError>(
        (Seq::<SpecChild>::empty(), 3int),
    ));
}

/// A closing tag whose name differs from the opening one is a fatal error:
/// it names the opening tag as expected and is positioned at the closing
/// identifier, whatever the two names and the token positions.
pub proof fn lemma_mismatched_closing_tag(toks: Seq<Token>, opening: Seq<char>, closing: Seq<char>)
    requires
        toks.len() == 7,
        toks[0].kind == TokenKind::Punct(Punct::Lt),
        spec_ident_at(toks, 1) == Some(opening),
        toks[2].kind == TokenKind::Punct(Punct::Gt),
        toks[3].kind == TokenKind::Punct(Punct::Lt),
        toks[4].kind == TokenKind::Punct(Punct::Slash),
        spec_ident_at(toks, 5) == Some(closing),
        toks[6].kind == TokenKind::Punct(Punct::Gt),
        closing != opening,
    ensures
        spec_parse_element(toks, 0) == Err::<(SpecElement, int), _>(
            SpecError {
                kind: SpecErrorKind::MismatchedClosingTag(opening),
                pos: toks[5].pos as int,
            },
        ),
        spec_html(toks) == Err::<Seq<char>, _>(
            SpecError {
                kind: SpecErrorKind::MismatchedClosingTag(opening),
                pos: toks[5].pos as int,
            },
        ),
{
    assert(spec_parse_attrs(toks, 2, Seq::empty(), Seq::empty()) == Ok::<_, SpecError>(
        (Seq::<SpecAttribute>::empty(), Seq::<SpecEvent>::empty(), 2int),
    ));
    assert(spec_parse_children(toks, 3, Seq::empty()) == Ok::<_, SpecError>(
        (Seq::<SpecChild>::empty(), 3int),
    ));
}

/// An attribute `name = "value"` parses to `Attribute { name, Str(value) }`,
/// wherever it stands in a token stream.
pub proof fn lemma_attribute_parses(toks: Seq<Token>, name: Seq<char>, value: Seq<char>, i: int)
    requires
        spec_ident_at(toks, i) == Some(name),
        spec_is_punct(toks, i + 1, Punct::Eq),
        spec_str_at(toks, i + 2) == Some(value),
    ensures
        spec_parse_attribute(toks, i) == Ok::<_, SpecError>(
            (SpecAttribute { name, value: SpecAttributeValue::Str(value) }, i + 3),
        ),
{
}

/// An event `@name={ expr }` whose braced group holds exactly one expression
/// parses to `Event { name, expr }`, and that event lowers to an
/// `add_event_listener` call with the quoted name and the verbatim handler,
/// against the enclosing element's `el` binding.
pub proof fn lemma_event_parses_and_lowers(
    toks: Seq<Token>,
    name: Seq<char>,
    expr: Seq<char>,
    i: int,
)
    requires
        spec_is_punct(toks, i, Punct::At),
        spec_ident_at(toks, i + 1) == Some(name),
        spec_is_punct(toks, i + 2, Punct::Eq),
        spec_is_braced(toks, i + 3),
        spec_braced_at(toks, i + 3) == expr,
        is_expr(expr),
    ensures
        spec_parse_event(toks, i) == Ok::<_, SpecError>((SpecEvent { name, expr }, i + 4)),
        spec_gen_event(SpecEvent { name, expr }) == "el.add_event_listener(\""@ + name + "\", "@
            + expr + "); "@,
{
}

/// A braced child whose contents are not exactly one expression — empty, or
/// with trailing tokens — fails where it stands, at the group's position.
pub proof fn lemma_bad_expression_child_fails(toks: Seq<Token>, i: int)
    requires
        spec_is_braced(toks, i),
        !is_expr(spec_braced_at(toks, i)),
    ensures
        spec_parse_child(toks, i) == Err::<(SpecChild, int), _>(
            SpecError { kind: SpecErrorKind::ExpectedExpression, pos: toks[i].pos as int },
        ),
{
}

} // verus!
