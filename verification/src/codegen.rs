//! Code generation: the structural, deterministic lowering from the AST to a
//! source fragment of the host language.
//!
//! Every element lowers to one block that binds the node just constructed to
//! a local `el`, appends each lowered child through the value-to-node
//! conversion, attaches each event listener to that same binding, and yields
//! the node:
//!
//! ```text
//! { let el = element("name", &[("attr", value), ...]);
//!   el.append_children(child.into_nodes()); ...
//!   el.add_event_listener("event", handler); ...
//!   el }
//! ```
//!
//! An expression child is lowered verbatim and converted at append time: the
//! generator's expression-child mode is [`ExprChildMode::Snapshot`], a
//! one-shot snapshot of the expression's value at render time, not a live
//! binding that re-renders on change.
//!
//! Lowering is total over the AST and has no state: its whole output is given
//! by the `spec_gen_*` functions, which depend on the AST value alone, and
//! each executable `gen` is proved to return exactly that.

use vstd::prelude::*;
use vstd::string::StringExecFns;

use crate::ast::{Attribute, AttributeValue, Child, Element, Event};
use crate::ast::{SpecAttribute, SpecAttributeValue, SpecChild, SpecElement, SpecEvent};

verus! {

/// The lowering of one whole element.
pub open spec fn spec_gen_element(e: SpecElement) -> Seq<char>
    decreases e,
{
    "{ let el = element(\""@ + e.name + "\", &["@ + spec_gen_attrs(e.attributes) + "]); "@
        + spec_gen_appends(e.children) + spec_gen_events(e.events) + "el }"@
}

/// The comma-separated attribute pairs inside `&[...]`.
pub open spec fn spec_gen_attrs(s: Seq<SpecAttribute>) -> Seq<char>
    decreases s,
{
    if s.len() == 0 {
        Seq::empty()
    } else if s.len() == 1 {
        spec_gen_attribute(s[0])
    } else {
        spec_gen_attribute(s[0]) + ", "@ + spec_gen_attrs(s.drop_first())
    }
}

/// One attribute pair `("name", value)`.
pub open spec fn spec_gen_attribute(a: SpecAttribute) -> Seq<char>
    decreases a,
{
    "(\""@ + a.name + "\", "@ + spec_gen_value(a.value) + ")"@
}

/// An attribute value: the quoted literal, the lowered nested element, or the
/// expression verbatim.
pub open spec fn spec_gen_value(v: SpecAttributeValue) -> Seq<char>
    decreases v,
{
    match v {
        SpecAttributeValue::Str(t) => "\""@ + t + "\""@,
        SpecAttributeValue::Element(el) => spec_gen_element(el),
        SpecAttributeValue::Expr(x) => x,
    }
}

/// One `el.append_children(...)` statement per child, in document order.
pub open spec fn spec_gen_appends(cs: Seq<SpecChild>) -> Seq<char>
    decreases cs,
{
    if cs.len() == 0 {
        Seq::empty()
    } else {
        "el.append_children("@ + spec_gen_child(cs[0]) + ".into_nodes()); "@ + spec_gen_appends(
            cs.drop_first(),
        )
    }
}

/// One child: a text node constructor, a lowered nested element, or the
/// expression verbatim.
pub open spec fn spec_gen_child(c: SpecChild) -> Seq<char>
    decreases c,
{
    match c {
        SpecChild::Text(t) => "text(\""@ + t + "\")"@,
        SpecChild::Element(el) => spec_gen_element(el),
        SpecChild::Expr(x) => x,
    }
}

/// One `el.add_event_listener(...)` statement per event, in source order.
pub open spec fn spec_gen_events(es: Seq<SpecEvent>) -> Seq<char>
    decreases es,
{
    if es.len() == 0 {
        Seq::empty()
    } else {
        spec_gen_event(es[0]) + spec_gen_events(es.drop_first())
    }
}

/// One event statement, against the enclosing element's `el` binding.
pub open spec fn spec_gen_event(ev: SpecEvent) -> Seq<char> {
    "el.add_event_listener(\""@ + ev.name + "\", "@ + ev.expr + "); "@
}

/// Lowering the attribute list one item further extends its join by a comma
/// separator, except for the first item.
proof fn lemma_gen_attrs_push(s: Seq<SpecAttribute>, a: SpecAttribute)
    ensures
        spec_gen_attrs(s.push(a)) == if s.len() == 0 {
            spec_gen_attribute(a)
        } else {
            spec_gen_attrs(s) + ", "@ + spec_gen_attribute(a)
        },
    decreases s.len(),
{
    if s.len() == 0 {
        assert(s.push(a).len() == 1);
        assert(s.push(a)[0] == a);
    } else {
        assert(s.push(a).drop_first() =~= s.drop_first().push(a));
        lemma_gen_attrs_push(s.drop_first(), a);
        assert(s.push(a)[0] == s[0]);
        if s.len() == 1 {
            assert(s.drop_first().len() == 0);
        }
    }
}

/// Lowering the child list one item further appends one more statement.
proof fn lemma_gen_appends_push(cs: Seq<SpecChild>, c: SpecChild)
    ensures
        spec_gen_appends(cs.push(c)) == spec_gen_appends(cs) + ("el.append_children("@
            + spec_gen_child(c) + ".into_nodes()); "@),
    decreases cs.len(),
{
    if cs.len() == 0 {
        reveal_with_fuel(spec_gen_appends, 2);
        assert(cs =~= Seq::<SpecChild>::empty());
        assert(cs.push(c)[0] == c);
        assert(cs.push(c).drop_first() =~= Seq::<SpecChild>::empty());
        assert(spec_gen_appends(cs) =~= Seq::<char>::empty());
        assert(spec_gen_appends(cs.push(c)) =~= spec_gen_appends(cs) + ("el.append_children("@
            + spec_gen_child(c) + ".into_nodes()); "@));
    } else {
        assert(cs.push(c).drop_first() =~= cs.drop_first().push(c));
        lemma_gen_appends_push(cs.drop_first(), c);
        assert(cs.push(c)[0] == cs[0]);
        assert(spec_gen_appends(cs.push(c)) =~= spec_gen_appends(cs) + ("el.append_children("@
            + spec_gen_child(c) + ".into_nodes()); "@));
    }
}

/// Lowering the event list one item further appends one more statement.
proof fn lemma_gen_events_push(es: Seq<SpecEvent>, ev: SpecEvent)
    ensures
        spec_gen_events(es.push(ev)) == spec_gen_events(es) + spec_gen_event(ev),
    decreases es.len(),
{
    if es.len() == 0 {
        reveal_with_fuel(spec_gen_events, 2);
        assert(es =~= Seq::<SpecEvent>::empty());
        assert(es.push(ev)[0] == ev);
        assert(es.push(ev).drop_first() =~= Seq::<SpecEvent>::empty());
        assert(spec_gen_events(es.push(ev)) =~= spec_gen_events(es) + spec_gen_event(ev));
    } else {
        assert(es.push(ev).drop_first() =~= es.drop_first().push(ev));
        lemma_gen_events_push(es.drop_first(), ev);
        assert(es.push(ev)[0] == es[0]);
        assert(spec_gen_events(es.push(ev)) =~= spec_gen_events(es) + spec_gen_event(ev));
    }
}

/// How the lowering wires an expression child at runtime.
#[derive(Clone, Copy, Debug, PartialEq, Eq, Structural)]
pub enum ExprChildMode {
    /// The expression is evaluated and converted to nodes once, at render
    /// time; changes to a reactive value it reads do not re-render the child.
    Snapshot,
}

/// The one expression-child mode this code generator implements: every
/// `spec_gen_child` of an expression is the expression verbatim, appended
/// through the value-to-node conversion, with no re-subscription.
pub fn expr_child_mode() -> (r: ExprChildMode)
    ensures
        r == ExprChildMode::Snapshot,
{
    ExprChildMode::Snapshot
}

/// Lowering to host source: `gen` emits the fragment that `gen_spec` states,
/// a pure function of the AST value.
pub trait Codegen {
    /// What the lowering of this node is.
    spec fn gen_spec(&self) -> Seq<char>;

    /// Emits the lowering of this node.
    fn gen(&self) -> (r: String)
        ensures
            r@ == self.gen_spec(),
    ;
}

impl Codegen for Element {
    open spec fn gen_spec(&self) -> Seq<char> {
        spec_gen_element(self@)
    }

    fn gen(&self) -> (r: String)
        decreases *self,
    {
        let mut out = String::from_str("{ let el = element(\"");
        out.append(self.name.as_str());
        out.append("\", &[");
        proof {
            assert(self@.attributes.take(0) =~= Seq::<SpecAttribute>::empty());
            assert(out@ =~= "{ let el = element(\""@ + self@.name + "\", &["@ + spec_gen_attrs(
                self@.attributes.take(0),
            ));
        }
        let mut k: usize = 0;
        while k < self.attributes.len()
            invariant
                k <= self.attributes@.len(),
                self@.attributes.len() == self.attributes@.len(),
                forall|t: int|
                    0 <= t < self.attributes@.len() ==> self@.attributes[t] == self.attributes@[t]@,
                out@ == "{ let el = element(\""@ + self@.name + "\", &["@ + spec_gen_attrs(
                    self@.attributes.take(k as int),
                ),
            decreases self.attributes@.len() - k,
        {
            let piece = self.attributes[k].gen();
            if k > 0 {
                out.append(", ");
            }
            out.append(piece.as_str());
            proof {
                assert(self@.attributes.take(k as int + 1) =~= self@.attributes.take(
                    k as int,
                ).push(self@.attributes[k as int]));
                lemma_gen_attrs_push(self@.attributes.take(k as int), self@.attributes[k as int]);
            }
            k = k + 1;
        }
        out.append("]); ");
        proof {
            assert(self@.attributes.take(self.attributes@.len() as int) =~= self@.attributes);
            assert(self@.children.take(0) =~= Seq::<SpecChild>::empty());
            assert(out@ =~= "{ let el = element(\""@ + self@.name + "\", &["@ + spec_gen_attrs(
                self@.attributes,
            ) + "]); "@ + spec_gen_appends(self@.children.take(0)));
        }
        let mut c: usize = 0;
        while c < self.children.len()
            invariant
                c <= self.children@.len(),
                self@.children.len() == self.children@.len(),
                forall|t: int|
                    0 <= t < self.children@.len() ==> self@.children[t] == self.children@[t]@,
                out@ == "{ let el = element(\""@ + self@.name + "\", &["@ + spec_gen_attrs(
                    self@.attributes,
                ) + "]); "@ + spec_gen_appends(self@.children.take(c as int)),
            decreases self.children@.len() - c,
        {
            let piece = self.children[c].gen();
            out.append("el.append_children(");
            out.append(piece.as_str());
            out.append(".into_nodes()); ");
            proof {
                assert(self@.children.take(c as int + 1) =~= self@.children.take(c as int).push(
                    self@.children[c as int],
                ));
                lemma_gen_appends_push(self@.children.take(c as int), self@.children[c as int]);
            }
            c = c + 1;
        }
        proof {
            assert(self@.children.take(self.children@.len() as int) =~= self@.children);
            assert(self@.events.take(0) =~= Seq::<SpecEvent>::empty());
            assert(out@ =~= "{ let el = element(\""@ + self@.name + "\", &["@ + spec_gen_attrs(
                self@.attributes,
            ) + "]); "@ + spec_gen_appends(self@.children) + spec_gen_events(self@.events.take(0)));
        }
        let mut v: usize = 0;
        while v < self.events.len()
            invariant
                v <= self.events@.len(),
                self@.events.len() == self.events@.len(),
                forall|t: int| 0 <= t < self.events@.len() ==> self@.events[t] == self.events@[t]@,
                out@ == "{ let el = element(\""@ + self@.name + "\", &["@ + spec_gen_attrs(
                    self@.attributes,
                ) + "]); "@ + spec_gen_appends(self@.children) + spec_gen_events(
                    self@.events.take(v as int),
                ),
            decreases self.events@.len() - v,
        {
            let piece = self.events[v].gen();
            out.append(piece.as_str());
            proof {
                assert(self@.events.take(v as int + 1) =~= self@.events.take(v as int).push(
                    self@.events[v as int],
                ));
                lemma_gen_events_push(self@.events.take(v as int), self@.events[v as int]);
            }
            v = v + 1;
        }
        out.append("el }");
        proof {
            assert(self@.events.take(self.events@.len() as int) =~= self@.events);
            assert(out@ =~= spec_gen_element(self@));
        }
        out
    }
}

impl Codegen for Child {
    open spec fn gen_spec(&self) -> Seq<char> {
        spec_gen_child(self@)
    }

    fn gen(&self) -> (r: String)
        decreases *self,
    {
        match self {
            Child::Text(t) => {
                let mut out = String::from_str("text(\"");
                out.append(t.as_str());
                out.append("\")");
                out
            },
            Child::Element(el) => el.gen(),
            Child::Expr(x) => x.clone(),
        }
    }
}

impl Codegen for Attribute {
    open spec fn gen_spec(&self) -> Seq<char> {
        spec_gen_attribute(self@)
    }

    fn gen(&self) -> (r: String)
        decreases *self,
    {
        let mut out = String::from_str("(\"");
        out.append(self.name.as_str());
        out.append("\", ");
        let piece = self.value.gen();
        out.append(piece.as_str());
        out.append(")");
        out
    }
}

impl Codegen for AttributeValue {
    open spec fn gen_spec(&self) -> Seq<char> {
        spec_gen_value(self@)
    }

    fn gen(&self) -> (r: String)
        decreases *self,
    {
        match self {
            AttributeValue::Str(t) => {
                let mut out = String::from_str("\"");
                out.append(t.as_str());
                out.append("\"");
                out
            },
            AttributeValue::Element(el) => el.gen(),
            AttributeValue::Expr(x) => x.clone(),
        }
    }
}

impl Codegen for Event {
    open spec fn gen_spec(&self) -> Seq<char> {
        spec_gen_event(self@)
    }

    fn gen(&self) -> (r: String) {
        let mut out = String::from_str("el.add_event_listener(\"");
        out.append(self.name.as_str());
        out.append("\", ");
        out.append(self.expr.as_str());
        out.append("); ");
        out
    }
}

} // verus!
