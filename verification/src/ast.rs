//! The abstract syntax tree of a template: plain, owned, tree-shaped data
//! built once by the parser and consumed once by the code generator.
//!
//! Each executable type has a ghost model (`Spec*`) over `Seq`, and a view
//! mapping onto it; contracts speak of the models.

use vstd::prelude::*;

verus! {

/// One markup tag, open or self-closing: its name, its attributes and event
/// bindings in source order, and its children in document order. A
/// self-closing tag has an empty `children` sequence.
#[derive(Debug, PartialEq, Eq)]
pub struct Element {
    pub name: String,
    pub attributes: Vec<Attribute>,
    pub events: Vec<Event>,
    pub children: Vec<Child>,
}

/// One entry of an element's child list.
#[derive(Debug, PartialEq, Eq)]
pub enum Child {
    /// A string literal child (its cooked contents).
    Text(String),
    /// A nested element.
    Element(Element),
    /// A brace-delimited host expression, captured verbatim.
    Expr(String),
}

/// One `name=value` pair on an opening tag.
#[derive(Debug, PartialEq, Eq)]
pub struct Attribute {
    pub name: String,
    pub value: AttributeValue,
}

/// An attribute's value: a string literal, a nested element, or a
/// brace-delimited host expression captured verbatim.
#[derive(Debug, PartialEq, Eq)]
pub enum AttributeValue {
    Str(String),
    Element(Element),
    Expr(String),
}

/// An `@name={ expr }` event binding: the event name and the handler
/// expression, captured verbatim.
#[derive(Debug, PartialEq, Eq)]
pub struct Event {
    pub name: String,
    pub expr: String,
}

/// Ghost model of `Element`.
pub struct SpecElement {
    pub name: Seq<char>,
    pub attributes: Seq<SpecAttribute>,
    pub events: Seq<SpecEvent>,
    pub children: Seq<SpecChild>,
}

/// Ghost model of `Child`.
pub enum SpecChild {
    Text(Seq<char>),
    Element(SpecElement),
    Expr(Seq<char>),
}

/// Ghost model of `Attribute`.
pub struct SpecAttribute {
    pub name: Seq<char>,
    pub value: SpecAttributeValue,
}

/// Ghost model of `AttributeValue`.
pub enum SpecAttributeValue {
    Str(Seq<char>),
    Element(SpecElement),
    Expr(Seq<char>),
}

/// Ghost model of `Event`.
pub struct SpecEvent {
    pub name: Seq<char>,
    pub expr: Seq<char>,
}

/// The model of a sequence of attributes, element by element. The range
/// guard lets the termination checker see that the recursion only descends
/// into entries of `s`; `Seq::new` never reads the out-of-range branch.
pub open spec fn attributes_view(s: Seq<Attribute>) -> Seq<SpecAttribute>
    decreases s,
{
    Seq::new(s.len(), |i: int| if 0 <= i < s.len() { attribute_view(s[i]) } else { arbitrary() })
}

/// The model of a sequence of events, element by element.
pub open spec fn events_view(s: Seq<Event>) -> Seq<SpecEvent> {
    Seq::new(s.len(), |i: int| event_view(s[i]))
}

/// The model of a sequence of children, element by element, guarded as in
/// `attributes_view`.
pub open spec fn children_view(s: Seq<Child>) -> Seq<SpecChild>
    decreases s,
{
    Seq::new(s.len(), |i: int| if 0 <= i < s.len() { child_view(s[i]) } else { arbitrary() })
}

pub open spec fn element_view(e: Element) -> SpecElement
    decreases e,
{
    SpecElement {
        name: e.name@,
        attributes: attributes_view(e.attributes@),
        events: events_view(e.events@),
        children: children_view(e.children@),
    }
}

pub open spec fn child_view(c: Child) -> SpecChild
    decreases c,
{
    match c {
        Child::Text(s) => SpecChild::Text(s@),
        Child::Element(e) => SpecChild::Element(element_view(e)),
        Child::Expr(x) => SpecChild::Expr(x@),
    }
}

pub open spec fn attribute_view(a: Attribute) -> SpecAttribute
    decreases a,
{
    SpecAttribute { name: a.name@, value: attribute_value_view(a.value) }
}

pub open spec fn attribute_value_view(v: AttributeValue) -> SpecAttributeValue
    decreases v,
{
    match v {
        AttributeValue::Str(s) => SpecAttributeValue::Str(s@),
        AttributeValue::Element(e) => SpecAttributeValue::Element(element_view(e)),
        AttributeValue::Expr(x) => SpecAttributeValue::Expr(x@),
    }
}

pub open spec fn event_view(ev: Event) -> SpecEvent {
    SpecEvent { name: ev.name@, expr: ev.expr@ }
}

impl View for Element {
    type V = SpecElement;

    open spec fn view(&self) -> SpecElement {
        element_view(*self)
    }
}

impl View for Child {
    type V = SpecChild;

    open spec fn view(&self) -> SpecChild {
        child_view(*self)
    }
}

impl View for Attribute {
    type V = SpecAttribute;

    open spec fn view(&self) -> SpecAttribute {
        attribute_view(*self)
    }
}

impl View for AttributeValue {
    type V = SpecAttributeValue;

    open spec fn view(&self) -> SpecAttributeValue {
        attribute_value_view(*self)
    }
}

impl View for Event {
    type V = SpecEvent;

    open spec fn view(&self) -> SpecEvent {
        event_view(*self)
    }
}

} // verus!
