//! End-to-end tests of the template compiler: parsing, error reporting, and
//! lowering, through the public entry points.

use reust::{
    expr_child_mode, html, is_braced, parse_braced_expr, Attribute, AttributeValue, Child,
    Element, ErrorKind, Event, ExprChildMode, Codegen, Punct, SyntaxError, Token, TokenKind,
};

fn punct(p: Punct, pos: usize) -> Token {
    Token { kind: TokenKind::Punct(p), pos }
}

fn ident(s: &str, pos: usize) -> Token {
    Token { kind: TokenKind::Ident(s.to_string()), pos }
}

fn lit(s: &str, pos: usize) -> Token {
    Token { kind: TokenKind::Str(s.to_string()), pos }
}

fn braced(s: &str, pos: usize) -> Token {
    Token { kind: TokenKind::Braced(s.to_string()), pos }
}

/// `<a/>`
fn self_closing_a() -> Vec<Token> {
    vec![
        punct(Punct::Lt, 0),
        ident("a", 1),
        punct(Punct::Slash, 2),
        punct(Punct::Gt, 3),
    ]
}

/// `<a></a>`
fn open_close_a() -> Vec<Token> {
    vec![
        punct(Punct::Lt, 0),
        ident("a", 1),
        punct(Punct::Gt, 2),
        punct(Punct::Lt, 3),
        punct(Punct::Slash, 4),
        ident("a", 5),
        punct(Punct::Gt, 6),
    ]
}

#[test]
fn identical_input_compiles_identically() {
    let out1 = html(&self_closing_a()).unwrap();
    let out2 = html(&self_closing_a()).unwrap();
    assert_eq!(out1, out2);
    assert_eq!(out1, "{ let el = element(\"a\", &[]); el }");

    let ast1 = Element::parse(&self_closing_a(), 0).unwrap();
    let ast2 = Element::parse(&self_closing_a(), 0).unwrap();
    assert_eq!(ast1, ast2);
}

#[test]
fn self_closing_has_no_children_and_equals_open_close_form() {
    let (el, used) = Element::parse(&self_closing_a(), 0).unwrap();
    assert_eq!(used, 4);
    assert_eq!(el.name, "a");
    assert!(el.children.is_empty());
    assert!(el.attributes.is_empty());
    assert!(el.events.is_empty());

    let (el2, used2) = Element::parse(&open_close_a(), 0).unwrap();
    assert_eq!(used2, 7);
    assert_eq!(el, el2);
    assert_eq!(html(&self_closing_a()).unwrap(), html(&open_close_a()).unwrap());
}

#[test]
fn mismatched_closing_tag_names_opening_and_points_at_closing() {
    // `<a></b>`, the closing identifier at byte 40
    let toks = vec![
        punct(Punct::Lt, 0),
        ident("a", 1),
        punct(Punct::Gt, 2),
        punct(Punct::Lt, 3),
        punct(Punct::Slash, 4),
        ident("b", 40),
        punct(Punct::Gt, 41),
    ];
    let err = html(&toks).unwrap_err();
    assert_eq!(
        err,
        SyntaxError { kind: ErrorKind::MismatchedClosingTag("a".to_string()), pos: 40 }
    );
}

#[test]
fn string_attribute_parses_as_str_value() {
    // `x="y"` inside `<a x="y"/>`
    let toks = vec![
        punct(Punct::Lt, 0),
        ident("a", 1),
        ident("x", 3),
        punct(Punct::Eq, 4),
        lit("y", 5),
        punct(Punct::Slash, 9),
        punct(Punct::Gt, 10),
    ];
    let (el, _) = Element::parse(&toks, 0).unwrap();
    assert_eq!(el.attributes.len(), 1);
    assert_eq!(
        el.attributes[0],
        Attribute { name: "x".to_string(), value: AttributeValue::Str("y".to_string()) }
    );

    // The same pair parsed on its own.
    let pair = vec![ident("x", 0), punct(Punct::Eq, 1), lit("y", 2)];
    let (attr, used) = Attribute::parse(&pair, 0).unwrap();
    assert_eq!(used, 3);
    assert_eq!(
        attr,
        Attribute { name: "x".to_string(), value: AttributeValue::Str("y".to_string()) }
    );
}

#[test]
fn attributes_lower_into_comma_separated_pairs() {
    // `<a x="1" y="2"/>`
    let toks = vec![
        punct(Punct::Lt, 0),
        ident("a", 1),
        ident("x", 3),
        punct(Punct::Eq, 4),
        lit("1", 5),
        ident("y", 9),
        punct(Punct::Eq, 10),
        lit("2", 11),
        punct(Punct::Slash, 15),
        punct(Punct::Gt, 16),
    ];
    let out = html(&toks).unwrap();
    assert_eq!(out, "{ let el = element(\"a\", &[(\"x\", \"1\"), (\"y\", \"2\")]); el }");
}

#[test]
fn element_attribute_value_lowers_to_nested_block() {
    // `<a x=<b/>></a>`
    let toks = vec![
        punct(Punct::Lt, 0),
        ident("a", 1),
        ident("x", 3),
        punct(Punct::Eq, 4),
        punct(Punct::Lt, 5),
        ident("b", 6),
        punct(Punct::Slash, 7),
        punct(Punct::Gt, 8),
        punct(Punct::Gt, 9),
        punct(Punct::Lt, 10),
        punct(Punct::Slash, 11),
        ident("a", 12),
        punct(Punct::Gt, 13),
    ];
    let out = html(&toks).unwrap();
    assert_eq!(
        out,
        "{ let el = element(\"a\", &[(\"x\", { let el = element(\"b\", &[]); el })]); el }"
    );
}

#[test]
fn event_parses_and_lowers_to_add_event_listener() {
    // `@click={ handler }` on its own
    let ev_toks = vec![
        punct(Punct::At, 0),
        ident("click", 1),
        punct(Punct::Eq, 6),
        braced("handler", 7),
    ];
    let (ev, used) = Event::parse(&ev_toks, 0).unwrap();
    assert_eq!(used, 4);
    assert_eq!(ev, Event { name: "click".to_string(), expr: "handler".to_string() });
    assert_eq!(ev.gen(), "el.add_event_listener(\"click\", handler); ");

    // `<button @click={ handler }>"Add"</button>`
    let toks = vec![
        punct(Punct::Lt, 0),
        ident("button", 1),
        punct(Punct::At, 8),
        ident("click", 9),
        punct(Punct::Eq, 14),
        braced("handler", 15),
        punct(Punct::Gt, 26),
        lit("Add", 27),
        punct(Punct::Lt, 32),
        punct(Punct::Slash, 33),
        ident("button", 34),
        punct(Punct::Gt, 40),
    ];
    let out = html(&toks).unwrap();
    assert_eq!(
        out,
        "{ let el = element(\"button\", &[]); \
         el.append_children(text(\"Add\").into_nodes()); \
         el.add_event_listener(\"click\", handler); el }"
    );
}

#[test]
fn braced_child_with_trailing_tokens_fails() {
    // `<a>{ expr extra }</a>`
    let toks = vec![
        punct(Punct::Lt, 0),
        ident("a", 1),
        punct(Punct::Gt, 2),
        braced("expr extra", 3),
        punct(Punct::Lt, 17),
        punct(Punct::Slash, 18),
        ident("a", 19),
        punct(Punct::Gt, 20),
    ];
    let err = html(&toks).unwrap_err();
    assert_eq!(err, SyntaxError { kind: ErrorKind::ExpectedExpression, pos: 3 });
}

#[test]
fn empty_braced_group_fails() {
    // `<a>{}</a>`
    let toks = vec![
        punct(Punct::Lt, 0),
        ident("a", 1),
        punct(Punct::Gt, 2),
        braced("", 3),
        punct(Punct::Lt, 5),
        punct(Punct::Slash, 6),
        ident("a", 7),
        punct(Punct::Gt, 8),
    ];
    let err = html(&toks).unwrap_err();
    assert_eq!(err, SyntaxError { kind: ErrorKind::ExpectedExpression, pos: 3 });
}

/// `<div><h1>"Title"</h1><p>"Count: "{n}</p></div>`
fn count_template() -> Vec<Token> {
    vec![
        punct(Punct::Lt, 0),
        ident("div", 1),
        punct(Punct::Gt, 4),
        punct(Punct::Lt, 5),
        ident("h1", 6),
        punct(Punct::Gt, 8),
        lit("Title", 9),
        punct(Punct::Lt, 16),
        punct(Punct::Slash, 17),
        ident("h1", 18),
        punct(Punct::Gt, 20),
        punct(Punct::Lt, 21),
        ident("p", 22),
        punct(Punct::Gt, 23),
        lit("Count: ", 24),
        braced("n", 33),
        punct(Punct::Lt, 36),
        punct(Punct::Slash, 37),
        ident("p", 38),
        punct(Punct::Gt, 39),
        punct(Punct::Lt, 40),
        punct(Punct::Slash, 41),
        ident("div", 42),
        punct(Punct::Gt, 45),
    ]
}

#[test]
fn count_template_lowers_end_to_end() {
    let out = html(&count_template()).unwrap();
    let h1 = "{ let el = element(\"h1\", &[]); \
               el.append_children(text(\"Title\").into_nodes()); el }";
    let p = "{ let el = element(\"p\", &[]); \
              el.append_children(text(\"Count: \").into_nodes()); \
              el.append_children(n.into_nodes()); el }";
    let expected = format!(
        "{{ let el = element(\"div\", &[]); \
         el.append_children({h1}.into_nodes()); \
         el.append_children({p}.into_nodes()); el }}"
    );
    assert_eq!(out, expected);
}

#[test]
fn relowering_the_same_ast_is_byte_identical() {
    let (el, _) = Element::parse(&count_template(), 0).unwrap();
    let once = el.gen();
    let twice = el.gen();
    assert_eq!(once, twice);
    assert_eq!(once.as_bytes(), twice.as_bytes());
}

#[test]
fn lexical_helpers_detect_and_extract_braced_groups() {
    let toks = vec![braced("x + 1", 0), ident("a", 7)];
    assert!(is_braced(&toks, 0));
    assert!(!is_braced(&toks, 1));
    assert!(!is_braced(&toks, 2));

    let (expr, used) = parse_braced_expr(&toks, 0).unwrap();
    assert_eq!(expr, "x + 1");
    assert_eq!(used, 1);

    // Absent group
    let err = parse_braced_expr(&toks, 1).unwrap_err();
    assert_eq!(err, SyntaxError { kind: ErrorKind::ExpectedBraces, pos: 7 });
}

#[test]
fn closure_handlers_count_as_one_expression() {
    let toks = vec![braced("move |_| counter += 1", 0)];
    let (expr, _) = parse_braced_expr(&toks, 0).unwrap();
    assert_eq!(expr, "move |_| counter += 1");
}

#[test]
fn missing_opening_angle_is_reported() {
    let toks = vec![ident("a", 5)];
    let err = html(&toks).unwrap_err();
    assert_eq!(err, SyntaxError { kind: ErrorKind::ExpectedPunct(Punct::Lt), pos: 5 });
}

#[test]
fn missing_tag_name_is_reported() {
    // `<<`
    let toks = vec![punct(Punct::Lt, 0), punct(Punct::Lt, 1)];
    let err = html(&toks).unwrap_err();
    assert_eq!(err, SyntaxError { kind: ErrorKind::ExpectedIdent, pos: 1 });
}

#[test]
fn unterminated_opening_tag_is_reported() {
    // `<a` ends inside the attribute list; the error points at the last token
    let toks = vec![punct(Punct::Lt, 0), ident("a", 1)];
    let err = html(&toks).unwrap_err();
    assert_eq!(err, SyntaxError { kind: ErrorKind::ExpectedAttributeOrEvent, pos: 1 });
}

#[test]
fn unterminated_self_closing_tag_is_reported() {
    // `<a/` ends before `>`
    let toks = vec![punct(Punct::Lt, 0), ident("a", 1), punct(Punct::Slash, 2)];
    let err = html(&toks).unwrap_err();
    assert_eq!(err, SyntaxError { kind: ErrorKind::ExpectedPunct(Punct::Gt), pos: 2 });
}

#[test]
fn stray_token_in_opening_tag_is_reported() {
    // `<a =...>`
    let toks = vec![punct(Punct::Lt, 0), ident("a", 1), punct(Punct::Eq, 3)];
    let err = html(&toks).unwrap_err();
    assert_eq!(err, SyntaxError { kind: ErrorKind::ExpectedAttributeOrEvent, pos: 3 });
}

#[test]
fn bad_attribute_value_is_reported() {
    // `<a x=@ ...`
    let toks = vec![
        punct(Punct::Lt, 0),
        ident("a", 1),
        ident("x", 3),
        punct(Punct::Eq, 4),
        punct(Punct::At, 5),
    ];
    let err = html(&toks).unwrap_err();
    assert_eq!(err, SyntaxError { kind: ErrorKind::ExpectedStringElementOrExpr, pos: 5 });
}

#[test]
fn bad_child_is_reported() {
    // `<a>=` — a child must be a string, an element, or a braced expression
    let toks = vec![
        punct(Punct::Lt, 0),
        ident("a", 1),
        punct(Punct::Gt, 2),
        punct(Punct::Eq, 3),
    ];
    let err = html(&toks).unwrap_err();
    assert_eq!(err, SyntaxError { kind: ErrorKind::ExpectedStringElementOrExpr, pos: 3 });
}

#[test]
fn event_without_braces_is_reported() {
    // `<a @click=x ...`
    let toks = vec![
        punct(Punct::Lt, 0),
        ident("a", 1),
        punct(Punct::At, 3),
        ident("click", 4),
        punct(Punct::Eq, 9),
        ident("x", 10),
    ];
    let err = html(&toks).unwrap_err();
    assert_eq!(err, SyntaxError { kind: ErrorKind::ExpectedBraces, pos: 10 });
}

#[test]
fn attribute_without_equals_is_reported() {
    // `<a x x>`
    let toks = vec![
        punct(Punct::Lt, 0),
        ident("a", 1),
        ident("x", 3),
        ident("x", 5),
    ];
    let err = html(&toks).unwrap_err();
    assert_eq!(err, SyntaxError { kind: ErrorKind::ExpectedPunct(Punct::Eq), pos: 5 });
}

#[test]
fn event_without_equals_is_reported() {
    // `<a @click>`
    let toks = vec![
        punct(Punct::Lt, 0),
        ident("a", 1),
        punct(Punct::At, 3),
        ident("click", 4),
        punct(Punct::Gt, 9),
    ];
    let err = html(&toks).unwrap_err();
    assert_eq!(err, SyntaxError { kind: ErrorKind::ExpectedPunct(Punct::Eq), pos: 9 });
}

#[test]
fn trailing_tokens_after_root_element_are_reported() {
    // `<a/><b/>`
    let mut toks = self_closing_a();
    toks.push(punct(Punct::Lt, 4));
    toks.push(ident("b", 5));
    toks.push(punct(Punct::Slash, 6));
    toks.push(punct(Punct::Gt, 7));
    let err = html(&toks).unwrap_err();
    assert_eq!(err, SyntaxError { kind: ErrorKind::UnexpectedToken, pos: 4 });
}

#[test]
fn empty_input_is_reported_at_position_zero() {
    let toks: Vec<Token> = vec![];
    let err = html(&toks).unwrap_err();
    assert_eq!(err, SyntaxError { kind: ErrorKind::ExpectedPunct(Punct::Lt), pos: 0 });
}

#[test]
fn expression_attribute_value_is_emitted_verbatim() {
    // `<a x={ 1 + 2 }/>`
    let toks = vec![
        punct(Punct::Lt, 0),
        ident("a", 1),
        ident("x", 3),
        punct(Punct::Eq, 4),
        braced("1 + 2", 5),
        punct(Punct::Slash, 14),
        punct(Punct::Gt, 15),
    ];
    let out = html(&toks).unwrap();
    assert_eq!(out, "{ let el = element(\"a\", &[(\"x\", 1 + 2)]); el }");

    let (el, _) = Element::parse(&toks, 0).unwrap();
    assert_eq!(el.attributes[0].value, AttributeValue::Expr("1 + 2".to_string()));
}

#[test]
fn event_parse_requires_the_at_lookahead() {
    let toks = vec![ident("click", 3)];
    let err = Event::parse(&toks, 0).unwrap_err();
    assert_eq!(err, SyntaxError { kind: ErrorKind::ExpectedPunct(Punct::At), pos: 3 });
}

#[test]
fn expression_children_are_one_shot_snapshots() {
    assert_eq!(expr_child_mode(), ExprChildMode::Snapshot);
    // `<p>{n}</p>`: the expression is appended through the node conversion
    // once; no subscription is emitted.
    let toks = vec![
        punct(Punct::Lt, 0),
        ident("p", 1),
        punct(Punct::Gt, 2),
        braced("n", 3),
        punct(Punct::Lt, 6),
        punct(Punct::Slash, 7),
        ident("p", 8),
        punct(Punct::Gt, 9),
    ];
    let out = html(&toks).unwrap();
    assert_eq!(out, "{ let el = element(\"p\", &[]); el.append_children(n.into_nodes()); el }");
}

#[test]
fn interleaved_attributes_and_events_keep_source_order() {
    // `<a x="1" @focus={ f } y="2" @blur={ g }/>`
    let toks = vec![
        punct(Punct::Lt, 0),
        ident("a", 1),
        ident("x", 3),
        punct(Punct::Eq, 4),
        lit("1", 5),
        punct(Punct::At, 9),
        ident("focus", 10),
        punct(Punct::Eq, 15),
        braced("f", 16),
        ident("y", 21),
        punct(Punct::Eq, 22),
        lit("2", 23),
        punct(Punct::At, 27),
        ident("blur", 28),
        punct(Punct::Eq, 32),
        braced("g", 33),
        punct(Punct::Slash, 38),
        punct(Punct::Gt, 39),
    ];
    let (el, _) = Element::parse(&toks, 0).unwrap();
    assert_eq!(el.attributes.len(), 2);
    assert_eq!(el.attributes[0].name, "x");
    assert_eq!(el.attributes[1].name, "y");
    assert_eq!(el.events.len(), 2);
    assert_eq!(el.events[0].name, "focus");
    assert_eq!(el.events[1].name, "blur");

    let out = html(&toks).unwrap();
    assert_eq!(
        out,
        "{ let el = element(\"a\", &[(\"x\", \"1\"), (\"y\", \"2\")]); \
         el.add_event_listener(\"focus\", f); \
         el.add_event_listener(\"blur\", g); el }"
    );
}

#[test]
fn child_parse_tries_string_then_element_then_expression() {
    let toks = vec![lit("hi", 0), punct(Punct::Lt, 4), ident("b", 5), punct(
        Punct::Slash,
        6,
    ), punct(Punct::Gt, 7), braced("n", 8)];
    let (c1, n1) = Child::parse(&toks, 0).unwrap();
    assert_eq!(c1, Child::Text("hi".to_string()));
    assert_eq!(n1, 1);
    let (c2, n2) = Child::parse(&toks, 1).unwrap();
    assert!(matches!(c2, Child::Element(_)));
    assert_eq!(n2, 5);
    let (c3, n3) = Child::parse(&toks, 5).unwrap();
    assert_eq!(c3, Child::Expr("n".to_string()));
    assert_eq!(n3, 6);
}
