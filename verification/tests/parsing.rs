//! The invocation grammar: what parses, and the diagnostic for each way an
//! invocation can be malformed.

use tuple_iter::parse::{ErrorKind, Input};
use tuple_iter::token::{Delim, Tok};

fn id(s: &str) -> Tok {
    Tok::Ident(s.chars().collect())
}

fn lit(s: &str) -> Tok {
    Tok::Lit(s.chars().collect())
}

fn p(c: char) -> Tok {
    Tok::Punct(c, false)
}

fn open() -> Tok {
    Tok::Open(Delim::Paren)
}

fn close() -> Tok {
    Tok::Close(Delim::Paren)
}

/// `my_tuple , ( Foo ; 3 )`
fn basic_invocation() -> Vec<Tok> {
    vec![id("my_tuple"), p(','), open(), id("Foo"), p(';'), lit("3"), close()]
}

#[test]
fn parses_basic_invocation() {
    let inp = Input::parse(&basic_invocation()).unwrap();
    assert_eq!(inp.count, 3);
    assert_eq!(inp.bounds.len(), 1);
    assert_eq!(inp.expr.len(), 1);
}

#[test]
fn parses_several_bounds() {
    let toks = vec![
        id("t"),
        p(','),
        open(),
        id("Foo"),
        p('+'),
        id("Send"),
        p('+'),
        id("Sync"),
        p(';'),
        lit("2"),
        close(),
    ];
    let inp = Input::parse(&toks).unwrap();
    assert_eq!(inp.count, 2);
    assert_eq!(inp.bounds.len(), 3);
}

#[test]
fn parses_lifetime_bound() {
    let toks = vec![
        id("t"),
        p(','),
        open(),
        id("Foo"),
        p('+'),
        Tok::Lifetime("static".chars().collect()),
        p(';'),
        lit("1"),
        close(),
    ];
    let inp = Input::parse(&toks).unwrap();
    assert_eq!(inp.bounds.len(), 2);
}

#[test]
fn parses_arity_zero() {
    let toks = vec![id("t"), p(','), open(), id("Foo"), p(';'), lit("0"), close()];
    let inp = Input::parse(&toks).unwrap();
    assert_eq!(inp.count, 0);
}

#[test]
fn parses_compound_expression() {
    // `( a , b ) , ( Foo ; 2 )`: the comma inside the group does not end
    // the expression.
    let toks = vec![
        open(),
        id("a"),
        p(','),
        id("b"),
        close(),
        p(','),
        open(),
        id("Foo"),
        p(';'),
        lit("2"),
        close(),
    ];
    let inp = Input::parse(&toks).unwrap();
    assert_eq!(inp.count, 2);
    assert_eq!(inp.expr.len(), 5);
}

#[test]
fn parses_turbofish_expression() {
    // `make :: < A , B > ( ) , ( Foo ; 1 )`: the commas between the type
    // arguments do not end the expression, since `make :: < A` is none.
    let toks = vec![
        id("make"),
        Tok::Punct(':', true),
        p(':'),
        p('<'),
        id("A"),
        p(','),
        id("B"),
        p('>'),
        open(),
        close(),
        p(','),
        open(),
        id("Foo"),
        p(';'),
        lit("1"),
        close(),
    ];
    let inp = Input::parse(&toks).unwrap();
    assert_eq!(inp.count, 1);
    assert_eq!(inp.expr.len(), 10);
}

#[test]
fn parses_closure_expression() {
    // `| a , b | a , ( Foo ; 1 )`: the comma between the closure's
    // parameters does not end the expression.
    let toks = vec![
        p('|'),
        id("a"),
        p(','),
        id("b"),
        p('|'),
        id("a"),
        p(','),
        open(),
        id("Foo"),
        p(';'),
        lit("1"),
        close(),
    ];
    let inp = Input::parse(&toks).unwrap();
    assert_eq!(inp.count, 1);
    assert_eq!(inp.expr.len(), 6);
}

#[test]
fn parses_hex_arity() {
    let toks = vec![id("t"), p(','), open(), id("Foo"), p(';'), lit("0x10"), close()];
    let inp = Input::parse(&toks).unwrap();
    assert_eq!(inp.count, 16);
}

#[test]
fn parses_binary_and_octal_arity() {
    let toks = vec![id("t"), p(','), open(), id("Foo"), p(';'), lit("0b101"), close()];
    assert_eq!(Input::parse(&toks).unwrap().count, 5);
    let toks = vec![id("t"), p(','), open(), id("Foo"), p(';'), lit("0o17"), close()];
    assert_eq!(Input::parse(&toks).unwrap().count, 15);
}

#[test]
fn parses_underscored_arity() {
    let toks = vec![id("t"), p(','), open(), id("Foo"), p(';'), lit("1_0"), close()];
    assert_eq!(Input::parse(&toks).unwrap().count, 10);
}

#[test]
fn parses_suffixed_arity() {
    let toks = vec![id("t"), p(','), open(), id("Foo"), p(';'), lit("3usize"), close()];
    assert_eq!(Input::parse(&toks).unwrap().count, 3);
}

#[test]
fn rejects_missing_comma() {
    let toks = vec![id("t")];
    let e = Input::parse(&toks).unwrap_err();
    assert_eq!(e.kind, ErrorKind::MissingComma);
    assert_eq!(e.pos, 1);
}

#[test]
fn rejects_empty_expression() {
    let toks = vec![p(','), open(), id("Foo"), p(';'), lit("3"), close()];
    let e = Input::parse(&toks).unwrap_err();
    assert_eq!(e.kind, ErrorKind::ExpectedExpr);
    assert_eq!(e.pos, 0);
}

#[test]
fn rejects_malformed_expression() {
    let toks = vec![p('+'), p('+'), p(','), open(), id("Foo"), p(';'), lit("3"), close()];
    let e = Input::parse(&toks).unwrap_err();
    assert_eq!(e.kind, ErrorKind::BadExpr);
    assert_eq!(e.pos, 0);
}

#[test]
fn rejects_missing_parens() {
    let toks = vec![id("t"), p(','), id("Foo"), p(';'), lit("3")];
    let e = Input::parse(&toks).unwrap_err();
    assert_eq!(e.kind, ErrorKind::ExpectedParens);
    assert_eq!(e.pos, 2);
}

#[test]
fn rejects_nothing_after_comma() {
    let toks = vec![id("t"), p(',')];
    let e = Input::parse(&toks).unwrap_err();
    assert_eq!(e.kind, ErrorKind::ExpectedParens);
    assert_eq!(e.pos, 2);
}

#[test]
fn rejects_unbalanced_group() {
    let toks = vec![id("t"), p(','), open(), id("Foo"), p(';'), lit("3")];
    let e = Input::parse(&toks).unwrap_err();
    assert_eq!(e.kind, ErrorKind::Unbalanced);
    assert_eq!(e.pos, 6);
}

#[test]
fn rejects_trailing_tokens() {
    let toks = vec![id("t"), p(','), open(), id("Foo"), p(';'), lit("1"), close(), id("x")];
    let e = Input::parse(&toks).unwrap_err();
    assert_eq!(e.kind, ErrorKind::TrailingTokens);
    assert_eq!(e.pos, 7);
}

#[test]
fn rejects_missing_semicolon() {
    let toks = vec![id("t"), p(','), open(), id("Foo"), close()];
    let e = Input::parse(&toks).unwrap_err();
    assert_eq!(e.kind, ErrorKind::MissingSemicolon);
    assert_eq!(e.pos, 4);
}

#[test]
fn rejects_empty_bound_list() {
    let toks = vec![id("t"), p(','), open(), p(';'), lit("3"), close()];
    let e = Input::parse(&toks).unwrap_err();
    assert_eq!(e.kind, ErrorKind::EmptyBounds);
    assert_eq!(e.pos, 3);
}

#[test]
fn rejects_trailing_plus_in_bounds() {
    let toks = vec![id("t"), p(','), open(), id("Foo"), p('+'), p(';'), lit("3"), close()];
    let e = Input::parse(&toks).unwrap_err();
    assert_eq!(e.kind, ErrorKind::ExpectedBound);
    assert_eq!(e.pos, 5);
}

#[test]
fn rejects_leading_plus_in_bounds() {
    let toks = vec![id("t"), p(','), open(), p('+'), id("Foo"), p(';'), lit("3"), close()];
    let e = Input::parse(&toks).unwrap_err();
    assert_eq!(e.kind, ErrorKind::ExpectedBound);
    assert_eq!(e.pos, 3);
}

#[test]
fn rejects_malformed_bound() {
    let toks = vec![id("t"), p(','), open(), lit("5"), p(';'), lit("3"), close()];
    let e = Input::parse(&toks).unwrap_err();
    assert_eq!(e.kind, ErrorKind::BadBound);
    assert_eq!(e.pos, 3);
}

#[test]
fn rejects_bounds_not_joined_by_plus() {
    let toks = vec![id("t"), p(','), open(), id("Foo"), id("Send"), p(';'), lit("3"), close()];
    let e = Input::parse(&toks).unwrap_err();
    assert_eq!(e.kind, ErrorKind::BadBound);
    assert_eq!(e.pos, 3);
}

#[test]
fn rejects_missing_arity() {
    let toks = vec![id("t"), p(','), open(), id("Foo"), p(';'), close()];
    let e = Input::parse(&toks).unwrap_err();
    assert_eq!(e.kind, ErrorKind::ExpectedCount);
    assert_eq!(e.pos, 5);
}

#[test]
fn rejects_non_integer_arity() {
    let toks = vec![id("t"), p(','), open(), id("Foo"), p(';'), id("x"), close()];
    let e = Input::parse(&toks).unwrap_err();
    assert_eq!(e.kind, ErrorKind::ExpectedCount);
    assert_eq!(e.pos, 5);
}

#[test]
fn rejects_float_arity() {
    let toks = vec![id("t"), p(','), open(), id("Foo"), p(';'), lit("1.5"), close()];
    let e = Input::parse(&toks).unwrap_err();
    assert_eq!(e.kind, ErrorKind::ExpectedCount);
    assert_eq!(e.pos, 5);
    let toks = vec![id("t"), p(','), open(), id("Foo"), p(';'), lit("1e3"), close()];
    let e = Input::parse(&toks).unwrap_err();
    assert_eq!(e.kind, ErrorKind::ExpectedCount);
    assert_eq!(e.pos, 5);
}

#[test]
fn rejects_string_arity() {
    let mut text: Vec<char> = Vec::new();
    text.push('"');
    text.push('3');
    text.push('"');
    let toks = vec![id("t"), p(','), open(), id("Foo"), p(';'), Tok::Lit(text), close()];
    let e = Input::parse(&toks).unwrap_err();
    assert_eq!(e.kind, ErrorKind::ExpectedCount);
    assert_eq!(e.pos, 5);
}

#[test]
fn overflow_is_reported_before_extra_tokens() {
    let toks = vec![
        id("t"),
        p(','),
        open(),
        id("Foo"),
        p(';'),
        lit("99999999999999999999999999999999"),
        lit("3"),
        close(),
    ];
    let e = Input::parse(&toks).unwrap_err();
    assert_eq!(e.kind, ErrorKind::CountOverflow);
    assert_eq!(e.pos, 5);
}

#[test]
fn rejects_negative_arity() {
    let toks = vec![id("t"), p(','), open(), id("Foo"), p(';'), p('-'), lit("3"), close()];
    let e = Input::parse(&toks).unwrap_err();
    assert_eq!(e.kind, ErrorKind::ExpectedCount);
    assert_eq!(e.pos, 5);
}

#[test]
fn rejects_extra_token_after_arity() {
    let toks = vec![id("t"), p(','), open(), id("Foo"), p(';'), lit("3"), lit("3"), close()];
    let e = Input::parse(&toks).unwrap_err();
    assert_eq!(e.kind, ErrorKind::ExtraToken);
    assert_eq!(e.pos, 6);
}

#[test]
fn rejects_oversized_arity() {
    let toks = vec![
        id("t"),
        p(','),
        open(),
        id("Foo"),
        p(';'),
        lit("99999999999999999999999999999999"),
        close(),
    ];
    let e = Input::parse(&toks).unwrap_err();
    assert_eq!(e.kind, ErrorKind::CountOverflow);
    assert_eq!(e.pos, 5);
}
