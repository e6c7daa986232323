//! The emitted construct: its exact textual form for small invocations,
//! and that it is well-formed Rust.

use tuple_iter::token::{render, Delim, Tok};
use tuple_iter::{iter, iter_mut};

fn id(s: &str) -> Tok {
    Tok::Ident(s.chars().collect())
}

fn lit(s: &str) -> Tok {
    Tok::Lit(s.chars().collect())
}

fn p(c: char) -> Tok {
    Tok::Punct(c, false)
}

fn open() -> Tok {
    Tok::Open(Delim::Paren)
}

fn close() -> Tok {
    Tok::Close(Delim::Paren)
}

fn invocation(expr: &str, bound: &str, count: &str) -> Vec<Tok> {
    vec![id(expr), p(','), open(), id(bound), p(';'), lit(count), close()]
}

fn text_of(toks: &Vec<Tok>) -> String {
    render(toks).iter().collect()
}

#[test]
fn shared_arity_one_exact() {
    let out = iter(&invocation("my_tuple", "Foo", "1")).unwrap();
    let expected = "{ struct __TupleIter < T > ( T , usize ) ; impl < 't , Ty0 > Iterator for __TupleIter < & 't ( Ty0 ) > where Ty0 : Foo { type Item = & 't ( dyn Foo ) ; fn next ( & mut self ) -> Option < Self :: Item > { match self . 1 { 0 => { self . 1 += 1 ; let ptr = & ( self . 0 ) . 0 as * const Ty0 ; let ptr : & Ty0 = unsafe { & * ptr } ; let dyn_ptr : & ( dyn Foo ) = ptr ; Some ( dyn_ptr ) } , _ => None , } } } __TupleIter ( & my_tuple , 0 ) } ";
    assert_eq!(text_of(&out), expected);
}

#[test]
fn mutable_arity_one_exact() {
    let out = iter_mut(&invocation("my_tuple", "Foo", "1")).unwrap();
    let expected = "{ struct __TupleIter < T > ( T , usize ) ; impl < 't , Ty0 > Iterator for __TupleIter < & 't mut ( Ty0 ) > where Ty0 : Foo { type Item = & 't mut ( dyn Foo ) ; fn next ( & mut self ) -> Option < Self :: Item > { match self . 1 { 0 => { self . 1 += 1 ; let ptr = & mut ( self . 0 ) . 0 as * mut Ty0 ; let ptr : & mut Ty0 = unsafe { & mut * ptr } ; let dyn_ptr : & mut ( dyn Foo ) = ptr ; Some ( dyn_ptr ) } , _ => None , } } } __TupleIter ( & mut my_tuple , 0 ) } ";
    assert_eq!(text_of(&out), expected);
}

#[test]
fn arity_zero_has_only_fallback_arm() {
    let out = iter(&invocation("t", "Foo", "0")).unwrap();
    let text = text_of(&out);
    assert_eq!(text.matches("=>").count(), 1);
    assert!(text.contains("{ _ => None , }"));
    assert!(text.contains("impl < 't , > Iterator for __TupleIter < & 't ( ) >"));
}

#[test]
fn arity_three_has_one_arm_per_position() {
    let out = iter(&invocation("t", "Foo", "3")).unwrap();
    let text = text_of(&out);
    assert!(text.contains("0 => {"));
    assert!(text.contains("1 => {"));
    assert!(text.contains("2 => {"));
    assert!(text.contains("( self . 0 ) . 2 as * const Ty2"));
    assert_eq!(text.matches("=>").count(), 4);
    let p0 = text.find("0 => {").unwrap();
    let p1 = text.find("1 => {").unwrap();
    let p2 = text.find("2 => {").unwrap();
    assert!(p0 < p1 && p1 < p2);
}

#[test]
fn several_bounds_are_joined_by_plus() {
    let toks = vec![
        id("t"),
        p(','),
        open(),
        id("Foo"),
        p('+'),
        id("Send"),
        p(';'),
        lit("2"),
        close(),
    ];
    let out = iter(&toks).unwrap();
    let text = text_of(&out);
    assert!(text.contains("( dyn Foo + Send )"));
    assert!(text.contains("where Ty0 : Foo + Send , Ty1 : Foo + Send"));
}

#[test]
fn double_digit_positions_are_emitted() {
    let out = iter(&invocation("t", "Foo", "12")).unwrap();
    let text = text_of(&out);
    assert!(text.contains("11 => {"));
    assert!(text.contains("Ty11"));
    assert!(!text.contains("12 => {"));
}

#[test]
fn output_is_a_well_formed_expression() {
    let out = iter(&invocation("my_tuple", "Foo", "3")).unwrap();
    let text = text_of(&out);
    assert!(syn::parse_str::<syn::Expr>(&text).is_ok());
    let out = iter_mut(&invocation("my_tuple", "Foo", "3")).unwrap();
    let text = text_of(&out);
    assert!(syn::parse_str::<syn::Expr>(&text).is_ok());
}

#[test]
fn malformed_invocation_emits_nothing() {
    let toks = vec![id("t"), p(','), open(), id("Foo"), close()];
    assert!(iter(&toks).is_err());
    assert!(iter_mut(&toks).is_err());
}
