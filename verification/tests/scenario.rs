//! The end-to-end scenario: a heterogeneous tuple iterated as trait
//! objects, shared, then mutably, then shared again, driven through the
//! verified cursor model exactly as the emitted dispatch drives it.

use tuple_iter::cursor::TupleCursor;
use tuple_iter::token::{Delim, Tok};
use tuple_iter::{iter, iter_mut};

trait Foo {
    fn call_shared(&self) -> i32;

    fn call_mut(&mut self) -> i32;
}

struct A(i32);

impl Foo for A {
    fn call_shared(&self) -> i32 {
        self.0
    }

    fn call_mut(&mut self) -> i32 {
        -self.0
    }
}

struct B(i32);

impl Foo for B {
    fn call_shared(&self) -> i32 {
        self.0
    }

    fn call_mut(&mut self) -> i32 {
        -self.0
    }
}

fn id(s: &str) -> Tok {
    Tok::Ident(s.chars().collect())
}

fn invocation() -> Vec<Tok> {
    vec![
        id("tuple"),
        Tok::Punct(',', false),
        Tok::Open(Delim::Paren),
        id("Foo"),
        Tok::Punct(';', false),
        Tok::Lit("3".chars().collect()),
        Tok::Close(Delim::Paren),
    ]
}

#[test]
fn test() {
    let mut tuple = (A(1), B(2), A(3));

    // Generation succeeds for this invocation in both variants.
    assert!(iter(&invocation()).is_ok());
    assert!(iter_mut(&invocation()).is_ok());

    // A shared pass, driven as the emitted dispatch drives it: one arm per
    // position, selected by the cursor.
    let mut it = TupleCursor::new(3);
    let mut vec: Vec<i32> = Vec::new();
    while let Some(i) = it.next_pos() {
        let foo: &dyn Foo = match i {
            0 => &tuple.0,
            1 => &tuple.1,
            _ => &tuple.2,
        };
        vec.push(foo.call_shared());
    }
    assert_eq!(vec, vec![1, 2, 3]);

    // A mutable pass over the same tuple.
    let mut it = TupleCursor::new(3);
    let mut vec: Vec<i32> = Vec::new();
    while let Some(i) = it.next_pos() {
        let foo: &mut dyn Foo = match i {
            0 => &mut tuple.0,
            1 => &mut tuple.1,
            _ => &mut tuple.2,
        };
        vec.push(foo.call_mut());
    }
    assert_eq!(vec, vec![-1, -2, -3]);

    // A final shared pass: `call_mut` returned transformed values without
    // storing them, so the stored state is unchanged.
    let mut it = TupleCursor::new(3);
    let mut vec: Vec<i32> = Vec::new();
    while let Some(i) = it.next_pos() {
        let foo: &dyn Foo = match i {
            0 => &tuple.0,
            1 => &tuple.1,
            _ => &tuple.2,
        };
        vec.push(foo.call_shared());
    }
    assert_eq!(vec, vec![1, 2, 3]);
}

#[test]
fn exhaustion_is_idempotent() {
    let mut it = TupleCursor::new(2);
    assert_eq!(it.next_pos(), Some(0));
    assert_eq!(it.next_pos(), Some(1));
    for _ in 0..5 {
        assert_eq!(it.next_pos(), None);
    }
}

#[test]
fn arity_zero_yields_nothing() {
    let mut it = TupleCursor::new(0);
    for _ in 0..3 {
        assert_eq!(it.next_pos(), None);
    }
}

struct Counter(i32);

impl Counter {
    fn bump(&mut self) {
        self.0 += 10;
    }
}

trait Bump {
    fn bump_it(&mut self);

    fn read(&self) -> i32;
}

impl Bump for Counter {
    fn bump_it(&mut self) {
        self.bump();
    }

    fn read(&self) -> i32 {
        self.0
    }
}

#[test]
fn mutation_is_visible_to_later_passes() {
    let mut tuple = (Counter(1), Counter(2), Counter(3));

    let mut it = TupleCursor::new(3);
    while let Some(i) = it.next_pos() {
        let b: &mut dyn Bump = match i {
            0 => &mut tuple.0,
            1 => &mut tuple.1,
            _ => &mut tuple.2,
        };
        b.bump_it();
    }

    let mut it = TupleCursor::new(3);
    let mut vec: Vec<i32> = Vec::new();
    while let Some(i) = it.next_pos() {
        let b: &dyn Bump = match i {
            0 => &tuple.0,
            1 => &tuple.1,
            _ => &tuple.2,
        };
        vec.push(b.read());
    }
    assert_eq!(vec, vec![11, 12, 13]);
}
