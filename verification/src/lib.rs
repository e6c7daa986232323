//! Compile-time generation of iterator constructs for heterogeneous tuples.
//!
//! Given a token sequence of the form `expr , ( Bound + Bound + ... ; N )`,
//! the library parses it into a structured specification and emits the token
//! sequence of a bespoke iterator type that yields each of the tuple's `N`
//! fields, in order, as a reference to the common bound set. The two entry
//! points differ only in whether the emitted references are shared or
//! mutable.

use vstd::prelude::*;

pub mod cursor;
pub mod parse;
pub mod synth;
pub mod token;

use crate::parse::{spec_parse, Input, ParseError};
use crate::synth::{spec_synth, synthesize};
use crate::token::{tv, Tok};

verus! {

/// The shared generative algorithm: parse the invocation, then emit the
/// construct for the requested mutability. A malformed invocation yields
/// the parse failure and no construct at all.
pub fn iter_impl(is_mut: bool, toks: &Vec<Tok>) -> (r: Result<Vec<Tok>, ParseError>)
    ensures
        (match spec_parse(tv(toks@)) {
            Ok(m) => r is Ok && tv(r->Ok_0@) == spec_synth(m, is_mut),
            Err(e) => r == Err::<Vec<Tok>, ParseError>(e),
        }),
{
    match Input::parse(toks) {
        Ok(inp) => Ok(synthesize(&inp, is_mut)),
        Err(e) => Err(e),
    }
}

/// Emits an iterator over a shared borrow of the tuple: its items are
/// shared references to the bound set.
pub fn iter(toks: &Vec<Tok>) -> (r: Result<Vec<Tok>, ParseError>)
    ensures
        (match spec_parse(tv(toks@)) {
            Ok(m) => r is Ok && tv(r->Ok_0@) == spec_synth(m, false),
            Err(e) => r == Err::<Vec<Tok>, ParseError>(e),
        }),
{
    iter_impl(false, toks)
}

/// Emits an iterator over an exclusive borrow of the tuple: its items are
/// mutable references to the bound set.
pub fn iter_mut(toks: &Vec<Tok>) -> (r: Result<Vec<Tok>, ParseError>)
    ensures
        (match spec_parse(tv(toks@)) {
            Ok(m) => r is Ok && tv(r->Ok_0@) == spec_synth(m, true),
            Err(e) => r == Err::<Vec<Tok>, ParseError>(e),
        }),
{
    iter_impl(true, toks)
}

} // verus!
