//! The iterator synthesizer: from a parsed invocation and a mutability
//! flag, emits the token sequence of the generated construct.
//!
//! The construct is a block holding a single-field carrier type with a
//! cursor, an `Iterator` implementation whose `next` dispatches on the
//! cursor with one arm per tuple position and a fallback arm that ends the
//! sequence, and one instance of the carrier applied to a fresh borrow of
//! the tuple expression with the cursor at zero. The whole output is
//! pinned, token by token, by [`spec_synth`].

use vstd::prelude::*;
use vstd::string::StrSliceExecFns;

use crate::token::{tv, Tok, TokV, Delim};
use crate::parse::{tvv, lemma_tvv_len, lemma_tvv_index, Input, InputV};
use crate::parse::{all_digits, dec_val, digit_val, is_digit};

verus! {

/// An identifier token.
pub open spec fn idv(s: Seq<char>) -> TokV {
    TokV::Ident(s)
}

/// A punctuation token that stands alone.
pub open spec fn pv(c: char) -> TokV {
    TokV::Punct(c, false)
}

/// A punctuation token joined to its successor.
pub open spec fn pj(c: char) -> TokV {
    TokV::Punct(c, true)
}

/// A literal token.
pub open spec fn litv(s: Seq<char>) -> TokV {
    TokV::Lit(s)
}

/// A lifetime token.
pub open spec fn ltv(s: Seq<char>) -> TokV {
    TokV::Lifetime(s)
}

/// The character of one decimal digit.
pub open spec fn digit_char(d: nat) -> char {
    if d == 0 {
        '0'
    } else if d == 1 {
        '1'
    } else if d == 2 {
        '2'
    } else if d == 3 {
        '3'
    } else if d == 4 {
        '4'
    } else if d == 5 {
        '5'
    } else if d == 6 {
        '6'
    } else if d == 7 {
        '7'
    } else if d == 8 {
        '8'
    } else {
        '9'
    }
}

/// The decimal digits of a number, most significant first.
pub open spec fn dec(n: nat) -> Seq<char>
    decreases n,
{
    if n < 10 {
        seq![digit_char(n)]
    } else {
        dec(n / 10).push(digit_char(n % 10))
    }
}

/// The name of the type parameter for one tuple position.
pub open spec fn ty_name(i: nat) -> Seq<char> {
    "Ty"@ + dec(i)
}

/// The emitted ordinal literal denotes its position: its text is made of
/// decimal digits, and read back as a decimal number it is the position
/// itself. This ties the synthesizer's arm and field ordinals to the same
/// digit semantics the parser gives the arity literal.
pub proof fn lemma_ordinal_value(n: nat)
    ensures
        all_digits(dec(n)),
        dec_val(dec(n)) == n,
    decreases n,
{
    if n < 10 {
        assert(is_digit(digit_char(n)));
        assert(dec(n) == seq![digit_char(n)]);
        assert(dec(n).drop_last() =~= Seq::empty());
        assert(dec_val(Seq::empty()) == 0);
        assert(dec(n).last() == digit_char(n));
        assert(dec_val(dec(n)) == dec_val(dec(n).drop_last()) * 10 + digit_val(dec(n).last()));
        assert(digit_val(digit_char(n)) == n);
    } else {
        lemma_ordinal_value(n / 10);
        let s = dec(n / 10);
        let c = digit_char(n % 10);
        assert(dec(n) == s.push(c));
        assert(s.push(c).drop_last() =~= s);
        assert(s.push(c).last() == c);
        assert(dec_val(dec(n)) == dec_val(s) * 10 + digit_val(c));
        assert(digit_val(c) == n % 10);
        vstd::arithmetic::div_mod::lemma_fundamental_div_mod(n as int, 10);
        assert(dec_val(dec(n)) == n);
        assert forall|i: int| 0 <= i < dec(n).len() implies is_digit(#[trigger] dec(n)[i]) by {
            if i < s.len() {
                assert(dec(n)[i] == s[i]);
            } else {
                assert(dec(n)[i] == c);
            }
        }
    }
}

/// The mutability marker: the `mut` keyword, or nothing.
pub open spec fn mut_kw(is_mut: bool) -> Seq<TokV> {
    if is_mut {
        seq![idv("mut"@)]
    } else {
        Seq::empty()
    }
}

/// The raw pointer qualifier matching the mutability.
pub open spec fn ptr_kw(is_mut: bool) -> Seq<TokV> {
    seq![pv('*'), idv(if is_mut { "mut"@ } else { "const"@ })]
}

/// The bound pieces joined by plus signs.
pub open spec fn joined_bounds(bs: Seq<Seq<TokV>>) -> Seq<TokV>
    decreases bs.len(),
{
    if bs.len() == 0 {
        Seq::empty()
    } else if bs.len() == 1 {
        bs[0]
    } else {
        joined_bounds(bs.drop_last()) + seq![pv('+')] + bs.last()
    }
}

/// The first `n` type parameter names, joined by commas.
pub open spec fn ty_params(n: nat) -> Seq<TokV>
    decreases n,
{
    if n == 0 {
        Seq::empty()
    } else if n == 1 {
        seq![idv(ty_name(0))]
    } else {
        ty_params((n - 1) as nat) + seq![pv(','), idv(ty_name((n - 1) as nat))]
    }
}

/// One predicate of the where clause: a type parameter bound by the whole
/// bound set.
pub open spec fn where_clause(i: nat, bs: Seq<Seq<TokV>>) -> Seq<TokV> {
    seq![idv(ty_name(i)), pv(':')] + joined_bounds(bs)
}

/// The where clause's predicates for the first `n` type parameters, joined
/// by commas.
pub open spec fn where_clauses(n: nat, bs: Seq<Seq<TokV>>) -> Seq<TokV>
    decreases n,
{
    if n == 0 {
        Seq::empty()
    } else if n == 1 {
        where_clause(0, bs)
    } else {
        where_clauses((n - 1) as nat, bs) + seq![pv(',')] + where_clause((n - 1) as nat, bs)
    }
}

/// The opening of a match arm: the position literal, the arm's brace, and
/// the cursor step, up to the borrow of the tuple.
pub open spec fn arm_head(i: nat, is_mut: bool) -> Seq<TokV> {
    seq![
        litv(dec(i)),
        pj('='),
        pv('>'),
        TokV::Open(Delim::Brace),
        idv("self"@),
        pv('.'),
        litv("1"@),
        pj('+'),
        pv('='),
        litv("1"@),
        pv(';'),
        idv("let"@),
        idv("ptr"@),
        pv('='),
        pv('&'),
    ] + mut_kw(is_mut)
}

/// The field access and its conversion to a raw pointer of the position's
/// type.
pub open spec fn arm_cast(i: nat, is_mut: bool) -> Seq<TokV> {
    seq![
        TokV::Open(Delim::Paren),
        idv("self"@),
        pv('.'),
        litv("0"@),
        TokV::Close(Delim::Paren),
        pv('.'),
        litv(dec(i)),
        idv("as"@),
    ] + ptr_kw(is_mut) + seq![idv(ty_name(i)), pv(';')]
}

/// The reconstitution of a typed reference from the raw pointer.
pub open spec fn arm_reref(i: nat, is_mut: bool) -> Seq<TokV> {
    seq![idv("let"@), idv("ptr"@), pv(':'), pv('&')] + mut_kw(is_mut) + seq![
        idv(ty_name(i)),
        pv('='),
        idv("unsafe"@),
        TokV::Open(Delim::Brace),
        pv('&'),
    ] + mut_kw(is_mut) + seq![pv('*'), idv("ptr"@), TokV::Close(Delim::Brace), pv(';')]
}

/// The widening of the typed reference to the bound-set reference, and the
/// arm's result.
pub open spec fn arm_widen(bs: Seq<Seq<TokV>>, is_mut: bool) -> Seq<TokV> {
    seq![idv("let"@), idv("dyn_ptr"@), pv(':'), pv('&')] + mut_kw(is_mut) + seq![
        TokV::Open(Delim::Paren),
        idv("dyn"@),
    ] + joined_bounds(bs) + seq![
        TokV::Close(Delim::Paren),
        pv('='),
        idv("ptr"@),
        pv(';'),
        idv("Some"@),
        TokV::Open(Delim::Paren),
        idv("dyn_ptr"@),
        TokV::Close(Delim::Paren),
        TokV::Close(Delim::Brace),
        pv(','),
    ]
}

/// The match arm for one tuple position: step the cursor, take a reference
/// to the field, pass it through a raw pointer of the statically known
/// field type, and widen it to the bound-set reference.
pub open spec fn arm(i: nat, bs: Seq<Seq<TokV>>, is_mut: bool) -> Seq<TokV> {
    arm_head(i, is_mut) + arm_cast(i, is_mut) + arm_reref(i, is_mut) + arm_widen(bs, is_mut)
}

/// The match arms for positions `0` up to `n - 1`, in ascending order.
pub open spec fn arms(n: nat, bs: Seq<Seq<TokV>>, is_mut: bool) -> Seq<TokV>
    decreases n,
{
    if n == 0 {
        Seq::empty()
    } else {
        arms((n - 1) as nat, bs, is_mut) + arm((n - 1) as nat, bs, is_mut)
    }
}

/// The carrier type: one data field and the cursor.
pub open spec fn struct_decl() -> Seq<TokV> {
    seq![
        idv("struct"@),
        idv("__TupleIter"@),
        pv('<'),
        idv("T"@),
        pv('>'),
        TokV::Open(Delim::Paren),
        idv("T"@),
        pv(','),
        idv("usize"@),
        TokV::Close(Delim::Paren),
        pv(';'),
    ]
}

/// The head of the `Iterator` implementation, generic over the lifetime
/// and one type parameter per position, each bound by the whole bound set.
pub open spec fn impl_header(n: nat, bs: Seq<Seq<TokV>>, is_mut: bool) -> Seq<TokV> {
    seq![idv("impl"@), pv('<'), ltv("t"@), pv(',')] + ty_params(n) + seq![
        pv('>'),
        idv("Iterator"@),
        idv("for"@),
        idv("__TupleIter"@),
        pv('<'),
        pv('&'),
        ltv("t"@),
    ] + mut_kw(is_mut) + seq![TokV::Open(Delim::Paren)] + ty_params(n) + seq![
        TokV::Close(Delim::Paren),
        pv('>'),
        idv("where"@),
    ] + where_clauses(n, bs)
}

/// The item type: a reference, of the requested mutability, to a value of
/// the bound set.
pub open spec fn item_decl(bs: Seq<Seq<TokV>>, is_mut: bool) -> Seq<TokV> {
    seq![idv("type"@), idv("Item"@), pv('='), pv('&'), ltv("t"@)] + mut_kw(is_mut) + seq![
        TokV::Open(Delim::Paren),
        idv("dyn"@),
    ] + joined_bounds(bs) + seq![TokV::Close(Delim::Paren), pv(';')]
}

/// The step function: a match on the cursor with one arm per position and
/// a fallback that yields nothing.
pub open spec fn next_fn(n: nat, bs: Seq<Seq<TokV>>, is_mut: bool) -> Seq<TokV> {
    seq![
        idv("fn"@),
        idv("next"@),
        TokV::Open(Delim::Paren),
        pv('&'),
        idv("mut"@),
        idv("self"@),
        TokV::Close(Delim::Paren),
        pj('-'),
        pv('>'),
        idv("Option"@),
        pv('<'),
        idv("Self"@),
        pj(':'),
        pv(':'),
        idv("Item"@),
        pv('>'),
        TokV::Open(Delim::Brace),
        idv("match"@),
        idv("self"@),
        pv('.'),
        litv("1"@),
        TokV::Open(Delim::Brace),
    ] + arms(n, bs, is_mut) + seq![
        idv("_"@),
        pj('='),
        pv('>'),
        idv("None"@),
        pv(','),
        TokV::Close(Delim::Brace),
        TokV::Close(Delim::Brace),
    ]
}

/// The construction: the carrier applied to a fresh borrow of the tuple
/// expression, with the cursor at zero.
pub open spec fn ctor(expr: Seq<TokV>, is_mut: bool) -> Seq<TokV> {
    seq![idv("__TupleIter"@), TokV::Open(Delim::Paren), pv('&')] + mut_kw(is_mut) + expr + seq![
        pv(','),
        litv("0"@),
        TokV::Close(Delim::Paren),
    ]
}

/// The whole generated construct.
pub open spec fn spec_synth(m: InputV, is_mut: bool) -> Seq<TokV> {
    seq![TokV::Open(Delim::Brace)] + struct_decl() + impl_header(m.count, m.bounds, is_mut)
        + seq![TokV::Open(Delim::Brace)] + item_decl(m.bounds, is_mut) + next_fn(
        m.count,
        m.bounds,
        is_mut,
    ) + seq![TokV::Close(Delim::Brace)] + ctor(m.expr, is_mut) + seq![TokV::Close(Delim::Brace)]
}

/// The characters of a text, as a vector.
pub fn str_to_chars(s: &str) -> (r: Vec<char>)
    ensures
        r@ == s@,
{
    let n = s.unicode_len();
    let mut out: Vec<char> = Vec::new();
    let mut i: usize = 0;
    while i < n
        invariant
            i <= n,
            n == s@.len(),
            out@ == s@.take(i as int),
        decreases n - i,
    {
        out.push(s.get_char(i));
        assert(s@.take(i as int + 1) =~= s@.take(i as int).push(s@[i as int]));
        i += 1;
    }
    assert(s@.take(n as int) =~= s@);
    out
}

/// The decimal digit character, as executable code.
fn digit_char_x(d: usize) -> (c: char)
    requires
        d < 10,
    ensures
        c == digit_char(d as nat),
{
    if d == 0 {
        '0'
    } else if d == 1 {
        '1'
    } else if d == 2 {
        '2'
    } else if d == 3 {
        '3'
    } else if d == 4 {
        '4'
    } else if d == 5 {
        '5'
    } else if d == 6 {
        '6'
    } else if d == 7 {
        '7'
    } else if d == 8 {
        '8'
    } else {
        '9'
    }
}

/// The decimal digits of a number, as executable code.
fn dec_chars(n: usize) -> (r: Vec<char>)
    ensures
        r@ == dec(n as nat),
    decreases n,
{
    if n < 10 {
        let mut v: Vec<char> = Vec::new();
        v.push(digit_char_x(n));
        assert(v@ =~= seq![digit_char(n as nat)]);
        v
    } else {
        let mut v = dec_chars(n / 10);
        v.push(digit_char_x(n % 10));
        v
    }
}

fn push_id(out: &mut Vec<Tok>, s: &str)
    ensures
        tv(final(out)@) == tv(old(out)@) + seq![idv(s@)],
{
    let cs = str_to_chars(s);
    out.push(Tok::Ident(cs));
    proof {
        assert(out@.drop_last() =~= old(out)@);
        assert(tv(out@) == tv(old(out)@).push(idv(s@)));
        assert(tv(old(out)@).push(idv(s@)) =~= tv(old(out)@) + seq![idv(s@)]);
    }
}

fn push_lt(out: &mut Vec<Tok>, s: &str)
    ensures
        tv(final(out)@) == tv(old(out)@) + seq![ltv(s@)],
{
    let cs = str_to_chars(s);
    out.push(Tok::Lifetime(cs));
    proof {
        assert(out@.drop_last() =~= old(out)@);
        assert(tv(out@) == tv(old(out)@).push(ltv(s@)));
        assert(tv(old(out)@).push(ltv(s@)) =~= tv(old(out)@) + seq![ltv(s@)]);
    }
}

fn push_p(out: &mut Vec<Tok>, c: char)
    ensures
        tv(final(out)@) == tv(old(out)@) + seq![pv(c)],
{
    out.push(Tok::Punct(c, false));
    proof {
        assert(out@.drop_last() =~= old(out)@);
        assert(tv(out@) == tv(old(out)@).push(pv(c)));
        assert(tv(old(out)@).push(pv(c)) =~= tv(old(out)@) + seq![pv(c)]);
    }
}

fn push_pj(out: &mut Vec<Tok>, c: char)
    ensures
        tv(final(out)@) == tv(old(out)@) + seq![pj(c)],
{
    out.push(Tok::Punct(c, true));
    proof {
        assert(out@.drop_last() =~= old(out)@);
        assert(tv(out@) == tv(old(out)@).push(pj(c)));
        assert(tv(old(out)@).push(pj(c)) =~= tv(old(out)@) + seq![pj(c)]);
    }
}

fn push_lit(out: &mut Vec<Tok>, s: &str)
    ensures
        tv(final(out)@) == tv(old(out)@) + seq![litv(s@)],
{
    let cs = str_to_chars(s);
    out.push(Tok::Lit(cs));
    proof {
        assert(out@.drop_last() =~= old(out)@);
        assert(tv(out@) == tv(old(out)@).push(litv(s@)));
        assert(tv(old(out)@).push(litv(s@)) =~= tv(old(out)@) + seq![litv(s@)]);
    }
}

fn push_lit_dec(out: &mut Vec<Tok>, i: usize)
    ensures
        tv(final(out)@) == tv(old(out)@) + seq![litv(dec(i as nat))],
{
    let cs = dec_chars(i);
    out.push(Tok::Lit(cs));
    proof {
        assert(out@.drop_last() =~= old(out)@);
        assert(tv(out@) == tv(old(out)@).push(litv(dec(i as nat))));
        assert(tv(old(out)@).push(litv(dec(i as nat))) =~= tv(old(out)@) + seq![
            litv(dec(i as nat)),
        ]);
    }
}

fn push_ty(out: &mut Vec<Tok>, i: usize)
    ensures
        tv(final(out)@) == tv(old(out)@) + seq![idv(ty_name(i as nat))],
{
    let mut cs = str_to_chars("Ty");
    let mut ds = dec_chars(i);
    cs.append(&mut ds);
    out.push(Tok::Ident(cs));
    proof {
        assert(out@.drop_last() =~= old(out)@);
        assert(tv(out@) == tv(old(out)@).push(idv(ty_name(i as nat))));
        assert(tv(old(out)@).push(idv(ty_name(i as nat))) =~= tv(old(out)@) + seq![
            idv(ty_name(i as nat)),
        ]);
    }
}

fn push_open(out: &mut Vec<Tok>, d: Delim)
    ensures
        tv(final(out)@) == tv(old(out)@) + seq![TokV::Open(d)],
{
    out.push(Tok::Open(d));
    proof {
        assert(out@.drop_last() =~= old(out)@);
        assert(tv(out@) == tv(old(out)@).push(TokV::Open(d)));
        assert(tv(old(out)@).push(TokV::Open(d)) =~= tv(old(out)@) + seq![TokV::Open(d)]);
    }
}

fn push_close(out: &mut Vec<Tok>, d: Delim)
    ensures
        tv(final(out)@) == tv(old(out)@) + seq![TokV::Close(d)],
{
    out.push(Tok::Close(d));
    proof {
        assert(out@.drop_last() =~= old(out)@);
        assert(tv(out@) == tv(old(out)@).push(TokV::Close(d)));
        assert(tv(old(out)@).push(TokV::Close(d)) =~= tv(old(out)@) + seq![TokV::Close(d)]);
    }
}

fn push_mut(out: &mut Vec<Tok>, is_mut: bool)
    ensures
        tv(final(out)@) == tv(old(out)@) + mut_kw(is_mut),
{
    if is_mut {
        push_id(out, "mut");
    } else {
        proof {
            assert(tv(out@) =~= tv(out@) + mut_kw(false));
        }
    }
}

fn push_ptr(out: &mut Vec<Tok>, is_mut: bool)
    ensures
        tv(final(out)@) == tv(old(out)@) + ptr_kw(is_mut),
{
    push_p(out, '*');
    if is_mut {
        push_id(out, "mut");
    } else {
        push_id(out, "const");
    }
    proof {
        assert(tv(out@) =~= tv(old(out)@) + ptr_kw(is_mut));
    }
}

/// Appends a copy of the given tokens.
fn push_toks(out: &mut Vec<Tok>, src: &Vec<Tok>)
    ensures
        tv(final(out)@) == tv(old(out)@) + tv(src@),
{
    let ghost base = tv(old(out)@);
    let mut j: usize = 0;
    while j < src.len()
        invariant
            j <= src.len(),
            tv(out@) == base + tv(src@.take(j as int)),
        decreases src.len() - j,
    {
        let ghost pre = out@;
        out.push(src[j].clone());
        proof {
            assert(out@.drop_last() =~= pre);
            assert(tv(out@) == tv(pre).push(src@[j as int]@));
            assert(src@.take(j as int + 1).drop_last() =~= src@.take(j as int));
            assert(tv(src@.take(j as int + 1)) == tv(src@.take(j as int)).push(src@[j as int]@));
            assert(base + tv(src@.take(j as int)).push(src@[j as int]@) =~= (base + tv(
                src@.take(j as int),
            )).push(src@[j as int]@));
            assert(tv(out@) == base + tv(src@.take(j as int + 1)));
        }
        j += 1;
    }
    assert(src@.take(src.len() as int) =~= src@);
}

/// Appends the bound pieces joined by plus signs.
fn push_bounds(out: &mut Vec<Tok>, bounds: &Vec<Vec<Tok>>)
    ensures
        tv(final(out)@) == tv(old(out)@) + joined_bounds(tvv(bounds@)),
{
    let ghost base = tv(old(out)@);
    let ghost bv = tvv(bounds@);
    proof {
        lemma_tvv_len(bounds@);
    }
    let mut j: usize = 0;
    while j < bounds.len()
        invariant
            j <= bounds.len(),
            bv == tvv(bounds@),
            bv.len() == bounds@.len(),
            tv(out@) == base + joined_bounds(bv.take(j as int)),
        decreases bounds.len() - j,
    {
        if j > 0 {
            push_p(out, '+');
        }
        push_toks(out, &bounds[j]);
        proof {
            lemma_tvv_index(bounds@, j as int);
            assert(bv.take(j as int + 1).drop_last() =~= bv.take(j as int));
            assert(bv.take(j as int + 1).last() == bv[j as int]);
            if j == 0 {
                assert(joined_bounds(bv.take(1)) == bv[0]);
                assert(base + joined_bounds(bv.take(0 as int)) =~= base);
                assert(tv(out@) == base + joined_bounds(bv.take(j as int + 1)));
            } else {
                assert(joined_bounds(bv.take(j as int + 1)) == joined_bounds(bv.take(j as int))
                    + seq![pv('+')] + bv[j as int]);
                assert(base + joined_bounds(bv.take(j as int)) + seq![pv('+')] + bv[j as int]
                    =~= base + (joined_bounds(bv.take(j as int)) + seq![pv('+')] + bv[j as int]));
                assert(tv(out@) == base + joined_bounds(bv.take(j as int + 1)));
            }
        }
        j += 1;
    }
    assert(bv.take(bounds.len() as int) =~= bv);
}

/// Appends the comma-joined type parameter list.
fn push_ty_params(out: &mut Vec<Tok>, n: usize)
    ensures
        tv(final(out)@) == tv(old(out)@) + ty_params(n as nat),
{
    let ghost base = tv(old(out)@);
    let mut i: usize = 0;
    while i < n
        invariant
            i <= n,
            tv(out@) == base + ty_params(i as nat),
        decreases n - i,
    {
        if i > 0 {
            push_p(out, ',');
        }
        push_ty(out, i);
        proof {
            if i == 0 {
                assert(base + ty_params(0) =~= base);
                assert(tv(out@) =~= base + ty_params(1));
            } else {
                assert(ty_params((i + 1) as nat) == ty_params(i as nat) + seq![
                    pv(','),
                    idv(ty_name(i as nat)),
                ]);
                assert(base + ty_params(i as nat) + seq![pv(',')] + seq![idv(ty_name(i as nat))]
                    =~= base + ty_params((i + 1) as nat));
                assert(tv(out@) == base + ty_params((i + 1) as nat));
            }
        }
        i += 1;
    }
}

/// Appends the comma-joined where-clause predicates.
fn push_where(out: &mut Vec<Tok>, n: usize, bounds: &Vec<Vec<Tok>>)
    ensures
        tv(final(out)@) == tv(old(out)@) + where_clauses(n as nat, tvv(bounds@)),
{
    let ghost base = tv(old(out)@);
    let ghost bv = tvv(bounds@);
    let mut i: usize = 0;
    while i < n
        invariant
            i <= n,
            bv == tvv(bounds@),
            tv(out@) == base + where_clauses(i as nat, bv),
        decreases n - i,
    {
        let ghost mid = tv(out@);
        if i > 0 {
            push_p(out, ',');
        }
        push_ty(out, i);
        push_p(out, ':');
        push_bounds(out, bounds);
        proof {
            if i == 0 {
                assert(base + where_clauses(0, bv) =~= base);
                assert(tv(out@) =~= base + where_clause(0, bv));
                assert(where_clauses(1, bv) == where_clause(0, bv));
            } else {
                assert(where_clauses((i + 1) as nat, bv) == where_clauses(i as nat, bv) + seq![
                    pv(','),
                ] + where_clause(i as nat, bv));
                assert(tv(out@) =~= base + where_clauses((i + 1) as nat, bv));
            }
        }
        i += 1;
    }
}

fn push_arm_head(out: &mut Vec<Tok>, i: usize, is_mut: bool)
    ensures
        tv(final(out)@) == tv(old(out)@) + arm_head(i as nat, is_mut),
{
    push_lit_dec(out, i);
    push_pj(out, '=');
    push_p(out, '>');
    push_open(out, Delim::Brace);
    push_id(out, "self");
    push_p(out, '.');
    push_lit(out, "1");
    push_pj(out, '+');
    push_p(out, '=');
    push_lit(out, "1");
    push_p(out, ';');
    push_id(out, "let");
    push_id(out, "ptr");
    push_p(out, '=');
    push_p(out, '&');
    push_mut(out, is_mut);
    proof {
        assert(tv(out@) =~= tv(old(out)@) + arm_head(i as nat, is_mut));
    }
}

fn push_arm_cast(out: &mut Vec<Tok>, i: usize, is_mut: bool)
    ensures
        tv(final(out)@) == tv(old(out)@) + arm_cast(i as nat, is_mut),
{
    push_open(out, Delim::Paren);
    push_id(out, "self");
    push_p(out, '.');
    push_lit(out, "0");
    push_close(out, Delim::Paren);
    push_p(out, '.');
    push_lit_dec(out, i);
    push_id(out, "as");
    push_ptr(out, is_mut);
    push_ty(out, i);
    push_p(out, ';');
    proof {
        assert(tv(out@) =~= tv(old(out)@) + arm_cast(i as nat, is_mut));
    }
}

fn push_arm_reref(out: &mut Vec<Tok>, i: usize, is_mut: bool)
    ensures
        tv(final(out)@) == tv(old(out)@) + arm_reref(i as nat, is_mut),
{
    push_id(out, "let");
    push_id(out, "ptr");
    push_p(out, ':');
    push_p(out, '&');
    push_mut(out, is_mut);
    push_ty(out, i);
    push_p(out, '=');
    push_id(out, "unsafe");
    push_open(out, Delim::Brace);
    push_p(out, '&');
    push_mut(out, is_mut);
    push_p(out, '*');
    push_id(out, "ptr");
    push_close(out, Delim::Brace);
    push_p(out, ';');
    proof {
        assert(tv(out@) =~= tv(old(out)@) + arm_reref(i as nat, is_mut));
    }
}

fn push_arm_widen(out: &mut Vec<Tok>, bounds: &Vec<Vec<Tok>>, is_mut: bool)
    ensures
        tv(final(out)@) == tv(old(out)@) + arm_widen(tvv(bounds@), is_mut),
{
    push_id(out, "let");
    push_id(out, "dyn_ptr");
    push_p(out, ':');
    push_p(out, '&');
    push_mut(out, is_mut);
    push_open(out, Delim::Paren);
    push_id(out, "dyn");
    push_bounds(out, bounds);
    push_close(out, Delim::Paren);
    push_p(out, '=');
    push_id(out, "ptr");
    push_p(out, ';');
    push_id(out, "Some");
    push_open(out, Delim::Paren);
    push_id(out, "dyn_ptr");
    push_close(out, Delim::Paren);
    push_close(out, Delim::Brace);
    push_p(out, ',');
    proof {
        assert(tv(out@) =~= tv(old(out)@) + arm_widen(tvv(bounds@), is_mut));
    }
}

/// Appends one match arm.
fn push_arm(out: &mut Vec<Tok>, i: usize, bounds: &Vec<Vec<Tok>>, is_mut: bool)
    ensures
        tv(final(out)@) == tv(old(out)@) + arm(i as nat, tvv(bounds@), is_mut),
{
    push_arm_head(out, i, is_mut);
    push_arm_cast(out, i, is_mut);
    push_arm_reref(out, i, is_mut);
    push_arm_widen(out, bounds, is_mut);
    proof {
        assert(tv(out@) =~= tv(old(out)@) + arm(i as nat, tvv(bounds@), is_mut));
    }
}

/// Appends the match arms for positions `0` up to `n - 1`.
fn push_arms(out: &mut Vec<Tok>, n: usize, bounds: &Vec<Vec<Tok>>, is_mut: bool)
    ensures
        tv(final(out)@) == tv(old(out)@) + arms(n as nat, tvv(bounds@), is_mut),
{
    let ghost base = tv(old(out)@);
    let ghost bv = tvv(bounds@);
    let mut i: usize = 0;
    while i < n
        invariant
            i <= n,
            bv == tvv(bounds@),
            tv(out@) == base + arms(i as nat, bv, is_mut),
        decreases n - i,
    {
        push_arm(out, i, bounds, is_mut);
        proof {
            assert(arms((i + 1) as nat, bv, is_mut) == arms(i as nat, bv, is_mut) + arm(
                i as nat,
                bv,
                is_mut,
            ));
            assert(base + arms(i as nat, bv, is_mut) + arm(i as nat, bv, is_mut) =~= base + arms(
                (i + 1) as nat,
                bv,
                is_mut,
            ));
        }
        i += 1;
    }
    proof {
        assert(base + arms(0, bv, is_mut) =~= base);
    }
}

fn push_struct_decl(out: &mut Vec<Tok>)
    ensures
        tv(final(out)@) == tv(old(out)@) + struct_decl(),
{
    push_id(out, "struct");
    push_id(out, "__TupleIter");
    push_p(out, '<');
    push_id(out, "T");
    push_p(out, '>');
    push_open(out, Delim::Paren);
    push_id(out, "T");
    push_p(out, ',');
    push_id(out, "usize");
    push_close(out, Delim::Paren);
    push_p(out, ';');
    proof {
        assert(tv(out@) =~= tv(old(out)@) + struct_decl());
    }
}

#[verifier::rlimit(100)]
fn push_impl_header(out: &mut Vec<Tok>, n: usize, bounds: &Vec<Vec<Tok>>, is_mut: bool)
    ensures
        tv(final(out)@) == tv(old(out)@) + impl_header(n as nat, tvv(bounds@), is_mut),
{
    push_id(out, "impl");
    push_p(out, '<');
    push_lt(out, "t");
    push_p(out, ',');
    push_ty_params(out, n);
    push_p(out, '>');
    push_id(out, "Iterator");
    push_id(out, "for");
    push_id(out, "__TupleIter");
    push_p(out, '<');
    push_p(out, '&');
    push_lt(out, "t");
    push_mut(out, is_mut);
    push_open(out, Delim::Paren);
    push_ty_params(out, n);
    push_close(out, Delim::Paren);
    push_p(out, '>');
    push_id(out, "where");
    push_where(out, n, bounds);
    proof {
        assert(tv(out@) =~= tv(old(out)@) + impl_header(n as nat, tvv(bounds@), is_mut));
    }
}

fn push_item_decl(out: &mut Vec<Tok>, bounds: &Vec<Vec<Tok>>, is_mut: bool)
    ensures
        tv(final(out)@) == tv(old(out)@) + item_decl(tvv(bounds@), is_mut),
{
    push_id(out, "type");
    push_id(out, "Item");
    push_p(out, '=');
    push_p(out, '&');
    push_lt(out, "t");
    push_mut(out, is_mut);
    push_open(out, Delim::Paren);
    push_id(out, "dyn");
    push_bounds(out, bounds);
    push_close(out, Delim::Paren);
    push_p(out, ';');
    proof {
        assert(tv(out@) =~= tv(old(out)@) + item_decl(tvv(bounds@), is_mut));
    }
}

#[verifier::rlimit(100)]
fn push_next_fn(out: &mut Vec<Tok>, n: usize, bounds: &Vec<Vec<Tok>>, is_mut: bool)
    ensures
        tv(final(out)@) == tv(old(out)@) + next_fn(n as nat, tvv(bounds@), is_mut),
{
    push_id(out, "fn");
    push_id(out, "next");
    push_open(out, Delim::Paren);
    push_p(out, '&');
    push_id(out, "mut");
    push_id(out, "self");
    push_close(out, Delim::Paren);
    push_pj(out, '-');
    push_p(out, '>');
    push_id(out, "Option");
    push_p(out, '<');
    push_id(out, "Self");
    push_pj(out, ':');
    push_p(out, ':');
    push_id(out, "Item");
    push_p(out, '>');
    push_open(out, Delim::Brace);
    push_id(out, "match");
    push_id(out, "self");
    push_p(out, '.');
    push_lit(out, "1");
    push_open(out, Delim::Brace);
    push_arms(out, n, bounds, is_mut);
    push_id(out, "_");
    push_pj(out, '=');
    push_p(out, '>');
    push_id(out, "None");
    push_p(out, ',');
    push_close(out, Delim::Brace);
    push_close(out, Delim::Brace);
    proof {
        assert(tv(out@) =~= tv(old(out)@) + next_fn(n as nat, tvv(bounds@), is_mut));
    }
}

fn push_ctor(out: &mut Vec<Tok>, expr: &Vec<Tok>, is_mut: bool)
    ensures
        tv(final(out)@) == tv(old(out)@) + ctor(tv(expr@), is_mut),
{
    push_id(out, "__TupleIter");
    push_open(out, Delim::Paren);
    push_p(out, '&');
    push_mut(out, is_mut);
    push_toks(out, expr);
    push_p(out, ',');
    push_lit(out, "0");
    push_close(out, Delim::Paren);
    proof {
        assert(tv(out@) =~= tv(old(out)@) + ctor(tv(expr@), is_mut));
    }
}

/// Emits the generated construct for a parsed invocation: exactly the
/// token sequence [`spec_synth`] gives.
pub fn synthesize(input: &Input, is_mut: bool) -> (r: Vec<Tok>)
    ensures
        tv(r@) == spec_synth(input@, is_mut),
{
    let mut out: Vec<Tok> = Vec::new();
    push_open(&mut out, Delim::Brace);
    push_struct_decl(&mut out);
    push_impl_header(&mut out, input.count, &input.bounds, is_mut);
    push_open(&mut out, Delim::Brace);
    push_item_decl(&mut out, &input.bounds, is_mut);
    push_next_fn(&mut out, input.count, &input.bounds, is_mut);
    push_close(&mut out, Delim::Brace);
    push_ctor(&mut out, &input.expr, is_mut);
    push_close(&mut out, Delim::Brace);
    proof {
        assert(tv(out@) =~= spec_synth(input@, is_mut));
    }
    out
}

} // verus!
