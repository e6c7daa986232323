//! The specification parser: turns a flat token sequence of the form
//! `expr , ( bound + bound + ... ; count )` into a structured [`Input`],
//! or reports the first structural mismatch together with the index of the
//! offending token.
//!
//! The grammar decisions are these. The expression extends to the first
//! comma outside every group at which the tokens before it form a
//! well-formed expression — commas inside a turbofish or a closure's
//! parameter list do not end it, since the tokens before them are no
//! expression. The comma is followed by exactly one parenthesized group,
//! which must close at the very end of the input. Inside the group, the
//! bound list extends to the first semicolon outside every nested group;
//! it is split on the plus signs that stand outside every nested group,
//! each piece must be non-empty and a well-formed bound. After the
//! semicolon stands exactly one unsigned integer literal — any base,
//! underscores and a suffix included, exactly as syn reads one — whose
//! value must fit the machine's word: the arity. An arity of zero is
//! accepted and yields a construct that ends at once.

use vstd::prelude::*;

use crate::token::{tv, spec_render, render, Tok, TokV, Delim};
use crate::token::{lemma_tv_push, lemma_tv_len, lemma_tv_index};

verus! {

broadcast use lemma_tv_push, lemma_tv_len, lemma_tv_index;

/// Whether a character sequence parses as one expression.
pub uninterp spec fn valid_expr(s: Seq<char>) -> bool;

/// Whether a character sequence parses as one bound (a trait bound or a
/// lifetime bound).
pub uninterp spec fn valid_bound(s: Seq<char>) -> bool;

/// Relies on syn::parse_str::<syn::Expr>: whether the text is a well-formed
/// expression depends on the characters alone.
#[verifier::external_body]
fn is_expr(text: &Vec<char>) -> (r: bool)
    ensures
        r == valid_expr(text@),
{
    let s: String = text.iter().collect();
    syn::parse_str::<syn::Expr>(&s).is_ok()
}

/// Relies on syn::parse_str::<syn::TypeParamBound>: whether the text is a
/// well-formed bound depends on the characters alone.
#[verifier::external_body]
fn is_bound(text: &Vec<char>) -> (r: bool)
    ensures
        r == valid_bound(text@),
{
    let s: String = text.iter().collect();
    syn::parse_str::<syn::TypeParamBound>(&s).is_ok()
}

/// The base-ten digits of an unsigned integer literal, as syn normalizes
/// them; nothing for a literal that is not an integer.
pub uninterp spec fn lit_digits(s: Seq<char>) -> Option<Seq<char>>;

/// Relies on syn::parse_str::<syn::LitInt> and syn::LitInt::base10_digits:
/// whether a literal's text is an integer literal — any base, underscores
/// and a suffix included — and the base-ten digits of its value depend on
/// the text alone.
#[verifier::external_body]
fn int_lit_digits(text: &Vec<char>) -> (r: Option<Vec<char>>)
    ensures
        match r {
            Some(d) => lit_digits(text@) == Some(d@),
            None => lit_digits(text@) is None,
        },
{
    let s: String = text.iter().collect();
    match syn::parse_str::<syn::LitInt>(&s) {
        Ok(l) => Some(l.base10_digits().chars().collect()),
        Err(_) => None,
    }
}

/// What went wrong, at which token index.
#[derive(Clone, Copy, PartialEq, Eq, Structural, Debug)]
pub enum ErrorKind {
    /// No comma stands outside every group.
    MissingComma,
    /// The first comma outside every group opens the input: the
    /// expression is empty.
    ExpectedExpr,
    /// No comma outside every group has a well-formed expression before
    /// it.
    BadExpr,
    /// The token after the comma is not an opening parenthesis.
    ExpectedParens,
    /// The groups of the input do not close properly.
    Unbalanced,
    /// Tokens follow the closing parenthesis of the group.
    TrailingTokens,
    /// The bound list before the semicolon is empty.
    EmptyBounds,
    /// A piece of the bound list between plus signs is empty.
    ExpectedBound,
    /// A piece of the bound list is not a well-formed bound.
    BadBound,
    /// No semicolon stands inside the group outside every nested group.
    MissingSemicolon,
    /// The arity is missing or is not an unsigned integer literal.
    ExpectedCount,
    /// Tokens follow the arity literal inside the group.
    ExtraToken,
    /// The arity does not fit the machine's word.
    CountOverflow,
}

/// A parse failure: its kind and the index of the token it points at (the
/// input's length when the input ended too early).
#[derive(Clone, Copy, PartialEq, Eq, Structural, Debug)]
pub struct ParseError {
    pub kind: ErrorKind,
    pub pos: usize,
}

/// Builds a parse failure at a mathematical index.
pub open spec fn err(kind: ErrorKind, pos: int) -> ParseError {
    ParseError { kind, pos: pos as usize }
}

/// The structured form of one invocation: the tuple expression's tokens,
/// the bound pieces, and the arity.
#[derive(Debug)]
pub struct Input {
    pub expr: Vec<Tok>,
    pub bounds: Vec<Vec<Tok>>,
    pub count: usize,
}

/// The mathematical form of an [`Input`].
pub struct InputV {
    pub expr: Seq<TokV>,
    pub bounds: Seq<Seq<TokV>>,
    pub count: nat,
}

/// The view of a sequence of token vectors, vector by vector.
pub open spec fn tvv(v: Seq<Vec<Tok>>) -> Seq<Seq<TokV>>
    decreases v.len(),
{
    if v.len() == 0 {
        Seq::empty()
    } else {
        tvv(v.drop_last()).push(tv(v.last()@))
    }
}

pub broadcast proof fn lemma_tvv_len(s: Seq<Vec<Tok>>)
    ensures
        #[trigger] tvv(s).len() == s.len(),
    decreases s.len(),
{
    if s.len() > 0 {
        lemma_tvv_len(s.drop_last());
    }
}

pub broadcast proof fn lemma_tvv_index(s: Seq<Vec<Tok>>, i: int)
    requires
        0 <= i < s.len(),
    ensures
        #[trigger] tvv(s)[i] == tv(s[i]@),
    decreases s.len(),
{
    lemma_tvv_len(s);
    lemma_tvv_len(s.drop_last());
    if i < s.len() - 1 {
        lemma_tvv_index(s.drop_last(), i);
    }
}

impl View for Input {
    type V = InputV;

    open spec fn view(&self) -> InputV {
        InputV { expr: tv(self.expr@), bounds: tvv(self.bounds@), count: self.count as nat }
    }
}

/// How a token changes the nesting depth.
pub open spec fn tok_delta(t: TokV) -> int {
    match t {
        TokV::Open(_) => 1,
        TokV::Close(_) => -1,
        _ => 0,
    }
}

/// Whether a token is the given punctuation character, joined or not.
pub open spec fn is_punct(t: TokV, c: char) -> bool {
    match t {
        TokV::Punct(c2, _) => c2 == c,
        _ => false,
    }
}

/// The first index at or after `i` holding punctuation `c` at depth zero,
/// where `d` is the depth at `i`.
pub open spec fn find_top(toks: Seq<TokV>, i: int, d: int, c: char) -> Option<int>
    decreases toks.len() - i,
{
    if i < 0 || i >= toks.len() {
        None
    } else if d == 0 && is_punct(toks[i], c) {
        Some(i)
    } else {
        find_top(toks, i + 1, d + tok_delta(toks[i]), c)
    }
}

/// The index of the closing bracket that ends the group whose contents
/// start at `i`, where `d` is the number of groups open at `i`.
pub open spec fn find_group_end(toks: Seq<TokV>, i: int, d: int) -> Option<int>
    decreases toks.len() - i,
{
    if i < 0 || i >= toks.len() {
        None
    } else if toks[i] is Close {
        if d == 1 {
            Some(i)
        } else {
            find_group_end(toks, i + 1, d - 1)
        }
    } else if toks[i] is Open {
        find_group_end(toks, i + 1, d + 1)
    } else {
        find_group_end(toks, i + 1, d)
    }
}

pub proof fn lemma_find_top_range(toks: Seq<TokV>, i: int, d: int, c: char)
    requires
        0 <= i,
        find_top(toks, i, d, c) is Some,
    ensures
        i <= find_top(toks, i, d, c)->Some_0 < toks.len(),
    decreases toks.len() - i,
{
    if !(i >= toks.len()) && !(d == 0 && is_punct(toks[i], c)) {
        lemma_find_top_range(toks, i + 1, d + tok_delta(toks[i]), c);
    }
}

/// The end of the tuple expression: the first comma at or after `i`,
/// outside every group, at which the tokens before it form a well-formed
/// expression; `d` is the depth at `i`. A comma inside a turbofish or
/// between a closure's parameters does not split, since what stands before
/// it is no expression.
pub open spec fn find_expr_split(toks: Seq<TokV>, i: int, d: int) -> Option<int>
    decreases toks.len() - i,
{
    if i < 0 || i >= toks.len() {
        None
    } else if d == 0 && is_punct(toks[i], ',') && valid_expr(spec_render(toks.take(i))) {
        Some(i)
    } else {
        find_expr_split(toks, i + 1, d + tok_delta(toks[i]))
    }
}

pub proof fn lemma_find_expr_split_range(toks: Seq<TokV>, i: int, d: int)
    requires
        0 <= i,
        find_expr_split(toks, i, d) is Some,
    ensures
        i <= find_expr_split(toks, i, d)->Some_0 < toks.len(),
    decreases toks.len() - i,
{
    if !(i >= toks.len()) && !(d == 0 && is_punct(toks[i], ',') && valid_expr(
        spec_render(toks.take(i)),
    )) {
        lemma_find_expr_split_range(toks, i + 1, d + tok_delta(toks[i]));
    }
}

pub proof fn lemma_find_group_end_range(toks: Seq<TokV>, i: int, d: int)
    requires
        0 <= i,
        find_group_end(toks, i, d) is Some,
    ensures
        i <= find_group_end(toks, i, d)->Some_0 < toks.len(),
    decreases toks.len() - i,
{
    if i < toks.len() {
        if toks[i] is Close {
            if d != 1 {
                lemma_find_group_end_range(toks, i + 1, d - 1);
            }
        } else if toks[i] is Open {
            lemma_find_group_end_range(toks, i + 1, d + 1);
        } else {
            lemma_find_group_end_range(toks, i + 1, d);
        }
    }
}

/// Whether a character is a decimal digit.
pub open spec fn is_digit(c: char) -> bool {
    48 <= c as u32 && c as u32 <= 57
}

/// Whether a non-empty character sequence is all decimal digits.
pub open spec fn all_digits(s: Seq<char>) -> bool {
    s.len() > 0 && forall|i: int| 0 <= i < s.len() ==> is_digit(#[trigger] s[i])
}

/// The value of a decimal digit.
pub open spec fn digit_val(c: char) -> nat {
    (c as u32 - 48) as nat
}

/// The value of a sequence of decimal digits.
pub open spec fn dec_val(s: Seq<char>) -> nat
    decreases s.len(),
{
    if s.len() == 0 {
        0
    } else {
        dec_val(s.drop_last()) * 10 + digit_val(s.last())
    }
}

/// A digit sequence is worth at least any of its prefixes.
pub proof fn lemma_dec_val_prefix(s: Seq<char>, j: int)
    requires
        0 <= j <= s.len(),
    ensures
        dec_val(s.take(j)) <= dec_val(s),
    decreases s.len() - j,
{
    if j < s.len() {
        lemma_dec_val_prefix(s, j + 1);
        assert(s.take(j + 1).drop_last() =~= s.take(j));
        assert(dec_val(s.take(j)) <= dec_val(s.take(j + 1)));
    } else {
        assert(s.take(j) =~= s);
    }
}

/// The arity part: after the semicolon must stand exactly one unsigned
/// integer literal whose value fits the machine's word. The literal is
/// whatever syn reads as one, through its base-ten digits [`lit_digits`];
/// a float, a string or any other literal is none.
pub open spec fn parse_count(
    rest: Seq<TokV>,
    off: int,
    expr: Seq<TokV>,
    bounds: Seq<Seq<TokV>>,
) -> Result<InputV, ParseError> {
    if rest.len() == 0 {
        Err(err(ErrorKind::ExpectedCount, off))
    } else {
        match rest[0] {
            TokV::Lit(s) => match lit_digits(s) {
                None => Err(err(ErrorKind::ExpectedCount, off)),
                Some(d) => if !all_digits(d) {
                    Err(err(ErrorKind::ExpectedCount, off))
                } else if dec_val(d) > usize::MAX as nat {
                    Err(err(ErrorKind::CountOverflow, off))
                } else if rest.len() > 1 {
                    Err(err(ErrorKind::ExtraToken, off + 1))
                } else {
                    Ok(InputV { expr, bounds, count: dec_val(d) })
                },
            },
            _ => Err(err(ErrorKind::ExpectedCount, off)),
        }
    }
}

/// The bound list: split on the plus signs outside every nested group;
/// every piece must be non-empty and a well-formed bound.
pub open spec fn split_bounds(bs: Seq<TokV>, off: int) -> Result<Seq<Seq<TokV>>, ParseError>
    decreases bs.len()
    via split_bounds_dec
{
    match find_top(bs, 0, 0, '+') {
        None => if bs.len() == 0 {
            Err(err(ErrorKind::ExpectedBound, off))
        } else if !valid_bound(spec_render(bs)) {
            Err(err(ErrorKind::BadBound, off))
        } else {
            Ok(seq![bs])
        },
        Some(p) => if p == 0 {
            Err(err(ErrorKind::ExpectedBound, off))
        } else if !valid_bound(spec_render(bs.take(p))) {
            Err(err(ErrorKind::BadBound, off))
        } else {
            match split_bounds(bs.skip(p + 1), off + p + 1) {
                Err(e) => Err(e),
                Ok(rest) => Ok(seq![bs.take(p)] + rest),
            }
        },
    }
}

#[via_fn]
proof fn split_bounds_dec(bs: Seq<TokV>, off: int) {
    if find_top(bs, 0, 0, '+') is Some {
        lemma_find_top_range(bs, 0, 0, '+');
    }
}

/// The contents of the parenthesized group: the bound list, the semicolon,
/// then the arity. `off` is the group contents' first token index in the
/// whole input.
pub open spec fn parse_inner(inner: Seq<TokV>, off: int, expr: Seq<TokV>) -> Result<
    InputV,
    ParseError,
> {
    match find_top(inner, 0, 0, ';') {
        None => Err(err(ErrorKind::MissingSemicolon, off + inner.len())),
        Some(sp) => if sp == 0 {
            Err(err(ErrorKind::EmptyBounds, off))
        } else {
            match split_bounds(inner.take(sp), off) {
                Err(e) => Err(e),
                Ok(bounds) => parse_count(inner.skip(sp + 1), off + sp + 1, expr, bounds),
            }
        },
    }
}

/// The whole grammar: an expression, a comma, then one parenthesized group
/// holding the bound list, a semicolon and the arity, closing at the end of
/// the input. When no comma splits off a well-formed expression, the error
/// names what is missing: the comma where there is none at all, the
/// expression where the first comma opens the input, the expression's form
/// otherwise.
pub open spec fn spec_parse(toks: Seq<TokV>) -> Result<InputV, ParseError> {
    let n = toks.len() as int;
    match find_expr_split(toks, 0, 0) {
        None => match find_top(toks, 0, 0, ',') {
            None => Err(err(ErrorKind::MissingComma, n)),
            Some(k0) => if k0 == 0 {
                Err(err(ErrorKind::ExpectedExpr, 0))
            } else {
                Err(err(ErrorKind::BadExpr, 0))
            },
        },
        Some(k) => if k + 1 >= n || !(toks[k + 1] == TokV::Open(Delim::Paren)) {
            Err(err(ErrorKind::ExpectedParens, k + 1))
        } else {
            match find_group_end(toks, k + 2, 1) {
                None => Err(err(ErrorKind::Unbalanced, n)),
                Some(m) => if m != n - 1 {
                    Err(err(ErrorKind::TrailingTokens, m + 1))
                } else if !(toks[m] == TokV::Close(Delim::Paren)) {
                    Err(err(ErrorKind::Unbalanced, m))
                } else {
                    parse_inner(toks.subrange(k + 2, m), k + 2, toks.take(k))
                },
            }
        },
    }
}

/// Finds the first punctuation `c` outside every group, scanning the whole
/// vector.
fn find_top_x(toks: &Vec<Tok>, c: char) -> (r: Option<usize>)
    ensures
        match r {
            Some(k) => find_top(tv(toks@), 0, 0, c) == Some(k as int),
            None => find_top(tv(toks@), 0, 0, c) is None,
        },
{
    let ghost s = tv(toks@);
    proof {
        lemma_tv_len(toks@);
    }
    let mut i: usize = 0;
    let mut d: i128 = 0;
    while i < toks.len()
        invariant
            i <= toks.len(),
            -(i as int) <= d as int <= i as int,
            s == tv(toks@),
            s.len() == toks.len(),
            find_top(s, 0, 0, c) == find_top(s, i as int, d as int, c),
        decreases toks.len() - i,
    {
        proof {
            lemma_tv_index(toks@, i as int);
        }
        let hit = match &toks[i] {
            Tok::Punct(c2, _) => *c2 == c && d == 0,
            _ => false,
        };
        if hit {
            return Some(i);
        }
        match &toks[i] {
            Tok::Open(_) => {
                d = d + 1;
            },
            Tok::Close(_) => {
                d = d - 1;
            },
            _ => {},
        }
        i += 1;
    }
    None
}

/// Finds the comma that ends the tuple expression: the first one outside
/// every group whose preceding tokens render to a well-formed expression.
fn find_expr_split_x(toks: &Vec<Tok>) -> (r: Option<usize>)
    ensures
        match r {
            Some(k) => find_expr_split(tv(toks@), 0, 0) == Some(k as int),
            None => find_expr_split(tv(toks@), 0, 0) is None,
        },
{
    let ghost s = tv(toks@);
    proof {
        lemma_tv_len(toks@);
    }
    let mut i: usize = 0;
    let mut d: i128 = 0;
    while i < toks.len()
        invariant
            i <= toks.len(),
            -(i as int) <= d as int <= i as int,
            s == tv(toks@),
            s.len() == toks.len(),
            find_expr_split(s, 0, 0) == find_expr_split(s, i as int, d as int),
        decreases toks.len() - i,
    {
        proof {
            lemma_tv_index(toks@, i as int);
        }
        let comma = match &toks[i] {
            Tok::Punct(c2, _) => *c2 == ',' && d == 0,
            _ => false,
        };
        if comma {
            let prefix = copy_range(toks, 0, i);
            proof {
                assert(tv(prefix@) =~= s.take(i as int));
            }
            let text = render(&prefix);
            if is_expr(&text) {
                return Some(i);
            }
        }
        match &toks[i] {
            Tok::Open(_) => {
                d = d + 1;
            },
            Tok::Close(_) => {
                d = d - 1;
            },
            _ => {},
        }
        i += 1;
    }
    None
}

/// Finds the closing bracket of the group whose contents start at `from`,
/// with one group open there.
fn find_group_end_x(toks: &Vec<Tok>, from: usize) -> (r: Option<usize>)
    requires
        1 <= from <= toks.len(),
    ensures
        match r {
            Some(m) => find_group_end(tv(toks@), from as int, 1) == Some(m as int),
            None => find_group_end(tv(toks@), from as int, 1) is None,
        },
{
    let ghost s = tv(toks@);
    proof {
        lemma_tv_len(toks@);
    }
    let mut i: usize = from;
    let mut d: usize = 1;
    while i < toks.len()
        invariant
            1 <= from,
            from <= i <= toks.len(),
            1 <= d,
            d as int <= 1 + i as int - from as int,
            s == tv(toks@),
            s.len() == toks.len(),
            find_group_end(s, from as int, 1) == find_group_end(s, i as int, d as int),
        decreases toks.len() - i,
    {
        proof {
            lemma_tv_index(toks@, i as int);
        }
        match &toks[i] {
            Tok::Close(_) => {
                if d == 1 {
                    return Some(i);
                }
                d = d - 1;
            },
            Tok::Open(_) => {
                d = d + 1;
            },
            _ => {},
        }
        i += 1;
    }
    None
}

/// Copies the tokens of the range `[a, b)`.
pub fn copy_range(toks: &Vec<Tok>, a: usize, b: usize) -> (r: Vec<Tok>)
    requires
        a <= b <= toks.len(),
    ensures
        tv(r@) == tv(toks@).subrange(a as int, b as int),
{
    let mut out: Vec<Tok> = Vec::new();
    let mut i: usize = a;
    while i < b
        invariant
            a <= i <= b <= toks.len(),
            tv(out@) == tv(toks@).subrange(a as int, i as int),
        decreases b - i,
    {
        proof {
            lemma_tv_index(toks@, i as int);
        }
        out.push(toks[i].clone());
        proof {
            assert(tv(toks@).subrange(a as int, i as int + 1) =~= tv(toks@).subrange(
                a as int,
                i as int,
            ).push(tv(toks@)[i as int]));
        }
        i += 1;
    }
    assert(tv(out@) =~= tv(toks@).subrange(a as int, b as int));
    out
}

/// Splits the bound-list region on the plus signs outside every nested
/// group, validating each piece.
#[verifier::loop_isolation(false)]
fn split_bounds_x(bs: Vec<Tok>, off: usize) -> (r: Result<Vec<Vec<Tok>>, ParseError>)
    requires
        off + bs.len() <= usize::MAX,
    ensures
        match r {
            Ok(v) => split_bounds(tv(bs@), off as int) == Ok::<Seq<Seq<TokV>>, ParseError>(
                tvv(v@),
            ),
            Err(e) => split_bounds(tv(bs@), off as int) == Err::<Seq<Seq<TokV>>, ParseError>(e),
        },
{
    broadcast use lemma_tvv_len;

    let ghost full = tv(bs@);
    proof {
        lemma_tv_len(bs@);
    }
    let mut acc: Vec<Vec<Tok>> = Vec::new();
    let mut rem: Vec<Tok> = bs;
    let mut off_now: usize = off;
    proof {
        let sub0 = split_bounds(full, off as int);
        match sub0 {
            Ok(rest) => {
                assert(tvv(acc@) + rest =~= rest);
            },
            Err(_) => {},
        }
    }
    loop
        invariant
            off_now as int == off as int + full.len() - rem.len(),
            off_now as int + rem.len() <= usize::MAX,
            ({
                let sub = split_bounds(tv(rem@), off_now as int);
                match sub {
                    Ok(rest) => split_bounds(full, off as int) == Ok::<
                        Seq<Seq<TokV>>,
                        ParseError,
                    >(tvv(acc@) + rest),
                    Err(e) => split_bounds(full, off as int) == Err::<
                        Seq<Seq<TokV>>,
                        ParseError,
                    >(e),
                }
            }),
        decreases rem.len(),
    {
        proof {
            lemma_tv_len(rem@);
        }
        let ghost rem_seq = rem@;
        let ghost r_old = tv(rem@);
        let ghost acc_vec_old = acc@;
        let ghost off_old = off_now as int;
        match find_top_x(&rem, '+') {
            None => {
                if rem.len() == 0 {
                    assert(split_bounds(r_old, off_old) == Err::<Seq<Seq<TokV>>, ParseError>(
                        err(ErrorKind::ExpectedBound, off_old),
                    ));
                    return Err(ParseError { kind: ErrorKind::ExpectedBound, pos: off_now });
                }
                let text = render(&rem);
                if !is_bound(&text) {
                    assert(split_bounds(r_old, off_old) == Err::<Seq<Seq<TokV>>, ParseError>(
                        err(ErrorKind::BadBound, off_old),
                    ));
                    return Err(ParseError { kind: ErrorKind::BadBound, pos: off_now });
                }
                proof {
                    assert(split_bounds(r_old, off_old) == Ok::<Seq<Seq<TokV>>, ParseError>(
                        seq![r_old],
                    ));
                }
                acc.push(rem);
                proof {
                    let accs = acc@;
                    assert(accs.drop_last() =~= acc_vec_old);
                    assert(accs.last()@ == rem_seq);
                    assert(tvv(accs) == tvv(acc_vec_old).push(r_old));
                    assert(tvv(acc_vec_old).push(r_old) =~= tvv(acc_vec_old) + seq![r_old]);
                }
                return Ok(acc);
            },
            Some(p) => {
                proof {
                    lemma_find_top_range(r_old, 0, 0, '+');
                }
                if p == 0 {
                    assert(split_bounds(r_old, off_old) == Err::<Seq<Seq<TokV>>, ParseError>(
                        err(ErrorKind::ExpectedBound, off_old),
                    ));
                    return Err(ParseError { kind: ErrorKind::ExpectedBound, pos: off_now });
                }
                let seg = copy_range(&rem, 0, p);
                let ghost seg_seq = seg@;
                proof {
                    assert(tv(seg@) =~= r_old.take(p as int));
                }
                let text = render(&seg);
                if !is_bound(&text) {
                    assert(split_bounds(r_old, off_old) == Err::<Seq<Seq<TokV>>, ParseError>(
                        err(ErrorKind::BadBound, off_old),
                    ));
                    return Err(ParseError { kind: ErrorKind::BadBound, pos: off_now });
                }
                let new_rem = copy_range(&rem, p + 1, rem.len());
                proof {
                    assert(tv(new_rem@) =~= r_old.skip(p as int + 1));
                }
                acc.push(seg);
                off_now = off_now + p + 1;
                rem = new_rem;
                proof {
                    lemma_tv_len(rem@);
                    let accs = acc@;
                    assert(accs.drop_last() =~= acc_vec_old);
                    assert(accs.last()@ == seg_seq);
                    assert(tvv(accs) == tvv(acc_vec_old).push(r_old.take(p as int)));
                    let sub = split_bounds(tv(rem@), off_now as int);
                    match sub {
                        Ok(rest) => {
                            assert(split_bounds(r_old, off_old) == Ok::<
                                Seq<Seq<TokV>>,
                                ParseError,
                            >(seq![r_old.take(p as int)] + rest));
                            assert(tvv(acc_vec_old) + (seq![r_old.take(p as int)] + rest)
                                =~= tvv(acc_vec_old).push(r_old.take(p as int)) + rest);
                        },
                        Err(_) => {},
                    }
                }
            },
        }
    }
}

/// Reads the arity literal and assembles the parsed invocation.
#[verifier::loop_isolation(false)]
fn parse_count_x(rest: Vec<Tok>, off: usize, expr: Vec<Tok>, bounds: Vec<Vec<Tok>>) -> (r: Result<
    Input,
    ParseError,
>)
    requires
        off + rest.len() <= usize::MAX,
    ensures
        match r {
            Ok(inp) => parse_count(tv(rest@), off as int, tv(expr@), tvv(bounds@)) == Ok::<
                InputV,
                ParseError,
            >(inp@),
            Err(e) => parse_count(tv(rest@), off as int, tv(expr@), tvv(bounds@)) == Err::<
                InputV,
                ParseError,
            >(e),
        },
{
    proof {
        lemma_tv_len(rest@);
    }
    if rest.len() == 0 {
        return Err(ParseError { kind: ErrorKind::ExpectedCount, pos: off });
    }
    proof {
        lemma_tv_index(rest@, 0);
    }
    let text: &Vec<char> = match &rest[0] {
        Tok::Lit(s) => s,
        _ => {
            return Err(ParseError { kind: ErrorKind::ExpectedCount, pos: off });
        },
    };
    let digits: Vec<char> = match int_lit_digits(text) {
        Some(d) => d,
        None => {
            return Err(ParseError { kind: ErrorKind::ExpectedCount, pos: off });
        },
    };
    if digits.len() == 0 {
        return Err(ParseError { kind: ErrorKind::ExpectedCount, pos: off });
    }
    let mut j: usize = 0;
    while j < digits.len()
        invariant
            j <= digits.len(),
            forall|i: int| 0 <= i < j ==> is_digit(#[trigger] digits@[i]),
        decreases digits.len() - j,
    {
        let u = digits[j] as u32;
        if u < 48 || u > 57 {
            return Err(ParseError { kind: ErrorKind::ExpectedCount, pos: off });
        }
        j += 1;
    }
    assert(all_digits(digits@));
    let mut acc: usize = 0;
    let mut j: usize = 0;
    while j < digits.len()
        invariant
            j <= digits.len(),
            all_digits(digits@),
            acc as nat == dec_val(digits@.take(j as int)),
        decreases digits.len() - j,
    {
        let d: u32 = digits[j] as u32 - 48;
        let wide: u128 = acc as u128 * 10 + d as u128;
        proof {
            assert(digits@.take(j as int + 1).drop_last() =~= digits@.take(j as int));
            assert(dec_val(digits@.take(j as int + 1)) == dec_val(digits@.take(j as int)) * 10
                + digit_val(digits@[j as int]));
        }
        if wide > usize::MAX as u128 {
            proof {
                lemma_dec_val_prefix(digits@, j as int + 1);
            }
            return Err(ParseError { kind: ErrorKind::CountOverflow, pos: off });
        }
        acc = wide as usize;
        j += 1;
    }
    assert(digits@.take(digits.len() as int) =~= digits@);
    if rest.len() > 1 {
        return Err(ParseError { kind: ErrorKind::ExtraToken, pos: off + 1 });
    }
    let inp = Input { expr, bounds, count: acc };
    proof {
        assert(tv(rest@).len() == 1);
        assert(tv(rest@)[0] == TokV::Lit(text@));
        assert(parse_count(tv(rest@), off as int, tv(expr@), tvv(bounds@)) == Ok::<
            InputV,
            ParseError,
        >(inp@));
    }
    Ok(inp)
}

/// Parses the contents of the parenthesized group, whose first token stands
/// at index `off` of the whole input.
fn parse_inner_x(inner: Vec<Tok>, off: usize, expr: Vec<Tok>) -> (r: Result<Input, ParseError>)
    requires
        off + inner.len() <= usize::MAX,
    ensures
        match r {
            Ok(inp) => parse_inner(tv(inner@), off as int, tv(expr@)) == Ok::<InputV, ParseError>(
                inp@,
            ),
            Err(e) => parse_inner(tv(inner@), off as int, tv(expr@)) == Err::<InputV, ParseError>(
                e,
            ),
        },
{
    proof {
        lemma_tv_len(inner@);
    }
    let sp = match find_top_x(&inner, ';') {
        None => {
            return Err(ParseError { kind: ErrorKind::MissingSemicolon, pos: off + inner.len() });
        },
        Some(sp) => sp,
    };
    proof {
        lemma_find_top_range(tv(inner@), 0, 0, ';');
    }
    if sp == 0 {
        return Err(ParseError { kind: ErrorKind::EmptyBounds, pos: off });
    }
    let bpart = copy_range(&inner, 0, sp);
    proof {
        assert(tv(bpart@) =~= tv(inner@).take(sp as int));
    }
    let bounds = match split_bounds_x(bpart, off) {
        Err(e) => {
            return Err(e);
        },
        Ok(b) => b,
    };
    let rest = copy_range(&inner, sp + 1, inner.len());
    proof {
        assert(tv(rest@) =~= tv(inner@).skip(sp as int + 1));
    }
    parse_count_x(rest, off + sp + 1, expr, bounds)
}

impl Input {
    /// Parses one invocation. The result is exactly what the grammar
    /// [`spec_parse`] gives: the structured invocation on success, and on
    /// failure the kind and token index of the first mismatch.
    pub fn parse(toks: &Vec<Tok>) -> (r: Result<Input, ParseError>)
        ensures
            match r {
                Ok(inp) => spec_parse(tv(toks@)) == Ok::<InputV, ParseError>(inp@),
                Err(e) => spec_parse(tv(toks@)) == Err::<InputV, ParseError>(e),
            },
    {
        let ghost s = tv(toks@);
        proof {
            lemma_tv_len(toks@);
        }
        let n = toks.len();
        let k = match find_expr_split_x(toks) {
            None => {
                match find_top_x(toks, ',') {
                    None => {
                        return Err(ParseError { kind: ErrorKind::MissingComma, pos: n });
                    },
                    Some(k0) => {
                        if k0 == 0 {
                            return Err(ParseError { kind: ErrorKind::ExpectedExpr, pos: 0 });
                        }
                        return Err(ParseError { kind: ErrorKind::BadExpr, pos: 0 });
                    },
                }
            },
            Some(k) => k,
        };
        proof {
            lemma_find_expr_split_range(s, 0, 0);
        }
        let expr_vec = copy_range(toks, 0, k);
        proof {
            assert(tv(expr_vec@) =~= s.take(k as int));
        }
        if k + 1 >= n {
            return Err(ParseError { kind: ErrorKind::ExpectedParens, pos: k + 1 });
        }
        proof {
            lemma_tv_index(toks@, k as int + 1);
        }
        match &toks[k + 1] {
            Tok::Open(Delim::Paren) => {},
            _ => {
                return Err(ParseError { kind: ErrorKind::ExpectedParens, pos: k + 1 });
            },
        }
        let m = match find_group_end_x(toks, k + 2) {
            None => {
                return Err(ParseError { kind: ErrorKind::Unbalanced, pos: n });
            },
            Some(m) => m,
        };
        proof {
            lemma_find_group_end_range(s, k as int + 2, 1);
        }
        if m != n - 1 {
            return Err(ParseError { kind: ErrorKind::TrailingTokens, pos: m + 1 });
        }
        proof {
            lemma_tv_index(toks@, m as int);
        }
        match &toks[m] {
            Tok::Close(Delim::Paren) => {},
            _ => {
                return Err(ParseError { kind: ErrorKind::Unbalanced, pos: m });
            },
        }
        let inner = copy_range(toks, k + 2, m);
        parse_inner_x(inner, k + 2, expr_vec)
    }
}

} // verus!
