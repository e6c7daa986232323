//! The flat token model that the parser consumes and the synthesizer emits.
//!
//! A token stream is a sequence of tokens in which every group appears as a
//! matched `Open`/`Close` pair around its contents. Identifiers, lifetimes
//! and literals carry their text as a vector of characters; punctuation
//! carries its character and whether it is joined to the following token
//! (so that multi-character operators such as `::` or `=>` keep their shape
//! when the stream is rendered as text).

use vstd::prelude::*;

verus! {

/// The three bracket shapes a token group can carry.
#[derive(Clone, Copy, PartialEq, Eq, Structural, Debug)]
pub enum Delim {
    Paren,
    Bracket,
    Brace,
}

/// One token of a flat token stream.
#[derive(Debug)]
pub enum Tok {
    /// An identifier or keyword, as its characters.
    Ident(Vec<char>),
    /// A lifetime, as the characters of its name without the leading quote.
    Lifetime(Vec<char>),
    /// A punctuation character; the flag says whether it is joined to the
    /// next token with no intervening space.
    Punct(char, bool),
    /// A literal, as its source characters.
    Lit(Vec<char>),
    /// The opening bracket of a group.
    Open(Delim),
    /// The closing bracket of a group.
    Close(Delim),
}

/// The mathematical form of a token: text fields become `Seq<char>`.
pub enum TokV {
    Ident(Seq<char>),
    Lifetime(Seq<char>),
    Punct(char, bool),
    Lit(Seq<char>),
    Open(Delim),
    Close(Delim),
}

impl View for Tok {
    type V = TokV;

    open spec fn view(&self) -> TokV {
        match self {
            Tok::Ident(s) => TokV::Ident(s@),
            Tok::Lifetime(s) => TokV::Lifetime(s@),
            Tok::Punct(c, j) => TokV::Punct(*c, *j),
            Tok::Lit(s) => TokV::Lit(s@),
            Tok::Open(d) => TokV::Open(*d),
            Tok::Close(d) => TokV::Close(*d),
        }
    }
}

/// The view of a token sequence, token by token.
pub open spec fn tv(v: Seq<Tok>) -> Seq<TokV>
    decreases v.len(),
{
    if v.len() == 0 {
        Seq::empty()
    } else {
        tv(v.drop_last()).push(v.last()@)
    }
}

pub broadcast proof fn lemma_tv_push(s: Seq<Tok>, t: Tok)
    ensures
        #[trigger] tv(s.push(t)) == tv(s).push(t@),
{
    assert(s.push(t).drop_last() =~= s);
}

pub broadcast proof fn lemma_tv_len(s: Seq<Tok>)
    ensures
        #[trigger] tv(s).len() == s.len(),
    decreases s.len(),
{
    if s.len() > 0 {
        lemma_tv_len(s.drop_last());
    }
}

pub broadcast proof fn lemma_tv_index(s: Seq<Tok>, i: int)
    requires
        0 <= i < s.len(),
    ensures
        #[trigger] tv(s)[i] == s[i]@,
    decreases s.len(),
{
    lemma_tv_len(s);
    if i < s.len() - 1 {
        lemma_tv_index(s.drop_last(), i);
        lemma_tv_len(s.drop_last());
    }
}

impl Clone for Tok {
    /// Cloning a token keeps its view.
    fn clone(&self) -> (r: Self)
        ensures
            r@ == self@,
    {
        match self {
            Tok::Ident(s) => Tok::Ident(clone_chars(s)),
            Tok::Lifetime(s) => Tok::Lifetime(clone_chars(s)),
            Tok::Punct(c, j) => Tok::Punct(*c, *j),
            Tok::Lit(s) => Tok::Lit(clone_chars(s)),
            Tok::Open(d) => Tok::Open(*d),
            Tok::Close(d) => Tok::Close(*d),
        }
    }
}

/// Copies a character vector.
pub fn clone_chars(v: &Vec<char>) -> (r: Vec<char>)
    ensures
        r@ == v@,
{
    let mut out: Vec<char> = Vec::new();
    let mut i: usize = 0;
    while i < v.len()
        invariant
            i <= v.len(),
            out@ == v@.take(i as int),
        decreases v.len() - i,
    {
        out.push(v[i]);
        assert(v@.take(i as int + 1) =~= v@.take(i as int).push(v@[i as int]));
        i += 1;
    }
    assert(v@.take(v.len() as int) =~= v@);
    out
}

/// The opening character of a bracket shape.
pub open spec fn open_char(d: Delim) -> char {
    match d {
        Delim::Paren => '(',
        Delim::Bracket => '[',
        Delim::Brace => '{',
    }
}

/// The closing character of a bracket shape.
pub open spec fn close_char(d: Delim) -> char {
    match d {
        Delim::Paren => ')',
        Delim::Bracket => ']',
        Delim::Brace => '}',
    }
}

/// The text of one token: its characters, followed by a space unless the
/// token is punctuation joined to its successor. A lifetime is its name
/// behind a quote.
pub open spec fn render_tok(t: TokV) -> Seq<char> {
    match t {
        TokV::Ident(s) => s + seq![' '],
        TokV::Lifetime(s) => seq!['\''] + s + seq![' '],
        TokV::Punct(c, j) => if j {
            seq![c]
        } else {
            seq![c, ' ']
        },
        TokV::Lit(s) => s + seq![' '],
        TokV::Open(d) => seq![open_char(d), ' '],
        TokV::Close(d) => seq![close_char(d), ' '],
    }
}

/// The text of a token sequence: each token's text in order.
pub open spec fn spec_render(toks: Seq<TokV>) -> Seq<char>
    decreases toks.len(),
{
    if toks.len() == 0 {
        Seq::empty()
    } else {
        spec_render(toks.drop_last()) + render_tok(toks.last())
    }
}

/// Renders a token sequence as text.
pub fn render(toks: &Vec<Tok>) -> (r: Vec<char>)
    ensures
        r@ == spec_render(tv(toks@)),
{
    broadcast use lemma_tv_push, lemma_tv_len, lemma_tv_index;

    let mut out: Vec<char> = Vec::new();
    let mut i: usize = 0;
    while i < toks.len()
        invariant
            i <= toks.len(),
            out@ == spec_render(tv(toks@.take(i as int))),
        decreases toks.len() - i,
    {
        match &toks[i] {
            Tok::Ident(s) => {
                push_chars(&mut out, s);
                out.push(' ');
            },
            Tok::Lifetime(s) => {
                out.push('\'');
                push_chars(&mut out, s);
                out.push(' ');
            },
            Tok::Punct(c, j) => {
                out.push(*c);
                if !*j {
                    out.push(' ');
                }
            },
            Tok::Lit(s) => {
                push_chars(&mut out, s);
                out.push(' ');
            },
            Tok::Open(d) => {
                out.push(open_char_x(*d));
                out.push(' ');
            },
            Tok::Close(d) => {
                out.push(close_char_x(*d));
                out.push(' ');
            },
        }
        proof {
            let pre = toks@.take(i as int);
            let post = toks@.take(i as int + 1);
            assert(post =~= pre.push(toks@[i as int]));
            lemma_tv_push(pre, toks@[i as int]);
            assert(tv(post) == tv(pre).push(toks@[i as int]@));
            assert(tv(pre).push(toks@[i as int]@).drop_last() =~= tv(pre));
            assert(out@ =~= spec_render(tv(pre)) + render_tok(toks@[i as int]@));
        }
        i += 1;
    }
    assert(toks@.take(toks.len() as int) =~= toks@);
    out
}

/// Appends the characters of `s` to `out`.
pub fn push_chars(out: &mut Vec<char>, s: &Vec<char>) -> (r: ())
    ensures
        final(out)@ == old(out)@ + s@,
{
    let mut i: usize = 0;
    while i < s.len()
        invariant
            i <= s.len(),
            out@ == old(out)@ + s@.take(i as int),
        decreases s.len() - i,
    {
        out.push(s[i]);
        assert(s@.take(i as int + 1) =~= s@.take(i as int).push(s@[i as int]));
        i += 1;
    }
    assert(s@.take(s.len() as int) =~= s@);
}

/// The opening character of a bracket shape, as executable code.
pub fn open_char_x(d: Delim) -> (c: char)
    ensures
        c == open_char(d),
{
    match d {
        Delim::Paren => '(',
        Delim::Bracket => '[',
        Delim::Brace => '{',
    }
}

/// The closing character of a bracket shape, as executable code.
pub fn close_char_x(d: Delim) -> (c: char)
    ensures
        c == close_char(d),
{
    match d {
        Delim::Paren => ')',
        Delim::Bracket => ']',
        Delim::Brace => '}',
    }
}

} // verus!
