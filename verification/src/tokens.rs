//! The token model the generator works on.
//!
//! The host compiler hands a macro its input as a stream of lexical tokens;
//! this module defines the crate's own flat token representation of such a
//! stream. Bracketing delimiters appear as explicit `Open`/`Close` tokens,
//! so balance is a property the parser checks rather than one the type
//! guarantees. Keywords that the grammar inspects have variants of their
//! own; every other identifier is carried as its text.

use vstd::prelude::*;

verus! {

/// Kind of a bracketing delimiter.
#[derive(Clone, Copy, PartialEq, Eq, Structural, Debug)]
pub enum Delim {
    Paren,
    Bracket,
    Brace,
}

/// One lexical token of the surface syntax.
#[derive(Clone, Debug, PartialEq, Eq)]
pub enum Tok {
    /// An opening delimiter.
    Open(Delim),
    /// A closing delimiter.
    Close(Delim),
    /// An identifier (including keywords the grammar does not inspect).
    Ident(String),
    /// The reserved external-linkage keyword that marks an interface
    /// function when immediately followed by [`Tok::KwFn`].
    KwLinkage,
    /// The function keyword.
    KwFn,
    /// The module keyword.
    KwMod,
    /// The public-visibility keyword.
    KwPub,
    /// The receiver keyword (lowercase).
    KwSelfValue,
    /// The mutability keyword.
    KwMut,
    /// A lifetime, carried without its leading apostrophe.
    Lifetime(String),
    /// A literal, carried as its verbatim source text.
    Literal(String),
    /// A string literal carried as its *content* (unescaped); used for
    /// generated documentation text.
    LitStr(String),
    /// A punctuation character not joined to the next token.
    Punct(char),
    /// A punctuation character joined to the next token.
    PunctJoint(char),
    /// The path-separator punctuation (two joined colons).
    PathSep,
    /// The thin arrow introducing a return type.
    Arrow,
    /// The fat arrow of match arms, kept composite so that pass-through
    /// token runs re-render faithfully.
    FatArrow,
}

/// Mathematical model of a token: the same shape as [`Tok`], with text as a
/// sequence of characters.
#[verifier::ext_equal]
pub enum TokView {
    Open(Delim),
    Close(Delim),
    Ident(Seq<char>),
    KwLinkage,
    KwFn,
    KwMod,
    KwPub,
    KwSelfValue,
    KwMut,
    Lifetime(Seq<char>),
    Literal(Seq<char>),
    LitStr(Seq<char>),
    Punct(char),
    PunctJoint(char),
    PathSep,
    Arrow,
    FatArrow,
}

impl DeepView for Tok {
    type V = TokView;

    open spec fn deep_view(&self) -> TokView {
        match self {
            Tok::Open(d) => TokView::Open(*d),
            Tok::Close(d) => TokView::Close(*d),
            Tok::Ident(s) => TokView::Ident(s@),
            Tok::KwLinkage => TokView::KwLinkage,
            Tok::KwFn => TokView::KwFn,
            Tok::KwMod => TokView::KwMod,
            Tok::KwPub => TokView::KwPub,
            Tok::KwSelfValue => TokView::KwSelfValue,
            Tok::KwMut => TokView::KwMut,
            Tok::Lifetime(s) => TokView::Lifetime(s@),
            Tok::Literal(s) => TokView::Literal(s@),
            Tok::LitStr(s) => TokView::LitStr(s@),
            Tok::Punct(c) => TokView::Punct(*c),
            Tok::PunctJoint(c) => TokView::PunctJoint(*c),
            Tok::PathSep => TokView::PathSep,
            Tok::Arrow => TokView::Arrow,
            Tok::FatArrow => TokView::FatArrow,
        }
    }
}

/// Duplicate one token.
pub fn dup_tok(t: &Tok) -> (r: Tok)
    ensures
        r.deep_view() == t.deep_view(),
{
    match t {
        Tok::Open(d) => Tok::Open(*d),
        Tok::Close(d) => Tok::Close(*d),
        Tok::Ident(s) => Tok::Ident(s.clone()),
        Tok::KwLinkage => Tok::KwLinkage,
        Tok::KwFn => Tok::KwFn,
        Tok::KwMod => Tok::KwMod,
        Tok::KwPub => Tok::KwPub,
        Tok::KwSelfValue => Tok::KwSelfValue,
        Tok::KwMut => Tok::KwMut,
        Tok::Lifetime(s) => Tok::Lifetime(s.clone()),
        Tok::Literal(s) => Tok::Literal(s.clone()),
        Tok::LitStr(s) => Tok::LitStr(s.clone()),
        Tok::Punct(c) => Tok::Punct(*c),
        Tok::PunctJoint(c) => Tok::PunctJoint(*c),
        Tok::PathSep => Tok::PathSep,
        Tok::Arrow => Tok::Arrow,
        Tok::FatArrow => Tok::FatArrow,
    }
}

/// Copy the token run `[a, b)` out of `v`.
pub fn copy_range(v: &Vec<Tok>, a: usize, b: usize) -> (r: Vec<Tok>)
    requires
        a <= b <= v@.len(),
    ensures
        r.deep_view() == v.deep_view().subrange(a as int, b as int),
{
    let mut r: Vec<Tok> = Vec::new();
    let mut i: usize = a;
    while i < b
        invariant
            a <= i <= b <= v@.len(),
            r@.len() == i - a,
            forall|j: int| 0 <= j < r@.len() ==> r@[j].deep_view() == v@[a + j].deep_view(),
        decreases b - i,
    {
        r.push(dup_tok(&v[i]));
        i += 1;
    }
    proof {
        assert(r.deep_view() =~~= v.deep_view().subrange(a as int, b as int));
    }
    r
}

/// Append a copy of the token run `[a, b)` of `v` onto `out`.
pub fn append_range(out: &mut Vec<Tok>, v: &Vec<Tok>, a: usize, b: usize)
    requires
        a <= b <= v@.len(),
    ensures
        final(out).deep_view() == old(out).deep_view()
            + v.deep_view().subrange(a as int, b as int),
{
    let n: usize = out.len();
    let mut i: usize = a;
    while i < b
        invariant
            a <= i <= b <= v@.len(),
            n == old(out)@.len(),
            out@.len() == n + (i - a),
            forall|j: int| 0 <= j < n ==> out@[j] == old(out)@[j],
            forall|j: int| n <= j < out@.len()
                ==> out@[j].deep_view() == v@[a + (j - n)].deep_view(),
        decreases b - i,
    {
        out.push(dup_tok(&v[i]));
        i += 1;
    }
    proof {
        assert(out.deep_view() =~~= old(out).deep_view()
            + v.deep_view().subrange(a as int, b as int));
    }
}

/// Append a copy of all of `v` onto `out`.
pub fn append_toks(out: &mut Vec<Tok>, v: &Vec<Tok>)
    ensures
        final(out).deep_view() == old(out).deep_view() + v.deep_view(),
{
    append_range(out, v, 0, v.len());
    proof {
        assert(v.deep_view().subrange(0, v.deep_view().len() as int) =~~= v.deep_view());
    }
}

} // verus!
