//! The module parser and the item classifier.
//!
//! The grammar is defined by the `sp_*` specification functions, written as
//! a recursive-descent machine over a token sequence; each executable
//! parsing function returns exactly what its specification counterpart
//! says, including the position an error is reported at. Item
//! classification peeks a bounded prefix (the attribute list and two
//! tokens) without consuming input, as the surrounding parse requires.
//!
//! Delimiter kinds are assumed to match the way the host tokenizer emits
//! them; the parser checks balance, not that a closing kind equals its
//! opening kind.

use vstd::prelude::*;

use crate::ast::{
    ApiFnImplView, ApiFnView, ApiModItem, ApiModItemImpl, ApiModImplView, ApiModView, Attr,
    AttrView, FnSig, ImplPath, ImplPathView, ItemApiFn, ItemApiFnImpl, ItemApiMod,
    ItemApiModImpl, ItemImplView, ItemView, SigView, Visib, VisView, is_gt, is_lt, is_pound,
    is_semi, tok_is_gt, tok_is_lt, tok_is_pound, tok_is_semi,
};
use crate::tokens::{Delim, Tok, TokView, copy_range};

verus! {

/// Result of one step of the specification parser: a value, or the
/// position the parse fails at.
#[verifier::ext_equal]
pub enum Parsed<A> {
    Found(A),
    Fail { pos: int },
}

/// A parse failure, carrying the index of the token it was detected at
/// (the token count when input ended prematurely).
#[derive(Debug, PartialEq, Eq)]
pub struct ParseError {
    pub pos: usize,
}

impl DeepView for ParseError {
    type V = int;

    open spec fn deep_view(&self) -> int {
        self.pos as int
    }
}

// ---------------------------------------------------------------------------
// Balanced scanning.

/// Position of the closing delimiter that closes the group the scan is
/// inside of, given `depth` additional groups opened since; fails at `end`
/// if the input runs out first.
pub open spec fn sp_find_close(t: Seq<TokView>, i: int, end: int, depth: nat) -> Parsed<int>
    decreases end - i,
{
    if i < 0 || i >= end {
        Parsed::Fail { pos: end }
    } else if t[i] is Close {
        if depth == 0 {
            Parsed::Found(i)
        } else {
            sp_find_close(t, i + 1, end, (depth - 1) as nat)
        }
    } else if t[i] is Open {
        sp_find_close(t, i + 1, end, depth + 1)
    } else {
        sp_find_close(t, i + 1, end, depth)
    }
}

pub proof fn lemma_find_close_bounds(t: Seq<TokView>, i: int, end: int, depth: nat)
    ensures
        sp_find_close(t, i, end, depth) matches Parsed::Found(p) ==> i <= p < end,
    decreases end - i,
{
    if 0 <= i < end {
        if t[i] is Close {
            if depth != 0 {
                lemma_find_close_bounds(t, i + 1, end, (depth - 1) as nat);
            }
        } else if t[i] is Open {
            lemma_find_close_bounds(t, i + 1, end, depth + 1);
        } else {
            lemma_find_close_bounds(t, i + 1, end, depth);
        }
    }
}

/// Find the close matching the group entered just before position `i`.
pub fn find_close(t: &Vec<Tok>, i: usize, end: usize) -> (r: Result<usize, ParseError>)
    requires
        i <= end <= t@.len(),
    ensures
        match r {
            Ok(p) => sp_find_close(t.deep_view(), i as int, end as int, 0) == Parsed::Found(
                p as int,
            ) && i <= p < end,
            Err(e) => sp_find_close(t.deep_view(), i as int, end as int, 0)
                == (Parsed::<int>::Fail { pos: e.pos as int }) && e.pos == end,
        },
{
    let ghost tv = t.deep_view();
    let mut j: usize = i;
    let mut d: usize = 0;
    while j < end
        invariant
            i <= j <= end <= t@.len(),
            tv == t.deep_view(),
            d <= j - i,
            sp_find_close(tv, i as int, end as int, 0) == sp_find_close(
                tv,
                j as int,
                end as int,
                d as nat,
            ),
        decreases end - j,
    {
        match &t[j] {
            Tok::Close(_) => {
                if d == 0 {
                    return Ok(j);
                } else {
                    d -= 1;
                }
            },
            Tok::Open(_) => {
                d += 1;
            },
            _ => {},
        }
        j += 1;
    }
    Err(ParseError { pos: end })
}

// ---------------------------------------------------------------------------
// Attributes.

/// Parse the outer attribute list starting at `i`: each attribute is a
/// pound sign followed by a bracketed group, whose verbatim content is
/// kept. Stops, without failing, at the first token that does not begin an
/// attribute.
pub open spec fn sp_parse_attrs(
    t: Seq<TokView>,
    i: int,
    end: int,
    acc: Seq<AttrView>,
) -> Parsed<(Seq<AttrView>, int)>
    decreases end - i,
    via sp_parse_attrs_dec
{
    if i < 0 || i >= end {
        Parsed::Found((acc, i))
    } else if is_pound(t[i]) {
        if i + 1 < end && t[i + 1] == TokView::Open(Delim::Bracket) {
            match sp_find_close(t, i + 2, end, 0) {
                Parsed::Found(c) => sp_parse_attrs(
                    t,
                    c + 1,
                    end,
                    acc.push(AttrView { content: t.subrange(i + 2, c) }),
                ),
                Parsed::Fail { pos } => Parsed::Fail { pos },
            }
        } else {
            Parsed::Fail { pos: i + 1 }
        }
    } else {
        Parsed::Found((acc, i))
    }
}

#[via_fn]
proof fn sp_parse_attrs_dec(t: Seq<TokView>, i: int, end: int, acc: Seq<AttrView>) {
    if 0 <= i < end && is_pound(t[i]) && i + 1 < end && t[i + 1] == TokView::Open(
        Delim::Bracket,
    ) {
        lemma_find_close_bounds(t, i + 2, end, 0);
    }
}

pub proof fn lemma_parse_attrs_bounds(t: Seq<TokView>, i: int, end: int, acc: Seq<AttrView>)
    requires
        0 <= i <= end,
    ensures
        sp_parse_attrs(t, i, end, acc) matches Parsed::Found(p) ==> i <= p.1 <= end,
    decreases end - i,
{
    if i < end && is_pound(t[i]) && i + 1 < end && t[i + 1] == TokView::Open(Delim::Bracket) {
        lemma_find_close_bounds(t, i + 2, end, 0);
        if let Parsed::Found(c) = sp_find_close(t, i + 2, end, 0) {
            assert(c + 1 <= end);
            lemma_parse_attrs_bounds(
                t,
                c + 1,
                end,
                acc.push(AttrView { content: t.subrange(i + 2, c) }),
            );
        }
    }
}

/// Parse the outer attribute list starting at `i`.
pub fn parse_attrs(t: &Vec<Tok>, i: usize, end: usize) -> (r: Result<
    (Vec<Attr>, usize),
    ParseError,
>)
    requires
        i <= end <= t@.len(),
    ensures
        match r {
            Ok(p) => sp_parse_attrs(t.deep_view(), i as int, end as int, Seq::empty())
                == Parsed::Found((p.0.deep_view(), p.1 as int)) && i <= p.1 <= end,
            Err(e) => sp_parse_attrs(t.deep_view(), i as int, end as int, Seq::empty())
                == (Parsed::<(Seq<AttrView>, int)>::Fail { pos: e.pos as int }),
        },
{
    let ghost tv = t.deep_view();
    let mut attrs: Vec<Attr> = Vec::new();
    proof {
        assert(attrs.deep_view() =~~= Seq::<AttrView>::empty());
    }
    let mut j: usize = i;
    loop
        invariant
            i <= j <= end <= t@.len(),
            tv == t.deep_view(),
            sp_parse_attrs(tv, i as int, end as int, Seq::empty()) == sp_parse_attrs(
                tv,
                j as int,
                end as int,
                attrs.deep_view(),
            ),
        decreases end - j,
    {
        if j >= end {
            return Ok((attrs, j));
        }
        if !tok_is_pound(&t[j]) {
            return Ok((attrs, j));
        }
        if j + 1 >= end {
            return Err(ParseError { pos: j + 1 });
        }
        let bracket = matches!(&t[j + 1], Tok::Open(Delim::Bracket));
        if !bracket {
            return Err(ParseError { pos: j + 1 });
        }
        let c = match find_close(t, j + 2, end) {
            Ok(c) => c,
            Err(e) => {
                return Err(e);
            },
        };
        let content = copy_range(t, j + 2, c);
        let ghost acc0 = attrs.deep_view();
        attrs.push(Attr { content });
        proof {
            assert(attrs.deep_view() =~~= acc0.push(
                AttrView { content: tv.subrange(j + 2, c as int) },
            ));
        }
        j = c + 1;
    }
}

// ---------------------------------------------------------------------------
// Visibility.

/// Parse the optional visibility marker at `i`.
pub open spec fn sp_parse_vis(t: Seq<TokView>, i: int, end: int) -> Parsed<(VisView, int)> {
    if 0 <= i < end && t[i] is KwPub {
        if i + 1 < end && t[i + 1] == TokView::Open(Delim::Paren) {
            match sp_find_close(t, i + 2, end, 0) {
                Parsed::Found(c) => Parsed::Found(
                    (VisView::Restricted(t.subrange(i + 2, c)), c + 1),
                ),
                Parsed::Fail { pos } => Parsed::Fail { pos },
            }
        } else {
            Parsed::Found((VisView::Public, i + 1))
        }
    } else {
        Parsed::Found((VisView::Inherited, i))
    }
}

pub proof fn lemma_parse_vis_bounds(t: Seq<TokView>, i: int, end: int)
    requires
        0 <= i <= end,
    ensures
        sp_parse_vis(t, i, end) matches Parsed::Found(p) ==> i <= p.1 <= end,
{
    if i < end && t[i] is KwPub && i + 1 < end && t[i + 1] == TokView::Open(Delim::Paren) {
        lemma_find_close_bounds(t, i + 2, end, 0);
    }
}

/// Parse the optional visibility marker at `i`.
pub fn parse_vis(t: &Vec<Tok>, i: usize, end: usize) -> (r: Result<(Visib, usize), ParseError>)
    requires
        i <= end <= t@.len(),
    ensures
        match r {
            Ok(p) => sp_parse_vis(t.deep_view(), i as int, end as int) == Parsed::Found(
                (p.0.deep_view(), p.1 as int),
            ) && i <= p.1 <= end,
            Err(e) => sp_parse_vis(t.deep_view(), i as int, end as int)
                == (Parsed::<(VisView, int)>::Fail { pos: e.pos as int }),
        },
{
    if i < end && matches!(&t[i], Tok::KwPub) {
        if i + 1 < end && matches!(&t[i + 1], Tok::Open(Delim::Paren)) {
            match find_close(t, i + 2, end) {
                Ok(c) => {
                    let content = copy_range(t, i + 2, c);
                    Ok((Visib::Restricted(content), c + 1))
                },
                Err(e) => Err(e),
            }
        } else {
            Ok((Visib::Public, i + 1))
        }
    } else {
        Ok((Visib::Inherited, i))
    }
}

// ---------------------------------------------------------------------------
// Signature scanning.

/// Position of the parenthesis opening the parameter list: scans past the
/// generic-parameter segment, counting angle brackets character-wise while
/// skipping nested groups whole.
pub open spec fn sp_scan_params_open(t: Seq<TokView>, i: int, end: int, g: nat, a: nat) -> Parsed<
    int,
>
    decreases end - i,
{
    if i < 0 || i >= end {
        Parsed::Fail { pos: end }
    } else if t[i] == TokView::Open(Delim::Paren) && g == 0 && a == 0 {
        Parsed::Found(i)
    } else if t[i] is Open {
        sp_scan_params_open(t, i + 1, end, g + 1, a)
    } else if t[i] is Close {
        if g > 0 {
            sp_scan_params_open(t, i + 1, end, (g - 1) as nat, a)
        } else {
            Parsed::Fail { pos: i }
        }
    } else if is_lt(t[i]) && g == 0 {
        sp_scan_params_open(t, i + 1, end, g, a + 1)
    } else if is_gt(t[i]) && g == 0 {
        if a > 0 {
            sp_scan_params_open(t, i + 1, end, g, (a - 1) as nat)
        } else {
            Parsed::Fail { pos: i }
        }
    } else if is_semi(t[i]) && g == 0 && a == 0 {
        Parsed::Fail { pos: i }
    } else {
        sp_scan_params_open(t, i + 1, end, g, a)
    }
}

pub proof fn lemma_scan_params_open_bounds(t: Seq<TokView>, i: int, end: int, g: nat, a: nat)
    ensures
        sp_scan_params_open(t, i, end, g, a) matches Parsed::Found(p) ==> i <= p < end,
    decreases end - i,
{
    if 0 <= i < end {
        lemma_scan_params_open_bounds(t, i + 1, end, g + 1, a);
        lemma_scan_params_open_bounds(t, i + 1, end, g, a + 1);
        lemma_scan_params_open_bounds(t, i + 1, end, g, a);
        if g > 0 {
            lemma_scan_params_open_bounds(t, i + 1, end, (g - 1) as nat, a);
        }
        if a > 0 {
            lemma_scan_params_open_bounds(t, i + 1, end, g, (a - 1) as nat);
        }
    }
}

/// Scan to the parameter-list parenthesis.
pub fn scan_params_open(t: &Vec<Tok>, i: usize, end: usize) -> (r: Result<usize, ParseError>)
    requires
        i <= end <= t@.len(),
    ensures
        match r {
            Ok(p) => sp_scan_params_open(t.deep_view(), i as int, end as int, 0, 0)
                == Parsed::Found(p as int) && i <= p < end,
            Err(e) => sp_scan_params_open(t.deep_view(), i as int, end as int, 0, 0)
                == (Parsed::<int>::Fail { pos: e.pos as int }) && e.pos <= end,
        },
{
    let ghost tv = t.deep_view();
    let mut j: usize = i;
    let mut g: usize = 0;
    let mut a: usize = 0;
    while j < end
        invariant
            i <= j <= end <= t@.len(),
            tv == t.deep_view(),
            g <= j - i,
            a <= j - i,
            sp_scan_params_open(tv, i as int, end as int, 0, 0) == sp_scan_params_open(
                tv,
                j as int,
                end as int,
                g as nat,
                a as nat,
            ),
        decreases end - j,
    {
        if matches!(&t[j], Tok::Open(Delim::Paren)) && g == 0 && a == 0 {
            return Ok(j);
        } else if matches!(&t[j], Tok::Open(_)) {
            g += 1;
        } else if matches!(&t[j], Tok::Close(_)) {
            if g > 0 {
                g -= 1;
            } else {
                return Err(ParseError { pos: j });
            }
        } else if tok_is_lt(&t[j]) && g == 0 {
            a += 1;
        } else if tok_is_gt(&t[j]) && g == 0 {
            if a > 0 {
                a -= 1;
            } else {
                return Err(ParseError { pos: j });
            }
        } else if tok_is_semi(&t[j]) && g == 0 && a == 0 {
            return Err(ParseError { pos: j });
        }
        j += 1;
    }
    Err(ParseError { pos: end })
}

/// Position of the token that terminates a signature read in the given
/// context: the statement-end marker (declaration context) or the opening
/// brace of the body (implementation context), at group depth zero.
pub open spec fn sp_scan_sig_end(
    t: Seq<TokView>,
    i: int,
    end: int,
    g: nat,
    def_ctx: bool,
) -> Parsed<int>
    decreases end - i,
{
    if i < 0 || i >= end {
        Parsed::Fail { pos: end }
    } else if def_ctx && is_semi(t[i]) && g == 0 {
        Parsed::Found(i)
    } else if !def_ctx && t[i] == TokView::Open(Delim::Brace) && g == 0 {
        Parsed::Found(i)
    } else if t[i] is Open {
        sp_scan_sig_end(t, i + 1, end, g + 1, def_ctx)
    } else if t[i] is Close {
        if g > 0 {
            sp_scan_sig_end(t, i + 1, end, (g - 1) as nat, def_ctx)
        } else {
            Parsed::Fail { pos: i }
        }
    } else {
        sp_scan_sig_end(t, i + 1, end, g, def_ctx)
    }
}

pub proof fn lemma_scan_sig_end_bounds(t: Seq<TokView>, i: int, end: int, g: nat, def_ctx: bool)
    ensures
        sp_scan_sig_end(t, i, end, g, def_ctx) matches Parsed::Found(p) ==> i <= p < end,
    decreases end - i,
{
    if 0 <= i < end {
        lemma_scan_sig_end_bounds(t, i + 1, end, g + 1, def_ctx);
        lemma_scan_sig_end_bounds(t, i + 1, end, g, def_ctx);
        if g > 0 {
            lemma_scan_sig_end_bounds(t, i + 1, end, (g - 1) as nat, def_ctx);
        }
    }
}

/// Scan to the token terminating the signature.
pub fn scan_sig_end(t: &Vec<Tok>, i: usize, end: usize, def_ctx: bool) -> (r: Result<
    usize,
    ParseError,
>)
    requires
        i <= end <= t@.len(),
    ensures
        match r {
            Ok(p) => sp_scan_sig_end(t.deep_view(), i as int, end as int, 0, def_ctx)
                == Parsed::Found(p as int) && i <= p < end,
            Err(e) => sp_scan_sig_end(t.deep_view(), i as int, end as int, 0, def_ctx)
                == (Parsed::<int>::Fail { pos: e.pos as int }),
        },
{
    let ghost tv = t.deep_view();
    let mut j: usize = i;
    let mut g: usize = 0;
    while j < end
        invariant
            i <= j <= end <= t@.len(),
            tv == t.deep_view(),
            g <= j - i,
            sp_scan_sig_end(tv, i as int, end as int, 0, def_ctx) == sp_scan_sig_end(
                tv,
                j as int,
                end as int,
                g as nat,
                def_ctx,
            ),
        decreases end - j,
    {
        if def_ctx && tok_is_semi(&t[j]) && g == 0 {
            return Ok(j);
        } else if !def_ctx && matches!(&t[j], Tok::Open(Delim::Brace)) && g == 0 {
            return Ok(j);
        } else if matches!(&t[j], Tok::Open(_)) {
            g += 1;
        } else if matches!(&t[j], Tok::Close(_)) {
            if g > 0 {
                g -= 1;
            } else {
                return Err(ParseError { pos: j });
            }
        }
        j += 1;
    }
    Err(ParseError { pos: end })
}

// ---------------------------------------------------------------------------
// Signatures.

/// Parse one interface-function signature starting at the function
/// keyword: name, generic segment, parameter list, and trailing segment.
/// The returned position is at the signature's terminating token (the
/// statement-end marker in declaration context, the body's opening brace in
/// implementation context), not past it.
pub open spec fn sp_parse_sig(t: Seq<TokView>, i: int, end: int, def_ctx: bool) -> Parsed<
    (SigView, int),
> {
    if i < 0 || i >= end || !(t[i] is KwFn) {
        Parsed::Fail { pos: i }
    } else if i + 1 >= end {
        Parsed::Fail { pos: i + 1 }
    } else {
        match t[i + 1] {
            TokView::Ident(name) => match sp_scan_params_open(t, i + 2, end, 0, 0) {
                Parsed::Fail { pos } => Parsed::Fail { pos },
                Parsed::Found(gp) => match sp_find_close(t, gp + 1, end, 0) {
                    Parsed::Fail { pos } => Parsed::Fail { pos },
                    Parsed::Found(pc) => match sp_scan_sig_end(t, pc + 1, end, 0, def_ctx) {
                        Parsed::Fail { pos } => Parsed::Fail { pos },
                        Parsed::Found(rp) => Parsed::Found(
                            (
                                SigView {
                                    name: name,
                                    generics: t.subrange(i + 2, gp),
                                    params: t.subrange(gp + 1, pc),
                                    ret: t.subrange(pc + 1, rp),
                                },
                                rp,
                            ),
                        ),
                    },
                },
            },
            _ => Parsed::Fail { pos: i + 1 },
        }
    }
}

pub proof fn lemma_parse_sig_bounds(t: Seq<TokView>, i: int, end: int, def_ctx: bool)
    requires
        0 <= i <= end,
    ensures
        sp_parse_sig(t, i, end, def_ctx) matches Parsed::Found(p) ==> i + 1 < p.1 < end,
{
    if i < end && t[i] is KwFn && i + 1 < end && t[i + 1] is Ident {
        lemma_scan_params_open_bounds(t, i + 2, end, 0, 0);
        if let Parsed::Found(gp) = sp_scan_params_open(t, i + 2, end, 0, 0) {
            lemma_find_close_bounds(t, gp + 1, end, 0);
            if let Parsed::Found(pc) = sp_find_close(t, gp + 1, end, 0) {
                lemma_scan_sig_end_bounds(t, pc + 1, end, 0, def_ctx);
            }
        }
    }
}

/// Parse one interface-function signature starting at `i`.
pub fn parse_sig(t: &Vec<Tok>, i: usize, end: usize, def_ctx: bool) -> (r: Result<
    (FnSig, usize),
    ParseError,
>)
    requires
        i <= end <= t@.len(),
    ensures
        match r {
            Ok(p) => sp_parse_sig(t.deep_view(), i as int, end as int, def_ctx) == Parsed::Found(
                (p.0.deep_view(), p.1 as int),
            ) && i < p.1 < end,
            Err(e) => sp_parse_sig(t.deep_view(), i as int, end as int, def_ctx)
                == (Parsed::<(SigView, int)>::Fail { pos: e.pos as int }),
        },
{
    let ghost tv = t.deep_view();
    if i >= end || !matches!(&t[i], Tok::KwFn) {
        return Err(ParseError { pos: i });
    }
    if i + 1 >= end {
        return Err(ParseError { pos: i + 1 });
    }
    let name: String = match &t[i + 1] {
        Tok::Ident(s) => s.clone(),
        _ => {
            return Err(ParseError { pos: i + 1 });
        },
    };
    let gp = match scan_params_open(t, i + 2, end) {
        Ok(gp) => gp,
        Err(e) => {
            return Err(e);
        },
    };
    let pc = match find_close(t, gp + 1, end) {
        Ok(pc) => pc,
        Err(e) => {
            return Err(e);
        },
    };
    let rp = match scan_sig_end(t, pc + 1, end, def_ctx) {
        Ok(rp) => rp,
        Err(e) => {
            return Err(e);
        },
    };
    let sig = FnSig {
        name,
        generics: copy_range(t, i + 2, gp),
        params: copy_range(t, gp + 1, pc),
        ret: copy_range(t, pc + 1, rp),
    };
    proof {
        assert(sig.deep_view() =~~= SigView {
            name: sig.name@,
            generics: tv.subrange(i + 2, gp as int),
            params: tv.subrange(gp + 1, pc as int),
            ret: tv.subrange(pc + 1, rp as int),
        });
    }
    Ok((sig, rp))
}

// ---------------------------------------------------------------------------
// Interface-function items.

/// Parse an interface-function declaration: attributes, the linkage
/// marker, a signature, and the statement-end marker.
pub open spec fn sp_parse_api_fn_def(t: Seq<TokView>, i: int, end: int) -> Parsed<
    (ApiFnView, int),
> {
    match sp_parse_attrs(t, i, end, Seq::empty()) {
        Parsed::Fail { pos } => Parsed::Fail { pos },
        Parsed::Found(aj) => if aj.1 >= end || !(t[aj.1] is KwLinkage) {
            Parsed::Fail { pos: aj.1 }
        } else {
            match sp_parse_sig(t, aj.1 + 1, end, true) {
                Parsed::Fail { pos } => Parsed::Fail { pos },
                Parsed::Found(sp) => Parsed::Found(
                    (ApiFnView { attrs: aj.0, sig: sp.0 }, sp.1 + 1),
                ),
            }
        },
    }
}

pub proof fn lemma_parse_api_fn_def_bounds(t: Seq<TokView>, i: int, end: int)
    requires
        0 <= i <= end,
    ensures
        sp_parse_api_fn_def(t, i, end) matches Parsed::Found(p) ==> i < p.1 <= end,
{
    lemma_parse_attrs_bounds(t, i, end, Seq::empty());
    if let Parsed::Found(aj) = sp_parse_attrs(t, i, end, Seq::empty()) {
        if aj.1 < end && t[aj.1] is KwLinkage {
            lemma_parse_sig_bounds(t, aj.1 + 1, end, true);
        }
    }
}

/// Parse an interface-function declaration starting at `i`.
pub fn parse_api_fn_def(t: &Vec<Tok>, i: usize, end: usize) -> (r: Result<
    (ItemApiFn, usize),
    ParseError,
>)
    requires
        i <= end <= t@.len(),
    ensures
        match r {
            Ok(p) => sp_parse_api_fn_def(t.deep_view(), i as int, end as int) == Parsed::Found(
                (p.0.deep_view(), p.1 as int),
            ) && i < p.1 <= end,
            Err(e) => sp_parse_api_fn_def(t.deep_view(), i as int, end as int)
                == (Parsed::<(ApiFnView, int)>::Fail { pos: e.pos as int }),
        },
{
    let (attrs, j) = match parse_attrs(t, i, end) {
        Ok(p) => p,
        Err(e) => {
            return Err(e);
        },
    };
    if j >= end || !matches!(&t[j], Tok::KwLinkage) {
        return Err(ParseError { pos: j });
    }
    let (sig, rp) = match parse_sig(t, j + 1, end, true) {
        Ok(p) => p,
        Err(e) => {
            return Err(e);
        },
    };
    Ok((ItemApiFn { attrs, sig }, rp + 1))
}

/// Parse an interface-function implementation: attributes, the linkage
/// marker, a signature, and a braced body kept verbatim.
pub open spec fn sp_parse_api_fn_impl(t: Seq<TokView>, i: int, end: int) -> Parsed<
    (ApiFnImplView, int),
> {
    match sp_parse_attrs(t, i, end, Seq::empty()) {
        Parsed::Fail { pos } => Parsed::Fail { pos },
        Parsed::Found(aj) => if aj.1 >= end || !(t[aj.1] is KwLinkage) {
            Parsed::Fail { pos: aj.1 }
        } else {
            match sp_parse_sig(t, aj.1 + 1, end, false) {
                Parsed::Fail { pos } => Parsed::Fail { pos },
                Parsed::Found(sp) => match sp_find_close(t, sp.1 + 1, end, 0) {
                    Parsed::Fail { pos } => Parsed::Fail { pos },
                    Parsed::Found(c) => Parsed::Found(
                        (
                            ApiFnImplView {
                                attrs: aj.0,
                                sig: sp.0,
                                body: t.subrange(sp.1 + 1, c),
                            },
                            c + 1,
                        ),
                    ),
                },
            }
        },
    }
}

pub proof fn lemma_parse_api_fn_impl_bounds(t: Seq<TokView>, i: int, end: int)
    requires
        0 <= i <= end,
    ensures
        sp_parse_api_fn_impl(t, i, end) matches Parsed::Found(p) ==> i < p.1 <= end,
{
    lemma_parse_attrs_bounds(t, i, end, Seq::empty());
    if let Parsed::Found(aj) = sp_parse_attrs(t, i, end, Seq::empty()) {
        if aj.1 < end && t[aj.1] is KwLinkage {
            lemma_parse_sig_bounds(t, aj.1 + 1, end, false);
            if let Parsed::Found(sp) = sp_parse_sig(t, aj.1 + 1, end, false) {
                lemma_find_close_bounds(t, sp.1 + 1, end, 0);
            }
        }
    }
}

/// Parse an interface-function implementation starting at `i`.
pub fn parse_api_fn_impl(t: &Vec<Tok>, i: usize, end: usize) -> (r: Result<
    (ItemApiFnImpl, usize),
    ParseError,
>)
    requires
        i <= end <= t@.len(),
    ensures
        match r {
            Ok(p) => sp_parse_api_fn_impl(t.deep_view(), i as int, end as int) == Parsed::Found(
                (p.0.deep_view(), p.1 as int),
            ) && i < p.1 <= end,
            Err(e) => sp_parse_api_fn_impl(t.deep_view(), i as int, end as int)
                == (Parsed::<(ApiFnImplView, int)>::Fail { pos: e.pos as int }),
        },
{
    let (attrs, j) = match parse_attrs(t, i, end) {
        Ok(p) => p,
        Err(e) => {
            return Err(e);
        },
    };
    if j >= end || !matches!(&t[j], Tok::KwLinkage) {
        return Err(ParseError { pos: j });
    }
    let (sig, rp) = match parse_sig(t, j + 1, end, false) {
        Ok(p) => p,
        Err(e) => {
            return Err(e);
        },
    };
    let c = match find_close(t, rp + 1, end) {
        Ok(c) => c,
        Err(e) => {
            return Err(e);
        },
    };
    let body = copy_range(t, rp + 1, c);
    Ok((ItemApiFnImpl { attrs, sig, body }, c + 1))
}

// ---------------------------------------------------------------------------
// Classification.

/// Decide whether the item starting at `i` is an interface-function form:
/// speculatively read its attribute list, then check that the next two
/// tokens are exactly the linkage marker and the function keyword. Nothing
/// is consumed.
pub open spec fn sp_is_api_fn(t: Seq<TokView>, i: int, end: int) -> Parsed<bool> {
    match sp_parse_attrs(t, i, end, Seq::empty()) {
        Parsed::Fail { pos } => Parsed::Fail { pos },
        Parsed::Found(aj) => Parsed::Found(
            aj.1 < end && t[aj.1] is KwLinkage && aj.1 + 1 < end && t[aj.1 + 1] is KwFn,
        ),
    }
}

/// Decide whether the item starting at `i` is an interface-function form.
pub fn is_api_fn(t: &Vec<Tok>, i: usize, end: usize) -> (r: Result<bool, ParseError>)
    requires
        i <= end <= t@.len(),
    ensures
        match r {
            Ok(b) => sp_is_api_fn(t.deep_view(), i as int, end as int) == Parsed::Found(b),
            Err(e) => sp_is_api_fn(t.deep_view(), i as int, end as int)
                == (Parsed::<bool>::Fail { pos: e.pos as int }),
        },
{
    let (_attrs, j) = match parse_attrs(t, i, end) {
        Ok(p) => p,
        Err(e) => {
            return Err(e);
        },
    };
    Ok(j < end && matches!(&t[j], Tok::KwLinkage) && j + 1 < end && matches!(
        &t[j + 1],
        Tok::KwFn,
    ))
}

// ---------------------------------------------------------------------------
// Regular items.

/// Position just past a regular item: the item runs to the first
/// statement-end marker at depth zero, or through the first depth-zero
/// brace group (a body or braced item end).
pub open spec fn sp_regular_end(
    t: Seq<TokView>,
    i: int,
    end: int,
    g: nat,
    inbrace: bool,
) -> Parsed<int>
    decreases end - i,
{
    if i < 0 || i >= end {
        Parsed::Fail { pos: end }
    } else if is_semi(t[i]) && g == 0 {
        Parsed::Found(i + 1)
    } else if t[i] == TokView::Open(Delim::Brace) && g == 0 {
        sp_regular_end(t, i + 1, end, 1, true)
    } else if t[i] is Open {
        sp_regular_end(t, i + 1, end, g + 1, inbrace)
    } else if t[i] is Close {
        if g == 1 && inbrace {
            Parsed::Found(i + 1)
        } else if g > 0 {
            sp_regular_end(t, i + 1, end, (g - 1) as nat, inbrace)
        } else {
            Parsed::Fail { pos: i }
        }
    } else {
        sp_regular_end(t, i + 1, end, g, inbrace)
    }
}

pub proof fn lemma_regular_end_bounds(t: Seq<TokView>, i: int, end: int, g: nat, inbrace: bool)
    ensures
        sp_regular_end(t, i, end, g, inbrace) matches Parsed::Found(p) ==> i < p <= end,
    decreases end - i,
{
    if 0 <= i < end {
        lemma_regular_end_bounds(t, i + 1, end, 1, true);
        lemma_regular_end_bounds(t, i + 1, end, g + 1, inbrace);
        lemma_regular_end_bounds(t, i + 1, end, g, inbrace);
        if g > 0 {
            lemma_regular_end_bounds(t, i + 1, end, (g - 1) as nat, inbrace);
        }
    }
}

/// Scan past one regular item starting at `i`.
pub fn regular_end(t: &Vec<Tok>, i: usize, end: usize) -> (r: Result<usize, ParseError>)
    requires
        i <= end <= t@.len(),
    ensures
        match r {
            Ok(p) => sp_regular_end(t.deep_view(), i as int, end as int, 0, false)
                == Parsed::Found(p as int) && i < p <= end,
            Err(e) => sp_regular_end(t.deep_view(), i as int, end as int, 0, false)
                == (Parsed::<int>::Fail { pos: e.pos as int }),
        },
{
    let ghost tv = t.deep_view();
    let mut j: usize = i;
    let mut g: usize = 0;
    let mut inbrace: bool = false;
    while j < end
        invariant
            i <= j <= end <= t@.len(),
            tv == t.deep_view(),
            g <= j - i,
            sp_regular_end(tv, i as int, end as int, 0, false) == sp_regular_end(
                tv,
                j as int,
                end as int,
                g as nat,
                inbrace,
            ),
        decreases end - j,
    {
        if tok_is_semi(&t[j]) && g == 0 {
            return Ok(j + 1);
        } else if matches!(&t[j], Tok::Open(Delim::Brace)) && g == 0 {
            g = 1;
            inbrace = true;
        } else if matches!(&t[j], Tok::Open(_)) {
            g += 1;
        } else if matches!(&t[j], Tok::Close(_)) {
            if g == 1 && inbrace {
                return Ok(j + 1);
            } else if g > 0 {
                g -= 1;
            } else {
                return Err(ParseError { pos: j });
            }
        }
        j += 1;
    }
    Err(ParseError { pos: end })
}

// ---------------------------------------------------------------------------
// Item sequences.

/// Parse the items of a definition-module body: classify each position,
/// then read an interface-function declaration or a verbatim regular item.
pub open spec fn sp_parse_items_def(
    t: Seq<TokView>,
    i: int,
    end: int,
    acc: Seq<ItemView>,
) -> Parsed<Seq<ItemView>>
    decreases end - i,
    via sp_parse_items_def_dec
{
    if i < 0 || i >= end {
        Parsed::Found(acc)
    } else {
        match sp_is_api_fn(t, i, end) {
            Parsed::Fail { pos } => Parsed::Fail { pos },
            Parsed::Found(api) => if api {
                match sp_parse_api_fn_def(t, i, end) {
                    Parsed::Fail { pos } => Parsed::Fail { pos },
                    Parsed::Found(fnx) => sp_parse_items_def(
                        t,
                        fnx.1,
                        end,
                        acc.push(ItemView::ApiFn(fnx.0)),
                    ),
                }
            } else {
                match sp_regular_end(t, i, end, 0, false) {
                    Parsed::Fail { pos } => Parsed::Fail { pos },
                    Parsed::Found(e) => sp_parse_items_def(
                        t,
                        e,
                        end,
                        acc.push(ItemView::Regular(t.subrange(i, e))),
                    ),
                }
            },
        }
    }
}

#[via_fn]
proof fn sp_parse_items_def_dec(t: Seq<TokView>, i: int, end: int, acc: Seq<ItemView>) {
    if 0 <= i < end {
        lemma_parse_api_fn_def_bounds(t, i, end);
        lemma_regular_end_bounds(t, i, end, 0, false);
    }
}

/// Parse the items of a definition-module body.
pub fn parse_items_def(t: &Vec<Tok>, i: usize, end: usize) -> (r: Result<
    Vec<ApiModItem>,
    ParseError,
>)
    requires
        i <= end <= t@.len(),
    ensures
        match r {
            Ok(items) => sp_parse_items_def(t.deep_view(), i as int, end as int, Seq::empty())
                == Parsed::Found(items.deep_view()),
            Err(e) => sp_parse_items_def(t.deep_view(), i as int, end as int, Seq::empty())
                == (Parsed::<Seq<ItemView>>::Fail { pos: e.pos as int }),
        },
{
    let ghost tv = t.deep_view();
    let mut items: Vec<ApiModItem> = Vec::new();
    proof {
        assert(items.deep_view() =~~= Seq::<ItemView>::empty());
    }
    let mut j: usize = i;
    loop
        invariant
            i <= j <= end <= t@.len(),
            tv == t.deep_view(),
            sp_parse_items_def(tv, i as int, end as int, Seq::empty()) == sp_parse_items_def(
                tv,
                j as int,
                end as int,
                items.deep_view(),
            ),
        decreases end - j,
    {
        if j >= end {
            return Ok(items);
        }
        let api = match is_api_fn(t, j, end) {
            Ok(api) => api,
            Err(e) => {
                return Err(e);
            },
        };
        let ghost acc0 = items.deep_view();
        if api {
            let (fnx, n) = match parse_api_fn_def(t, j, end) {
                Ok(p) => p,
                Err(e) => {
                    return Err(e);
                },
            };
            let ghost fv = fnx.deep_view();
            items.push(ApiModItem::ApiFn(fnx));
            proof {
                assert(items.deep_view() =~~= acc0.push(ItemView::ApiFn(fv)));
            }
            j = n;
        } else {
            let e = match regular_end(t, j, end) {
                Ok(e) => e,
                Err(er) => {
                    return Err(er);
                },
            };
            let run = copy_range(t, j, e);
            items.push(ApiModItem::Regular(run));
            proof {
                assert(items.deep_view() =~~= acc0.push(
                    ItemView::Regular(tv.subrange(j as int, e as int)),
                ));
            }
            j = e;
        }
    }
}

/// Parse the items of an implementation-module body.
pub open spec fn sp_parse_items_impl(
    t: Seq<TokView>,
    i: int,
    end: int,
    acc: Seq<ItemImplView>,
) -> Parsed<Seq<ItemImplView>>
    decreases end - i,
    via sp_parse_items_impl_dec
{
    if i < 0 || i >= end {
        Parsed::Found(acc)
    } else {
        match sp_is_api_fn(t, i, end) {
            Parsed::Fail { pos } => Parsed::Fail { pos },
            Parsed::Found(api) => if api {
                match sp_parse_api_fn_impl(t, i, end) {
                    Parsed::Fail { pos } => Parsed::Fail { pos },
                    Parsed::Found(fnx) => sp_parse_items_impl(
                        t,
                        fnx.1,
                        end,
                        acc.push(ItemImplView::ApiFn(fnx.0)),
                    ),
                }
            } else {
                match sp_regular_end(t, i, end, 0, false) {
                    Parsed::Fail { pos } => Parsed::Fail { pos },
                    Parsed::Found(e) => sp_parse_items_impl(
                        t,
                        e,
                        end,
                        acc.push(ItemImplView::Regular(t.subrange(i, e))),
                    ),
                }
            },
        }
    }
}

#[via_fn]
proof fn sp_parse_items_impl_dec(t: Seq<TokView>, i: int, end: int, acc: Seq<ItemImplView>) {
    if 0 <= i < end {
        lemma_parse_api_fn_impl_bounds(t, i, end);
        lemma_regular_end_bounds(t, i, end, 0, false);
    }
}

/// Parse the items of an implementation-module body.
pub fn parse_items_impl(t: &Vec<Tok>, i: usize, end: usize) -> (r: Result<
    Vec<ApiModItemImpl>,
    ParseError,
>)
    requires
        i <= end <= t@.len(),
    ensures
        match r {
            Ok(items) => sp_parse_items_impl(t.deep_view(), i as int, end as int, Seq::empty())
                == Parsed::Found(items.deep_view()),
            Err(e) => sp_parse_items_impl(t.deep_view(), i as int, end as int, Seq::empty())
                == (Parsed::<Seq<ItemImplView>>::Fail { pos: e.pos as int }),
        },
{
    let ghost tv = t.deep_view();
    let mut items: Vec<ApiModItemImpl> = Vec::new();
    proof {
        assert(items.deep_view() =~~= Seq::<ItemImplView>::empty());
    }
    let mut j: usize = i;
    loop
        invariant
            i <= j <= end <= t@.len(),
            tv == t.deep_view(),
            sp_parse_items_impl(tv, i as int, end as int, Seq::empty()) == sp_parse_items_impl(
                tv,
                j as int,
                end as int,
                items.deep_view(),
            ),
        decreases end - j,
    {
        if j >= end {
            return Ok(items);
        }
        let api = match is_api_fn(t, j, end) {
            Ok(api) => api,
            Err(e) => {
                return Err(e);
            },
        };
        let ghost acc0 = items.deep_view();
        if api {
            let (fnx, n) = match parse_api_fn_impl(t, j, end) {
                Ok(p) => p,
                Err(e) => {
                    return Err(e);
                },
            };
            let ghost fv = fnx.deep_view();
            items.push(ApiModItemImpl::ApiFn(fnx));
            proof {
                assert(items.deep_view() =~~= acc0.push(ItemImplView::ApiFn(fv)));
            }
            j = n;
        } else {
            let e = match regular_end(t, j, end) {
                Ok(e) => e,
                Err(er) => {
                    return Err(er);
                },
            };
            let run = copy_range(t, j, e);
            items.push(ApiModItemImpl::Regular(run));
            proof {
                assert(items.deep_view() =~~= acc0.push(
                    ItemImplView::Regular(tv.subrange(j as int, e as int)),
                ));
            }
            j = e;
        }
    }
}

// ---------------------------------------------------------------------------
// Whole modules.

/// Parse a whole definition module: attributes, visibility, the module
/// keyword, its name, and a braced body of items; the input must hold
/// nothing else.
pub open spec fn sp_parse_mod_def(t: Seq<TokView>) -> Parsed<ApiModView> {
    let end = t.len() as int;
    match sp_parse_attrs(t, 0, end, Seq::empty()) {
        Parsed::Fail { pos } => Parsed::Fail { pos },
        Parsed::Found(aj) => match sp_parse_vis(t, aj.1, end) {
            Parsed::Fail { pos } => Parsed::Fail { pos },
            Parsed::Found(vk) => {
                let k = vk.1;
                if k >= end || !(t[k] is KwMod) {
                    Parsed::Fail { pos: k }
                } else if k + 1 >= end {
                    Parsed::Fail { pos: k + 1 }
                } else {
                    match t[k + 1] {
                        TokView::Ident(name) => if k + 2 >= end || t[k + 2] != TokView::Open(
                            Delim::Brace,
                        ) {
                            Parsed::Fail { pos: k + 2 }
                        } else {
                            match sp_find_close(t, k + 3, end, 0) {
                                Parsed::Fail { pos } => Parsed::Fail { pos },
                                Parsed::Found(c) => if c + 1 != end {
                                    Parsed::Fail { pos: c + 1 }
                                } else {
                                    match sp_parse_items_def(t, k + 3, c, Seq::empty()) {
                                        Parsed::Fail { pos } => Parsed::Fail { pos },
                                        Parsed::Found(items) => Parsed::Found(
                                            ApiModView {
                                                attrs: aj.0,
                                                vis: vk.0,
                                                name: name,
                                                items: items,
                                            },
                                        ),
                                    }
                                },
                            }
                        },
                        _ => Parsed::Fail { pos: k + 1 },
                    }
                }
            },
        },
    }
}

/// Parse a whole definition module from its token stream.
pub fn parse_api_mod(t: &Vec<Tok>) -> (r: Result<ItemApiMod, ParseError>)
    ensures
        match r {
            Ok(m) => sp_parse_mod_def(t.deep_view()) == Parsed::Found(m.deep_view()),
            Err(e) => sp_parse_mod_def(t.deep_view()) == (Parsed::<ApiModView>::Fail {
                pos: e.pos as int,
            }),
        },
{
    let ghost tv = t.deep_view();
    let end = t.len();
    let (attrs, j) = match parse_attrs(t, 0, end) {
        Ok(p) => p,
        Err(e) => {
            return Err(e);
        },
    };
    let (vis, k) = match parse_vis(t, j, end) {
        Ok(p) => p,
        Err(e) => {
            return Err(e);
        },
    };
    if k >= end || !matches!(&t[k], Tok::KwMod) {
        return Err(ParseError { pos: k });
    }
    if k + 1 >= end {
        return Err(ParseError { pos: k + 1 });
    }
    let name: String = match &t[k + 1] {
        Tok::Ident(s) => s.clone(),
        _ => {
            return Err(ParseError { pos: k + 1 });
        },
    };
    if k + 2 >= end || !matches!(&t[k + 2], Tok::Open(Delim::Brace)) {
        return Err(ParseError { pos: k + 2 });
    }
    let c = match find_close(t, k + 3, end) {
        Ok(c) => c,
        Err(e) => {
            return Err(e);
        },
    };
    if c + 1 != end {
        return Err(ParseError { pos: c + 1 });
    }
    let items = match parse_items_def(t, k + 3, c) {
        Ok(items) => items,
        Err(e) => {
            return Err(e);
        },
    };
    Ok(ItemApiMod { attrs, vis, name, items })
}

/// Parse a whole implementation module: the same outer shape, with
/// interface-function items carrying bodies.
pub open spec fn sp_parse_mod_impl(t: Seq<TokView>) -> Parsed<ApiModImplView> {
    let end = t.len() as int;
    match sp_parse_attrs(t, 0, end, Seq::empty()) {
        Parsed::Fail { pos } => Parsed::Fail { pos },
        Parsed::Found(aj) => match sp_parse_vis(t, aj.1, end) {
            Parsed::Fail { pos } => Parsed::Fail { pos },
            Parsed::Found(vk) => {
                let k = vk.1;
                if k >= end || !(t[k] is KwMod) {
                    Parsed::Fail { pos: k }
                } else if k + 1 >= end {
                    Parsed::Fail { pos: k + 1 }
                } else {
                    match t[k + 1] {
                        TokView::Ident(name) => if k + 2 >= end || t[k + 2] != TokView::Open(
                            Delim::Brace,
                        ) {
                            Parsed::Fail { pos: k + 2 }
                        } else {
                            match sp_find_close(t, k + 3, end, 0) {
                                Parsed::Fail { pos } => Parsed::Fail { pos },
                                Parsed::Found(c) => if c + 1 != end {
                                    Parsed::Fail { pos: c + 1 }
                                } else {
                                    match sp_parse_items_impl(t, k + 3, c, Seq::empty()) {
                                        Parsed::Fail { pos } => Parsed::Fail { pos },
                                        Parsed::Found(items) => Parsed::Found(
                                            ApiModImplView {
                                                attrs: aj.0,
                                                vis: vk.0,
                                                name: name,
                                                items: items,
                                            },
                                        ),
                                    }
                                },
                            }
                        },
                        _ => Parsed::Fail { pos: k + 1 },
                    }
                }
            },
        },
    }
}

/// Parse a whole implementation module from its token stream.
pub fn parse_api_mod_impl(t: &Vec<Tok>) -> (r: Result<ItemApiModImpl, ParseError>)
    ensures
        match r {
            Ok(m) => sp_parse_mod_impl(t.deep_view()) == Parsed::Found(m.deep_view()),
            Err(e) => sp_parse_mod_impl(t.deep_view()) == (Parsed::<ApiModImplView>::Fail {
                pos: e.pos as int,
            }),
        },
{
    let ghost tv = t.deep_view();
    let end = t.len();
    let (attrs, j) = match parse_attrs(t, 0, end) {
        Ok(p) => p,
        Err(e) => {
            return Err(e);
        },
    };
    let (vis, k) = match parse_vis(t, j, end) {
        Ok(p) => p,
        Err(e) => {
            return Err(e);
        },
    };
    if k >= end || !matches!(&t[k], Tok::KwMod) {
        return Err(ParseError { pos: k });
    }
    if k + 1 >= end {
        return Err(ParseError { pos: k + 1 });
    }
    let name: String = match &t[k + 1] {
        Tok::Ident(s) => s.clone(),
        _ => {
            return Err(ParseError { pos: k + 1 });
        },
    };
    if k + 2 >= end || !matches!(&t[k + 2], Tok::Open(Delim::Brace)) {
        return Err(ParseError { pos: k + 2 });
    }
    let c = match find_close(t, k + 3, end) {
        Ok(c) => c,
        Err(e) => {
            return Err(e);
        },
    };
    if c + 1 != end {
        return Err(ParseError { pos: c + 1 });
    }
    let items = match parse_items_impl(t, k + 3, c) {
        Ok(items) => items,
        Err(e) => {
            return Err(e);
        },
    };
    Ok(ItemApiModImpl { attrs, vis, name, items })
}


// ---------------------------------------------------------------------------
// Target paths.

/// Parse path segments from `i`: an identifier, then any number of
/// path-separator-and-identifier pairs, consuming the whole input.
pub open spec fn sp_parse_segs(t: Seq<TokView>, i: int, acc: Seq<Seq<char>>) -> Parsed<
    Seq<Seq<char>>,
>
    decreases t.len() - i,
{
    if i < 0 || i >= t.len() {
        Parsed::Fail { pos: i }
    } else {
        match t[i] {
            TokView::Ident(s) => {
                if i + 1 >= t.len() {
                    Parsed::Found(acc.push(s))
                } else if t[i + 1] is PathSep {
                    sp_parse_segs(t, i + 2, acc.push(s))
                } else {
                    Parsed::Fail { pos: i + 1 }
                }
            },
            _ => Parsed::Fail { pos: i },
        }
    }
}

/// Parse a whole target path: an optional leading path separator, then
/// segments.
pub open spec fn sp_parse_path(t: Seq<TokView>) -> Parsed<ImplPathView> {
    if t.len() == 0 {
        Parsed::Fail { pos: 0 }
    } else {
        let absolute = t[0] is PathSep;
        let start: int = if absolute {
            1
        } else {
            0
        };
        match sp_parse_segs(t, start, Seq::empty()) {
            Parsed::Found(segs) => Parsed::Found(
                ImplPathView { absolute, segments: segs },
            ),
            Parsed::Fail { pos } => Parsed::Fail { pos },
        }
    }
}

/// Parse a whole target path from its token stream.
pub fn parse_impl_path(t: &Vec<Tok>) -> (r: Result<ImplPath, ParseError>)
    ensures
        match r {
            Ok(p) => sp_parse_path(t.deep_view()) == Parsed::Found(p.deep_view()) && p.deep_view().segments.len() > 0,
            Err(e) => sp_parse_path(t.deep_view()) == (Parsed::<ImplPathView>::Fail {
                pos: e.pos as int,
            }),
        },
{
    let ghost tv = t.deep_view();
    if t.len() == 0 {
        return Err(ParseError { pos: 0 });
    }
    let absolute = matches!(&t[0], Tok::PathSep);
    proof {
        assert(tv[0] == t@[0].deep_view());
        assert(absolute == (tv[0] is PathSep));
    }
    let start: usize = if absolute {
        1
    } else {
        0
    };
    let mut segments: Vec<String> = Vec::new();
    proof {
        assert(segments.deep_view() =~~= Seq::<Seq<char>>::empty());
    }
    let mut j: usize = start;
    loop
        invariant
            start <= j,
            tv == t.deep_view(),
            tv.len() == t@.len(),
            tv.len() > 0,
            absolute == (tv[0] is PathSep),
            start as int == (if (tv[0] is PathSep) { 1int } else { 0int }),
            segments@.len() == segments.deep_view().len(),
            sp_parse_segs(tv, start as int, Seq::empty()) == sp_parse_segs(
                tv,
                j as int,
                segments.deep_view(),
            ),
        decreases t@.len() + 2 - j,
    {
        if j >= t.len() {
            return Err(ParseError { pos: j });
        }
        let s: String = match &t[j] {
            Tok::Ident(s) => s.clone(),
            _ => {
                return Err(ParseError { pos: j });
            },
        };
        let ghost acc0 = segments.deep_view();
        segments.push(s);
        proof {
            assert(segments.deep_view() =~~= acc0.push(tv[j as int]->Ident_0));
        }
        if j + 1 >= t.len() {
            let p = ImplPath { absolute, segments };
            proof {
                assert(tv[j as int] == t@[j as int].deep_view());
                assert(sp_parse_segs(tv, j as int, acc0) == Parsed::<Seq<Seq<char>>>::Found(
                    p.segments.deep_view(),
                ));
                assert(sp_parse_path(tv) =~~= Parsed::<ImplPathView>::Found(p.deep_view()));
            }
            return Ok(p);
        }
        if !matches!(&t[j + 1], Tok::PathSep) {
            return Err(ParseError { pos: j + 1 });
        }
        j += 2;
    }
}

} // verus!\n