//! Splitting a parameter list and recognizing receiver parameters.
//!
//! A signature keeps its parameter list as a verbatim token run; the
//! generators split that run on commas at depth zero (counting both
//! delimiter groups and angle brackets), and split each parameter at its
//! first depth-zero colon into a pattern and a type. A parameter whose
//! pattern, after any leading reference, lifetime, and mutability tokens,
//! begins with the receiver keyword is a receiver parameter — a fatal
//! authoring error on an interface function.

use vstd::prelude::*;

use crate::ast::{is_amp, is_colon, is_comma, is_gt, is_lt, tok_is_amp, tok_is_colon,
    tok_is_comma, tok_is_gt, tok_is_lt};
use crate::tokens::{Tok, TokView, copy_range};

verus! {

/// One split parameter: its pattern and its type, both verbatim token
/// runs (the type run is empty when the parameter has no colon).
pub struct Param {
    pub pat: Vec<Tok>,
    pub ty: Vec<Tok>,
}

/// Model of a [`Param`].
#[verifier::ext_equal]
pub struct ParamView {
    pub pat: Seq<TokView>,
    pub ty: Seq<TokView>,
}

impl DeepView for Param {
    type V = ParamView;

    open spec fn deep_view(&self) -> ParamView {
        ParamView { pat: self.pat.deep_view(), ty: self.ty.deep_view() }
    }
}

/// Position of the next separator at depth zero — a comma, or a lone colon
/// when `colon` is set — or the run's length when there is none. Depth
/// counts delimiter groups and, outside them, angle brackets.
pub open spec fn sp_list_break(run: Seq<TokView>, i: int, g: nat, a: nat, colon: bool) -> int
    decreases run.len() - i,
{
    if i < 0 || i >= run.len() {
        run.len() as int
    } else if !colon && is_comma(run[i]) && g == 0 && a == 0 {
        i
    } else if colon && is_colon(run[i]) && g == 0 && a == 0 {
        i
    } else if run[i] is Open {
        sp_list_break(run, i + 1, g + 1, a, colon)
    } else if run[i] is Close {
        sp_list_break(run, i + 1, if g > 0 { (g - 1) as nat } else { 0 }, a, colon)
    } else if is_lt(run[i]) && g == 0 {
        sp_list_break(run, i + 1, g, a + 1, colon)
    } else if is_gt(run[i]) && g == 0 {
        sp_list_break(run, i + 1, g, if a > 0 { (a - 1) as nat } else { 0 }, colon)
    } else {
        sp_list_break(run, i + 1, g, a, colon)
    }
}

pub proof fn lemma_list_break_bounds(run: Seq<TokView>, i: int, g: nat, a: nat, colon: bool)
    requires
        0 <= i <= run.len(),
    ensures
        i <= sp_list_break(run, i, g, a, colon) <= run.len(),
    decreases run.len() - i,
{
    if i < run.len() {
        lemma_list_break_bounds(run, i + 1, g + 1, a, colon);
        lemma_list_break_bounds(run, i + 1, if g > 0 { (g - 1) as nat } else { 0 }, a, colon);
        lemma_list_break_bounds(run, i + 1, g, a + 1, colon);
        lemma_list_break_bounds(run, i + 1, g, if a > 0 { (a - 1) as nat } else { 0 }, colon);
        lemma_list_break_bounds(run, i + 1, g, a, colon);
    }
}

/// Find the next depth-zero separator from `i`.
pub fn list_break(run: &Vec<Tok>, i: usize, colon: bool) -> (p: usize)
    requires
        i <= run@.len(),
    ensures
        p as int == sp_list_break(run.deep_view(), i as int, 0, 0, colon),
        i <= p <= run@.len(),
{
    let ghost rv = run.deep_view();
    let mut j: usize = i;
    let mut g: usize = 0;
    let mut a: usize = 0;
    while j < run.len()
        invariant
            i <= j <= run@.len(),
            rv == run.deep_view(),
            g <= j - i,
            a <= j - i,
            sp_list_break(rv, i as int, 0, 0, colon) == sp_list_break(
                rv,
                j as int,
                g as nat,
                a as nat,
                colon,
            ),
        decreases run@.len() - j,
    {
        if !colon && tok_is_comma(&run[j]) && g == 0 && a == 0 {
            return j;
        } else if colon && tok_is_colon(&run[j]) && g == 0 && a == 0 {
            return j;
        } else if matches!(&run[j], Tok::Open(_)) {
            g += 1;
        } else if matches!(&run[j], Tok::Close(_)) {
            if g > 0 {
                g -= 1;
            }
        } else if tok_is_lt(&run[j]) && g == 0 {
            a += 1;
        } else if tok_is_gt(&run[j]) && g == 0 {
            if a > 0 {
                a -= 1;
            }
        }
        j += 1;
    }
    run.len()
}

/// Split one parameter piece `[b, e)` of `run` at its first depth-zero
/// colon into pattern and type.
pub open spec fn sp_mk_param(piece: Seq<TokView>) -> ParamView {
    let q = sp_list_break(piece, 0, 0, 0, true);
    if q >= piece.len() {
        ParamView { pat: piece, ty: Seq::empty() }
    } else {
        ParamView { pat: piece.subrange(0, q), ty: piece.subrange(q + 1, piece.len() as int) }
    }
}

/// The parameters of a parameter-list run, split on depth-zero commas; a
/// trailing comma adds no parameter.
pub open spec fn sp_split_params(run: Seq<TokView>, i: int) -> Seq<ParamView>
    decreases run.len() - i,
    via sp_split_params_dec
{
    if i < 0 || i >= run.len() {
        Seq::empty()
    } else {
        let p = sp_list_break(run, i, 0, 0, false);
        let pv = sp_mk_param(run.subrange(i, p));
        if p >= run.len() {
            seq![pv]
        } else {
            seq![pv] + sp_split_params(run, p + 1)
        }
    }
}

#[via_fn]
proof fn sp_split_params_dec(run: Seq<TokView>, i: int) {
    if 0 <= i < run.len() {
        lemma_list_break_bounds(run, i, 0, 0, false);
    }
}

/// Split one parameter piece into pattern and type.
pub fn mk_param(piece: &Vec<Tok>) -> (pm: Param)
    ensures
        pm.deep_view() == sp_mk_param(piece.deep_view()),
{
    let q = list_break(piece, 0, true);
    if q >= piece.len() {
        let pat = copy_range(piece, 0, piece.len());
        let pm = Param { pat, ty: Vec::new() };
        proof {
            assert(piece.deep_view().subrange(0, piece.deep_view().len() as int)
                =~~= piece.deep_view());
            assert(pm.deep_view() =~~= sp_mk_param(piece.deep_view()));
        }
        pm
    } else {
        let pat = copy_range(piece, 0, q);
        let ty = copy_range(piece, q + 1, piece.len());
        let pm = Param { pat, ty };
        proof {
            assert(pm.deep_view() =~~= sp_mk_param(piece.deep_view()));
        }
        pm
    }
}

/// Split a parameter-list run into its parameters.
pub fn split_params(run: &Vec<Tok>) -> (ps: Vec<Param>)
    ensures
        ps.deep_view() == sp_split_params(run.deep_view(), 0),
{
    let ghost rv = run.deep_view();
    let mut ps: Vec<Param> = Vec::new();
    proof {
        assert(Seq::<ParamView>::empty() + sp_split_params(rv, 0) =~~= sp_split_params(rv, 0));
        assert(ps.deep_view() =~~= Seq::<ParamView>::empty());
    }
    let mut j: usize = 0;
    while j < run.len()
        invariant
            j <= run@.len(),
            rv == run.deep_view(),
            ps.deep_view() + sp_split_params(rv, j as int) == sp_split_params(rv, 0),
        decreases run@.len() - j,
    {
        let p = list_break(run, j, false);
        let piece = copy_range(run, j, p);
        let ghost ps0 = ps.deep_view();
        let pm = mk_param(&piece);
        proof {
            assert(piece.deep_view() =~~= rv.subrange(j as int, p as int));
        }
        ps.push(pm);
        proof {
            assert(ps.deep_view() =~~= ps0.push(sp_mk_param(rv.subrange(j as int, p as int))));
            assert(ps0.push(sp_mk_param(rv.subrange(j as int, p as int)))
                =~~= ps0 + seq![sp_mk_param(rv.subrange(j as int, p as int))]);
        }
        if p >= run.len() {
            j = run.len();
            proof {
                assert(sp_split_params(rv, j as int) =~~= Seq::<ParamView>::empty());
                assert(ps.deep_view() + sp_split_params(rv, j as int) =~~= sp_split_params(
                    rv,
                    0,
                ));
            }
        } else {
            proof {
                assert(ps.deep_view() + sp_split_params(rv, p + 1) =~~= sp_split_params(rv, 0));
            }
            j = p + 1;
        }
    }
    proof {
        assert(sp_split_params(rv, j as int) =~~= Seq::<ParamView>::empty());
        assert(ps.deep_view() =~~= ps.deep_view() + sp_split_params(rv, j as int));
    }
    ps
}

/// Whether a pattern is a receiver: after any leading reference, lifetime,
/// and mutability tokens, it begins with the receiver keyword.
pub open spec fn sp_is_receiver(pat: Seq<TokView>) -> bool
    decreases pat.len(),
{
    if pat.len() == 0 {
        false
    } else if pat[0] is KwSelfValue {
        true
    } else if is_amp(pat[0]) || pat[0] is Lifetime || pat[0] is KwMut {
        sp_is_receiver(pat.skip(1))
    } else {
        false
    }
}

/// Whether a pattern is a receiver.
pub fn is_receiver(pat: &Vec<Tok>) -> (b: bool)
    ensures
        b == sp_is_receiver(pat.deep_view()),
{
    let ghost pv = pat.deep_view();
    proof {
        assert(pv.skip(0) =~~= pv);
    }
    let mut k: usize = 0;
    while k < pat.len()
        invariant
            k <= pat@.len(),
            pv == pat.deep_view(),
            sp_is_receiver(pv) == sp_is_receiver(pv.skip(k as int)),
        decreases pat@.len() - k,
    {
        if matches!(&pat[k], Tok::KwSelfValue) {
            proof {
                assert(pv.skip(k as int)[0] == pv[k as int]);
            }
            return true;
        }
        if tok_is_amp(&pat[k]) || matches!(&pat[k], Tok::Lifetime(_)) || matches!(
            &pat[k],
            Tok::KwMut,
        ) {
            proof {
                assert(pv.skip(k as int).skip(1) =~~= pv.skip(k as int + 1));
            }
            k += 1;
        } else {
            return false;
        }
    }
    false
}

/// Whether any parameter of a split parameter list is a receiver.
pub open spec fn sp_has_receiver(ps: Seq<ParamView>) -> bool {
    exists|k: int| 0 <= k < ps.len() && sp_is_receiver(ps[k].pat)
}

/// Whether any parameter of a split parameter list is a receiver.
pub fn has_receiver(ps: &Vec<Param>) -> (b: bool)
    ensures
        b == sp_has_receiver(ps.deep_view()),
{
    let ghost pv = ps.deep_view();
    let mut k: usize = 0;
    while k < ps.len()
        invariant
            k <= ps@.len(),
            pv == ps.deep_view(),
            pv.len() == ps@.len(),
            forall|j: int| 0 <= j < k ==> !sp_is_receiver(pv[j].pat),
        decreases ps@.len() - k,
    {
        if is_receiver(&ps[k].pat) {
            proof {
                assert(sp_is_receiver(pv[k as int].pat));
            }
            return true;
        }
        k += 1;
    }
    false
}

} // verus!
