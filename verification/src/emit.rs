//! Token emission.
//!
//! Lays a structured generation result out as the flat token stream that
//! is handed back to the host compiler. The `sp_*` functions define the
//! exact layout; each emitter appends precisely that layout. Identifiers
//! of the host language that the token model does not give a keyword
//! variant (the trait, implementation, import, and marker-type spellings)
//! are emitted as plain identifier tokens.

use vstd::prelude::*;

use crate::ast::{ApiFnImplView, Attr, AttrView, FnSig, SigView, Visib, VisView};
use crate::docgen::{get_api_fn_def_extra_doc_comments, spec_fn_extra_docs};
use crate::gen_def::{Forwarder, ForwarderView, GenDef, GenDefView, SupportPath, SupportView,
    TraitDef, TraitDefView, TraitMethodView};
use crate::gen_impl::{GenImpl, GenImplView};
use crate::tokens::{Delim, Tok, TokView, append_toks};

verus! {

// ---------------------------------------------------------------------------
// Layout specifications: leaves.

/// `# [ content ]`
pub open spec fn sp_attr_toks(a: AttrView) -> Seq<TokView> {
    seq![TokView::Punct('#'), TokView::Open(Delim::Bracket)] + a.content + seq![
        TokView::Close(Delim::Bracket),
    ]
}

/// The attribute list, in order.
pub open spec fn sp_attrs_toks(attrs: Seq<AttrView>) -> Seq<TokView>
    decreases attrs.len(),
{
    if attrs.len() == 0 {
        Seq::empty()
    } else {
        sp_attr_toks(attrs[0]) + sp_attrs_toks(attrs.skip(1))
    }
}

/// `# [ doc = "line" ]`
pub open spec fn sp_doc_line_toks(line: Seq<char>) -> Seq<TokView> {
    seq![
        TokView::Punct('#'),
        TokView::Open(Delim::Bracket),
        TokView::Ident("doc"@),
        TokView::Punct('='),
        TokView::LitStr(line),
        TokView::Close(Delim::Bracket),
    ]
}

/// The documentation lines, in order.
pub open spec fn sp_docs_toks(lines: Seq<Seq<char>>) -> Seq<TokView>
    decreases lines.len(),
{
    if lines.len() == 0 {
        Seq::empty()
    } else {
        sp_doc_line_toks(lines[0]) + sp_docs_toks(lines.skip(1))
    }
}

/// `# [ doc ( hidden ) ]`
pub open spec fn sp_doc_hidden_toks() -> Seq<TokView> {
    seq![
        TokView::Punct('#'),
        TokView::Open(Delim::Bracket),
        TokView::Ident("doc"@),
        TokView::Open(Delim::Paren),
        TokView::Ident("hidden"@),
        TokView::Close(Delim::Paren),
        TokView::Close(Delim::Bracket),
    ]
}

/// The visibility marker, verbatim.
pub open spec fn sp_vis_toks(v: VisView) -> Seq<TokView> {
    match v {
        VisView::Inherited => Seq::empty(),
        VisView::Public => seq![TokView::KwPub],
        VisView::Restricted(run) => seq![TokView::KwPub, TokView::Open(Delim::Paren)] + run
            + seq![TokView::Close(Delim::Paren)],
    }
}

/// How generated code names the support library: a self reference, the
/// import name, or an embedded error marker when it cannot be located.
pub open spec fn sp_support_toks(s: SupportView) -> Seq<TokView> {
    match s {
        SupportView::Itself => seq![TokView::Ident("crate"@)],
        SupportView::Named(n) => seq![TokView::Ident(n)],
        SupportView::Missing => seq![
            TokView::Ident("compile_error"@),
            TokView::Punct('!'),
            TokView::Open(Delim::Paren),
            TokView::LitStr("`axvisor_api` crate not found"@),
            TokView::Close(Delim::Paren),
        ],
    }
}

/// `support :: __priv :: crate_interface :: item`
pub open spec fn sp_registry_path_toks(s: SupportView, item: Seq<char>) -> Seq<TokView> {
    sp_support_toks(s) + seq![
        TokView::PathSep,
        TokView::Ident("__priv"@),
        TokView::PathSep,
        TokView::Ident("crate_interface"@),
        TokView::PathSep,
        TokView::Ident(item),
    ]
}

/// A signature, verbatim: the function keyword, the name, the generic
/// segment, the parenthesized parameter list, and the trailing segment.
pub open spec fn sp_sig_toks(s: SigView) -> Seq<TokView> {
    seq![TokView::KwFn, TokView::Ident(s.name)] + s.generics + seq![
        TokView::Open(Delim::Paren),
    ] + s.params + seq![TokView::Close(Delim::Paren)] + s.ret
}

/// Verbatim token runs, concatenated in order.
pub open spec fn sp_runs_toks(runs: Seq<Seq<TokView>>) -> Seq<TokView>
    decreases runs.len(),
{
    if runs.len() == 0 {
        Seq::empty()
    } else {
        runs[0] + sp_runs_toks(runs.skip(1))
    }
}

/// Argument patterns joined by commas.
pub open spec fn sp_args_toks(args: Seq<Seq<TokView>>) -> Seq<TokView>
    decreases args.len(),
{
    if args.len() == 0 {
        Seq::empty()
    } else if args.len() == 1 {
        args[0]
    } else {
        args[0] + seq![TokView::Punct(',')] + sp_args_toks(args.skip(1))
    }
}

/// Path segments joined by the path separator, with a leading separator
/// when the path is absolute.
pub open spec fn sp_path_seg_toks(segs: Seq<Seq<char>>) -> Seq<TokView>
    decreases segs.len(),
{
    if segs.len() == 0 {
        Seq::empty()
    } else if segs.len() == 1 {
        seq![TokView::Ident(segs[0])]
    } else {
        seq![TokView::Ident(segs[0]), TokView::PathSep] + sp_path_seg_toks(segs.skip(1))
    }
}

/// A full target path.
pub open spec fn sp_path_toks(absolute: bool, segs: Seq<Seq<char>>) -> Seq<TokView> {
    (if absolute {
        seq![TokView::PathSep]
    } else {
        Seq::<TokView>::empty()
    }) + sp_path_seg_toks(segs)
}

// ---------------------------------------------------------------------------
// Emitters: leaves.

/// Append one token.
pub fn push_tok(out: &mut Vec<Tok>, t: Tok)
    ensures
        final(out).deep_view() == old(out).deep_view() + seq![t.deep_view()],
{
    let ghost tv = t.deep_view();
    out.push(t);
    proof {
        assert(out.deep_view() =~~= old(out).deep_view() + seq![tv]);
    }
}

/// Append `# [ content ]`.
pub fn emit_attr(out: &mut Vec<Tok>, a: &Attr)
    ensures
        final(out).deep_view() == old(out).deep_view() + sp_attr_toks(a.deep_view()),
{
    push_tok(out, Tok::Punct('#'));
    push_tok(out, Tok::Open(Delim::Bracket));
    append_toks(out, &a.content);
    push_tok(out, Tok::Close(Delim::Bracket));
    proof {
        assert(out.deep_view() =~~= old(out).deep_view() + sp_attr_toks(a.deep_view()));
    }
}

/// Append an attribute list.
pub fn emit_attrs(out: &mut Vec<Tok>, attrs: &Vec<Attr>)
    ensures
        final(out).deep_view() == old(out).deep_view() + sp_attrs_toks(attrs.deep_view()),
{
    let ghost base = out.deep_view();
    let ghost av = attrs.deep_view();
    proof {
        assert(av.skip(0) =~~= av);
    }
    let mut k: usize = 0;
    while k < attrs.len()
        invariant
            k <= attrs@.len(),
            av == attrs.deep_view(),
            av.len() == attrs@.len(),
            out.deep_view() + sp_attrs_toks(av.skip(k as int)) == base + sp_attrs_toks(av),
        decreases attrs@.len() - k,
    {
        let ghost o0 = out.deep_view();
        emit_attr(out, &attrs[k]);
        proof {
            assert(av.skip(k as int)[0] == av[k as int]);
            assert(av.skip(k as int).skip(1) =~~= av.skip(k as int + 1));
            assert(out.deep_view() + sp_attrs_toks(av.skip(k as int + 1)) =~~= o0
                + sp_attrs_toks(av.skip(k as int)));
        }
        k += 1;
    }
    proof {
        assert(sp_attrs_toks(av.skip(k as int)) =~~= Seq::<TokView>::empty());
        assert(out.deep_view() =~~= out.deep_view() + sp_attrs_toks(av.skip(k as int)));
    }
}

/// Append `# [ doc = "line" ]`.
pub fn emit_doc_line(out: &mut Vec<Tok>, line: &str)
    ensures
        final(out).deep_view() == old(out).deep_view() + sp_doc_line_toks(line@),
{
    push_tok(out, Tok::Punct('#'));
    push_tok(out, Tok::Open(Delim::Bracket));
    push_tok(out, Tok::Ident("doc".to_owned()));
    push_tok(out, Tok::Punct('='));
    push_tok(out, Tok::LitStr(line.to_owned()));
    push_tok(out, Tok::Close(Delim::Bracket));
    proof {
        assert(out.deep_view() =~~= old(out).deep_view() + sp_doc_line_toks(line@));
    }
}

/// Append documentation lines.
pub fn emit_docs(out: &mut Vec<Tok>, lines: &Vec<String>)
    ensures
        final(out).deep_view() == old(out).deep_view() + sp_docs_toks(lines.deep_view()),
{
    let ghost base = out.deep_view();
    let ghost lv = lines.deep_view();
    proof {
        assert(lv.skip(0) =~~= lv);
    }
    let mut k: usize = 0;
    while k < lines.len()
        invariant
            k <= lines@.len(),
            lv == lines.deep_view(),
            lv.len() == lines@.len(),
            out.deep_view() + sp_docs_toks(lv.skip(k as int)) == base + sp_docs_toks(lv),
        decreases lines@.len() - k,
    {
        let ghost o0 = out.deep_view();
        emit_doc_line(out, lines[k].as_str());
        proof {
            assert(lv.skip(k as int)[0] == lv[k as int]);
            assert(lv.skip(k as int).skip(1) =~~= lv.skip(k as int + 1));
            assert(out.deep_view() + sp_docs_toks(lv.skip(k as int + 1)) =~~= o0 + sp_docs_toks(
                lv.skip(k as int),
            ));
        }
        k += 1;
    }
    proof {
        assert(sp_docs_toks(lv.skip(k as int)) =~~= Seq::<TokView>::empty());
        assert(out.deep_view() =~~= out.deep_view() + sp_docs_toks(lv.skip(k as int)));
    }
}

/// Append `# [ doc ( hidden ) ]`.
pub fn emit_doc_hidden(out: &mut Vec<Tok>)
    ensures
        final(out).deep_view() == old(out).deep_view() + sp_doc_hidden_toks(),
{
    push_tok(out, Tok::Punct('#'));
    push_tok(out, Tok::Open(Delim::Bracket));
    push_tok(out, Tok::Ident("doc".to_owned()));
    push_tok(out, Tok::Open(Delim::Paren));
    push_tok(out, Tok::Ident("hidden".to_owned()));
    push_tok(out, Tok::Close(Delim::Paren));
    push_tok(out, Tok::Close(Delim::Bracket));
    proof {
        assert(out.deep_view() =~~= old(out).deep_view() + sp_doc_hidden_toks());
    }
}

/// Append the visibility marker.
pub fn emit_vis(out: &mut Vec<Tok>, v: &Visib)
    ensures
        final(out).deep_view() == old(out).deep_view() + sp_vis_toks(v.deep_view()),
{
    match v {
        Visib::Inherited => {
            proof {
                assert(out.deep_view() =~~= old(out).deep_view() + sp_vis_toks(v.deep_view()));
            }
        },
        Visib::Public => {
            push_tok(out, Tok::KwPub);
            proof {
                assert(out.deep_view() =~~= old(out).deep_view() + sp_vis_toks(v.deep_view()));
            }
        },
        Visib::Restricted(run) => {
            push_tok(out, Tok::KwPub);
            push_tok(out, Tok::Open(Delim::Paren));
            append_toks(out, run);
            push_tok(out, Tok::Close(Delim::Paren));
            proof {
                assert(out.deep_view() =~~= old(out).deep_view() + sp_vis_toks(v.deep_view()));
            }
        },
    }
}

/// Append the support-library reference.
pub fn emit_support(out: &mut Vec<Tok>, s: &SupportPath)
    ensures
        final(out).deep_view() == old(out).deep_view() + sp_support_toks(s.deep_view()),
{
    match s {
        SupportPath::Itself => {
            push_tok(out, Tok::Ident("crate".to_owned()));
        },
        SupportPath::Named(n) => {
            push_tok(out, Tok::Ident(n.clone()));
        },
        SupportPath::Missing => {
            push_tok(out, Tok::Ident("compile_error".to_owned()));
            push_tok(out, Tok::Punct('!'));
            push_tok(out, Tok::Open(Delim::Paren));
            push_tok(out, Tok::LitStr("`axvisor_api` crate not found".to_owned()));
            push_tok(out, Tok::Close(Delim::Paren));
        },
    }
    proof {
        assert(out.deep_view() =~~= old(out).deep_view() + sp_support_toks(s.deep_view()));
    }
}

/// Append `support :: __priv :: crate_interface :: item`.
pub fn emit_registry_path(out: &mut Vec<Tok>, s: &SupportPath, item: &str)
    ensures
        final(out).deep_view() == old(out).deep_view() + sp_registry_path_toks(
            s.deep_view(),
            item@,
        ),
{
    emit_support(out, s);
    push_tok(out, Tok::PathSep);
    push_tok(out, Tok::Ident("__priv".to_owned()));
    push_tok(out, Tok::PathSep);
    push_tok(out, Tok::Ident("crate_interface".to_owned()));
    push_tok(out, Tok::PathSep);
    push_tok(out, Tok::Ident(item.to_owned()));
    proof {
        assert(out.deep_view() =~~= old(out).deep_view() + sp_registry_path_toks(
            s.deep_view(),
            item@,
        ));
    }
}

/// Append a signature, verbatim.
pub fn emit_sig(out: &mut Vec<Tok>, s: &FnSig)
    ensures
        final(out).deep_view() == old(out).deep_view() + sp_sig_toks(s.deep_view()),
{
    push_tok(out, Tok::KwFn);
    push_tok(out, Tok::Ident(s.name.clone()));
    append_toks(out, &s.generics);
    push_tok(out, Tok::Open(Delim::Paren));
    append_toks(out, &s.params);
    push_tok(out, Tok::Close(Delim::Paren));
    append_toks(out, &s.ret);
    proof {
        assert(out.deep_view() =~~= old(out).deep_view() + sp_sig_toks(s.deep_view()));
    }
}

/// Append verbatim token runs in order.
pub fn emit_runs(out: &mut Vec<Tok>, runs: &Vec<Vec<Tok>>)
    ensures
        final(out).deep_view() == old(out).deep_view() + sp_runs_toks(runs.deep_view()),
{
    let ghost base = out.deep_view();
    let ghost rv = runs.deep_view();
    proof {
        assert(rv.skip(0) =~~= rv);
    }
    let mut k: usize = 0;
    while k < runs.len()
        invariant
            k <= runs@.len(),
            rv == runs.deep_view(),
            rv.len() == runs@.len(),
            out.deep_view() + sp_runs_toks(rv.skip(k as int)) == base + sp_runs_toks(rv),
        decreases runs@.len() - k,
    {
        let ghost o0 = out.deep_view();
        append_toks(out, &runs[k]);
        proof {
            assert(rv.skip(k as int)[0] == rv[k as int]);
            assert(rv.skip(k as int).skip(1) =~~= rv.skip(k as int + 1));
            assert(out.deep_view() + sp_runs_toks(rv.skip(k as int + 1)) =~~= o0 + sp_runs_toks(
                rv.skip(k as int),
            ));
        }
        k += 1;
    }
    proof {
        assert(sp_runs_toks(rv.skip(k as int)) =~~= Seq::<TokView>::empty());
        assert(out.deep_view() =~~= out.deep_view() + sp_runs_toks(rv.skip(k as int)));
    }
}

/// Append argument patterns joined by commas.
pub fn emit_args(out: &mut Vec<Tok>, args: &Vec<Vec<Tok>>)
    ensures
        final(out).deep_view() == old(out).deep_view() + sp_args_toks(args.deep_view()),
{
    let ghost base = out.deep_view();
    let ghost av = args.deep_view();
    proof {
        assert(av.skip(0) =~~= av);
    }
    let mut k: usize = 0;
    while k < args.len()
        invariant
            k <= args@.len(),
            av == args.deep_view(),
            av.len() == args@.len(),
            out.deep_view() + sp_args_toks(av.skip(k as int)) == base + sp_args_toks(av),
        decreases args@.len() - k,
    {
        let ghost o0 = out.deep_view();
        append_toks(out, &args[k]);
        if k + 1 < args.len() {
            push_tok(out, Tok::Punct(','));
        }
        proof {
            assert(av.skip(k as int)[0] == av[k as int]);
            assert(av.skip(k as int).skip(1) =~~= av.skip(k as int + 1));
            assert(out.deep_view() + sp_args_toks(av.skip(k as int + 1)) =~~= o0 + sp_args_toks(
                av.skip(k as int),
            ));
        }
        k += 1;
    }
    proof {
        assert(sp_args_toks(av.skip(k as int)) =~~= Seq::<TokView>::empty());
        assert(out.deep_view() =~~= out.deep_view() + sp_args_toks(av.skip(k as int)));
    }
}

/// Append a target path.
pub fn emit_path(out: &mut Vec<Tok>, absolute: bool, segs: &Vec<String>)
    ensures
        final(out).deep_view() == old(out).deep_view() + sp_path_toks(
            absolute,
            segs.deep_view(),
        ),
{
    let ghost base = out.deep_view();
    let ghost sv = segs.deep_view();
    if absolute {
        push_tok(out, Tok::PathSep);
    }
    let ghost mid = out.deep_view();
    proof {
        assert(mid =~~= base + (if absolute {
            seq![TokView::PathSep]
        } else {
            Seq::<TokView>::empty()
        }));
        assert(sv.skip(0) =~~= sv);
    }
    let mut k: usize = 0;
    while k < segs.len()
        invariant
            k <= segs@.len(),
            sv == segs.deep_view(),
            sv.len() == segs@.len(),
            out.deep_view() + sp_path_seg_toks(sv.skip(k as int)) == mid + sp_path_seg_toks(sv),
        decreases segs@.len() - k,
    {
        let ghost o0 = out.deep_view();
        push_tok(out, Tok::Ident(segs[k].clone()));
        if k + 1 < segs.len() {
            push_tok(out, Tok::PathSep);
        }
        proof {
            assert(sv.skip(k as int)[0] == sv[k as int]);
            assert(sv.skip(k as int).skip(1) =~~= sv.skip(k as int + 1));
            assert(out.deep_view() + sp_path_seg_toks(sv.skip(k as int + 1)) =~~= o0
                + sp_path_seg_toks(sv.skip(k as int)));
        }
        k += 1;
    }
    proof {
        assert(sp_path_seg_toks(sv.skip(k as int)) =~~= Seq::<TokView>::empty());
        assert(out.deep_view() =~~= out.deep_view() + sp_path_seg_toks(sv.skip(k as int)));
        assert(out.deep_view() =~~= base + sp_path_toks(absolute, sv));
    }
}


// ---------------------------------------------------------------------------
// Layout specifications: generated items.

/// `# [ allow ( non_camel_case_types ) ]`
pub open spec fn sp_allow_toks() -> Seq<TokView> {
    seq![
        TokView::Punct('#'),
        TokView::Open(Delim::Bracket),
        TokView::Ident("allow"@),
        TokView::Open(Delim::Paren),
        TokView::Ident("non_camel_case_types"@),
        TokView::Close(Delim::Paren),
        TokView::Close(Delim::Bracket),
    ]
}

/// One generated forwarding function: the declaration's attributes, the
/// generated note, a public function with the declared signature, whose
/// body hands every argument to the registry's call primitive, addressed
/// by interface type and function name.
pub open spec fn sp_fwd_toks(f: ForwarderView, tname: Seq<char>, s: SupportView) -> Seq<
    TokView,
> {
    sp_attrs_toks(f.attrs) + sp_docs_toks(spec_fn_extra_docs()) + seq![TokView::KwPub]
        + sp_sig_toks(f.sig) + seq![TokView::Open(Delim::Brace)] + sp_registry_path_toks(
        s,
        "call_interface"@,
    ) + seq![
        TokView::Punct('!'),
        TokView::Open(Delim::Paren),
        TokView::Ident(tname),
        TokView::PathSep,
        TokView::Ident(f.sig.name),
        TokView::Punct(','),
    ] + sp_args_toks(f.args) + seq![
        TokView::Close(Delim::Paren),
        TokView::Close(Delim::Brace),
    ]
}

/// The generated forwarding functions, in declaration order.
pub open spec fn sp_fwds_toks(fs: Seq<ForwarderView>, tname: Seq<char>, s: SupportView) -> Seq<
    TokView,
>
    decreases fs.len(),
{
    if fs.len() == 0 {
        Seq::empty()
    } else {
        sp_fwd_toks(fs[0], tname, s) + sp_fwds_toks(fs.skip(1), tname, s)
    }
}

/// One abstract method: attributes, the declared signature, and the
/// statement-end marker.
pub open spec fn sp_method_toks(m: TraitMethodView) -> Seq<TokView> {
    sp_attrs_toks(m.attrs) + sp_sig_toks(m.sig) + seq![TokView::Punct(';')]
}

/// The abstract methods, in declaration order.
pub open spec fn sp_methods_toks(ms: Seq<TraitMethodView>) -> Seq<TokView>
    decreases ms.len(),
{
    if ms.len() == 0 {
        Seq::empty()
    } else {
        sp_method_toks(ms[0]) + sp_methods_toks(ms.skip(1))
    }
}

/// The hidden interface type: marked hidden, registered with the
/// registry's define primitive, allowed a non-standard type name, and
/// carrying one abstract method per declaration.
pub open spec fn sp_trait_toks(td: TraitDefView, s: SupportView) -> Seq<TokView> {
    sp_doc_hidden_toks() + seq![TokView::Punct('#'), TokView::Open(Delim::Bracket)]
        + sp_registry_path_toks(s, "def_interface"@) + seq![TokView::Close(Delim::Bracket)]
        + sp_allow_toks() + seq![
        TokView::KwPub,
        TokView::Ident("trait"@),
        TokView::Ident(td.name),
        TokView::Open(Delim::Brace),
    ] + sp_methods_toks(td.methods) + seq![TokView::Close(Delim::Brace)]
}

/// The interface-type name the forwarders address; empty when no
/// interface type is generated (and then no forwarder exists to use it).
pub open spec fn sp_trait_name_of(g: GenDefView) -> Seq<char> {
    match g.trait_def {
        Option::Some(td) => td.name,
        Option::None => Seq::empty(),
    }
}

/// The whole output of the definition generator: the module, with its own
/// attributes and the generated documentation, holding the regular items
/// verbatim, then the forwarders, then the interface type if any.
pub open spec fn sp_def_output(g: GenDefView) -> Seq<TokView> {
    sp_attrs_toks(g.attrs) + sp_docs_toks(g.extra_docs) + sp_vis_toks(g.vis) + seq![
        TokView::KwMod,
        TokView::Ident(g.name),
        TokView::Open(Delim::Brace),
    ] + sp_runs_toks(g.regular_items) + sp_fwds_toks(
        g.forwarders,
        sp_trait_name_of(g),
        g.support,
    ) + (match g.trait_def {
        Option::Some(td) => sp_trait_toks(td, g.support),
        Option::None => Seq::<TokView>::empty(),
    }) + seq![TokView::Close(Delim::Brace)]
}

/// One provided method body: attributes, the signature, and the body
/// braced, all verbatim.
pub open spec fn sp_impl_method_toks(m: ApiFnImplView) -> Seq<TokView> {
    sp_attrs_toks(m.attrs) + sp_sig_toks(m.sig) + seq![TokView::Open(Delim::Brace)] + m.body
        + seq![TokView::Close(Delim::Brace)]
}

/// The provided method bodies, in order.
pub open spec fn sp_impl_methods_toks(ms: Seq<ApiFnImplView>) -> Seq<TokView>
    decreases ms.len(),
{
    if ms.len() == 0 {
        Seq::empty()
    } else {
        sp_impl_method_toks(ms[0]) + sp_impl_methods_toks(ms.skip(1))
    }
}

/// The whole output of the implementation generator: the hidden aliasing
/// import, then the module with its regular items verbatim, the hidden
/// zero-size marker type, and the registered implementation block
/// attaching every provided body to the target's interface type.
pub open spec fn sp_impl_output(g: GenImplView) -> Seq<TokView> {
    sp_doc_hidden_toks() + seq![TokView::Ident("use"@)] + sp_path_toks(g.absolute, g.segments)
        + seq![TokView::Ident("as"@), TokView::Ident(g.reuse_alias), TokView::Punct(';')]
        + sp_attrs_toks(g.attrs) + sp_vis_toks(g.vis) + seq![
        TokView::KwMod,
        TokView::Ident(g.name),
        TokView::Open(Delim::Brace),
    ] + sp_runs_toks(g.regular_items) + sp_doc_hidden_toks() + seq![
        TokView::KwPub,
        TokView::Ident("struct"@),
        TokView::Ident("__Impl"@),
        TokView::Punct(';'),
    ] + seq![TokView::Punct('#'), TokView::Open(Delim::Bracket)] + sp_registry_path_toks(
        g.support,
        "impl_interface"@,
    ) + seq![TokView::Close(Delim::Bracket)] + seq![
        TokView::Ident("impl"@),
        TokView::Ident("super"@),
        TokView::PathSep,
        TokView::Ident(g.reuse_alias),
        TokView::PathSep,
        TokView::Ident(g.trait_name),
        TokView::Ident("for"@),
        TokView::Ident("__Impl"@),
        TokView::Open(Delim::Brace),
    ] + sp_impl_methods_toks(g.methods) + seq![
        TokView::Close(Delim::Brace),
        TokView::Close(Delim::Brace),
    ]
}

/// The embedded error marker for a target path with no segments.
pub open spec fn sp_impl_error_toks() -> Seq<TokView> {
    seq![
        TokView::Ident("compile_error"@),
        TokView::Punct('!'),
        TokView::Open(Delim::Paren),
        TokView::LitStr("Invalid implementee path"@),
        TokView::Close(Delim::Paren),
    ]
}

// ---------------------------------------------------------------------------
// Emitters: generated items.

/// Append `# [ allow ( non_camel_case_types ) ]`.
fn emit_allow(out: &mut Vec<Tok>)
    ensures
        final(out).deep_view() == old(out).deep_view() + sp_allow_toks(),
{
    push_tok(out, Tok::Punct('#'));
    push_tok(out, Tok::Open(Delim::Bracket));
    push_tok(out, Tok::Ident("allow".to_owned()));
    push_tok(out, Tok::Open(Delim::Paren));
    push_tok(out, Tok::Ident("non_camel_case_types".to_owned()));
    push_tok(out, Tok::Close(Delim::Paren));
    push_tok(out, Tok::Close(Delim::Bracket));
    proof {
        assert(out.deep_view() =~~= old(out).deep_view() + sp_allow_toks());
    }
}

/// Append one generated forwarding function.
fn emit_forwarder(out: &mut Vec<Tok>, f: &Forwarder, tname: &str, s: &SupportPath)
    ensures
        final(out).deep_view() == old(out).deep_view() + sp_fwd_toks(
            f.deep_view(),
            tname@,
            s.deep_view(),
        ),
{
    emit_attrs(out, &f.attrs);
    let docs = get_api_fn_def_extra_doc_comments();
    emit_docs(out, &docs);
    push_tok(out, Tok::KwPub);
    emit_sig(out, &f.sig);
    push_tok(out, Tok::Open(Delim::Brace));
    emit_registry_path(out, s, "call_interface");
    push_tok(out, Tok::Punct('!'));
    push_tok(out, Tok::Open(Delim::Paren));
    push_tok(out, Tok::Ident(tname.to_owned()));
    push_tok(out, Tok::PathSep);
    push_tok(out, Tok::Ident(f.sig.name.clone()));
    push_tok(out, Tok::Punct(','));
    emit_args(out, &f.args);
    push_tok(out, Tok::Close(Delim::Paren));
    push_tok(out, Tok::Close(Delim::Brace));
    proof {
        assert(out.deep_view() =~~= old(out).deep_view() + sp_fwd_toks(
            f.deep_view(),
            tname@,
            s.deep_view(),
        ));
    }
}

/// Append the generated forwarding functions.
fn emit_forwarders(out: &mut Vec<Tok>, fs: &Vec<Forwarder>, tname: &str, s: &SupportPath)
    ensures
        final(out).deep_view() == old(out).deep_view() + sp_fwds_toks(
            fs.deep_view(),
            tname@,
            s.deep_view(),
        ),
{
    let ghost base = out.deep_view();
    let ghost fv = fs.deep_view();
    proof {
        assert(fv.skip(0) =~~= fv);
    }
    let mut k: usize = 0;
    while k < fs.len()
        invariant
            k <= fs@.len(),
            fv == fs.deep_view(),
            fv.len() == fs@.len(),
            out.deep_view() + sp_fwds_toks(fv.skip(k as int), tname@, s.deep_view()) == base
                + sp_fwds_toks(fv, tname@, s.deep_view()),
        decreases fs@.len() - k,
    {
        let ghost o0 = out.deep_view();
        emit_forwarder(out, &fs[k], tname, s);
        proof {
            assert(fv.skip(k as int)[0] == fv[k as int]);
            assert(fv.skip(k as int).skip(1) =~~= fv.skip(k as int + 1));
            assert(out.deep_view() + sp_fwds_toks(fv.skip(k as int + 1), tname@, s.deep_view())
                =~~= o0 + sp_fwds_toks(fv.skip(k as int), tname@, s.deep_view()));
        }
        k += 1;
    }
    proof {
        assert(sp_fwds_toks(fv.skip(k as int), tname@, s.deep_view())
            =~~= Seq::<TokView>::empty());
        assert(out.deep_view() =~~= out.deep_view() + sp_fwds_toks(
            fv.skip(k as int),
            tname@,
            s.deep_view(),
        ));
    }
}

/// Append the hidden interface type.
fn emit_trait(out: &mut Vec<Tok>, td: &TraitDef, s: &SupportPath)
    ensures
        final(out).deep_view() == old(out).deep_view() + sp_trait_toks(
            td.deep_view(),
            s.deep_view(),
        ),
{
    emit_doc_hidden(out);
    push_tok(out, Tok::Punct('#'));
    push_tok(out, Tok::Open(Delim::Bracket));
    emit_registry_path(out, s, "def_interface");
    push_tok(out, Tok::Close(Delim::Bracket));
    emit_allow(out);
    push_tok(out, Tok::KwPub);
    push_tok(out, Tok::Ident("trait".to_owned()));
    push_tok(out, Tok::Ident(td.name.clone()));
    push_tok(out, Tok::Open(Delim::Brace));
    let ghost mid = out.deep_view();
    let mut k: usize = 0;
    let ghost mv = td.methods.deep_view();
    proof {
        assert(mv.skip(0) =~~= mv);
    }
    while k < td.methods.len()
        invariant
            k <= td.methods@.len(),
            mv == td.methods.deep_view(),
            mv.len() == td.methods@.len(),
            out.deep_view() + sp_methods_toks(mv.skip(k as int)) == mid + sp_methods_toks(mv),
        decreases td.methods@.len() - k,
    {
        let ghost o0 = out.deep_view();
        emit_attrs(out, &td.methods[k].attrs);
        emit_sig(out, &td.methods[k].sig);
        push_tok(out, Tok::Punct(';'));
        proof {
            assert(out.deep_view() =~~= o0 + sp_method_toks(mv[k as int]));
            assert(mv.skip(k as int)[0] == mv[k as int]);
            assert(mv.skip(k as int).skip(1) =~~= mv.skip(k as int + 1));
            assert(out.deep_view() + sp_methods_toks(mv.skip(k as int + 1)) =~~= o0
                + sp_methods_toks(mv.skip(k as int)));
        }
        k += 1;
    }
    proof {
        assert(sp_methods_toks(mv.skip(k as int)) =~~= Seq::<TokView>::empty());
        assert(out.deep_view() =~~= out.deep_view() + sp_methods_toks(mv.skip(k as int)));
    }
    push_tok(out, Tok::Close(Delim::Brace));
    proof {
        assert(out.deep_view() =~~= old(out).deep_view() + sp_trait_toks(
            td.deep_view(),
            s.deep_view(),
        ));
    }
}

/// Lay the whole output of the definition generator out as tokens.
pub fn def_output_tokens(g: &GenDef) -> (out: Vec<Tok>)
    ensures
        out.deep_view() == sp_def_output(g.deep_view()),
{
    let ghost gv = g.deep_view();
    let mut out: Vec<Tok> = Vec::new();
    proof {
        assert(out.deep_view() =~~= Seq::<TokView>::empty());
    }
    emit_attrs(&mut out, &g.attrs);
    emit_docs(&mut out, &g.extra_docs);
    emit_vis(&mut out, &g.vis);
    push_tok(&mut out, Tok::KwMod);
    push_tok(&mut out, Tok::Ident(g.name.clone()));
    push_tok(&mut out, Tok::Open(Delim::Brace));
    emit_runs(&mut out, &g.regular_items);
    let tname: String = match &g.trait_def {
        Some(td) => td.name.clone(),
        None => String::new(),
    };
    proof {
        assert(tname@ == sp_trait_name_of(gv));
    }
    emit_forwarders(&mut out, &g.forwarders, tname.as_str(), &g.support);
    match &g.trait_def {
        Some(td) => {
            emit_trait(&mut out, td, &g.support);
        },
        None => {},
    }
    push_tok(&mut out, Tok::Close(Delim::Brace));
    proof {
        assert(out.deep_view() =~~= sp_def_output(gv));
    }
    out
}

/// Lay the whole output of the implementation generator out as tokens.
#[verifier::rlimit(80)]
pub fn impl_output_tokens(g: &GenImpl) -> (out: Vec<Tok>)
    ensures
        out.deep_view() == sp_impl_output(g.deep_view()),
{
    let ghost gv = g.deep_view();
    let mut out: Vec<Tok> = Vec::new();
    proof {
        assert(out.deep_view() =~~= Seq::<TokView>::empty());
    }
    emit_doc_hidden(&mut out);
    push_tok(&mut out, Tok::Ident("use".to_owned()));
    emit_path(&mut out, g.target.absolute, &g.target.segments);
    push_tok(&mut out, Tok::Ident("as".to_owned()));
    push_tok(&mut out, Tok::Ident(g.reuse_alias.clone()));
    push_tok(&mut out, Tok::Punct(';'));
    emit_attrs(&mut out, &g.attrs);
    emit_vis(&mut out, &g.vis);
    push_tok(&mut out, Tok::KwMod);
    push_tok(&mut out, Tok::Ident(g.name.clone()));
    push_tok(&mut out, Tok::Open(Delim::Brace));
    emit_runs(&mut out, &g.regular_items);
    emit_doc_hidden(&mut out);
    push_tok(&mut out, Tok::KwPub);
    push_tok(&mut out, Tok::Ident("struct".to_owned()));
    push_tok(&mut out, Tok::Ident("__Impl".to_owned()));
    push_tok(&mut out, Tok::Punct(';'));
    push_tok(&mut out, Tok::Punct('#'));
    push_tok(&mut out, Tok::Open(Delim::Bracket));
    emit_registry_path(&mut out, &g.support, "impl_interface");
    push_tok(&mut out, Tok::Close(Delim::Bracket));
    push_tok(&mut out, Tok::Ident("impl".to_owned()));
    push_tok(&mut out, Tok::Ident("super".to_owned()));
    push_tok(&mut out, Tok::PathSep);
    push_tok(&mut out, Tok::Ident(g.reuse_alias.clone()));
    push_tok(&mut out, Tok::PathSep);
    push_tok(&mut out, Tok::Ident(g.trait_name.clone()));
    push_tok(&mut out, Tok::Ident("for".to_owned()));
    push_tok(&mut out, Tok::Ident("__Impl".to_owned()));
    push_tok(&mut out, Tok::Open(Delim::Brace));
    let ghost mid = out.deep_view();
    let mut k: usize = 0;
    let ghost mv = g.methods.deep_view();
    proof {
        assert(mv.skip(0) =~~= mv);
    }
    while k < g.methods.len()
        invariant
            k <= g.methods@.len(),
            mv == g.methods.deep_view(),
            mv.len() == g.methods@.len(),
            out.deep_view() + sp_impl_methods_toks(mv.skip(k as int)) == mid
                + sp_impl_methods_toks(mv),
        decreases g.methods@.len() - k,
    {
        let ghost o0 = out.deep_view();
        emit_attrs(&mut out, &g.methods[k].attrs);
        emit_sig(&mut out, &g.methods[k].sig);
        push_tok(&mut out, Tok::Open(Delim::Brace));
        append_toks(&mut out, &g.methods[k].body);
        push_tok(&mut out, Tok::Close(Delim::Brace));
        proof {
            assert(out.deep_view() =~~= o0 + sp_impl_method_toks(mv[k as int]));
            assert(mv.skip(k as int)[0] == mv[k as int]);
            assert(mv.skip(k as int).skip(1) =~~= mv.skip(k as int + 1));
            assert(out.deep_view() + sp_impl_methods_toks(mv.skip(k as int + 1)) =~~= o0
                + sp_impl_methods_toks(mv.skip(k as int)));
        }
        k += 1;
    }
    proof {
        assert(sp_impl_methods_toks(mv.skip(k as int)) =~~= Seq::<TokView>::empty());
        assert(out.deep_view() =~~= out.deep_view() + sp_impl_methods_toks(mv.skip(k as int)));
    }
    push_tok(&mut out, Tok::Close(Delim::Brace));
    push_tok(&mut out, Tok::Close(Delim::Brace));
    proof {
        assert(out.deep_view() =~~= sp_impl_output(gv));
    }
    out
}

/// The embedded error marker for a target path with no segments.
pub fn impl_error_tokens() -> (out: Vec<Tok>)
    ensures
        out.deep_view() == sp_impl_error_toks(),
{
    let mut out: Vec<Tok> = Vec::new();
    push_tok(&mut out, Tok::Ident("compile_error".to_owned()));
    push_tok(&mut out, Tok::Punct('!'));
    push_tok(&mut out, Tok::Open(Delim::Paren));
    push_tok(&mut out, Tok::LitStr("Invalid implementee path".to_owned()));
    push_tok(&mut out, Tok::Close(Delim::Paren));
    proof {
        assert(out.deep_view() =~~= sp_impl_error_toks());
    }
    out
}

} // verus!
