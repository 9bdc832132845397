//! The two generation entry points.
//!
//! These are the only operations a caller needs: hand in the attribute
//! tokens, the annotated module's tokens, and the resolved support-library
//! reference, and get back the emitted tokens. Errors of any stage come
//! back as an embedded compile-time error marker, so one bad module never
//! brings the generator down.

use vstd::prelude::*;

use crate::ast::{ApiModImplView, ApiModView, ImplPathView};
use crate::docgen::spec_mod_extra_docs;
use crate::emit::{def_output_tokens, impl_error_tokens, impl_output_tokens, push_tok,
    sp_def_output, sp_impl_error_toks, sp_impl_output};
use crate::gen_def::{GenDefView, SupportPath, SupportView, TraitDefView, process_api_mod_def,
    sp_decl_names, sp_decls, sp_any_receiver, sp_forwarder_of, sp_method_of, sp_regulars};
use crate::gen_impl::{GenImplView, process_api_mod_impl, sp_impl_fns, sp_regulars_impl};
use crate::names::{dec_string, spec_api_trait_name, spec_dec, spec_reuse_alias};
use crate::parse::{Parsed, parse_api_mod, parse_api_mod_impl, parse_impl_path,
    sp_parse_mod_def, sp_parse_mod_impl, sp_parse_path};
use crate::ast::ApiFnView;
use crate::tokens::{Delim, Tok, TokView};
use vstd::string::StringExecFns;

verus! {

/// An embedded compile-time error marker with the given message.
pub open spec fn sp_compile_error_toks(msg: Seq<char>) -> Seq<TokView> {
    seq![
        TokView::Ident("compile_error"@),
        TokView::Punct('!'),
        TokView::Open(Delim::Paren),
        TokView::LitStr(msg),
        TokView::Close(Delim::Paren),
    ]
}

/// Emit an embedded compile-time error marker.
fn compile_error_tokens(msg: &str) -> (out: Vec<Tok>)
    ensures
        out.deep_view() == sp_compile_error_toks(msg@),
{
    let mut out: Vec<Tok> = Vec::new();
    push_tok(&mut out, Tok::Ident("compile_error".to_owned()));
    push_tok(&mut out, Tok::Punct('!'));
    push_tok(&mut out, Tok::Open(Delim::Paren));
    push_tok(&mut out, Tok::LitStr(msg.to_owned()));
    push_tok(&mut out, Tok::Close(Delim::Paren));
    proof {
        assert(out.deep_view() =~~= sp_compile_error_toks(msg@));
    }
    out
}

/// The message reporting a syntax error at a token position.
pub open spec fn sp_syntax_error_msg(pos: int) -> Seq<char> {
    "invalid interface module: syntax error at token "@ + spec_dec(
        if pos >= 0 {
            pos as nat
        } else {
            0
        },
    )
}

/// Emit the syntax-error marker for a position.
fn syntax_error_tokens(pos: usize) -> (out: Vec<Tok>)
    ensures
        out.deep_view() == sp_compile_error_toks(sp_syntax_error_msg(pos as int)),
{
    let mut msg = "invalid interface module: syntax error at token ".to_owned();
    let num = dec_string(pos);
    msg.append(num.as_str());
    proof {
        assert(msg@ =~= sp_syntax_error_msg(pos as int));
    }
    compile_error_tokens(msg.as_str())
}

/// What the definition generator produces for a parsed module, as a
/// mathematical value.
pub open spec fn sp_gen_def(m: ApiModView, s: SupportView) -> GenDefView {
    let decls = sp_decls(m.items);
    GenDefView {
        attrs: m.attrs,
        extra_docs: spec_mod_extra_docs(m.name, sp_decl_names(decls)),
        vis: m.vis,
        name: m.name,
        regular_items: sp_regulars(m.items),
        forwarders: decls.map_values(|d: ApiFnView| sp_forwarder_of(d)),
        trait_def: if decls.len() == 0 {
            Option::None
        } else {
            Option::Some(
                TraitDefView {
                    name: spec_api_trait_name(m.name),
                    methods: decls.map_values(|d: ApiFnView| sp_method_of(d)),
                },
            )
        },
        support: s,
    }
}

/// What the implementation generator produces, as a mathematical value.
pub open spec fn sp_gen_impl(p: ImplPathView, m: ApiModImplView, s: SupportView) -> GenImplView {
    GenImplView {
        reuse_alias: spec_reuse_alias(p.absolute, p.segments),
        absolute: p.absolute,
        segments: p.segments,
        trait_name: spec_api_trait_name(p.segments[p.segments.len() - 1]),
        attrs: m.attrs,
        vis: m.vis,
        name: m.name,
        regular_items: sp_regulars_impl(m.items),
        methods: sp_impl_fns(m.items),
        support: s,
    }
}

/// The whole definition entry point: reject a non-empty argument list;
/// report a syntax error as an embedded marker; report a receiver
/// parameter as an embedded marker; otherwise emit the generated module.
pub open spec fn sp_api_mod(attr: Seq<TokView>, input: Seq<TokView>, s: SupportView) -> Seq<
    TokView,
> {
    if attr.len() != 0 {
        sp_compile_error_toks("`api_mod` attribute does not accept any arguments"@)
    } else {
        match sp_parse_mod_def(input) {
            Parsed::Fail { pos } => sp_compile_error_toks(sp_syntax_error_msg(pos)),
            Parsed::Found(m) => if sp_any_receiver(sp_decls(m.items)) {
                sp_compile_error_toks("API functions cannot have self arguments"@)
            } else {
                sp_def_output(sp_gen_def(m, s))
            },
        }
    }
}

/// Define a module containing interface functions.
pub fn api_mod(attr: &Vec<Tok>, input: &Vec<Tok>, support: &SupportPath) -> (out: Vec<Tok>)
    ensures
        out.deep_view() == sp_api_mod(attr.deep_view(), input.deep_view(), support.deep_view()),
{
    if attr.len() != 0 {
        return compile_error_tokens("`api_mod` attribute does not accept any arguments");
    }
    let module = match parse_api_mod(input) {
        Ok(m) => m,
        Err(e) => {
            return syntax_error_tokens(e.pos);
        },
    };
    match process_api_mod_def(&module, support) {
        Ok(g) => {
            proof {
                assert(g.deep_view() =~~= sp_gen_def(
                    module.deep_view(),
                    support.deep_view(),
                ));
            }
            def_output_tokens(&g)
        },
        Err(_) => compile_error_tokens("API functions cannot have self arguments"),
    }
}

/// The whole implementation entry point: the argument must parse as a
/// path; the module must parse; a path with no segments yields the
/// embedded error marker; otherwise emit the generated registration.
pub open spec fn sp_api_mod_impl(attr: Seq<TokView>, input: Seq<TokView>, s: SupportView) -> Seq<
    TokView,
> {
    match sp_parse_path(attr) {
        Parsed::Fail { pos } => sp_compile_error_toks(
            "`api_mod_impl` expects the path of the module to implement as its argument"@,
        ),
        Parsed::Found(p) => match sp_parse_mod_impl(input) {
            Parsed::Fail { pos } => sp_compile_error_toks(sp_syntax_error_msg(pos)),
            Parsed::Found(m) => if p.segments.len() == 0 {
                sp_impl_error_toks()
            } else {
                sp_impl_output(sp_gen_impl(p, m, s))
            },
        },
    }
}

/// Implement the interface functions defined in another module.
pub fn api_mod_impl(attr: &Vec<Tok>, input: &Vec<Tok>, support: &SupportPath) -> (out: Vec<Tok>)
    ensures
        out.deep_view() == sp_api_mod_impl(
            attr.deep_view(),
            input.deep_view(),
            support.deep_view(),
        ),
{
    let path = match parse_impl_path(attr) {
        Ok(p) => p,
        Err(_) => {
            return compile_error_tokens(
                "`api_mod_impl` expects the path of the module to implement as its argument",
            );
        },
    };
    let module = match parse_api_mod_impl(input) {
        Ok(m) => m,
        Err(e) => {
            return syntax_error_tokens(e.pos);
        },
    };
    match process_api_mod_impl(&path, &module, support) {
        Ok(g) => {
            proof {
                assert(g.deep_view() =~~= sp_gen_impl(
                    path.deep_view(),
                    module.deep_view(),
                    support.deep_view(),
                ));
            }
            impl_output_tokens(&g)
        },
        Err(_) => impl_error_tokens(),
    }
}

/// Definition side and implementation side agree on the interface-type
/// name without shared state: the derivation is a pure, deterministic
/// function of a name, so whenever an implementation's target path ends in
/// the definition module's name, the implementation generator
/// reconstructs, from the path alone, exactly the identifier the
/// definition generator minted for its interface type — whatever either
/// module otherwise holds, and however the support library is named on
/// each side.
pub proof fn lemma_def_impl_trait_name_agree(
    m: ApiModView,
    p: ImplPathView,
    im: ApiModImplView,
    s1: SupportView,
    s2: SupportView,
)
    requires
        p.segments.len() > 0,
        p.segments[p.segments.len() - 1] == m.name,
        sp_decls(m.items).len() > 0,
    ensures
        sp_gen_def(m, s1).trait_def matches Some(td) && td.name == sp_gen_impl(
            p,
            im,
            s2,
        ).trait_name,
{
}

} // verus!
