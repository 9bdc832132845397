//! The definition generator.
//!
//! A parsed definition module is turned into: its regular items, verbatim
//! and in their original order; one public forwarding function per
//! declaration, whose signature is the declaration's signature unchanged
//! and whose arguments are forwarded positionally; one hidden interface
//! type carrying one abstract method per declaration, in declaration
//! order, present exactly when there is at least one declaration; and the
//! generated documentation lines. A declaration with a receiver parameter
//! is a fatal authoring error: generation of the module fails and nothing
//! is emitted for it.

use vstd::prelude::*;

use crate::ast::{ApiFnView, Attr, AttrView, FnSig, ItemApiMod, ApiModItem, ItemView, SigView,
    Visib, VisView, dup_attrs, dup_sig};
use crate::docgen::{get_api_mod_def_extra_doc_comments, spec_mod_extra_docs};
use crate::names::{get_api_trait_name, spec_api_trait_name};
use crate::params::{Param, ParamView, sp_has_receiver, sp_split_params, split_params,
    has_receiver};
use crate::tokens::{Tok, TokView, copy_range};

verus! {

/// How generated code names the runtime support library: the generator
/// runs inside that library itself, the library is importable under a
/// name, or it cannot be located (in which case emission places an error
/// token where the path would stand).
pub enum SupportPath {
    Itself,
    Named(String),
    Missing,
}

/// Model of a [`SupportPath`].
#[verifier::ext_equal]
pub enum SupportView {
    Itself,
    Named(Seq<char>),
    Missing,
}

impl DeepView for SupportPath {
    type V = SupportView;

    open spec fn deep_view(&self) -> SupportView {
        match self {
            SupportPath::Itself => SupportView::Itself,
            SupportPath::Named(s) => SupportView::Named(s@),
            SupportPath::Missing => SupportView::Missing,
        }
    }
}

/// Duplicate a support path.
pub fn dup_support(s: &SupportPath) -> (r: SupportPath)
    ensures
        r.deep_view() == s.deep_view(),
{
    match s {
        SupportPath::Itself => SupportPath::Itself,
        SupportPath::Named(n) => SupportPath::Named(n.clone()),
        SupportPath::Missing => SupportPath::Missing,
    }
}

/// A fatal authoring error found while generating.
#[derive(Debug, PartialEq, Eq)]
pub enum GenError {
    /// A declaration's signature contains a receiver parameter; the field
    /// is the offending function's name.
    ReceiverParam(String),
}

impl DeepView for GenError {
    type V = Seq<char>;

    open spec fn deep_view(&self) -> Seq<char> {
        match self {
            GenError::ReceiverParam(s) => s@,
        }
    }
}

/// One generated forwarding function: the declaration's attributes and
/// signature unchanged, and the parameter patterns forwarded positionally
/// into the registry's call primitive.
pub struct Forwarder {
    pub attrs: Vec<Attr>,
    pub sig: FnSig,
    pub args: Vec<Vec<Tok>>,
}

/// Model of a [`Forwarder`].
#[verifier::ext_equal]
pub struct ForwarderView {
    pub attrs: Seq<AttrView>,
    pub sig: SigView,
    pub args: Seq<Seq<TokView>>,
}

impl DeepView for Forwarder {
    type V = ForwarderView;

    open spec fn deep_view(&self) -> ForwarderView {
        ForwarderView {
            attrs: self.attrs.deep_view(),
            sig: self.sig.deep_view(),
            args: self.args.deep_view(),
        }
    }
}

/// One abstract method of the generated interface type: the declaration's
/// attributes and signature unchanged.
pub struct TraitMethod {
    pub attrs: Vec<Attr>,
    pub sig: FnSig,
}

/// Model of a [`TraitMethod`].
#[verifier::ext_equal]
pub struct TraitMethodView {
    pub attrs: Seq<AttrView>,
    pub sig: SigView,
}

impl DeepView for TraitMethod {
    type V = TraitMethodView;

    open spec fn deep_view(&self) -> TraitMethodView {
        TraitMethodView { attrs: self.attrs.deep_view(), sig: self.sig.deep_view() }
    }
}

/// The generated hidden interface type: its derived name and its abstract
/// methods.
pub struct TraitDef {
    pub name: String,
    pub methods: Vec<TraitMethod>,
}

/// Model of a [`TraitDef`].
#[verifier::ext_equal]
pub struct TraitDefView {
    pub name: Seq<char>,
    pub methods: Seq<TraitMethodView>,
}

impl DeepView for TraitDef {
    type V = TraitDefView;

    open spec fn deep_view(&self) -> TraitDefView {
        TraitDefView { name: self.name@, methods: self.methods.deep_view() }
    }
}

/// Everything the definition generator emits for one module, in structured
/// form; emission lays it out as tokens.
pub struct GenDef {
    pub attrs: Vec<Attr>,
    pub extra_docs: Vec<String>,
    pub vis: Visib,
    pub name: String,
    pub regular_items: Vec<Vec<Tok>>,
    pub forwarders: Vec<Forwarder>,
    pub trait_def: Option<TraitDef>,
    pub support: SupportPath,
}

/// Model of a [`GenDef`].
#[verifier::ext_equal]
pub struct GenDefView {
    pub attrs: Seq<AttrView>,
    pub extra_docs: Seq<Seq<char>>,
    pub vis: VisView,
    pub name: Seq<char>,
    pub regular_items: Seq<Seq<TokView>>,
    pub forwarders: Seq<ForwarderView>,
    pub trait_def: Option<TraitDefView>,
    pub support: SupportView,
}

impl DeepView for GenDef {
    type V = GenDefView;

    open spec fn deep_view(&self) -> GenDefView {
        GenDefView {
            attrs: self.attrs.deep_view(),
            extra_docs: self.extra_docs.deep_view(),
            vis: self.vis.deep_view(),
            name: self.name@,
            regular_items: self.regular_items.deep_view(),
            forwarders: self.forwarders.deep_view(),
            trait_def: self.trait_def.deep_view(),
            support: self.support.deep_view(),
        }
    }
}

// ---------------------------------------------------------------------------
// Specification of the split and of the per-declaration outputs.

/// The declarations of a definition module, in order.
pub open spec fn sp_decls(items: Seq<ItemView>) -> Seq<ApiFnView>
    decreases items.len(),
{
    if items.len() == 0 {
        Seq::empty()
    } else {
        let rest = sp_decls(items.skip(1));
        match items[0] {
            ItemView::ApiFn(f) => seq![f] + rest,
            ItemView::Regular(_) => rest,
        }
    }
}

/// The regular items of a definition module, in order.
pub open spec fn sp_regulars(items: Seq<ItemView>) -> Seq<Seq<TokView>>
    decreases items.len(),
{
    if items.len() == 0 {
        Seq::empty()
    } else {
        let rest = sp_regulars(items.skip(1));
        match items[0] {
            ItemView::ApiFn(_) => rest,
            ItemView::Regular(run) => seq![run] + rest,
        }
    }
}

/// The names of a declaration list, in order.
pub open spec fn sp_decl_names(decls: Seq<ApiFnView>) -> Seq<Seq<char>> {
    decls.map_values(|d: ApiFnView| d.sig.name)
}

/// The forwarding function generated for one declaration.
pub open spec fn sp_forwarder_of(d: ApiFnView) -> ForwarderView {
    ForwarderView {
        attrs: d.attrs,
        sig: d.sig,
        args: sp_split_params(d.sig.params, 0).map_values(|p: ParamView| p.pat),
    }
}

/// The abstract method generated for one declaration.
pub open spec fn sp_method_of(d: ApiFnView) -> TraitMethodView {
    TraitMethodView { attrs: d.attrs, sig: d.sig }
}

/// Whether any declaration's signature contains a receiver parameter.
pub open spec fn sp_any_receiver(decls: Seq<ApiFnView>) -> bool {
    exists|k: int|
        0 <= k < decls.len() && sp_has_receiver(sp_split_params(decls[k].sig.params, 0))
}

// ---------------------------------------------------------------------------
// The generator.

/// Forward the parameter patterns of a split parameter list.
fn forward_args(ps: &Vec<Param>) -> (args: Vec<Vec<Tok>>)
    ensures
        args.deep_view() == ps.deep_view().map_values(|p: ParamView| p.pat),
{
    let mut args: Vec<Vec<Tok>> = Vec::new();
    let mut k: usize = 0;
    while k < ps.len()
        invariant
            k <= ps@.len(),
            args@.len() == k,
            forall|j: int| 0 <= j < k ==> args@[j].deep_view() == ps@[j].deep_view().pat,
        decreases ps@.len() - k,
    {
        let pat = copy_range(&ps[k].pat, 0, ps[k].pat.len());
        proof {
            assert(ps@[k as int].pat.deep_view().subrange(
                0,
                ps@[k as int].pat.deep_view().len() as int,
            ) =~~= ps@[k as int].pat.deep_view());
        }
        args.push(pat);
        k += 1;
    }
    proof {
        assert(args.deep_view() =~~= ps.deep_view().map_values(|p: ParamView| p.pat));
    }
    args
}

/// Process an interface-module definition.
///
/// Succeeds exactly when no declaration carries a receiver parameter. The
/// output preserves the module's attributes, visibility, name, and regular
/// items verbatim and in order; carries one forwarder per declaration with
/// the declared signature unchanged; carries the hidden interface type,
/// named by the fixed derivation from the module name, with one abstract
/// method per declaration in declaration order, exactly when at least one
/// function is declared; and carries the generated documentation lines.
pub fn process_api_mod_def(module: &ItemApiMod, support: &SupportPath) -> (r: Result<
    GenDef,
    GenError,
>)
    ensures
        ({
            let mv = module.deep_view();
            let decls = sp_decls(mv.items);
            match r {
                Ok(g) => {
                    let gv = g.deep_view();
                    &&& !sp_any_receiver(decls)
                    &&& gv.attrs == mv.attrs
                    &&& gv.vis == mv.vis
                    &&& gv.name == mv.name
                    &&& gv.support == support.deep_view()
                    &&& gv.regular_items == sp_regulars(mv.items)
                    &&& gv.extra_docs == spec_mod_extra_docs(mv.name, sp_decl_names(decls))
                    &&& gv.forwarders.len() == decls.len()
                    &&& (forall|k: int|
                        0 <= k < decls.len() ==> gv.forwarders[k] == sp_forwarder_of(decls[k]))
                    &&& (decls.len() == 0 <==> gv.trait_def is None)
                    &&& (gv.trait_def matches Some(td) ==> {
                        &&& td.name == spec_api_trait_name(mv.name)
                        &&& td.methods.len() == decls.len()
                        &&& (forall|k: int|
                            0 <= k < decls.len() ==> td.methods[k] == sp_method_of(decls[k]))
                    })
                },
                Err(e) => {
                    &&& sp_any_receiver(decls)
                    &&& (exists|k: int|
                        0 <= k < decls.len() && sp_has_receiver(
                            sp_split_params(decls[k].sig.params, 0),
                        ) && decls[k].sig.name == e.deep_view())
                },
            }
        }),
{
    let ghost mv = module.deep_view();
    let ghost items = mv.items;
    let mut regulars: Vec<Vec<Tok>> = Vec::new();
    let mut forwarders: Vec<Forwarder> = Vec::new();
    let mut methods: Vec<TraitMethod> = Vec::new();
    let mut names: Vec<String> = Vec::new();
    let ghost mut dpre: Seq<ApiFnView> = Seq::empty();
    let mut k: usize = 0;
    proof {
        assert(items.skip(0) =~~= items);
        assert(dpre + sp_decls(items.skip(0)) =~~= sp_decls(items));
        assert(regulars.deep_view() + sp_regulars(items.skip(0)) =~~= sp_regulars(items));
    }
    while k < module.items.len()
        invariant
            k <= module.items@.len(),
            mv == module.deep_view(),
            items == mv.items,
            items.len() == module.items@.len(),
            sp_decls(items) == dpre + sp_decls(items.skip(k as int)),
            sp_regulars(items) == regulars.deep_view() + sp_regulars(items.skip(k as int)),
            forwarders@.len() == dpre.len(),
            methods@.len() == dpre.len(),
            names@.len() == dpre.len(),
            forall|j: int|
                0 <= j < dpre.len() ==> forwarders@[j].deep_view() == sp_forwarder_of(dpre[j]),
            forall|j: int|
                0 <= j < dpre.len() ==> methods@[j].deep_view() == sp_method_of(dpre[j]),
            forall|j: int| 0 <= j < dpre.len() ==> names@[j]@ == dpre[j].sig.name,
            forall|j: int|
                0 <= j < dpre.len() ==> !sp_has_receiver(sp_split_params(dpre[j].sig.params, 0)),
        decreases module.items@.len() - k,
    {
        proof {
            assert(items.skip(k as int)[0] == items[k as int]);
            assert(items.skip(k as int).skip(1) =~~= items.skip(k as int + 1));
        }
        match &module.items[k] {
            ApiModItem::Regular(run) => {
                let ghost r0 = regulars.deep_view();
                let copy = copy_range(run, 0, run.len());
                proof {
                    assert(run.deep_view().subrange(0, run.deep_view().len() as int)
                        =~~= run.deep_view());
                }
                regulars.push(copy);
                proof {
                    assert(regulars.deep_view() =~~= r0.push(run.deep_view()));
                    assert(r0.push(run.deep_view()) + sp_regulars(items.skip(k as int + 1))
                        =~~= r0 + sp_regulars(items.skip(k as int)));
                }
            },
            ApiModItem::ApiFn(f) => {
                let ghost fv = f.deep_view();
                let ps = split_params(&f.sig.params);
                if has_receiver(&ps) {
                    proof {
                        assert(sp_decls(items)[dpre.len() as int] == fv);
                        assert(sp_has_receiver(
                            sp_split_params(sp_decls(items)[dpre.len() as int].sig.params, 0),
                        ));
                    }
                    return Err(GenError::ReceiverParam(f.sig.name.clone()));
                }
                let args = forward_args(&ps);
                forwarders.push(
                    Forwarder { attrs: dup_attrs(&f.attrs), sig: dup_sig(&f.sig), args },
                );
                methods.push(TraitMethod { attrs: dup_attrs(&f.attrs), sig: dup_sig(&f.sig) });
                names.push(f.sig.name.clone());
                proof {
                    assert(forwarders@[dpre.len() as int].deep_view() =~~= sp_forwarder_of(fv));
                    assert(methods@[dpre.len() as int].deep_view() =~~= sp_method_of(fv));
                    dpre = dpre.push(fv);
                    assert(dpre.drop_last() + seq![fv] + sp_decls(items.skip(k as int + 1))
                        =~~= dpre + sp_decls(items.skip(k as int + 1)));
                }
            },
        }
        k += 1;
    }
    proof {
        assert(sp_decls(items.skip(k as int)) =~~= Seq::<ApiFnView>::empty());
        assert(sp_regulars(items.skip(k as int)) =~~= Seq::<Seq<TokView>>::empty());
        assert(dpre =~~= sp_decls(items));
        assert(regulars.deep_view() =~~= sp_regulars(items));
    }
    let extra_docs = get_api_mod_def_extra_doc_comments(module.name.as_str(), &names);
    proof {
        assert(names.deep_view() =~~= sp_decl_names(sp_decls(items)));
    }
    let trait_def: Option<TraitDef> = if forwarders.len() == 0 {
        None
    } else {
        Some(TraitDef { name: get_api_trait_name(module.name.as_str()), methods })
    };
    let g = GenDef {
        attrs: dup_attrs(&module.attrs),
        extra_docs,
        vis: match &module.vis {
            Visib::Inherited => Visib::Inherited,
            Visib::Public => Visib::Public,
            Visib::Restricted(v) => Visib::Restricted(copy_range(v, 0, v.len())),
        },
        name: module.name.clone(),
        regular_items: regulars,
        forwarders,
        trait_def,
        support: dup_support(support),
    };
    proof {
        assert(g.vis.deep_view() =~~= mv.vis);
        assert(g.deep_view().forwarders =~~= sp_decls(items).map_values(
            |d: ApiFnView| sp_forwarder_of(d),
        ));
        assert(forall|j: int|
            0 <= j < sp_decls(items).len() ==> g.deep_view().forwarders[j] == sp_forwarder_of(
                sp_decls(items)[j],
            ));
        if g.trait_def is Some {
            assert(g.deep_view().trait_def matches Some(td) && td.methods.len() == sp_decls(
                items,
            ).len() && forall|j: int|
                0 <= j < sp_decls(items).len() ==> td.methods[j] == sp_method_of(
                    sp_decls(items)[j],
                ));
        }
    }
    Ok(g)
}

} // verus!
