//! The implementation generator.
//!
//! A parsed implementation module, together with the path of the
//! definition module it targets, is turned into: a hidden import aliasing
//! the target path under its reuse alias; the module's regular items,
//! verbatim and in order; a hidden zero-size marker type; and one
//! implementation block attaching every provided body as a method of the
//! target's derived interface type, registered with the registry. A target
//! path with no segments is reported as an embedded compile-time error
//! marker, never as a generator panic.

use vstd::prelude::*;

use crate::ast::{ApiFnImplView, Attr, AttrView, ImplPath, ItemApiFnImpl, ItemApiModImpl,
    ApiModItemImpl, ItemImplView, Visib, VisView, dup_attrs, dup_sig};
use crate::gen_def::{SupportPath, SupportView, dup_support};
use crate::names::{get_api_trait_name, get_implementee_reuse_ident, spec_api_trait_name,
    spec_reuse_alias};
use crate::tokens::{Tok, TokView, copy_range};

verus! {

/// A fatal error of the implementation generator, reported as an embedded
/// compile-time error marker in the emitted tokens.
#[derive(Debug, PartialEq, Eq)]
pub enum ImplGenError {
    /// The target path has no segments.
    EmptyPath,
}

/// Everything the implementation generator emits for one module, in
/// structured form; emission lays it out as tokens.
pub struct GenImpl {
    pub reuse_alias: String,
    pub target: ImplPath,
    pub trait_name: String,
    pub attrs: Vec<Attr>,
    pub vis: Visib,
    pub name: String,
    pub regular_items: Vec<Vec<Tok>>,
    pub methods: Vec<ItemApiFnImpl>,
    pub support: SupportPath,
}

/// Model of a [`GenImpl`].
#[verifier::ext_equal]
pub struct GenImplView {
    pub reuse_alias: Seq<char>,
    pub absolute: bool,
    pub segments: Seq<Seq<char>>,
    pub trait_name: Seq<char>,
    pub attrs: Seq<AttrView>,
    pub vis: VisView,
    pub name: Seq<char>,
    pub regular_items: Seq<Seq<TokView>>,
    pub methods: Seq<ApiFnImplView>,
    pub support: SupportView,
}

impl DeepView for GenImpl {
    type V = GenImplView;

    open spec fn deep_view(&self) -> GenImplView {
        GenImplView {
            reuse_alias: self.reuse_alias@,
            absolute: self.target.absolute,
            segments: self.target.segments.deep_view(),
            trait_name: self.trait_name@,
            attrs: self.attrs.deep_view(),
            vis: self.vis.deep_view(),
            name: self.name@,
            regular_items: self.regular_items.deep_view(),
            methods: self.methods.deep_view(),
            support: self.support.deep_view(),
        }
    }
}

/// The provided interface-function bodies of an implementation module, in
/// order.
pub open spec fn sp_impl_fns(items: Seq<ItemImplView>) -> Seq<ApiFnImplView>
    decreases items.len(),
{
    if items.len() == 0 {
        Seq::empty()
    } else {
        let rest = sp_impl_fns(items.skip(1));
        match items[0] {
            ItemImplView::ApiFn(f) => seq![f] + rest,
            ItemImplView::Regular(_) => rest,
        }
    }
}

/// The regular items of an implementation module, in order.
pub open spec fn sp_regulars_impl(items: Seq<ItemImplView>) -> Seq<Seq<TokView>>
    decreases items.len(),
{
    if items.len() == 0 {
        Seq::empty()
    } else {
        let rest = sp_regulars_impl(items.skip(1));
        match items[0] {
            ItemImplView::ApiFn(_) => rest,
            ItemImplView::Regular(run) => seq![run] + rest,
        }
    }
}

/// Duplicate one provided interface-function body.
fn dup_impl_fn(f: &ItemApiFnImpl) -> (r: ItemApiFnImpl)
    ensures
        r.deep_view() == f.deep_view(),
{
    let r = ItemApiFnImpl {
        attrs: dup_attrs(&f.attrs),
        sig: dup_sig(&f.sig),
        body: copy_range(&f.body, 0, f.body.len()),
    };
    proof {
        assert(f.body.deep_view().subrange(0, f.body.deep_view().len() as int)
            =~~= f.body.deep_view());
        assert(r.deep_view() =~~= f.deep_view());
    }
    r
}

/// Duplicate a target path.
fn dup_path(p: &ImplPath) -> (r: ImplPath)
    ensures
        r.deep_view() == p.deep_view(),
{
    let mut segments: Vec<String> = Vec::new();
    let mut k: usize = 0;
    while k < p.segments.len()
        invariant
            k <= p.segments@.len(),
            segments@.len() == k,
            forall|j: int| 0 <= j < k ==> segments@[j]@ == p.segments@[j]@,
        decreases p.segments@.len() - k,
    {
        segments.push(p.segments[k].clone());
        k += 1;
    }
    let r = ImplPath { absolute: p.absolute, segments };
    proof {
        assert(r.deep_view() =~~= p.deep_view());
    }
    r
}

/// Process an interface-module implementation against its target path.
///
/// Fails exactly when the target path has no segments; emission then
/// places an embedded error marker instead of generated code. On success,
/// the output re-imports the target under its reuse alias, derives the
/// interface-type name from the path's last segment by the same derivation
/// the definition side uses, and carries the module's attributes,
/// visibility, name, regular items, and provided bodies verbatim and in
/// order.
pub fn process_api_mod_impl(implementee: &ImplPath, input: &ItemApiModImpl, support:
    &SupportPath) -> (r: Result<GenImpl, ImplGenError>)
    ensures
        ({
            let mv = input.deep_view();
            let pv = implementee.deep_view();
            match r {
                Ok(g) => {
                    let gv = g.deep_view();
                    &&& pv.segments.len() > 0
                    &&& gv.absolute == pv.absolute
                    &&& gv.segments == pv.segments
                    &&& gv.reuse_alias == spec_reuse_alias(pv.absolute, pv.segments)
                    &&& gv.trait_name == spec_api_trait_name(
                        pv.segments[pv.segments.len() - 1],
                    )
                    &&& gv.attrs == mv.attrs
                    &&& gv.vis == mv.vis
                    &&& gv.name == mv.name
                    &&& gv.regular_items == sp_regulars_impl(mv.items)
                    &&& gv.methods == sp_impl_fns(mv.items)
                    &&& gv.support == support.deep_view()
                },
                Err(e) => pv.segments.len() == 0 && e == ImplGenError::EmptyPath,
            }
        }),
{
    let ghost mv = input.deep_view();
    let ghost items = mv.items;
    if implementee.segments.len() == 0 {
        return Err(ImplGenError::EmptyPath);
    }
    let last = implementee.segments.len() - 1;
    let trait_name = get_api_trait_name(implementee.segments[last].as_str());
    let reuse_alias = get_implementee_reuse_ident(implementee);
    let mut regulars: Vec<Vec<Tok>> = Vec::new();
    let mut methods: Vec<ItemApiFnImpl> = Vec::new();
    let ghost mut fpre: Seq<ApiFnImplView> = Seq::empty();
    let mut k: usize = 0;
    proof {
        assert(items.skip(0) =~~= items);
        assert(fpre + sp_impl_fns(items.skip(0)) =~~= sp_impl_fns(items));
        assert(regulars.deep_view() + sp_regulars_impl(items.skip(0)) =~~= sp_regulars_impl(
            items,
        ));
    }
    while k < input.items.len()
        invariant
            k <= input.items@.len(),
            mv == input.deep_view(),
            items == mv.items,
            items.len() == input.items@.len(),
            sp_impl_fns(items) == fpre + sp_impl_fns(items.skip(k as int)),
            sp_regulars_impl(items) == regulars.deep_view() + sp_regulars_impl(
                items.skip(k as int),
            ),
            methods@.len() == fpre.len(),
            forall|j: int| 0 <= j < fpre.len() ==> methods@[j].deep_view() == fpre[j],
        decreases input.items@.len() - k,
    {
        proof {
            assert(items.skip(k as int)[0] == items[k as int]);
            assert(items.skip(k as int).skip(1) =~~= items.skip(k as int + 1));
        }
        match &input.items[k] {
            ApiModItemImpl::Regular(run) => {
                let ghost r0 = regulars.deep_view();
                let copy = copy_range(run, 0, run.len());
                proof {
                    assert(run.deep_view().subrange(0, run.deep_view().len() as int)
                        =~~= run.deep_view());
                }
                regulars.push(copy);
                proof {
                    assert(regulars.deep_view() =~~= r0.push(run.deep_view()));
                    assert(r0.push(run.deep_view()) + sp_regulars_impl(items.skip(k as int + 1))
                        =~~= r0 + sp_regulars_impl(items.skip(k as int)));
                }
            },
            ApiModItemImpl::ApiFn(f) => {
                let ghost fv = f.deep_view();
                methods.push(dup_impl_fn(f));
                proof {
                    fpre = fpre.push(fv);
                    assert(fpre.drop_last() + seq![fv] + sp_impl_fns(items.skip(k as int + 1))
                        =~~= fpre + sp_impl_fns(items.skip(k as int + 1)));
                }
            },
        }
        k += 1;
    }
    proof {
        assert(sp_impl_fns(items.skip(k as int)) =~~= Seq::<ApiFnImplView>::empty());
        assert(sp_regulars_impl(items.skip(k as int)) =~~= Seq::<Seq<TokView>>::empty());
        assert(fpre =~~= sp_impl_fns(items));
        assert(regulars.deep_view() =~~= sp_regulars_impl(items));
    }
    let g = GenImpl {
        reuse_alias,
        target: dup_path(implementee),
        trait_name,
        attrs: dup_attrs(&input.attrs),
        vis: match &input.vis {
            Visib::Inherited => Visib::Inherited,
            Visib::Public => Visib::Public,
            Visib::Restricted(v) => Visib::Restricted(copy_range(v, 0, v.len())),
        },
        name: input.name.clone(),
        regular_items: regulars,
        methods,
        support: dup_support(support),
    };
    proof {
        assert(g.vis.deep_view() =~~= mv.vis);
        assert(g.deep_view().methods =~~= sp_impl_fns(items));
    }
    Ok(g)
}

} // verus!
