//! Typed representation of an interface module.
//!
//! A module is parsed into attributes, a visibility, a name, and a sequence
//! of items; an item is either a regular item (an opaque, verbatim token
//! run, never inspected) or an interface-function declaration or
//! implementation. Each executable type has a mathematical view over
//! [`TokView`] sequences.

use vstd::prelude::*;

use crate::tokens::{Tok, TokView, copy_range};

verus! {

/// One outer annotation attached to a module or function, carried as the
/// verbatim token run between its brackets.
pub struct Attr {
    pub content: Vec<Tok>,
}

/// Model of an [`Attr`].
#[verifier::ext_equal]
pub struct AttrView {
    pub content: Seq<TokView>,
}

impl DeepView for Attr {
    type V = AttrView;

    open spec fn deep_view(&self) -> AttrView {
        AttrView { content: self.content.deep_view() }
    }
}

/// The visibility marker of a module: private, public, or scoped to a path
/// (carried as the verbatim token run between the parentheses).
pub enum Visib {
    Inherited,
    Public,
    Restricted(Vec<Tok>),
}

/// Model of a [`Visib`].
#[verifier::ext_equal]
pub enum VisView {
    Inherited,
    Public,
    Restricted(Seq<TokView>),
}

impl DeepView for Visib {
    type V = VisView;

    open spec fn deep_view(&self) -> VisView {
        match self {
            Visib::Inherited => VisView::Inherited,
            Visib::Public => VisView::Public,
            Visib::Restricted(v) => VisView::Restricted(v.deep_view()),
        }
    }
}

/// An interface-function signature: the function name, then the verbatim
/// token runs for its generic parameters (between the name and the
/// parameter parentheses), its parameter list (inside the parentheses), and
/// everything after the parentheses (return type and where clause).
pub struct FnSig {
    pub name: String,
    pub generics: Vec<Tok>,
    pub params: Vec<Tok>,
    pub ret: Vec<Tok>,
}

/// Model of a [`FnSig`].
#[verifier::ext_equal]
pub struct SigView {
    pub name: Seq<char>,
    pub generics: Seq<TokView>,
    pub params: Seq<TokView>,
    pub ret: Seq<TokView>,
}

impl DeepView for FnSig {
    type V = SigView;

    open spec fn deep_view(&self) -> SigView {
        SigView {
            name: self.name@,
            generics: self.generics.deep_view(),
            params: self.params.deep_view(),
            ret: self.ret.deep_view(),
        }
    }
}

/// An interface-function declaration: attributes and a signature, no body.
pub struct ItemApiFn {
    pub attrs: Vec<Attr>,
    pub sig: FnSig,
}

/// Model of an [`ItemApiFn`].
#[verifier::ext_equal]
pub struct ApiFnView {
    pub attrs: Seq<AttrView>,
    pub sig: SigView,
}

impl DeepView for ItemApiFn {
    type V = ApiFnView;

    open spec fn deep_view(&self) -> ApiFnView {
        ApiFnView { attrs: self.attrs.deep_view(), sig: self.sig.deep_view() }
    }
}

/// An interface-function implementation: attributes, a signature, and an
/// executable body (the verbatim token run between the body's braces).
pub struct ItemApiFnImpl {
    pub attrs: Vec<Attr>,
    pub sig: FnSig,
    pub body: Vec<Tok>,
}

/// Model of an [`ItemApiFnImpl`].
#[verifier::ext_equal]
pub struct ApiFnImplView {
    pub attrs: Seq<AttrView>,
    pub sig: SigView,
    pub body: Seq<TokView>,
}

impl DeepView for ItemApiFnImpl {
    type V = ApiFnImplView;

    open spec fn deep_view(&self) -> ApiFnImplView {
        ApiFnImplView {
            attrs: self.attrs.deep_view(),
            sig: self.sig.deep_view(),
            body: self.body.deep_view(),
        }
    }
}

/// An item of a definition module: a verbatim regular item or an
/// interface-function declaration.
pub enum ApiModItem {
    Regular(Vec<Tok>),
    ApiFn(ItemApiFn),
}

/// Model of an [`ApiModItem`].
#[verifier::ext_equal]
pub enum ItemView {
    Regular(Seq<TokView>),
    ApiFn(ApiFnView),
}

impl DeepView for ApiModItem {
    type V = ItemView;

    open spec fn deep_view(&self) -> ItemView {
        match self {
            ApiModItem::Regular(run) => ItemView::Regular(run.deep_view()),
            ApiModItem::ApiFn(f) => ItemView::ApiFn(f.deep_view()),
        }
    }
}

/// An item of an implementation module.
pub enum ApiModItemImpl {
    Regular(Vec<Tok>),
    ApiFn(ItemApiFnImpl),
}

/// Model of an [`ApiModItemImpl`].
#[verifier::ext_equal]
pub enum ItemImplView {
    Regular(Seq<TokView>),
    ApiFn(ApiFnImplView),
}

impl DeepView for ApiModItemImpl {
    type V = ItemImplView;

    open spec fn deep_view(&self) -> ItemImplView {
        match self {
            ApiModItemImpl::Regular(run) => ItemImplView::Regular(run.deep_view()),
            ApiModItemImpl::ApiFn(f) => ItemImplView::ApiFn(f.deep_view()),
        }
    }
}

/// A definition module: attributes, visibility, name, and items.
pub struct ItemApiMod {
    pub attrs: Vec<Attr>,
    pub vis: Visib,
    pub name: String,
    pub items: Vec<ApiModItem>,
}

/// Model of an [`ItemApiMod`].
#[verifier::ext_equal]
pub struct ApiModView {
    pub attrs: Seq<AttrView>,
    pub vis: VisView,
    pub name: Seq<char>,
    pub items: Seq<ItemView>,
}

impl DeepView for ItemApiMod {
    type V = ApiModView;

    open spec fn deep_view(&self) -> ApiModView {
        ApiModView {
            attrs: self.attrs.deep_view(),
            vis: self.vis.deep_view(),
            name: self.name@,
            items: self.items.deep_view(),
        }
    }
}

/// An implementation module.
pub struct ItemApiModImpl {
    pub attrs: Vec<Attr>,
    pub vis: Visib,
    pub name: String,
    pub items: Vec<ApiModItemImpl>,
}

/// Model of an [`ItemApiModImpl`].
#[verifier::ext_equal]
pub struct ApiModImplView {
    pub attrs: Seq<AttrView>,
    pub vis: VisView,
    pub name: Seq<char>,
    pub items: Seq<ItemImplView>,
}

impl DeepView for ItemApiModImpl {
    type V = ApiModImplView;

    open spec fn deep_view(&self) -> ApiModImplView {
        ApiModImplView {
            attrs: self.attrs.deep_view(),
            vis: self.vis.deep_view(),
            name: self.name@,
            items: self.items.deep_view(),
        }
    }
}

/// The path naming the definition module an implementation module targets:
/// whether it is absolute (leading path separator) and its segments.
pub struct ImplPath {
    pub absolute: bool,
    pub segments: Vec<String>,
}

/// Model of an [`ImplPath`].
#[verifier::ext_equal]
pub struct ImplPathView {
    pub absolute: bool,
    pub segments: Seq<Seq<char>>,
}

impl DeepView for ImplPath {
    type V = ImplPathView;

    open spec fn deep_view(&self) -> ImplPathView {
        ImplPathView { absolute: self.absolute, segments: self.segments.deep_view() }
    }
}


/// Duplicate an attribute list.
pub fn dup_attrs(attrs: &Vec<Attr>) -> (r: Vec<Attr>)
    ensures
        r.deep_view() == attrs.deep_view(),
{
    let mut r: Vec<Attr> = Vec::new();
    let mut k: usize = 0;
    while k < attrs.len()
        invariant
            k <= attrs@.len(),
            r@.len() == k,
            forall|j: int| 0 <= j < k ==> r@[j].deep_view() == attrs@[j].deep_view(),
        decreases attrs@.len() - k,
    {
        let a = &attrs[k];
        let content = copy_range(&a.content, 0, a.content.len());
        proof {
            assert(a.content.deep_view().subrange(0, a.content.deep_view().len() as int)
                =~~= a.content.deep_view());
        }
        r.push(Attr { content });
        k += 1;
    }
    proof {
        assert(r.deep_view() =~~= attrs.deep_view());
    }
    r
}

/// Duplicate a signature.
pub fn dup_sig(sig: &FnSig) -> (r: FnSig)
    ensures
        r.deep_view() == sig.deep_view(),
{
    let r = FnSig {
        name: sig.name.clone(),
        generics: copy_range(&sig.generics, 0, sig.generics.len()),
        params: copy_range(&sig.params, 0, sig.params.len()),
        ret: copy_range(&sig.ret, 0, sig.ret.len()),
    };
    proof {
        assert(sig.generics.deep_view().subrange(0, sig.generics.deep_view().len() as int)
            =~~= sig.generics.deep_view());
        assert(sig.params.deep_view().subrange(0, sig.params.deep_view().len() as int)
            =~~= sig.params.deep_view());
        assert(sig.ret.deep_view().subrange(0, sig.ret.deep_view().len() as int)
            =~~= sig.ret.deep_view());
        assert(r.deep_view() =~~= sig.deep_view());
    }
    r
}

// ---------------------------------------------------------------------------
// Token classification helpers shared by the parser and the generators.

pub open spec fn is_pound(t: TokView) -> bool {
    t == TokView::Punct('#') || t == TokView::PunctJoint('#')
}

pub open spec fn is_comma(t: TokView) -> bool {
    t == TokView::Punct(',') || t == TokView::PunctJoint(',')
}

pub open spec fn is_semi(t: TokView) -> bool {
    t == TokView::Punct(';') || t == TokView::PunctJoint(';')
}

/// A lone colon; the composite path separator is a token of its own.
pub open spec fn is_colon(t: TokView) -> bool {
    t == TokView::Punct(':') || t == TokView::PunctJoint(':')
}

pub open spec fn is_lt(t: TokView) -> bool {
    t == TokView::Punct('<') || t == TokView::PunctJoint('<')
}

pub open spec fn is_gt(t: TokView) -> bool {
    t == TokView::Punct('>') || t == TokView::PunctJoint('>')
}

pub open spec fn is_amp(t: TokView) -> bool {
    t == TokView::Punct('&') || t == TokView::PunctJoint('&')
}

pub fn tok_is_pound(t: &Tok) -> (b: bool)
    ensures
        b == is_pound(t.deep_view()),
{
    matches!(t, Tok::Punct('#') | Tok::PunctJoint('#'))
}

pub fn tok_is_comma(t: &Tok) -> (b: bool)
    ensures
        b == is_comma(t.deep_view()),
{
    matches!(t, Tok::Punct(',') | Tok::PunctJoint(','))
}

pub fn tok_is_semi(t: &Tok) -> (b: bool)
    ensures
        b == is_semi(t.deep_view()),
{
    matches!(t, Tok::Punct(';') | Tok::PunctJoint(';'))
}

pub fn tok_is_colon(t: &Tok) -> (b: bool)
    ensures
        b == is_colon(t.deep_view()),
{
    matches!(t, Tok::Punct(':') | Tok::PunctJoint(':'))
}

pub fn tok_is_lt(t: &Tok) -> (b: bool)
    ensures
        b == is_lt(t.deep_view()),
{
    matches!(t, Tok::Punct('<') | Tok::PunctJoint('<'))
}

pub fn tok_is_gt(t: &Tok) -> (b: bool)
    ensures
        b == is_gt(t.deep_view()),
{
    matches!(t, Tok::Punct('>') | Tok::PunctJoint('>'))
}

pub fn tok_is_amp(t: &Tok) -> (b: bool)
    ensures
        b == is_amp(t.deep_view()),
{
    matches!(t, Tok::Punct('&') | Tok::PunctJoint('&'))
}

} // verus!
