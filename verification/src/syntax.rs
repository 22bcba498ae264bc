//! The syntax model the pipeline works on.
//!
//! The host toolchain's syntax trees are not inspected here; a thin adapter
//! converts them to and from the plain types of this module. The input side
//! models the annotated declaration ([`ItemNode`]); the output side models
//! the generated module ([`Module`]). Each type has a mathematical view made
//! of sequences of characters, which the contracts speak of.

use vstd::prelude::*;

verus! {

/// The visibility a declaration carries, reproduced verbatim on the
/// generated module.
#[derive(Debug, Clone, PartialEq, Eq)]
pub enum Visibility {
    /// No visibility modifier.
    Inherited,
    /// `pub`.
    Public,
    /// A restricted visibility such as `pub(crate)`; the restriction is
    /// carried as its textual path.
    Restricted { path: String },
}

/// Mathematical view of [`Visibility`].
pub enum VisibilityView {
    Inherited,
    Public,
    Restricted { path: Seq<char> },
}

impl View for Visibility {
    type V = VisibilityView;

    open spec fn view(&self) -> VisibilityView {
        match self {
            Visibility::Inherited => VisibilityView::Inherited,
            Visibility::Public => VisibilityView::Public,
            Visibility::Restricted { path } => VisibilityView::Restricted { path: path@ },
        }
    }
}

/// One case of the input enum: its name and how many fields it carries.
/// A case is plain exactly when `arity` is zero.
#[derive(Debug, Clone, PartialEq, Eq)]
pub struct CaseDecl {
    pub name: String,
    pub arity: usize,
}

/// Mathematical view of [`CaseDecl`].
pub struct CaseDeclView {
    pub name: Seq<char>,
    pub arity: nat,
}

impl View for CaseDecl {
    type V = CaseDeclView;

    open spec fn view(&self) -> CaseDeclView {
        CaseDeclView { name: self.name@, arity: self.arity as nat }
    }
}

impl DeepView for CaseDecl {
    type V = CaseDeclView;

    open spec fn deep_view(&self) -> CaseDeclView {
        self.view()
    }
}

/// The input enum declaration: name, visibility and ordered case list.
#[derive(Debug, Clone, PartialEq, Eq)]
pub struct EnumDecl {
    pub name: String,
    pub vis: Visibility,
    pub cases: Vec<CaseDecl>,
}

/// Mathematical view of [`EnumDecl`].
pub struct EnumDeclView {
    pub name: Seq<char>,
    pub vis: VisibilityView,
    pub cases: Seq<CaseDeclView>,
}

impl View for EnumDecl {
    type V = EnumDeclView;

    open spec fn view(&self) -> EnumDeclView {
        EnumDeclView { name: self.name@, vis: self.vis@, cases: self.cases.deep_view() }
    }
}

/// The syntax node the transformation is attached to: either an enum
/// declaration, or some other kind of item (which the validator rejects).
#[derive(Debug, Clone, PartialEq, Eq)]
pub enum ItemNode {
    Enumeration { decl: EnumDecl },
    Other,
}

/// Mathematical view of [`ItemNode`].
pub enum ItemNodeView {
    Enumeration { decl: EnumDeclView },
    Other,
}

impl View for ItemNode {
    type V = ItemNodeView;

    open spec fn view(&self) -> ItemNodeView {
        match self {
            ItemNode::Enumeration { decl } => ItemNodeView::Enumeration { decl: decl@ },
            ItemNode::Other => ItemNodeView::Other,
        }
    }
}

/// One item of the generated module. The host adapter renders each variant
/// to concrete syntax as documented on the variant.
#[derive(Debug, Clone, PartialEq, Eq)]
pub enum ModItem {
    /// A public uninhabited marker type: `pub enum Name {}`.
    Marker { name: String },
    /// The public, equatable value enum whose variants are the case names in
    /// input order: `#[derive(Eq, PartialEq)] pub enum Name { ... }`.
    ValueEnum { name: String, variants: Vec<String> },
    /// The public capability trait, bounded by the sealing trait:
    /// `pub trait Name: __sealed::Sealed { ... }`. When `dynamic_returns`
    /// names the value enum, the trait carries the one required method
    /// `fn dynamic() -> ValueEnum`; otherwise it carries no methods.
    TraitDecl { name: String, dynamic_returns: Option<String> },
    /// One implementation of the capability trait for one marker type:
    /// `impl Trait for Marker { ... }`. When `value_enum` names the value
    /// enum, the body of `dynamic` returns the like-named variant,
    /// `ValueEnum::Marker`; otherwise the implementation is empty.
    TraitImpl { trait_name: String, marker: String, value_enum: Option<String> },
    /// The private sealing namespace: `mod __sealed { pub trait Sealed {}
    /// ... }`, with one `impl Sealed for super::Marker {}` per listed marker.
    SealMod { markers: Vec<String> },
}

/// Mathematical view of [`ModItem`].
pub enum ModItemView {
    Marker { name: Seq<char> },
    ValueEnum { name: Seq<char>, variants: Seq<Seq<char>> },
    TraitDecl { name: Seq<char>, dynamic_returns: Option<Seq<char>> },
    TraitImpl { trait_name: Seq<char>, marker: Seq<char>, value_enum: Option<Seq<char>> },
    SealMod { markers: Seq<Seq<char>> },
}

impl View for ModItem {
    type V = ModItemView;

    open spec fn view(&self) -> ModItemView {
        match self {
            ModItem::Marker { name } => ModItemView::Marker { name: name@ },
            ModItem::ValueEnum { name, variants } => ModItemView::ValueEnum {
                name: name@,
                variants: variants.deep_view(),
            },
            ModItem::TraitDecl { name, dynamic_returns } => ModItemView::TraitDecl {
                name: name@,
                dynamic_returns: dynamic_returns.deep_view(),
            },
            ModItem::TraitImpl { trait_name, marker, value_enum } => ModItemView::TraitImpl {
                trait_name: trait_name@,
                marker: marker@,
                value_enum: value_enum.deep_view(),
            },
            ModItem::SealMod { markers } => ModItemView::SealMod { markers: markers.deep_view() },
        }
    }
}

impl DeepView for ModItem {
    type V = ModItemView;

    open spec fn deep_view(&self) -> ModItemView {
        self.view()
    }
}

/// The generated module: a namespace named after the input enum, carrying
/// its visibility, holding the generated items in order. Rendered as
/// `#[allow(non_snake_case)] vis mod name { items }`.
#[derive(Debug, Clone, PartialEq, Eq)]
pub struct Module {
    pub vis: Visibility,
    pub name: String,
    pub items: Vec<ModItem>,
}

/// Mathematical view of [`Module`].
pub struct ModuleView {
    pub vis: VisibilityView,
    pub name: Seq<char>,
    pub items: Seq<ModItemView>,
}

impl View for Module {
    type V = ModuleView;

    open spec fn view(&self) -> ModuleView {
        ModuleView { vis: self.vis@, name: self.name@, items: self.items.deep_view() }
    }
}

/// The view of a `Result`, both sides viewed.
pub open spec fn view_result<T: View, E: View>(r: Result<T, E>) -> Result<T::V, E::V> {
    match r {
        Ok(t) => Ok(t@),
        Err(e) => Err(e@),
    }
}

} // verus!
