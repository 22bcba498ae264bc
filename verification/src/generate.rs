//! The module generator: assembles the output module from the validated
//! name, visibility and case list and from the effective configuration.
//!
//! The output is the concatenation, in a fixed order, of up to three
//! fragments inside the named namespace: the marker types (always), the
//! value enum (when a value name is chosen), and the trait block — trait
//! declaration, one implementation per marker, sealing namespace — (when a
//! trait name is chosen). Case order is preserved everywhere; nothing is
//! reordered, deduplicated or sorted.

use vstd::prelude::*;

use crate::syntax::{ModItem, ModItemView, Module, ModuleView, Visibility, VisibilityView};

verus! {

/// The marker fragment: one uninhabited marker type per case, in case
/// order.
pub open spec fn marker_frag(cases: Seq<Seq<char>>) -> Seq<ModItemView> {
    Seq::new(cases.len(), |i: int| ModItemView::Marker { name: cases[i] })
}

/// The value fragment: the value enum, present exactly when a value name is
/// chosen, with the case names as variants in case order.
pub open spec fn value_frag(value: Option<Seq<char>>, cases: Seq<Seq<char>>) -> Seq<ModItemView> {
    match value {
        Some(v) => seq![ModItemView::ValueEnum { name: v, variants: cases }],
        None => Seq::empty(),
    }
}

/// The implementations of the capability trait: one per case, in case
/// order, each returning the like-named value variant when the value enum
/// exists.
pub open spec fn impls_frag(
    tr: Seq<char>,
    value: Option<Seq<char>>,
    cases: Seq<Seq<char>>,
) -> Seq<ModItemView> {
    Seq::new(
        cases.len(),
        |i: int| ModItemView::TraitImpl { trait_name: tr, marker: cases[i], value_enum: value },
    )
}

/// The trait fragment, present exactly when a trait name is chosen: the
/// sealed trait declaration (with the `dynamic` method exactly when the
/// value enum exists), its implementations, and the sealing namespace whose
/// sealing trait is implemented for exactly the markers.
pub open spec fn trait_frag(
    tr: Option<Seq<char>>,
    value: Option<Seq<char>>,
    cases: Seq<Seq<char>>,
) -> Seq<ModItemView> {
    match tr {
        Some(t) => seq![ModItemView::TraitDecl { name: t, dynamic_returns: value }]
            + impls_frag(t, value, cases) + seq![ModItemView::SealMod { markers: cases }],
        None => Seq::empty(),
    }
}

/// The items of the generated module: markers, then the value fragment,
/// then the trait fragment.
pub open spec fn generated_items(
    cases: Seq<Seq<char>>,
    value: Option<Seq<char>>,
    tr: Option<Seq<char>>,
) -> Seq<ModItemView> {
    marker_frag(cases) + value_frag(value, cases) + trait_frag(tr, value, cases)
}

/// The generated module: the items inside a namespace named after the input
/// enum and carrying its visibility.
pub open spec fn generated_module(
    name: Seq<char>,
    vis: VisibilityView,
    cases: Seq<Seq<char>>,
    value: Option<Seq<char>>,
    tr: Option<Seq<char>>,
) -> ModuleView {
    ModuleView { vis, name, items: generated_items(cases, value, tr) }
}

/// Copies a case-name list.
fn clone_names(cases: &Vec<String>) -> (r: Vec<String>)
    ensures
        r.deep_view() == cases.deep_view(),
{
    let mut r: Vec<String> = Vec::new();
    let mut i: usize = 0;
    while i < cases.len()
        invariant
            0 <= i <= cases.len(),
            r@.len() == i,
            forall|j: int| 0 <= j < i ==> (#[trigger] r@[j])@ == cases.deep_view()[j],
        decreases cases.len() - i,
    {
        r.push(cases[i].clone());
        i += 1;
    }
    proof {
        assert forall|j: int| 0 <= j < r@.len() implies r.deep_view()[j] == cases.deep_view()[j] by {
            assert(r.deep_view()[j] == r@[j]@);
        }
        assert(r.deep_view() =~= cases.deep_view());
    }
    r
}

/// Copies an optional name.
fn clone_opt_name(o: &Option<String>) -> (r: Option<String>)
    ensures
        r.deep_view() == o.deep_view(),
{
    match o {
        Some(s) => Some(s.clone()),
        None => None,
    }
}

/// Generates the output module for the given enum name, visibility and case
/// list; `value` and `enum_trait` are the chosen names of the value enum and
/// of the capability trait, each `None` when that fragment is suppressed.
pub fn generate_mod(
    name: String,
    vis: Visibility,
    cases: &Vec<String>,
    value: Option<String>,
    enum_trait: Option<String>,
) -> (m: Module)
    ensures
        m@ == generated_module(
            name@,
            vis@,
            cases.deep_view(),
            value.deep_view(),
            enum_trait.deep_view(),
        ),
{
    let ghost cases_v = cases.deep_view();
    let ghost value_v = value.deep_view();
    let ghost trait_v = enum_trait.deep_view();
    let n = cases.len();
    let mut items: Vec<ModItem> = Vec::new();

    let mut i: usize = 0;
    while i < n
        invariant
            0 <= i <= n,
            n == cases.len(),
            cases_v == cases.deep_view(),
            cases_v.len() == n,
            items@.len() == i,
            forall|j: int|
                0 <= j < i ==> (#[trigger] items@[j])@ == (ModItemView::Marker {
                    name: cases_v[j],
                }),
        decreases n - i,
    {
        items.push(ModItem::Marker { name: cases[i].clone() });
        i += 1;
    }

    if let Some(v) = &value {
        proof {
            assert(value_v == Some(v@));
        }
        items.push(ModItem::ValueEnum { name: v.clone(), variants: clone_names(cases) });
    }
    let ghost after_value = items.deep_view();
    proof {
        assert forall|j: int| 0 <= j < items@.len() implies items.deep_view()[j] == (marker_frag(
            cases_v,
        ) + value_frag(value_v, cases_v))[j] by {
            assert(items.deep_view()[j] == items@[j]@);
        }
        assert(items.deep_view() =~= marker_frag(cases_v) + value_frag(value_v, cases_v));
    }

    if let Some(t) = &enum_trait {
        proof {
            assert(trait_v == Some(t@));
        }
        let ghost base = items.deep_view().len() as int;
        items.push(
            ModItem::TraitDecl { name: t.clone(), dynamic_returns: clone_opt_name(&value) },
        );
        let mut i: usize = 0;
        while i < n
            invariant
                0 <= i <= n,
                n == cases.len(),
                cases_v == cases.deep_view(),
                cases_v.len() == n,
                value_v == value.deep_view(),
                trait_v == Some(t@),
                0 <= base,
                items@.len() == base + 1 + i,
                forall|j: int| 0 <= j < base ==> (#[trigger] items@[j])@ == after_value[j],
                after_value.len() == base,
                (items@[base])@ == (ModItemView::TraitDecl {
                    name: t@,
                    dynamic_returns: value_v,
                }),
                forall|k: int|
                    base + 1 <= k < base + 1 + i ==> (#[trigger] items@[k])@
                        == (ModItemView::TraitImpl {
                        trait_name: t@,
                        marker: cases_v[k - base - 1],
                        value_enum: value_v,
                    }),
            decreases n - i,
        {
            items.push(
                ModItem::TraitImpl {
                    trait_name: t.clone(),
                    marker: cases[i].clone(),
                    value_enum: clone_opt_name(&value),
                },
            );
            i += 1;
        }
        items.push(ModItem::SealMod { markers: clone_names(cases) });
        proof {
            let whole = after_value + trait_frag(trait_v, value_v, cases_v);
            assert(trait_frag(trait_v, value_v, cases_v).len() == n + 2);
            assert forall|j: int| 0 <= j < items@.len() implies items.deep_view()[j] == whole[j] by {
                assert(items.deep_view()[j] == items@[j]@);
                if base + 1 <= j < base + 1 + n {
                    assert(items@[j]@ == (ModItemView::TraitImpl {
                        trait_name: t@,
                        marker: cases_v[j - base - 1],
                        value_enum: value_v,
                    }));
                    assert(whole[j] == impls_frag(t@, value_v, cases_v)[j - base - 1]);
                }
            }
            assert(items.deep_view().len() == whole.len());
            assert(items.deep_view() =~= whole);
        }
    }
    proof {
        assert(items.deep_view() =~= generated_items(cases_v, value_v, trait_v));
    }
    Module { vis, name, items }
}

} // verus!
