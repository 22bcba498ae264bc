//! The stated laws of the generator, proved once and for all inputs:
//! determinism, order preservation, flag independence, name-override
//! correctness, and the sealing property.
//!
//! The statements go through a fragment tally: a single scan of a generated
//! item list that collects, per fragment kind, what was declared and in what
//! order.

use vstd::prelude::*;

use crate::args::{parse_args, ArgTokenView};
use crate::diagnostics::DiagnosticView;
use crate::expand::{expansion, lemma_first_data_case_bounds};
use crate::generate::{generated_items, impls_frag, marker_frag, trait_frag, value_frag};
use crate::syntax::{EnumDeclView, ItemNodeView, ModItemView, ModuleView};
use crate::validate::first_data_case;

verus! {

/// What one item list declares, fragment kind by fragment kind, each in
/// item order.
#[verifier::ext_equal]
pub struct FragmentTally {
    /// The names of the marker types.
    pub markers: Seq<Seq<char>>,
    /// The value enum items.
    pub value_enums: Seq<ModItemView>,
    /// The trait declaration items.
    pub trait_decls: Seq<ModItemView>,
    /// The trait implementation items.
    pub trait_impls: Seq<ModItemView>,
    /// The sealing namespace items.
    pub seal_mods: Seq<ModItemView>,
}

/// The tally of no items at all.
pub open spec fn empty_tally() -> FragmentTally {
    FragmentTally {
        markers: Seq::empty(),
        value_enums: Seq::empty(),
        trait_decls: Seq::empty(),
        trait_impls: Seq::empty(),
        seal_mods: Seq::empty(),
    }
}

/// The tally extended by one item.
pub open spec fn tally_push(t: FragmentTally, it: ModItemView) -> FragmentTally {
    match it {
        ModItemView::Marker { name } => FragmentTally { markers: t.markers + seq![name], ..t },
        ModItemView::ValueEnum { .. } => FragmentTally {
            value_enums: t.value_enums + seq![it],
            ..t
        },
        ModItemView::TraitDecl { .. } => FragmentTally {
            trait_decls: t.trait_decls + seq![it],
            ..t
        },
        ModItemView::TraitImpl { .. } => FragmentTally {
            trait_impls: t.trait_impls + seq![it],
            ..t
        },
        ModItemView::SealMod { .. } => FragmentTally { seal_mods: t.seal_mods + seq![it], ..t },
    }
}

/// The tally of an item list.
pub open spec fn tally(items: Seq<ModItemView>) -> FragmentTally
    decreases items.len(),
{
    if items.len() == 0 {
        empty_tally()
    } else {
        tally_push(tally(items.drop_last()), items.last())
    }
}

/// Two tallies joined end to end.
pub open spec fn tally_concat(a: FragmentTally, b: FragmentTally) -> FragmentTally {
    FragmentTally {
        markers: a.markers + b.markers,
        value_enums: a.value_enums + b.value_enums,
        trait_decls: a.trait_decls + b.trait_decls,
        trait_impls: a.trait_impls + b.trait_impls,
        seal_mods: a.seal_mods + b.seal_mods,
    }
}

/// Tallying a concatenation tallies the parts.
pub proof fn lemma_tally_concat(a: Seq<ModItemView>, b: Seq<ModItemView>)
    ensures
        tally(a + b) == tally_concat(tally(a), tally(b)),
    decreases b.len(),
{
    if b.len() == 0 {
        assert(a + b =~= a);
        assert(tally_concat(tally(a), empty_tally()) =~= tally(a));
    } else {
        lemma_tally_concat(a, b.drop_last());
        assert((a + b).drop_last() =~= a + b.drop_last());
        assert((a + b).last() == b.last());
        assert(tally_concat(tally(a), tally_push(tally(b.drop_last()), b.last())) =~= tally_push(
            tally_concat(tally(a), tally(b.drop_last())),
            b.last(),
        ));
    }
}

/// The tally of the marker fragment: the case names, in order, and nothing
/// else.
pub proof fn lemma_tally_markers(cases: Seq<Seq<char>>)
    ensures
        tally(marker_frag(cases)) == (FragmentTally { markers: cases, ..empty_tally() }),
    decreases cases.len(),
{
    if cases.len() == 0 {
        assert(marker_frag(cases) =~= Seq::<ModItemView>::empty());
        assert(tally(marker_frag(cases)) =~= (FragmentTally { markers: cases, ..empty_tally() }));
    } else {
        lemma_tally_markers(cases.drop_last());
        assert(marker_frag(cases).drop_last() =~= marker_frag(cases.drop_last()));
        assert(marker_frag(cases).last() == (ModItemView::Marker { name: cases.last() }));
        assert(cases.drop_last() + seq![cases.last()] =~= cases);
        assert(tally(marker_frag(cases)) =~= (FragmentTally { markers: cases, ..empty_tally() }));
    }
}

/// The tally of the implementation list: one implementation per case, in
/// order, and nothing else.
pub proof fn lemma_tally_impls(tr: Seq<char>, value: Option<Seq<char>>, cases: Seq<Seq<char>>)
    ensures
        tally(impls_frag(tr, value, cases)) == (FragmentTally {
            trait_impls: impls_frag(tr, value, cases),
            ..empty_tally()
        }),
    decreases cases.len(),
{
    if cases.len() == 0 {
        assert(impls_frag(tr, value, cases) =~= Seq::<ModItemView>::empty());
        assert(tally(impls_frag(tr, value, cases)) =~= (FragmentTally {
            trait_impls: impls_frag(tr, value, cases),
            ..empty_tally()
        }));
    } else {
        lemma_tally_impls(tr, value, cases.drop_last());
        assert(impls_frag(tr, value, cases).drop_last() =~= impls_frag(
            tr,
            value,
            cases.drop_last(),
        ));
        assert(impls_frag(tr, value, cases.drop_last()) + seq![
            impls_frag(tr, value, cases).last(),
        ] =~= impls_frag(tr, value, cases));
        assert(tally(impls_frag(tr, value, cases)) =~= (FragmentTally {
            trait_impls: impls_frag(tr, value, cases),
            ..empty_tally()
        }));
    }
}

/// The tally of a one-item list.
pub proof fn lemma_tally_one(it: ModItemView)
    ensures
        tally(seq![it]) == tally_push(empty_tally(), it),
{
    assert(seq![it].drop_last() =~= Seq::<ModItemView>::empty());
    assert(seq![it].last() == it);
    assert(tally(Seq::<ModItemView>::empty()) == empty_tally());
}

/// The tally of a whole generated item list: markers are the case names in
/// order; the value enum is there exactly when a value name is chosen, with
/// the case names as variants in order; the trait declaration, one
/// implementation per case and the sealing namespace are there exactly when
/// a trait name is chosen, the sealing namespace listing exactly the case
/// names.
pub proof fn lemma_tally_generated(
    cases: Seq<Seq<char>>,
    value: Option<Seq<char>>,
    tr: Option<Seq<char>>,
)
    ensures
        tally(generated_items(cases, value, tr)) == (FragmentTally {
            markers: cases,
            value_enums: value_frag(value, cases),
            trait_decls: match tr {
                Some(t) => seq![ModItemView::TraitDecl { name: t, dynamic_returns: value }],
                None => Seq::empty(),
            },
            trait_impls: match tr {
                Some(t) => impls_frag(t, value, cases),
                None => Seq::empty(),
            },
            seal_mods: match tr {
                Some(_) => seq![ModItemView::SealMod { markers: cases }],
                None => Seq::empty(),
            },
        }),
{
    lemma_tally_markers(cases);
    lemma_tally_concat(marker_frag(cases), value_frag(value, cases));
    lemma_tally_concat(
        marker_frag(cases) + value_frag(value, cases),
        trait_frag(tr, value, cases),
    );
    match value {
        Some(v) => {
            lemma_tally_one(ModItemView::ValueEnum { name: v, variants: cases });
        },
        None => {
            assert(tally(value_frag(value, cases)) == empty_tally());
        },
    }
    match tr {
        Some(t) => {
            let d = ModItemView::TraitDecl { name: t, dynamic_returns: value };
            let s = ModItemView::SealMod { markers: cases };
            lemma_tally_one(d);
            lemma_tally_one(s);
            lemma_tally_impls(t, value, cases);
            lemma_tally_concat(seq![d], impls_frag(t, value, cases));
            lemma_tally_concat(seq![d] + impls_frag(t, value, cases), seq![s]);
            assert(trait_frag(tr, value, cases) == seq![d] + impls_frag(t, value, cases) + seq![s]);
        },
        None => {
            assert(tally(trait_frag(tr, value, cases)) == empty_tally());
        },
    }
    assert(tally(generated_items(cases, value, tr)) =~= (FragmentTally {
        markers: cases,
        value_enums: value_frag(value, cases),
        trait_decls: match tr {
            Some(t) => seq![ModItemView::TraitDecl { name: t, dynamic_returns: value }],
            None => Seq::empty(),
        },
        trait_impls: match tr {
            Some(t) => impls_frag(t, value, cases),
            None => Seq::empty(),
        },
        seal_mods: match tr {
            Some(_) => seq![ModItemView::SealMod { markers: cases }],
            None => Seq::empty(),
        },
    }));
}

/// The tally of the module generated from the given case list and chosen
/// names.
pub open spec fn generated_tally(
    cases: Seq<Seq<char>>,
    value: Option<Seq<char>>,
    tr: Option<Seq<char>>,
) -> FragmentTally {
    tally(generated_items(cases, value, tr))
}

/// Determinism: for one attribute argument list and one item, any two
/// results the expansion admits are the same.
pub proof fn lemma_expansion_deterministic(
    attr: Seq<ArgTokenView>,
    item: ItemNodeView,
    r1: Result<ModuleView, DiagnosticView>,
    r2: Result<ModuleView, DiagnosticView>,
)
    requires
        r1 == expansion(attr, item),
        r2 == expansion(attr, item),
    ensures
        r1 == r2,
{
}

/// Order preservation: the marker types are declared in exactly the input
/// case order, and when the value enum is present its variants are the case
/// names in exactly that order too.
pub proof fn lemma_order_preserved(
    cases: Seq<Seq<char>>,
    value: Option<Seq<char>>,
    tr: Option<Seq<char>>,
)
    ensures
        generated_tally(cases, value, tr).markers == cases,
        value matches Some(v) ==> generated_tally(cases, value, tr).value_enums == seq![
            ModItemView::ValueEnum { name: v, variants: cases },
        ],
{
    lemma_tally_generated(cases, value, tr);
}

/// Flag independence: the output holds exactly the fragments implied by the
/// two independent choices, and no others — the markers always, the value
/// enum exactly when a value name is chosen, and the trait declaration, its
/// per-marker implementations and the sealing namespace exactly when a
/// trait name is chosen. With a trait but no value enum, the trait carries
/// no method and its implementations no value reference.
pub proof fn lemma_flag_independence(
    cases: Seq<Seq<char>>,
    value: Option<Seq<char>>,
    tr: Option<Seq<char>>,
)
    ensures
        generated_tally(cases, value, tr).markers == cases,
        generated_tally(cases, value, tr).value_enums.len() == (
        if value is Some {
            1int
        } else {
            0int
        }),
        generated_tally(cases, value, tr).trait_decls.len() == (
        if tr is Some {
            1int
        } else {
            0int
        }),
        generated_tally(cases, value, tr).trait_impls.len() == (
        if tr is Some {
            cases.len() as int
        } else {
            0int
        }),
        generated_tally(cases, value, tr).seal_mods.len() == (
        if tr is Some {
            1int
        } else {
            0int
        }),
        tr matches Some(t) ==> generated_tally(cases, value, tr).trait_decls == seq![
            ModItemView::TraitDecl { name: t, dynamic_returns: value },
        ],
        tr matches Some(t) ==> forall|i: int|
            0 <= i < cases.len() ==> generated_tally(cases, value, tr).trait_impls[i]
                == (ModItemView::TraitImpl {
                trait_name: t,
                marker: cases[i],
                value_enum: value,
            }),
{
    lemma_tally_generated(cases, value, tr);
}

/// Name override correctness: when the value enum is kept under a chosen
/// name other than `Dynamic`, the output declares exactly one value enum,
/// named as chosen, and — provided no case is itself named `Dynamic` — no
/// type named `Dynamic` at all.
pub proof fn lemma_value_name_override(
    cases: Seq<Seq<char>>,
    vname: Seq<char>,
    tr: Option<Seq<char>>,
)
    requires
        vname != "Dynamic"@,
        !cases.contains("Dynamic"@),
    ensures
        generated_tally(cases, Some(vname), tr).value_enums == seq![
            ModItemView::ValueEnum { name: vname, variants: cases },
        ],
        forall|i: int|
            0 <= i < generated_tally(cases, Some(vname), tr).markers.len()
                ==> generated_tally(cases, Some(vname), tr).markers[i] != "Dynamic"@,
        forall|it: ModItemView|
            generated_tally(cases, Some(vname), tr).value_enums.contains(it) ==> (it
                matches ModItemView::ValueEnum { name, .. } && name != "Dynamic"@),
{
    lemma_tally_generated(cases, Some(vname), tr);
    assert forall|i: int|
        0 <= i < generated_tally(cases, Some(vname), tr).markers.len() implies generated_tally(
        cases,
        Some(vname),
        tr,
    ).markers[i] != "Dynamic"@ by {
        if cases[i] == "Dynamic"@ {
            assert(cases.contains("Dynamic"@));
        }
    }
}

/// The sealing property, structurally: whenever the trait is emitted, the
/// sealing namespace is emitted with it and its sealing trait is
/// implemented for exactly the generated marker types — the case names, in
/// order — so no other type can satisfy the bound the public trait demands.
pub proof fn lemma_sealing(cases: Seq<Seq<char>>, value: Option<Seq<char>>, tr: Seq<char>)
    ensures
        generated_tally(cases, value, Some(tr)).markers == cases,
        generated_tally(cases, value, Some(tr)).seal_mods == seq![
            ModItemView::SealMod { markers: cases },
        ],
        forall|i: int|
            0 <= i < cases.len() ==> (#[trigger] generated_tally(cases, value, Some(tr)).trait_impls[i]
                matches ModItemView::TraitImpl { marker, .. } && marker == cases[i]),
{
    lemma_tally_generated(cases, value, Some(tr));
}

/// Rejection of non-enum input: under arguments that parse, a node that is
/// not an enum declaration expands to exactly the shape diagnostic, and to
/// no module.
pub proof fn lemma_rejects_non_enum(attr: Seq<ArgTokenView>)
    requires
        parse_args(attr) is Ok,
    ensures
        expansion(attr, ItemNodeView::Other) == Err::<ModuleView, DiagnosticView>(
            DiagnosticView::ShapeError,
        ),
{
}

/// Rejection of data-carrying cases: under arguments that parse, an enum
/// with some case carrying fields expands to exactly the variant-data
/// diagnostic located at the first such case, and to no module.
pub proof fn lemma_rejects_data_cases(attr: Seq<ArgTokenView>, decl: EnumDeclView)
    requires
        parse_args(attr) is Ok,
        exists|i: int| 0 <= i < decl.cases.len() && (#[trigger] decl.cases[i]).arity > 0,
    ensures
        ({
            let k = first_data_case(decl.cases);
            &&& expansion(attr, ItemNodeView::Enumeration { decl }) == Err::<
                ModuleView,
                DiagnosticView,
            >(DiagnosticView::VariantDataError { case_index: k })
            &&& 0 <= k < decl.cases.len()
            &&& decl.cases[k].arity > 0
            &&& forall|j: int| 0 <= j < k ==> (#[trigger] decl.cases[j]).arity == 0
        }),
{
    lemma_first_data_case_bounds(decl.cases, 0);
}

} // verus!
