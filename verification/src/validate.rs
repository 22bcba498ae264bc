//! The input validator: turns the annotated syntax node into the triple
//! (name, visibility, ordered case list), or rejects it.
//!
//! A node that is not an enum declaration is a shape error; an enum whose
//! cases all carry no fields is accepted; otherwise the first case carrying
//! fields, in declaration order, is reported as a variant-data error located
//! at that case.

use vstd::prelude::*;

use crate::diagnostics::{Diagnostic, DiagnosticView};
use crate::syntax::{CaseDeclView, EnumDecl, ItemNode, ItemNodeView, Visibility, VisibilityView};

verus! {

/// The index of the first case at or after `i` that carries fields, or the
/// length of the case list when every such case is plain.
pub open spec fn first_data_case_from(cases: Seq<CaseDeclView>, i: int) -> int
    decreases cases.len() - i,
{
    if i < 0 || i >= cases.len() {
        cases.len() as int
    } else if cases[i].arity > 0 {
        i
    } else {
        first_data_case_from(cases, i + 1)
    }
}

/// The index of the first case that carries fields, or the length of the
/// case list when every case is plain.
pub open spec fn first_data_case(cases: Seq<CaseDeclView>) -> int {
    first_data_case_from(cases, 0)
}

/// The names of the cases, in declaration order.
pub open spec fn case_names(cases: Seq<CaseDeclView>) -> Seq<Seq<char>> {
    cases.map_values(|c: CaseDeclView| c.name)
}

/// The validation of an input node: the triple (name, visibility, case
/// names) on success, the diagnostic otherwise.
pub open spec fn validate_item(item: ItemNodeView) -> Result<
    (Seq<char>, VisibilityView, Seq<Seq<char>>),
    DiagnosticView,
> {
    match item {
        ItemNodeView::Other => Err(DiagnosticView::ShapeError),
        ItemNodeView::Enumeration { decl } => {
            if first_data_case(decl.cases) < decl.cases.len() {
                Err(DiagnosticView::VariantDataError { case_index: first_data_case(decl.cases) })
            } else {
                Ok((decl.name, decl.vis, case_names(decl.cases)))
            }
        },
    }
}

/// Validates the annotated item: an enum declaration with only field-less
/// cases yields its name, visibility and ordered case-name list; anything
/// else yields the diagnostic that [`validate_item`] assigns to it.
pub fn validate(item: ItemNode) -> (r: Result<(String, Visibility, Vec<String>), Diagnostic>)
    ensures
        match validate_item(item@) {
            Ok(t) => {
                &&& r matches Ok(x)
                &&& x.0@ == t.0
                &&& x.1@ == t.1
                &&& x.2.deep_view() == t.2
            },
            Err(d) => r matches Err(e) && e@ == d,
        },
{
    let ghost item_v = item@;
    let decl = match item {
        ItemNode::Enumeration { decl } => decl,
        ItemNode::Other => {
            return Err(Diagnostic::ShapeError);
        },
    };
    let ghost decl_v = decl@;
    proof {
        assert(item_v == (ItemNodeView::Enumeration { decl: decl_v }));
    }
    let ghost cases_v = decl.cases.deep_view();
    proof {
        assert(decl_v.cases == cases_v);
    }
    let n = decl.cases.len();
    let mut names: Vec<String> = Vec::new();
    let mut i: usize = 0;
    while i < n
        invariant
            0 <= i <= n,
            n == decl.cases.len(),
            cases_v == decl.cases.deep_view(),
            cases_v.len() == n,
            item_v == item@,
            item_v == (ItemNodeView::Enumeration { decl: decl_v }),
            decl_v.cases == cases_v,
            first_data_case(cases_v) == first_data_case_from(cases_v, i as int),
            names@.len() == i,
            forall|j: int| 0 <= j < i ==> (#[trigger] names@[j])@ == cases_v[j].name,
        decreases n - i,
    {
        let ghost pre = names@;
        proof {
            assert(cases_v[i as int] == decl.cases@[i as int]@);
        }
        let case = &decl.cases[i];
        if case.arity > 0 {
            proof {
                assert(cases_v[i as int].arity > 0);
                assert(first_data_case_from(cases_v, i as int) == i as int);
                assert(validate_item(item@) == Err::<
                    (Seq<char>, VisibilityView, Seq<Seq<char>>),
                    DiagnosticView,
                >(DiagnosticView::VariantDataError { case_index: i as int }));
            }
            return Err(Diagnostic::VariantDataError { case_index: i });
        }
        names.push(case.name.clone());
        proof {
            assert(cases_v[i as int].arity == 0);
            assert(first_data_case_from(cases_v, i as int) == first_data_case_from(
                cases_v,
                i as int + 1,
            ));
            assert(names@ == pre.push(names@[i as int]));
            assert(names@[i as int]@ == cases_v[i as int].name);
        }
        i += 1;
    }
    proof {
        assert(first_data_case_from(cases_v, n as int) == n as int);
        assert forall|j: int| 0 <= j < n implies names.deep_view()[j] == case_names(cases_v)[j] by {
            assert(names.deep_view()[j] == names@[j]@);
            assert(case_names(cases_v)[j] == cases_v[j].name);
        }
        assert(names.deep_view().len() == n);
        assert(names.deep_view() =~= case_names(cases_v));
    }
    Ok((decl.name, decl.vis, names))
}

} // verus!
