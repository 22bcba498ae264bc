//! The whole transformation: attribute arguments and annotated item in,
//! output module or diagnostic out.
//!
//! Order of work, and therefore of error reporting: the configuration is
//! parsed first, then the item is validated, then the module is generated.
//! Exactly one diagnostic is produced on failure; nothing partial is ever
//! emitted.

use vstd::prelude::*;

use crate::args::{parse_args, ArgToken, Args, ArgsView};
use crate::diagnostics::{Diagnostic, DiagnosticView};
use crate::generate::{generate_mod, generated_module};
use crate::syntax::{view_result, ItemNode, ItemNodeView, Module, ModuleView};
use crate::validate::{validate, validate_item};

verus! {

/// The name chosen for the value enum: none when `no_value` is set, else
/// the `value_name` override, else `Dynamic`.
pub open spec fn chosen_value_name(args: ArgsView) -> Option<Seq<char>> {
    if args.no_value {
        None
    } else {
        match args.value_name {
            Some(v) => Some(v),
            None => Some("Dynamic"@),
        }
    }
}

/// The name chosen for the capability trait: none when `no_trait` is set,
/// else the `trait_name` override, else `Trait`.
pub open spec fn chosen_trait_name(args: ArgsView) -> Option<Seq<char>> {
    if args.no_trait {
        None
    } else {
        match args.trait_name {
            Some(t) => Some(t),
            None => Some("Trait"@),
        }
    }
}

/// The result of the whole transformation on given attribute arguments and
/// item.
pub open spec fn expansion(attr: Seq<crate::args::ArgTokenView>, item: ItemNodeView) -> Result<
    ModuleView,
    DiagnosticView,
> {
    match parse_args(attr) {
        Err(d) => Err(d),
        Ok(args) => match validate_item(item) {
            Err(d) => Err(d),
            Ok(t) => Ok(
                generated_module(t.0, t.1, t.2, chosen_value_name(args), chosen_trait_name(args)),
            ),
        },
    }
}

/// Runs the whole transformation: parses the attribute arguments, validates
/// the item, and generates the typestate module, or returns the one
/// diagnostic of the first failure. Success happens exactly when the
/// arguments parse and the item is an enum declaration whose cases all carry
/// no fields.
pub fn typemarker_macro(attr: &Vec<ArgToken>, item: ItemNode) -> (r: Result<Module, Diagnostic>)
    ensures
        view_result(r) == expansion(attr.deep_view(), item@),
        r is Ok <==> {
            &&& parse_args(attr.deep_view()) is Ok
            &&& item@ matches ItemNodeView::Enumeration { decl }
            &&& forall|i: int| 0 <= i < decl.cases.len() ==> (#[trigger] decl.cases[i]).arity == 0
        },
{
    proof {
        lemma_expansion_success(attr.deep_view(), item@);
    }
    let args = match Args::parse(attr) {
        Ok(args) => args,
        Err(d) => {
            return Err(d);
        },
    };
    let (name, vis, cases) = match validate(item) {
        Ok(t) => t,
        Err(d) => {
            return Err(d);
        },
    };
    let value: Option<String> = if args.no_value.is_none() {
        match args.value_name {
            Some(v) => Some(v),
            None => Some("Dynamic".to_owned()),
        }
    } else {
        None
    };
    let enum_trait: Option<String> = if args.no_trait.is_none() {
        match args.trait_name {
            Some(t) => Some(t),
            None => Some("Trait".to_owned()),
        }
    } else {
        None
    };
    proof {
        assert(value.deep_view() == chosen_value_name(args@));
        assert(enum_trait.deep_view() == chosen_trait_name(args@));
    }
    Ok(generate_mod(name, vis, &cases, value, enum_trait))
}

/// The expansion succeeds exactly when the arguments parse and the item is
/// an enum declaration whose cases all carry no fields.
pub proof fn lemma_expansion_success(attr: Seq<crate::args::ArgTokenView>, item: ItemNodeView)
    ensures
        expansion(attr, item) is Ok <==> {
            &&& parse_args(attr) is Ok
            &&& item matches ItemNodeView::Enumeration { decl }
            &&& forall|i: int| 0 <= i < decl.cases.len() ==> (#[trigger] decl.cases[i]).arity == 0
        },
{
    if parse_args(attr) is Ok {
        match item {
            ItemNodeView::Enumeration { decl } => {
                lemma_first_data_case_bounds(decl.cases, 0);
            },
            ItemNodeView::Other => {},
        }
    }
}

/// The first-data-case scan lands on a case with data when one exists at or
/// after the start, and on the length otherwise.
pub proof fn lemma_first_data_case_bounds(cases: Seq<crate::syntax::CaseDeclView>, i: int)
    requires
        0 <= i <= cases.len(),
    ensures
        i <= crate::validate::first_data_case_from(cases, i) <= cases.len(),
        crate::validate::first_data_case_from(cases, i) < cases.len() ==> cases[crate::validate::first_data_case_from(cases, i)].arity > 0,
        crate::validate::first_data_case_from(cases, i) == cases.len() ==> forall|j: int|
            i <= j < cases.len() ==> (#[trigger] cases[j]).arity == 0,
        forall|j: int|
            i <= j < crate::validate::first_data_case_from(cases, i) ==> (#[trigger] cases[j]).arity
                == 0,
    decreases cases.len() - i,
{
    if i < cases.len() && cases[i].arity == 0 {
        lemma_first_data_case_bounds(cases, i + 1);
    }
}

} // verus!
