//! A compile-time transformation that turns a plain, field-less enum
//! declaration into a "typestate" module: one uninhabited marker type per
//! case, optionally a runtime value enum mirroring the cases, and optionally
//! a sealed capability trait linking each marker back to its value.
//!
//! The crate works on its own model of the syntax involved: attribute
//! arguments arrive as a list of [`ArgToken`]s, the annotated item as an
//! [`ItemNode`], and the expansion result is a [`Module`] tree that a host
//! adapter renders to concrete tokens. Every step of the pipeline —
//! configuration parsing, input validation, module generation — is a pure,
//! total function with a full functional contract.

mod args;
mod diagnostics;
mod expand;
mod generate;
mod ident;
mod laws;
mod syntax;
mod validate;

pub use args::{ArgToken, ArgTokenView, ArgValue, ArgValueView, Args, ArgsView};
pub use args::{empty_args, parse_args, parse_args_from};
pub use diagnostics::{message_of, ConfigIssue, Diagnostic, DiagnosticView};
pub use expand::{chosen_trait_name, chosen_value_name, expansion, typemarker_macro};
pub use expand::{lemma_expansion_success, lemma_first_data_case_bounds};
pub use generate::{generate_mod, generated_items, generated_module};
pub use generate::{impls_frag, marker_frag, trait_frag, value_frag};
pub use ident::{check_ident, is_ident, is_ident_continue, is_ident_start, str_eq};
pub use laws::{empty_tally, generated_tally, tally, tally_concat, tally_push, FragmentTally};
pub use laws::{lemma_expansion_deterministic, lemma_flag_independence, lemma_order_preserved};
pub use laws::{lemma_rejects_data_cases, lemma_rejects_non_enum, lemma_sealing};
pub use laws::{lemma_tally_concat, lemma_tally_generated, lemma_value_name_override};
pub use syntax::{view_result, CaseDecl, CaseDeclView, EnumDecl, EnumDeclView};
pub use syntax::{ItemNode, ItemNodeView, ModItem, ModItemView, Module, ModuleView};
pub use syntax::{Visibility, VisibilityView};
pub use validate::{case_names, first_data_case, first_data_case_from, validate, validate_item};
