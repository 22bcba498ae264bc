//! Diagnostics: the located, human-readable errors the pipeline returns in
//! place of an output module.
//!
//! Locations are plain data: an index into the attribute argument list or
//! into the case list. The host adapter maps an index back to the concrete
//! source span of that node.

use vstd::prelude::*;

verus! {

/// What went wrong with one attribute argument.
#[derive(Debug, Clone, Copy, PartialEq, Eq, Structural)]
pub enum ConfigIssue {
    /// The key is not one of `no_value`, `value_name`, `no_trait`,
    /// `trait_name`.
    UnknownKey,
    /// A recognized key appears a second time.
    DuplicateKey,
    /// The argument's shape does not fit its key: a value on a bare flag, a
    /// missing or non-identifier value on a name override, or an argument
    /// that is neither a bare key nor a `key = value` pair.
    MalformedValue,
}

/// A located error, returned in place of the output module. Exactly one
/// diagnostic is produced per failing invocation.
#[derive(Debug, Clone, PartialEq, Eq)]
pub enum Diagnostic {
    /// The attribute argument at `arg_index` is invalid.
    ConfigurationError { arg_index: usize, issue: ConfigIssue },
    /// The annotated item is not an enum declaration.
    ShapeError,
    /// The case at `case_index` carries fields.
    VariantDataError { case_index: usize },
}

/// Mathematical view of [`Diagnostic`].
pub enum DiagnosticView {
    ConfigurationError { arg_index: int, issue: ConfigIssue },
    ShapeError,
    VariantDataError { case_index: int },
}

impl View for Diagnostic {
    type V = DiagnosticView;

    open spec fn view(&self) -> DiagnosticView {
        match self {
            Diagnostic::ConfigurationError { arg_index, issue } => {
                DiagnosticView::ConfigurationError { arg_index: *arg_index as int, issue: *issue }
            },
            Diagnostic::ShapeError => DiagnosticView::ShapeError,
            Diagnostic::VariantDataError { case_index } => {
                DiagnosticView::VariantDataError { case_index: *case_index as int }
            },
        }
    }
}

/// The message text of a diagnostic.
pub open spec fn message_of(d: DiagnosticView) -> Seq<char> {
    match d {
        DiagnosticView::ConfigurationError { issue: ConfigIssue::UnknownKey, .. } => {
            "unrecognized configuration key"@
        },
        DiagnosticView::ConfigurationError { issue: ConfigIssue::DuplicateKey, .. } => {
            "duplicate configuration key"@
        },
        DiagnosticView::ConfigurationError { issue: ConfigIssue::MalformedValue, .. } => {
            "malformed configuration value"@
        },
        DiagnosticView::ShapeError => "this transformation only applies to enumerations"@,
        DiagnosticView::VariantDataError { .. } => {
            "all enumeration cases must be empty (carry no data)"@
        },
    }
}

impl Diagnostic {
    /// The human-readable message of this diagnostic.
    pub fn message(&self) -> (m: String)
        ensures
            m@ == message_of(self@),
    {
        match self {
            Diagnostic::ConfigurationError { issue: ConfigIssue::UnknownKey, .. } => {
                "unrecognized configuration key".to_owned()
            },
            Diagnostic::ConfigurationError { issue: ConfigIssue::DuplicateKey, .. } => {
                "duplicate configuration key".to_owned()
            },
            Diagnostic::ConfigurationError { issue: ConfigIssue::MalformedValue, .. } => {
                "malformed configuration value".to_owned()
            },
            Diagnostic::ShapeError => "this transformation only applies to enumerations".to_owned(),
            Diagnostic::VariantDataError { .. } => {
                "all enumeration cases must be empty (carry no data)".to_owned()
            },
        }
    }
}

} // verus!
