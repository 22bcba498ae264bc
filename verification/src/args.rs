//! The configuration parser: turns the attribute argument list into the
//! parsed [`Args`] record.
//!
//! An argument list is a comma-separated sequence of bare flags and
//! `key = value` pairs; the host adapter hands it over as a list of
//! [`ArgToken`]s in source order. Recognized keys: `no_value` and `no_trait`
//! (bare flags), `value_name` and `trait_name` (identifier-valued). Unknown
//! keys, duplicate keys and malformed values are configuration errors; the
//! first offending argument, scanning left to right, decides the diagnostic.

use vstd::prelude::*;

use crate::diagnostics::{ConfigIssue, Diagnostic, DiagnosticView};
use crate::ident::{check_ident, is_ident, str_eq};
use crate::syntax::view_result;

verus! {

/// The value side of a `key = value` attribute argument.
#[derive(Debug, Clone, PartialEq, Eq)]
pub enum ArgValue {
    /// The value is a bare identifier with the given text.
    Ident { text: String },
    /// The value is anything else (a literal, a path, a nested list).
    Other,
}

/// Mathematical view of [`ArgValue`].
pub enum ArgValueView {
    Ident { text: Seq<char> },
    Other,
}

impl View for ArgValue {
    type V = ArgValueView;

    open spec fn view(&self) -> ArgValueView {
        match self {
            ArgValue::Ident { text } => ArgValueView::Ident { text: text@ },
            ArgValue::Other => ArgValueView::Other,
        }
    }
}

/// One attribute argument, as the host adapter lexed it.
#[derive(Debug, Clone, PartialEq, Eq)]
pub enum ArgToken {
    /// A bare key, such as `no_value`.
    Flag { key: String },
    /// A `key = value` pair, such as `value_name = Foo`.
    Assigned { key: String, value: ArgValue },
    /// Anything that is neither, such as a nested list.
    Other,
}

/// Mathematical view of [`ArgToken`].
pub enum ArgTokenView {
    Flag { key: Seq<char> },
    Assigned { key: Seq<char>, value: ArgValueView },
    Other,
}

impl View for ArgToken {
    type V = ArgTokenView;

    open spec fn view(&self) -> ArgTokenView {
        match self {
            ArgToken::Flag { key } => ArgTokenView::Flag { key: key@ },
            ArgToken::Assigned { key, value } => ArgTokenView::Assigned {
                key: key@,
                value: value@,
            },
            ArgToken::Other => ArgTokenView::Other,
        }
    }
}

impl DeepView for ArgToken {
    type V = ArgTokenView;

    open spec fn deep_view(&self) -> ArgTokenView {
        self.view()
    }
}

/// The parsed configuration record: four independent, optional settings.
/// A field is `Some` exactly when the corresponding argument was given.
#[derive(Debug, Clone, PartialEq, Eq)]
pub struct Args {
    /// Suppress the value enum.
    pub no_value: Option<()>,
    /// Override the value enum's name (default `Dynamic`).
    pub value_name: Option<String>,
    /// Suppress the capability trait.
    pub no_trait: Option<()>,
    /// Override the capability trait's name (default `Trait`).
    pub trait_name: Option<String>,
}

/// Mathematical view of [`Args`]: the flags as booleans, the overrides as
/// optional names.
pub struct ArgsView {
    pub no_value: bool,
    pub value_name: Option<Seq<char>>,
    pub no_trait: bool,
    pub trait_name: Option<Seq<char>>,
}

impl View for Args {
    type V = ArgsView;

    open spec fn view(&self) -> ArgsView {
        ArgsView {
            no_value: self.no_value is Some,
            value_name: self.value_name.deep_view(),
            no_trait: self.no_trait is Some,
            trait_name: self.trait_name.deep_view(),
        }
    }
}

/// The configuration with nothing given: all four settings absent.
pub open spec fn empty_args() -> ArgsView {
    ArgsView { no_value: false, value_name: None, no_trait: false, trait_name: None }
}

/// The parse of the arguments from position `i` on, the arguments before
/// `i` having produced the record `acc`.
pub open spec fn parse_args_from(toks: Seq<ArgTokenView>, i: int, acc: ArgsView) -> Result<
    ArgsView,
    DiagnosticView,
>
    decreases toks.len() - i,
{
    if i < 0 || i >= toks.len() {
        Ok(acc)
    } else {
        match toks[i] {
            ArgTokenView::Flag { key } => {
                if key == "no_value"@ {
                    if acc.no_value {
                        Err(DiagnosticView::ConfigurationError {
                            arg_index: i,
                            issue: ConfigIssue::DuplicateKey,
                        })
                    } else {
                        parse_args_from(toks, i + 1, ArgsView { no_value: true, ..acc })
                    }
                } else if key == "no_trait"@ {
                    if acc.no_trait {
                        Err(DiagnosticView::ConfigurationError {
                            arg_index: i,
                            issue: ConfigIssue::DuplicateKey,
                        })
                    } else {
                        parse_args_from(toks, i + 1, ArgsView { no_trait: true, ..acc })
                    }
                } else if key == "value_name"@ || key == "trait_name"@ {
                    Err(DiagnosticView::ConfigurationError {
                        arg_index: i,
                        issue: ConfigIssue::MalformedValue,
                    })
                } else {
                    Err(DiagnosticView::ConfigurationError {
                        arg_index: i,
                        issue: ConfigIssue::UnknownKey,
                    })
                }
            },
            ArgTokenView::Assigned { key, value } => {
                if key == "value_name"@ || key == "trait_name"@ {
                    let already = if key == "value_name"@ {
                        acc.value_name is Some
                    } else {
                        acc.trait_name is Some
                    };
                    if already {
                        Err(DiagnosticView::ConfigurationError {
                            arg_index: i,
                            issue: ConfigIssue::DuplicateKey,
                        })
                    } else {
                        match value {
                            ArgValueView::Ident { text } => {
                                if is_ident(text) {
                                    if key == "value_name"@ {
                                        parse_args_from(
                                            toks,
                                            i + 1,
                                            ArgsView { value_name: Some(text), ..acc },
                                        )
                                    } else {
                                        parse_args_from(
                                            toks,
                                            i + 1,
                                            ArgsView { trait_name: Some(text), ..acc },
                                        )
                                    }
                                } else {
                                    Err(DiagnosticView::ConfigurationError {
                                        arg_index: i,
                                        issue: ConfigIssue::MalformedValue,
                                    })
                                }
                            },
                            ArgValueView::Other => Err(DiagnosticView::ConfigurationError {
                                arg_index: i,
                                issue: ConfigIssue::MalformedValue,
                            }),
                        }
                    }
                } else if key == "no_value"@ || key == "no_trait"@ {
                    Err(DiagnosticView::ConfigurationError {
                        arg_index: i,
                        issue: ConfigIssue::MalformedValue,
                    })
                } else {
                    Err(DiagnosticView::ConfigurationError {
                        arg_index: i,
                        issue: ConfigIssue::UnknownKey,
                    })
                }
            },
            ArgTokenView::Other => Err(DiagnosticView::ConfigurationError {
                arg_index: i,
                issue: ConfigIssue::MalformedValue,
            }),
        }
    }
}

/// The parse of a whole attribute argument list.
pub open spec fn parse_args(toks: Seq<ArgTokenView>) -> Result<ArgsView, DiagnosticView> {
    parse_args_from(toks, 0, empty_args())
}

impl Args {
    /// Parses the attribute argument list into the configuration record, or
    /// reports the first invalid argument.
    pub fn parse(attr: &Vec<ArgToken>) -> (r: Result<Args, Diagnostic>)
        ensures
            view_result(r) == parse_args(attr.deep_view()),
    {
        let ghost toks = attr.deep_view();
        let mut out = Args { no_value: None, value_name: None, no_trait: None, trait_name: None };
        let mut i: usize = 0;
        proof {
            assert(toks.len() == attr@.len());
            assert(out@ == empty_args());
        }
        while i < attr.len()
            invariant
                0 <= i <= attr.len(),
                toks == attr.deep_view(),
                toks.len() == attr@.len(),
                parse_args_from(toks, i as int, out@) == parse_args(toks),
            decreases attr.len() - i,
        {
            proof {
                assert(toks[i as int] == attr@[i as int]@);
            }
            match &attr[i] {
                ArgToken::Flag { key } => {
                    if str_eq(key.as_str(), "no_value") {
                        if out.no_value.is_some() {
                            return Err(Diagnostic::ConfigurationError {
                                arg_index: i,
                                issue: ConfigIssue::DuplicateKey,
                            });
                        }
                        out.no_value = Some(());
                    } else if str_eq(key.as_str(), "no_trait") {
                        if out.no_trait.is_some() {
                            return Err(Diagnostic::ConfigurationError {
                                arg_index: i,
                                issue: ConfigIssue::DuplicateKey,
                            });
                        }
                        out.no_trait = Some(());
                    } else if str_eq(key.as_str(), "value_name") || str_eq(
                        key.as_str(),
                        "trait_name",
                    ) {
                        return Err(Diagnostic::ConfigurationError {
                            arg_index: i,
                            issue: ConfigIssue::MalformedValue,
                        });
                    } else {
                        return Err(Diagnostic::ConfigurationError {
                            arg_index: i,
                            issue: ConfigIssue::UnknownKey,
                        });
                    }
                },
                ArgToken::Assigned { key, value } => {
                    let is_value_name = str_eq(key.as_str(), "value_name");
                    let is_trait_name = str_eq(key.as_str(), "trait_name");
                    if is_value_name || is_trait_name {
                        let already = if is_value_name {
                            out.value_name.is_some()
                        } else {
                            out.trait_name.is_some()
                        };
                        if already {
                            return Err(Diagnostic::ConfigurationError {
                                arg_index: i,
                                issue: ConfigIssue::DuplicateKey,
                            });
                        }
                        match value {
                            ArgValue::Ident { text } => {
                                if check_ident(text.as_str()) {
                                    if is_value_name {
                                        out.value_name = Some(text.clone());
                                    } else {
                                        out.trait_name = Some(text.clone());
                                    }
                                } else {
                                    return Err(Diagnostic::ConfigurationError {
                                        arg_index: i,
                                        issue: ConfigIssue::MalformedValue,
                                    });
                                }
                            },
                            ArgValue::Other => {
                                return Err(Diagnostic::ConfigurationError {
                                    arg_index: i,
                                    issue: ConfigIssue::MalformedValue,
                                });
                            },
                        }
                    } else if str_eq(key.as_str(), "no_value") || str_eq(
                        key.as_str(),
                        "no_trait",
                    ) {
                        return Err(Diagnostic::ConfigurationError {
                            arg_index: i,
                            issue: ConfigIssue::MalformedValue,
                        });
                    } else {
                        return Err(Diagnostic::ConfigurationError {
                            arg_index: i,
                            issue: ConfigIssue::UnknownKey,
                        });
                    }
                },
                ArgToken::Other => {
                    return Err(Diagnostic::ConfigurationError {
                        arg_index: i,
                        issue: ConfigIssue::MalformedValue,
                    });
                },
            }
            i += 1;
        }
        Ok(out)
    }
}

} // verus!
