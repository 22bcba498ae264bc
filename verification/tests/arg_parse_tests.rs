use typemarker::{ArgToken, ArgValue, Args, ConfigIssue, Diagnostic};

fn s(x: &str) -> String {
    x.to_string()
}

fn flag(key: &str) -> ArgToken {
    ArgToken::Flag { key: s(key) }
}

fn assigned(key: &str, value: &str) -> ArgToken {
    ArgToken::Assigned { key: s(key), value: ArgValue::Ident { text: s(value) } }
}

#[test]
fn no_value_arg_parse() {
    let expected = Args { no_trait: None, no_value: Some(()), trait_name: None, value_name: None };

    let input = vec![flag("no_value")];

    let result = Args::parse(&input);

    assert_eq!(Ok(expected), result);
}

#[test]
fn no_value_no_trait_arg_parse() {
    let expected = Args {
        no_trait: Some(()),
        no_value: Some(()),
        trait_name: None,
        value_name: None,
    };

    let input = vec![flag("no_value"), flag("no_trait")];

    let result = Args::parse(&input);

    assert_eq!(Ok(expected), result);
}

#[test]
fn name_overrides_arg_parse() {
    let expected = Args {
        no_trait: None,
        no_value: None,
        trait_name: Some(s("TraitName")),
        value_name: Some(s("ValueName")),
    };

    let input = vec![assigned("value_name", "ValueName"), assigned("trait_name", "TraitName")];

    let result = Args::parse(&input);

    assert_eq!(Ok(expected), result);
}

#[test]
fn flag_beside_override_accepted_silently() {
    let expected = Args {
        no_trait: None,
        no_value: Some(()),
        trait_name: None,
        value_name: Some(s("Foo")),
    };

    let input = vec![flag("no_value"), assigned("value_name", "Foo")];

    let result = Args::parse(&input);

    assert_eq!(Ok(expected), result);
}

#[test]
fn empty_arguments_parse_to_defaults() {
    let expected = Args { no_trait: None, no_value: None, trait_name: None, value_name: None };

    let result = Args::parse(&vec![]);

    assert_eq!(Ok(expected), result);
}

#[test]
fn unknown_key_rejected() {
    let input = vec![flag("no_value"), flag("no_values")];

    let result = Args::parse(&input);

    assert_eq!(
        Err(Diagnostic::ConfigurationError { arg_index: 1, issue: ConfigIssue::UnknownKey }),
        result
    );
}

#[test]
fn duplicate_key_rejected() {
    let input = vec![flag("no_trait"), flag("no_trait")];

    let result = Args::parse(&input);

    assert_eq!(
        Err(Diagnostic::ConfigurationError { arg_index: 1, issue: ConfigIssue::DuplicateKey }),
        result
    );
}

#[test]
fn duplicate_override_rejected() {
    let input = vec![assigned("value_name", "A"), assigned("value_name", "B")];

    let result = Args::parse(&input);

    assert_eq!(
        Err(Diagnostic::ConfigurationError { arg_index: 1, issue: ConfigIssue::DuplicateKey }),
        result
    );
}

#[test]
fn value_on_flag_key_rejected() {
    let input = vec![assigned("no_value", "Foo")];

    let result = Args::parse(&input);

    assert_eq!(
        Err(Diagnostic::ConfigurationError { arg_index: 0, issue: ConfigIssue::MalformedValue }),
        result
    );
}

#[test]
fn bare_override_key_rejected() {
    let input = vec![flag("value_name")];

    let result = Args::parse(&input);

    assert_eq!(
        Err(Diagnostic::ConfigurationError { arg_index: 0, issue: ConfigIssue::MalformedValue }),
        result
    );
}

#[test]
fn non_identifier_value_rejected() {
    let input = vec![ArgToken::Assigned { key: s("value_name"), value: ArgValue::Other }];

    let result = Args::parse(&input);

    assert_eq!(
        Err(Diagnostic::ConfigurationError { arg_index: 0, issue: ConfigIssue::MalformedValue }),
        result
    );
}

#[test]
fn non_identifier_text_rejected() {
    let input = vec![assigned("trait_name", "9Lives")];

    let result = Args::parse(&input);

    assert_eq!(
        Err(Diagnostic::ConfigurationError { arg_index: 0, issue: ConfigIssue::MalformedValue }),
        result
    );
}

#[test]
fn unsupported_argument_shape_rejected() {
    let input = vec![ArgToken::Other];

    let result = Args::parse(&input);

    assert_eq!(
        Err(Diagnostic::ConfigurationError { arg_index: 0, issue: ConfigIssue::MalformedValue }),
        result
    );
}

#[test]
fn identifier_check() {
    assert!(typemarker::check_ident("Foo"));
    assert!(typemarker::check_ident("_leading"));
    assert!(typemarker::check_ident("x9_"));
    assert!(!typemarker::check_ident(""));
    assert!(!typemarker::check_ident("_"));
    assert!(!typemarker::check_ident("9Lives"));
    assert!(!typemarker::check_ident("has space"));
    assert!(!typemarker::check_ident("hy-phen"));
}

#[test]
fn string_comparison() {
    assert!(typemarker::str_eq("no_value", "no_value"));
    assert!(!typemarker::str_eq("no_value", "no_trait"));
    assert!(!typemarker::str_eq("no_value", "no_value "));
}
