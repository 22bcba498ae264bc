use typemarker::{
    generate_mod, typemarker_macro, validate, ArgToken, CaseDecl, Diagnostic, EnumDecl, ItemNode,
    ModItem, Module, Visibility,
};

fn s(x: &str) -> String {
    x.to_string()
}

fn plain_enum(name: &str, vis: Visibility, cases: &[&str]) -> ItemNode {
    ItemNode::Enumeration {
        decl: EnumDecl {
            name: s(name),
            vis,
            cases: cases.iter().map(|c| CaseDecl { name: s(c), arity: 0 }).collect(),
        },
    }
}

#[test]
fn non_enum_input_rejected() {
    let result = typemarker_macro(&vec![], ItemNode::Other);

    assert_eq!(Err(Diagnostic::ShapeError), result);
    assert_eq!(
        "this transformation only applies to enumerations",
        Diagnostic::ShapeError.message()
    );
}

#[test]
fn data_carrying_case_rejected() {
    let item = ItemNode::Enumeration {
        decl: EnumDecl {
            name: s("Shape"),
            vis: Visibility::Public,
            cases: vec![
                CaseDecl { name: s("Point"), arity: 0 },
                CaseDecl { name: s("Circle"), arity: 1 },
                CaseDecl { name: s("Rect"), arity: 2 },
            ],
        },
    };

    let result = typemarker_macro(&vec![], item);

    let expected = Diagnostic::VariantDataError { case_index: 1 };
    assert_eq!(
        "all enumeration cases must be empty (carry no data)",
        expected.message()
    );
    assert_eq!(Err(expected), result);
}

#[test]
fn configuration_error_reported_before_shape_error() {
    let attr = vec![ArgToken::Flag { key: s("mystery") }];

    let result = typemarker_macro(&attr, ItemNode::Other);

    assert_eq!(
        Err(Diagnostic::ConfigurationError {
            arg_index: 0,
            issue: typemarker::ConfigIssue::UnknownKey,
        }),
        result
    );
}

#[test]
fn zero_cases_accepted() {
    let result = typemarker_macro(&vec![], plain_enum("Nothing", Visibility::Inherited, &[]));

    let expected = Module {
        vis: Visibility::Inherited,
        name: s("Nothing"),
        items: vec![
            ModItem::ValueEnum { name: s("Dynamic"), variants: vec![] },
            ModItem::TraitDecl { name: s("Trait"), dynamic_returns: Some(s("Dynamic")) },
            ModItem::SealMod { markers: vec![] },
        ],
    };
    assert_eq!(Ok(expected), result);
}

#[test]
fn case_named_like_default_value_enum_kept() {
    // A case literally named `Dynamic` is not screened: the module declares
    // both the marker and the like-named value enum, and the clash is the
    // generated code's own concern downstream.
    let result = typemarker_macro(
        &vec![],
        plain_enum("State", Visibility::Inherited, &["Dynamic", "Fixed"]),
    );

    let expected = Module {
        vis: Visibility::Inherited,
        name: s("State"),
        items: vec![
            ModItem::Marker { name: s("Dynamic") },
            ModItem::Marker { name: s("Fixed") },
            ModItem::ValueEnum { name: s("Dynamic"), variants: vec![s("Dynamic"), s("Fixed")] },
            ModItem::TraitDecl { name: s("Trait"), dynamic_returns: Some(s("Dynamic")) },
            ModItem::TraitImpl {
                trait_name: s("Trait"),
                marker: s("Dynamic"),
                value_enum: Some(s("Dynamic")),
            },
            ModItem::TraitImpl {
                trait_name: s("Trait"),
                marker: s("Fixed"),
                value_enum: Some(s("Dynamic")),
            },
            ModItem::SealMod { markers: vec![s("Dynamic"), s("Fixed")] },
        ],
    };
    assert_eq!(Ok(expected), result);
}

#[test]
fn case_order_is_preserved() {
    let result = typemarker_macro(
        &vec![ArgToken::Flag { key: s("no_trait") }],
        plain_enum("Zigzag", Visibility::Public, &["Zeta", "Alpha", "Mu", "Beta"]),
    );

    let expected = Module {
        vis: Visibility::Public,
        name: s("Zigzag"),
        items: vec![
            ModItem::Marker { name: s("Zeta") },
            ModItem::Marker { name: s("Alpha") },
            ModItem::Marker { name: s("Mu") },
            ModItem::Marker { name: s("Beta") },
            ModItem::ValueEnum {
                name: s("Dynamic"),
                variants: vec![s("Zeta"), s("Alpha"), s("Mu"), s("Beta")],
            },
        ],
    };
    assert_eq!(Ok(expected), result);
}

#[test]
fn repeated_invocations_agree() {
    let attr = vec![ArgToken::Flag { key: s("no_value") }];

    let first = typemarker_macro(&attr, plain_enum("Door", Visibility::Public, &["Open", "Shut"]));
    let second = typemarker_macro(&attr, plain_enum("Door", Visibility::Public, &["Open", "Shut"]));

    assert_eq!(first, second);
}

#[test]
fn visibility_carried_over() {
    let result = typemarker_macro(
        &vec![
            ArgToken::Flag { key: s("no_value") },
            ArgToken::Flag { key: s("no_trait") },
        ],
        plain_enum("Inner", Visibility::Restricted { path: s("crate") }, &["One"]),
    );

    let expected = Module {
        vis: Visibility::Restricted { path: s("crate") },
        name: s("Inner"),
        items: vec![ModItem::Marker { name: s("One") }],
    };
    assert_eq!(Ok(expected), result);
}

#[test]
fn validate_returns_the_triple() {
    let triple = validate(plain_enum("Pair", Visibility::Public, &["L", "R"]));

    assert_eq!(
        Ok((s("Pair"), Visibility::Public, vec![s("L"), s("R")])),
        triple
    );
}

#[test]
fn validate_locates_first_data_case() {
    let item = ItemNode::Enumeration {
        decl: EnumDecl {
            name: s("Mix"),
            vis: Visibility::Inherited,
            cases: vec![
                CaseDecl { name: s("A"), arity: 0 },
                CaseDecl { name: s("B"), arity: 3 },
                CaseDecl { name: s("C"), arity: 1 },
            ],
        },
    };

    assert_eq!(Err(Diagnostic::VariantDataError { case_index: 1 }), validate(item));
}

#[test]
fn generator_composes_requested_fragments() {
    let cases = vec![s("On"), s("Off")];

    let with_value_only = generate_mod(
        s("Power"),
        Visibility::Public,
        &cases,
        Some(s("Level")),
        None,
    );
    assert_eq!(
        Module {
            vis: Visibility::Public,
            name: s("Power"),
            items: vec![
                ModItem::Marker { name: s("On") },
                ModItem::Marker { name: s("Off") },
                ModItem::ValueEnum { name: s("Level"), variants: vec![s("On"), s("Off")] },
            ],
        },
        with_value_only
    );

    let with_trait_only = generate_mod(s("Power"), Visibility::Public, &cases, None, Some(s("Cap")));
    assert_eq!(
        Module {
            vis: Visibility::Public,
            name: s("Power"),
            items: vec![
                ModItem::Marker { name: s("On") },
                ModItem::Marker { name: s("Off") },
                ModItem::TraitDecl { name: s("Cap"), dynamic_returns: None },
                ModItem::TraitImpl { trait_name: s("Cap"), marker: s("On"), value_enum: None },
                ModItem::TraitImpl { trait_name: s("Cap"), marker: s("Off"), value_enum: None },
                ModItem::SealMod { markers: vec![s("On"), s("Off")] },
            ],
        },
        with_trait_only
    );
}

#[test]
fn value_name_override_leaves_no_default_name() {
    let attr = vec![ArgToken::Assigned {
        key: s("value_name"),
        value: typemarker::ArgValue::Ident { text: s("Foo") },
    }];

    let result = typemarker_macro(&attr, plain_enum("Tri", Visibility::Inherited, &["A", "B"]))
        .expect("expansion succeeds");

    let mentions_dynamic = result.items.iter().any(|it| match it {
        ModItem::Marker { name } => name == "Dynamic",
        ModItem::ValueEnum { name, .. } => name == "Dynamic",
        ModItem::TraitDecl { dynamic_returns, .. } => {
            dynamic_returns.as_deref() == Some("Dynamic")
        },
        ModItem::TraitImpl { value_enum, .. } => value_enum.as_deref() == Some("Dynamic"),
        ModItem::SealMod { .. } => false,
    });
    assert!(!mentions_dynamic);
    assert!(result.items.contains(&ModItem::ValueEnum {
        name: s("Foo"),
        variants: vec![s("A"), s("B")],
    }));
}

#[test]
fn configuration_error_messages() {
    let unknown = Diagnostic::ConfigurationError {
        arg_index: 0,
        issue: typemarker::ConfigIssue::UnknownKey,
    };
    let duplicate = Diagnostic::ConfigurationError {
        arg_index: 2,
        issue: typemarker::ConfigIssue::DuplicateKey,
    };
    let malformed = Diagnostic::ConfigurationError {
        arg_index: 1,
        issue: typemarker::ConfigIssue::MalformedValue,
    };

    assert_eq!("unrecognized configuration key", unknown.message());
    assert_eq!("duplicate configuration key", duplicate.message());
    assert_eq!("malformed configuration value", malformed.message());
}
