//! Macro and attribute-string resolution against a concrete snapshot.

use arg_macros::ctx::AttrResolutionContext;
use arg_macros::data::{
    Artifact, CommandLineArg, ConfiguredMacro, ConfiguredStringWithMacros,
    ConfiguredStringWithMacrosPart, DefaultInfo, PlaceholderEntry, ProviderSet,
    ResolvedQueryMacro, TemplatePlaceholderInfo, UnrecognizedMacro,
};
use arg_macros::errors::MacroError;
use arg_macros::resolve::{ResolvedMacro, ResolvedStringWithMacros, ResolvedStringWithMacrosPart};

fn artifact(name: &str) -> Artifact {
    Artifact::new(name.to_string())
}

fn arg_like(tokens: &[&str], inputs: &[&str]) -> CommandLineArg {
    CommandLineArg {
        tokens: tokens.iter().map(|t| t.to_string()).collect(),
        inputs: inputs.iter().map(|n| artifact(n)).collect(),
    }
}

fn providers_with_outputs(outputs: &[&str]) -> ProviderSet {
    ProviderSet {
        default_info: DefaultInfo {
            default_outputs: outputs.iter().map(|n| artifact(n)).collect(),
        },
        run_info: None,
        template_placeholder_info: None,
    }
}

fn empty_ctx() -> AttrResolutionContext {
    AttrResolutionContext {
        deps: Vec::new(),
        unkeyed_placeholders: Vec::new(),
        query_results: Vec::new(),
    }
}

#[test]
fn location_resolves_to_default_outputs() {
    let mut ctx = empty_ctx();
    ctx.deps
        .push(("//:gen".to_string(), providers_with_outputs(&["a.txt", "b.txt"])));
    let resolved =
        ResolvedMacro::resolved(&ConfiguredMacro::Location("//:gen".to_string()), &ctx).unwrap();
    match resolved {
        ResolvedMacro::Location(info) => {
            assert_eq!(info.default_outputs.len(), 2);
            assert_eq!(info.default_outputs[0].name, "a.txt");
            assert_eq!(info.default_outputs[1].name, "b.txt");
        }
        other => panic!("expected a location, got {:?}", other),
    }
}

#[test]
fn location_fails_when_dependency_lookup_fails() {
    let ctx = empty_ctx();
    let err =
        ResolvedMacro::resolved(&ConfiguredMacro::Location("//:gone".to_string()), &ctx)
            .unwrap_err();
    assert_eq!(err, MacroError::DepLookupFailed("//:gone".to_string()));
}

#[test]
fn exe_resolves_to_run_info() {
    let mut ctx = empty_ctx();
    let mut providers = providers_with_outputs(&[]);
    providers.run_info = Some(arg_like(&["tool", "--fast"], &["tool.bin"]));
    ctx.deps.push(("//:tool".to_string(), providers));
    let resolved = ResolvedMacro::resolved(
        &ConfiguredMacro::Exe { label: "//:tool".to_string(), exec_dep: true },
        &ctx,
    )
    .unwrap();
    match resolved {
        ResolvedMacro::ArgLike(arg) => {
            assert_eq!(arg.tokens, vec!["tool".to_string(), "--fast".to_string()]);
        }
        other => panic!("expected an arg-like value, got {:?}", other),
    }
}

#[test]
fn exe_requires_run_info() {
    let mut ctx = empty_ctx();
    ctx.deps.push(("//:data".to_string(), providers_with_outputs(&["d.txt"])));
    let err = ResolvedMacro::resolved(
        &ConfiguredMacro::Exe { label: "//:data".to_string(), exec_dep: false },
        &ctx,
    )
    .unwrap_err();
    assert_eq!(err, MacroError::ExpectedRunInfo("//:data".to_string()));
}

#[test]
fn unkeyed_placeholder_resolves_from_build_wide_mapping() {
    let mut ctx = empty_ctx();
    ctx.unkeyed_placeholders
        .push(("CC".to_string(), arg_like(&["clang"], &[])));
    let resolved = ResolvedMacro::resolved(
        &ConfiguredMacro::UserUnkeyedPlaceholder("CC".to_string()),
        &ctx,
    )
    .unwrap();
    match resolved {
        ResolvedMacro::ArgLike(arg) => assert_eq!(arg.tokens, vec!["clang".to_string()]),
        other => panic!("expected an arg-like value, got {:?}", other),
    }
}

#[test]
fn unkeyed_placeholder_fails_without_mapping() {
    let ctx = empty_ctx();
    let err = ResolvedMacro::resolved(
        &ConfiguredMacro::UserUnkeyedPlaceholder("CXX".to_string()),
        &ctx,
    )
    .unwrap_err();
    assert_eq!(err, MacroError::UnkeyedPlaceholderUnresolved("CXX".to_string()));
}

fn keyed_ctx(entry: PlaceholderEntry) -> AttrResolutionContext {
    let mut ctx = empty_ctx();
    let mut providers = providers_with_outputs(&[]);
    providers.template_placeholder_info = Some(TemplatePlaceholderInfo {
        keyed_variables: vec![("flags".to_string(), entry)],
    });
    ctx.deps.push(("//:lib".to_string(), providers));
    ctx
}

#[test]
fn keyed_placeholder_single_value_used_directly() {
    let ctx = keyed_ctx(PlaceholderEntry::Single(arg_like(&["-O2"], &[])));
    let resolved = ResolvedMacro::resolved(
        &ConfiguredMacro::UserKeyedPlaceholder("flags".to_string(), "//:lib".to_string(), None),
        &ctx,
    )
    .unwrap();
    match resolved {
        ResolvedMacro::ArgLike(arg) => assert_eq!(arg.tokens, vec!["-O2".to_string()]),
        other => panic!("expected an arg-like value, got {:?}", other),
    }
}

#[test]
fn keyed_placeholder_requires_template_placeholder_info() {
    let mut ctx = empty_ctx();
    ctx.deps.push(("//:lib".to_string(), providers_with_outputs(&[])));
    let err = ResolvedMacro::resolved(
        &ConfiguredMacro::UserKeyedPlaceholder("flags".to_string(), "//:lib".to_string(), None),
        &ctx,
    )
    .unwrap_err();
    assert_eq!(err, MacroError::KeyedPlaceholderInfoMissing("//:lib".to_string()));
}

#[test]
fn keyed_placeholder_requires_entry_for_name() {
    let ctx = keyed_ctx(PlaceholderEntry::Single(arg_like(&["-O2"], &[])));
    let err = ResolvedMacro::resolved(
        &ConfiguredMacro::UserKeyedPlaceholder("other".to_string(), "//:lib".to_string(), None),
        &ctx,
    )
    .unwrap_err();
    assert_eq!(
        err,
        MacroError::KeyedPlaceholderMappingMissing("other".to_string(), "//:lib".to_string())
    );
}

#[test]
fn keyed_placeholder_single_value_refuses_sub_argument() {
    let ctx = keyed_ctx(PlaceholderEntry::Single(arg_like(&["-O2"], &[])));
    let err = ResolvedMacro::resolved(
        &ConfiguredMacro::UserKeyedPlaceholder(
            "flags".to_string(),
            "//:lib".to_string(),
            Some("debug".to_string()),
        ),
        &ctx,
    )
    .unwrap_err();
    assert_eq!(
        err,
        MacroError::KeyedPlaceholderMappingNotADict(
            "flags".to_string(),
            "//:lib".to_string(),
            "debug".to_string()
        )
    );
}

#[test]
fn keyed_placeholder_mapping_indexed_by_sub_argument() {
    let ctx = keyed_ctx(PlaceholderEntry::Mapping(vec![
        ("debug".to_string(), arg_like(&["-g"], &[])),
        ("DEFAULT".to_string(), arg_like(&["-O2"], &[])),
    ]));
    let resolved = ResolvedMacro::resolved(
        &ConfiguredMacro::UserKeyedPlaceholder(
            "flags".to_string(),
            "//:lib".to_string(),
            Some("debug".to_string()),
        ),
        &ctx,
    )
    .unwrap();
    match resolved {
        ResolvedMacro::ArgLike(arg) => assert_eq!(arg.tokens, vec!["-g".to_string()]),
        other => panic!("expected an arg-like value, got {:?}", other),
    }
}

#[test]
fn keyed_placeholder_mapping_defaults_to_default_key() {
    let ctx = keyed_ctx(PlaceholderEntry::Mapping(vec![
        ("debug".to_string(), arg_like(&["-g"], &[])),
        ("DEFAULT".to_string(), arg_like(&["-O2"], &[])),
    ]));
    let resolved = ResolvedMacro::resolved(
        &ConfiguredMacro::UserKeyedPlaceholder("flags".to_string(), "//:lib".to_string(), None),
        &ctx,
    )
    .unwrap();
    match resolved {
        ResolvedMacro::ArgLike(arg) => assert_eq!(arg.tokens, vec!["-O2".to_string()]),
        other => panic!("expected an arg-like value, got {:?}", other),
    }
}

#[test]
fn keyed_placeholder_mapping_without_default_key_fails() {
    let ctx = keyed_ctx(PlaceholderEntry::Mapping(vec![(
        "debug".to_string(),
        arg_like(&["-g"], &[]),
    )]));
    let err = ResolvedMacro::resolved(
        &ConfiguredMacro::UserKeyedPlaceholder("flags".to_string(), "//:lib".to_string(), None),
        &ctx,
    )
    .unwrap_err();
    assert_eq!(
        err,
        MacroError::KeyedPlaceholderArgMissing(
            "flags".to_string(),
            "//:lib".to_string(),
            "DEFAULT".to_string()
        )
    );
}

#[test]
fn keyed_placeholder_mapping_missing_requested_sub_argument_fails() {
    let ctx = keyed_ctx(PlaceholderEntry::Mapping(vec![(
        "DEFAULT".to_string(),
        arg_like(&["-O2"], &[]),
    )]));
    let err = ResolvedMacro::resolved(
        &ConfiguredMacro::UserKeyedPlaceholder(
            "flags".to_string(),
            "//:lib".to_string(),
            Some("debug".to_string()),
        ),
        &ctx,
    )
    .unwrap_err();
    assert_eq!(
        err,
        MacroError::KeyedPlaceholderArgMissing(
            "flags".to_string(),
            "//:lib".to_string(),
            "debug".to_string()
        )
    );
}

#[test]
fn query_delegates_to_query_results() {
    let mut ctx = empty_ctx();
    ctx.query_results.push((
        "deps(//:app)".to_string(),
        ResolvedQueryMacro { arg: arg_like(&["//:dep"], &[]) },
    ));
    let resolved =
        ResolvedMacro::resolved(&ConfiguredMacro::Query("deps(//:app)".to_string()), &ctx)
            .unwrap();
    match resolved {
        ResolvedMacro::Query(query) => assert_eq!(query.arg.tokens, vec!["//:dep".to_string()]),
        other => panic!("expected a query value, got {:?}", other),
    }
}

#[test]
fn query_failure_passes_through() {
    let ctx = empty_ctx();
    let err = ResolvedMacro::resolved(&ConfiguredMacro::Query("deps(//:app)".to_string()), &ctx)
        .unwrap_err();
    assert_eq!(err, MacroError::QueryResolutionFailed("deps(//:app)".to_string()));
}

#[test]
fn unrecognized_macro_always_fails_with_its_kind() {
    let ctx = empty_ctx();
    for kind in ["worker", "classpath", ""] {
        let err = ResolvedMacro::resolved(
            &ConfiguredMacro::UnrecognizedMacro(UnrecognizedMacro {
                macro_type: kind.to_string(),
                args: vec!["x".to_string()],
            }),
            &ctx,
        )
        .unwrap_err();
        assert_eq!(err, MacroError::UnrecognizedMacroUnimplemented(kind.to_string()));
    }
}

#[test]
fn single_literal_takes_fast_path_and_round_trips() {
    let ctx = empty_ctx();
    let value = ResolvedStringWithMacros::resolved(
        &ConfiguredStringWithMacros::StringPart("plain text".to_string()),
        &ctx,
    )
    .unwrap();
    assert_eq!(value.downcast_str(), Some("plain text"));
}

#[test]
fn empty_literal_round_trips() {
    let ctx = empty_ctx();
    let value = ResolvedStringWithMacros::resolved(
        &ConfiguredStringWithMacros::StringPart(String::new()),
        &ctx,
    )
    .unwrap();
    assert_eq!(value.downcast_str(), Some(""));
}

#[test]
fn downcast_returns_nothing_for_multiple_parts() {
    let ctx = empty_ctx();
    let value = ResolvedStringWithMacros::resolved(
        &ConfiguredStringWithMacros::ManyParts(vec![
            ConfiguredStringWithMacrosPart::Literal("a".to_string()),
            ConfiguredStringWithMacrosPart::Literal("b".to_string()),
        ]),
        &ctx,
    )
    .unwrap();
    assert_eq!(value.downcast_str(), None);
}

#[test]
fn downcast_returns_nothing_for_single_macro_part() {
    let mut ctx = empty_ctx();
    ctx.deps.push(("//:gen".to_string(), providers_with_outputs(&["a.txt"])));
    let value = ResolvedStringWithMacros::resolved(
        &ConfiguredStringWithMacros::ManyParts(vec![ConfiguredStringWithMacrosPart::Macro(
            false,
            ConfiguredMacro::Location("//:gen".to_string()),
        )]),
        &ctx,
    )
    .unwrap();
    assert_eq!(value.downcast_str(), None);
}

#[test]
fn resolution_is_atomic_and_annotates_the_failing_part() {
    let ctx = empty_ctx();
    let err = ResolvedStringWithMacros::resolved(
        &ConfiguredStringWithMacros::ManyParts(vec![
            ConfiguredStringWithMacrosPart::Literal("--flag=".to_string()),
            ConfiguredStringWithMacrosPart::Macro(
                false,
                ConfiguredMacro::Location("//:gone".to_string()),
            ),
        ]),
        &ctx,
    )
    .unwrap_err();
    assert_eq!(err.part, "$(location //:gone)");
    assert_eq!(err.error, MacroError::DepLookupFailed("//:gone".to_string()));
}

#[test]
fn write_to_file_failure_annotation_carries_the_marker() {
    let ctx = empty_ctx();
    let err = ResolvedStringWithMacros::resolved(
        &ConfiguredStringWithMacros::ManyParts(vec![ConfiguredStringWithMacrosPart::Macro(
            true,
            ConfiguredMacro::Location("//:big".to_string()),
        )]),
        &ctx,
    )
    .unwrap_err();
    assert_eq!(err.part, "@$(location //:big)");
}

#[test]
fn first_failure_wins() {
    let ctx = empty_ctx();
    let err = ResolvedStringWithMacros::resolved(
        &ConfiguredStringWithMacros::ManyParts(vec![
            ConfiguredStringWithMacrosPart::Macro(
                false,
                ConfiguredMacro::UserUnkeyedPlaceholder("FIRST".to_string()),
            ),
            ConfiguredStringWithMacrosPart::Macro(
                false,
                ConfiguredMacro::UserUnkeyedPlaceholder("SECOND".to_string()),
            ),
        ]),
        &ctx,
    )
    .unwrap_err();
    assert_eq!(err.error, MacroError::UnkeyedPlaceholderUnresolved("FIRST".to_string()));
}

#[test]
fn parts_preserve_authored_order() {
    let mut ctx = empty_ctx();
    ctx.unkeyed_placeholders.push(("CC".to_string(), arg_like(&["clang"], &[])));
    let value = ResolvedStringWithMacros::resolved(
        &ConfiguredStringWithMacros::ManyParts(vec![
            ConfiguredStringWithMacrosPart::Literal("pre ".to_string()),
            ConfiguredStringWithMacrosPart::Macro(
                false,
                ConfiguredMacro::UserUnkeyedPlaceholder("CC".to_string()),
            ),
            ConfiguredStringWithMacrosPart::Literal(" post".to_string()),
        ]),
        &ctx,
    )
    .unwrap();
    let parts = value.parts();
    assert_eq!(parts.len(), 3);
    assert_eq!(parts[0].display_text(), "pre ");
    assert_eq!(parts[1].display_text(), "clang");
    assert_eq!(parts[2].display_text(), " post");
}

#[test]
fn values_can_be_built_from_parts_directly() {
    let value = ResolvedStringWithMacros::new(vec![ResolvedStringWithMacrosPart::Literal(
        "direct".to_string(),
    )]);
    assert_eq!(value.downcast_str(), Some("direct"));
    let empty = ResolvedStringWithMacros::new(Vec::new());
    assert_eq!(empty.downcast_str(), None);
}

#[test]
fn contains_arg_attr_reports_macro_presence() {
    let mut ctx = empty_ctx();
    ctx.deps.push(("//:gen".to_string(), providers_with_outputs(&["a.txt"])));

    let all_literal = ResolvedStringWithMacros::resolved(
        &ConfiguredStringWithMacros::StringPart("x".to_string()),
        &ctx,
    )
    .unwrap();
    assert!(!all_literal.contains_arg_attr());

    let many_literals = ResolvedStringWithMacros::resolved(
        &ConfiguredStringWithMacros::ManyParts(vec![
            ConfiguredStringWithMacrosPart::Literal("a".to_string()),
            ConfiguredStringWithMacrosPart::Literal("b".to_string()),
        ]),
        &ctx,
    )
    .unwrap();
    assert!(!many_literals.contains_arg_attr());

    let with_macro = ResolvedStringWithMacros::resolved(
        &ConfiguredStringWithMacros::ManyParts(vec![
            ConfiguredStringWithMacrosPart::Literal("--out=".to_string()),
            ConfiguredStringWithMacrosPart::Macro(
                false,
                ConfiguredMacro::Location("//:gen".to_string()),
            ),
        ]),
        &ctx,
    )
    .unwrap();
    assert!(with_macro.contains_arg_attr());
}

#[test]
fn error_messages_render_their_diagnostics() {
    assert_eq!(
        MacroError::UnrecognizedMacroUnimplemented("worker".to_string()).message(),
        "Can't expand unrecognized macros (`worker`)."
    );
    assert_eq!(
        MacroError::ExpectedRunInfo("//:data".to_string()).message(),
        "Expected a RunInfo provider from target `//:data`."
    );
    assert_eq!(
        MacroError::KeyedPlaceholderInfoMissing("//:lib".to_string()).message(),
        "There was no TemplatePlaceholderInfo for //:lib."
    );
    assert_eq!(
        MacroError::KeyedPlaceholderMappingMissing("flags".to_string(), "//:lib".to_string())
            .message(),
        "There was no mapping for flags in the TemplatePlaceholderInfo for //:lib."
    );
    assert_eq!(
        MacroError::KeyedPlaceholderMappingNotADict(
            "flags".to_string(),
            "//:lib".to_string(),
            "debug".to_string()
        )
        .message(),
        "The mapping for flags in the TemplatePlaceholderInfo for //:lib was not a dictionary \
         (required because requested arg `debug`)."
    );
    assert_eq!(
        MacroError::KeyedPlaceholderArgMissing(
            "flags".to_string(),
            "//:lib".to_string(),
            "DEFAULT".to_string()
        )
        .message(),
        "The mapping for flags in the TemplatePlaceholderInfo for //:lib had no mapping for arg \
         `DEFAULT`."
    );
    assert_eq!(
        MacroError::UnkeyedPlaceholderUnresolved("CXX".to_string()).message(),
        "There was no mapping for CXX."
    );
}

#[test]
fn pass_through_error_messages_render_their_diagnostics() {
    assert_eq!(
        MacroError::DepLookupFailed("//:gone".to_string()).message(),
        "Failed to look up providers for `//:gone`."
    );
    assert_eq!(
        MacroError::QueryResolutionFailed("deps(//:app)".to_string()).message(),
        "Failed to resolve query `deps(//:app)`."
    );
    assert_eq!(
        MacroError::ArtifactPathUnresolved("a.txt".to_string()).message(),
        "Failed to resolve artifact `a.txt` to a path."
    );
    assert_eq!(
        MacroError::MacroFilePathUnavailable.message(),
        "Failed to reserve a macro file path."
    );
}

#[test]
fn structural_equality_compares_parts_in_order() {
    let mut ctx = empty_ctx();
    ctx.deps
        .push(("//:gen".to_string(), providers_with_outputs(&["a.txt"])));
    let attr = ConfiguredStringWithMacros::ManyParts(vec![
        ConfiguredStringWithMacrosPart::Literal("x".to_string()),
        ConfiguredStringWithMacrosPart::Macro(
            false,
            ConfiguredMacro::Location("//:gen".to_string()),
        ),
    ]);
    let first = ResolvedStringWithMacros::resolved(&attr, &ctx).unwrap();
    let second = ResolvedStringWithMacros::resolved(&attr, &ctx).unwrap();
    assert!(first.equals(&second));

    let other = ResolvedStringWithMacros::resolved(
        &ConfiguredStringWithMacros::ManyParts(vec![
            ConfiguredStringWithMacrosPart::Literal("y".to_string()),
            ConfiguredStringWithMacrosPart::Macro(
                false,
                ConfiguredMacro::Location("//:gen".to_string()),
            ),
        ]),
        &ctx,
    )
    .unwrap();
    assert!(!first.equals(&other));

    let shorter = ResolvedStringWithMacros::resolved(
        &ConfiguredStringWithMacros::StringPart("x".to_string()),
        &ctx,
    )
    .unwrap();
    assert!(!first.equals(&shorter));
}

#[test]
fn flag_differences_make_parts_unequal() {
    let mut ctx = empty_ctx();
    ctx.deps
        .push(("//:gen".to_string(), providers_with_outputs(&["a.txt"])));
    let flagged = ResolvedStringWithMacros::resolved(
        &ConfiguredStringWithMacros::ManyParts(vec![ConfiguredStringWithMacrosPart::Macro(
            true,
            ConfiguredMacro::Location("//:gen".to_string()),
        )]),
        &ctx,
    )
    .unwrap();
    let unflagged = ResolvedStringWithMacros::resolved(
        &ConfiguredStringWithMacros::ManyParts(vec![ConfiguredStringWithMacrosPart::Macro(
            false,
            ConfiguredMacro::Location("//:gen".to_string()),
        )]),
        &ctx,
    )
    .unwrap();
    assert!(!flagged.equals(&unflagged));
}

#[test]
fn unrecognized_macro_display_includes_arguments() {
    let node = ConfiguredMacro::UnrecognizedMacro(UnrecognizedMacro {
        macro_type: "worker".to_string(),
        args: vec!["//:w".to_string(), "slow".to_string()],
    });
    assert_eq!(node.display_text(), "$(worker //:w slow)");
}
