//! Command-line assembly and the two visitor traversals.

use arg_macros::cmdline::{add_output_to_arg, add_outputs_to_arg, ArgBuilder, CommandLineBuilder};
use arg_macros::ctx::{AttrResolutionContext, CommandLineContext};
use arg_macros::data::{
    Artifact, CommandLineArg, ConfiguredMacro, ConfiguredStringWithMacros,
    ConfiguredStringWithMacrosPart, DefaultInfo, ProviderSet, ResolvedQueryMacro,
};
use arg_macros::errors::MacroError;
use arg_macros::resolve::{ResolvedMacro, ResolvedStringWithMacros};
use arg_macros::visit::{CommandLineArtifactVisitor, WriteToFileMacroVisitor};

fn artifact(name: &str) -> Artifact {
    Artifact::new(name.to_string())
}

fn arg_like(tokens: &[&str], inputs: &[&str]) -> CommandLineArg {
    CommandLineArg {
        tokens: tokens.iter().map(|t| t.to_string()).collect(),
        inputs: inputs.iter().map(|n| artifact(n)).collect(),
    }
}

fn providers_with_outputs(outputs: &[&str]) -> ProviderSet {
    ProviderSet {
        default_info: DefaultInfo {
            default_outputs: outputs.iter().map(|n| artifact(n)).collect(),
        },
        run_info: None,
        template_placeholder_info: None,
    }
}

fn empty_resolution_ctx() -> AttrResolutionContext {
    AttrResolutionContext {
        deps: Vec::new(),
        unkeyed_placeholders: Vec::new(),
        query_results: Vec::new(),
    }
}

fn exec_ctx(paths: &[(&str, &str)], macro_files: &[&str]) -> CommandLineContext {
    CommandLineContext {
        artifact_paths: paths
            .iter()
            .map(|(name, path)| (name.to_string(), path.to_string()))
            .collect(),
        macro_files: macro_files.iter().map(|f| f.to_string()).collect(),
        next_macro_file: 0,
    }
}

#[test]
fn output_path_appends_to_argument() {
    let mut builder = ArgBuilder::new();
    let mut ctx = exec_ctx(&[("a.txt", "out/a.txt")], &[]);
    add_output_to_arg(&mut builder, &mut ctx, &artifact("a.txt")).unwrap();
    assert_eq!(builder.into_arg(), "out/a.txt");
}

#[test]
fn unresolvable_output_path_fails() {
    let mut builder = ArgBuilder::new();
    let mut ctx = exec_ctx(&[], &[]);
    let err = add_output_to_arg(&mut builder, &mut ctx, &artifact("a.txt")).unwrap_err();
    assert_eq!(err, MacroError::ArtifactPathUnresolved("a.txt".to_string()));
}

#[test]
fn two_outputs_join_with_exactly_one_space() {
    let mut builder = ArgBuilder::new();
    let mut ctx = exec_ctx(&[("a.txt", "a.txt"), ("b.txt", "b.txt")], &[]);
    let outputs = vec![artifact("a.txt"), artifact("b.txt")];
    add_outputs_to_arg(&mut builder, &mut ctx, &outputs).unwrap();
    assert_eq!(builder.into_arg(), "a.txt b.txt");
}

#[test]
fn failed_outputs_keep_already_appended_paths() {
    let mut builder = ArgBuilder::new();
    builder.push_str("prefix:");
    let mut ctx = exec_ctx(&[("a.txt", "out/a.txt")], &[]);
    let outputs = vec![artifact("a.txt"), artifact("missing.txt")];
    let err = add_outputs_to_arg(&mut builder, &mut ctx, &outputs).unwrap_err();
    assert_eq!(err, MacroError::ArtifactPathUnresolved("missing.txt".to_string()));
    // The builder accumulates: the first path and the separator written
    // for the failing output remain.
    assert_eq!(builder.into_arg(), "prefix:out/a.txt ");
}

#[test]
fn failure_on_the_first_output_appends_nothing() {
    let mut builder = ArgBuilder::new();
    builder.push_str("prefix:");
    let mut ctx = exec_ctx(&[], &[]);
    let outputs = vec![artifact("missing.txt")];
    let err = add_outputs_to_arg(&mut builder, &mut ctx, &outputs).unwrap_err();
    assert_eq!(err, MacroError::ArtifactPathUnresolved("missing.txt".to_string()));
    assert_eq!(builder.into_arg(), "prefix:");
}

#[test]
fn empty_output_list_appends_nothing() {
    let mut builder = ArgBuilder::new();
    let mut ctx = exec_ctx(&[], &[]);
    add_outputs_to_arg(&mut builder, &mut ctx, &Vec::new()).unwrap();
    assert_eq!(builder.into_arg(), "");
}

#[test]
fn location_macro_with_two_outputs_assembles_one_argument() {
    let mut ctx = empty_resolution_ctx();
    ctx.deps
        .push(("//:gen".to_string(), providers_with_outputs(&["a.txt", "b.txt"])));
    let value = ResolvedStringWithMacros::resolved(
        &ConfiguredStringWithMacros::ManyParts(vec![ConfiguredStringWithMacrosPart::Macro(
            false,
            ConfiguredMacro::Location("//:gen".to_string()),
        )]),
        &ctx,
    )
    .unwrap();
    let mut sink = CommandLineBuilder::new();
    let mut exec = exec_ctx(&[("a.txt", "a.txt"), ("b.txt", "b.txt")], &[]);
    value.add_to_command_line(&mut sink, &mut exec).unwrap();
    assert_eq!(sink.args, vec!["a.txt b.txt".to_string()]);
}

#[test]
fn attribute_with_location_macro_assembles_end_to_end() {
    let mut ctx = empty_resolution_ctx();
    ctx.deps
        .push(("//:gen".to_string(), providers_with_outputs(&["a.txt", "b.txt"])));
    let value = ResolvedStringWithMacros::resolved(
        &ConfiguredStringWithMacros::ManyParts(vec![
            ConfiguredStringWithMacrosPart::Literal("--out=".to_string()),
            ConfiguredStringWithMacrosPart::Macro(
                false,
                ConfiguredMacro::Location("//:gen".to_string()),
            ),
            ConfiguredStringWithMacrosPart::Literal(" extra".to_string()),
        ]),
        &ctx,
    )
    .unwrap();
    let mut sink = CommandLineBuilder::new();
    let mut exec = exec_ctx(&[("a.txt", "a.txt"), ("b.txt", "b.txt")], &[]);
    value.add_to_command_line(&mut sink, &mut exec).unwrap();
    assert_eq!(sink.args, vec!["--out=a.txt b.txt extra".to_string()]);
}

#[test]
fn write_to_file_macro_assembles_marker_and_reserved_path() {
    let mut ctx = empty_resolution_ctx();
    ctx.deps.push(("//:big".to_string(), providers_with_outputs(&["big.txt"])));
    let value = ResolvedStringWithMacros::resolved(
        &ConfiguredStringWithMacros::ManyParts(vec![ConfiguredStringWithMacrosPart::Macro(
            true,
            ConfiguredMacro::Location("//:big".to_string()),
        )]),
        &ctx,
    )
    .unwrap();

    let mut sink = CommandLineBuilder::new();
    let mut exec = exec_ctx(&[("big.txt", "big.txt")], &["buck-out/macro0"]);
    value.add_to_command_line(&mut sink, &mut exec).unwrap();
    assert_eq!(sink.args, vec!["@buck-out/macro0".to_string()]);
    assert_eq!(exec.next_macro_file, 1);

    let mut visitor = WriteToFileMacroVisitor::new();
    value.visit_write_to_file_macros(&mut visitor);
    assert_eq!(visitor.macros.len(), 1);
    match &visitor.macros[0] {
        ResolvedMacro::Location(info) => {
            assert_eq!(info.default_outputs.len(), 1);
            assert_eq!(info.default_outputs[0].name, "big.txt");
        }
        other => panic!("expected a location, got {:?}", other),
    }
}

#[test]
fn write_to_file_without_reserved_path_fails() {
    let mut ctx = empty_resolution_ctx();
    ctx.deps.push(("//:big".to_string(), providers_with_outputs(&["big.txt"])));
    let value = ResolvedStringWithMacros::resolved(
        &ConfiguredStringWithMacros::ManyParts(vec![ConfiguredStringWithMacrosPart::Macro(
            true,
            ConfiguredMacro::Location("//:big".to_string()),
        )]),
        &ctx,
    )
    .unwrap();
    let mut sink = CommandLineBuilder::new();
    let mut exec = exec_ctx(&[("big.txt", "big.txt")], &[]);
    let err = value.add_to_command_line(&mut sink, &mut exec).unwrap_err();
    assert_eq!(err, MacroError::MacroFilePathUnavailable);
    assert!(sink.args.is_empty());
}

#[test]
fn arg_like_tokens_join_with_single_spaces() {
    let mut ctx = empty_resolution_ctx();
    let mut providers = providers_with_outputs(&[]);
    providers.run_info = Some(arg_like(&["tool", "--fast"], &[]));
    ctx.deps.push(("//:tool".to_string(), providers));
    let value = ResolvedStringWithMacros::resolved(
        &ConfiguredStringWithMacros::ManyParts(vec![
            ConfiguredStringWithMacrosPart::Literal("run:".to_string()),
            ConfiguredStringWithMacrosPart::Macro(
                false,
                ConfiguredMacro::Exe { label: "//:tool".to_string(), exec_dep: false },
            ),
        ]),
        &ctx,
    )
    .unwrap();
    let mut sink = CommandLineBuilder::new();
    let mut exec = exec_ctx(&[], &[]);
    value.add_to_command_line(&mut sink, &mut exec).unwrap();
    assert_eq!(sink.args, vec!["run:tool --fast".to_string()]);
}

#[test]
fn assembly_failure_pushes_no_argument() {
    let mut ctx = empty_resolution_ctx();
    ctx.deps.push(("//:gen".to_string(), providers_with_outputs(&["a.txt"])));
    let value = ResolvedStringWithMacros::resolved(
        &ConfiguredStringWithMacros::ManyParts(vec![ConfiguredStringWithMacrosPart::Macro(
            false,
            ConfiguredMacro::Location("//:gen".to_string()),
        )]),
        &ctx,
    )
    .unwrap();
    let mut sink = CommandLineBuilder::new();
    let mut exec = exec_ctx(&[], &[]);
    let err = value.add_to_command_line(&mut sink, &mut exec).unwrap_err();
    assert_eq!(err, MacroError::ArtifactPathUnresolved("a.txt".to_string()));
    assert!(sink.args.is_empty());
}

fn mixed_value() -> ResolvedStringWithMacros {
    let mut ctx = empty_resolution_ctx();
    ctx.deps
        .push(("//:gen".to_string(), providers_with_outputs(&["a.txt", "b.txt"])));
    ctx.unkeyed_placeholders
        .push(("CC".to_string(), arg_like(&["clang"], &["clang.bin"])));
    ResolvedStringWithMacros::resolved(
        &ConfiguredStringWithMacros::ManyParts(vec![
            ConfiguredStringWithMacrosPart::Literal("lit".to_string()),
            ConfiguredStringWithMacrosPart::Macro(
                true,
                ConfiguredMacro::Location("//:gen".to_string()),
            ),
            ConfiguredStringWithMacrosPart::Macro(
                false,
                ConfiguredMacro::UserUnkeyedPlaceholder("CC".to_string()),
            ),
        ]),
        &ctx,
    )
    .unwrap()
}

#[test]
fn artifact_visitor_reports_every_macro_part_whatever_its_flag() {
    let value = mixed_value();
    let mut visitor = CommandLineArtifactVisitor::new();
    value.visit_artifacts(&mut visitor);
    let names: Vec<&str> = visitor.inputs.iter().map(|a| a.name.as_str()).collect();
    assert_eq!(names, vec!["a.txt", "b.txt", "clang.bin"]);
}

#[test]
fn write_to_file_visitor_reports_only_flagged_parts() {
    let value = mixed_value();
    let mut visitor = WriteToFileMacroVisitor::new();
    value.visit_write_to_file_macros(&mut visitor);
    assert_eq!(visitor.macros.len(), 1);
    assert!(matches!(&visitor.macros[0], ResolvedMacro::Location(_)));
}

#[test]
fn visitors_are_disjoint_when_nothing_is_flagged() {
    let mut ctx = empty_resolution_ctx();
    ctx.deps.push(("//:gen".to_string(), providers_with_outputs(&["a.txt"])));
    let value = ResolvedStringWithMacros::resolved(
        &ConfiguredStringWithMacros::ManyParts(vec![ConfiguredStringWithMacrosPart::Macro(
            false,
            ConfiguredMacro::Location("//:gen".to_string()),
        )]),
        &ctx,
    )
    .unwrap();
    let mut artifacts = CommandLineArtifactVisitor::new();
    value.visit_artifacts(&mut artifacts);
    let mut flagged = WriteToFileMacroVisitor::new();
    value.visit_write_to_file_macros(&mut flagged);
    assert_eq!(artifacts.inputs.len(), 1);
    assert!(flagged.macros.is_empty());
}

#[test]
fn traversals_are_repeatable() {
    let value = mixed_value();
    let mut first = CommandLineArtifactVisitor::new();
    value.visit_artifacts(&mut first);
    let mut second = CommandLineArtifactVisitor::new();
    value.visit_artifacts(&mut second);
    assert_eq!(first.inputs, second.inputs);
}

#[test]
fn query_results_render_and_report_like_arg_likes() {
    let mut builder = ArgBuilder::new();
    let mut exec = exec_ctx(&[], &[]);
    let query = ResolvedQueryMacro { arg: arg_like(&["//:a", "//:b"], &["q.out"]) };
    query.add_to_arg(&mut builder, &mut exec).unwrap();
    assert_eq!(builder.into_arg(), "//:a //:b");

    let mut visitor = CommandLineArtifactVisitor::new();
    query.visit_artifacts(&mut visitor);
    assert_eq!(visitor.inputs.len(), 1);
    assert_eq!(visitor.inputs[0].name, "q.out");
}

#[test]
fn display_renders_the_whole_value_quoted() {
    let value = mixed_value();
    assert_eq!(value.display_text(), "\"lit@$(location ...)clang\"");
}

#[test]
fn resolved_macro_display_uses_fixed_location_token() {
    let m = ResolvedMacro::Location(DefaultInfo { default_outputs: vec![artifact("a.txt")] });
    assert_eq!(m.display_text(), "$(location ...)");
    let a = ResolvedMacro::ArgLike(arg_like(&["x", "y"], &[]));
    assert_eq!(a.display_text(), "x y");
}
