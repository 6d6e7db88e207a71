//! Command-line assembly: rendering a resolved attribute into exactly one
//! argument pushed into an argument-collecting sink.
//!
//! Literal parts pass through verbatim. A macro part not flagged for
//! write-to-file renders its own text (a location joins its default
//! outputs' paths with single spaces; an argument-like value joins its
//! tokens likewise). A flagged part renders as `@` followed by the next
//! execution-context-provided auxiliary file path; its content is
//! produced later by the consumer of the write-to-file report.

use vstd::prelude::*;
use vstd::string::StringExecFns;

use crate::ctx::CommandLineContext;
use crate::data::{artifacts_view, strings_view, Artifact, ResolvedQueryMacro};
use crate::errors::{MacroError, MacroErrorV};
use crate::lookup::assoc_find;
use crate::resolve::{
    ResolvedMacro, ResolvedMacroV, ResolvedStringWithMacros, ResolvedStringWithMacrosPart,
    ResolvedStringWithMacrosPartV,
};
use crate::text::{append_joined, join_space, space_prefixed};

verus! {

/// Collects the text of one argument as it is built up.
#[derive(Debug, PartialEq)]
pub struct ArgBuilder {
    pub arg: String,
}

impl View for ArgBuilder {
    type V = Seq<char>;

    open spec fn view(&self) -> Seq<char> {
        self.arg@
    }
}

impl ArgBuilder {
    /// An empty builder.
    pub fn new() -> (res: Self)
        ensures
            res@ == Seq::<char>::empty(),
    {
        ArgBuilder { arg: String::new() }
    }

    /// Appends text to the argument being built.
    pub fn push_str(&mut self, text: &str)
        ensures
            final(self)@ == old(self)@ + text@,
    {
        self.arg.append(text);
    }

    /// Appends the next reserved auxiliary file path.
    pub fn push_path(&mut self, ctx: &mut CommandLineContext) -> (res: Result<(), MacroError>)
        ensures
            final(ctx)@.artifact_paths == old(ctx)@.artifact_paths,
            final(ctx)@.macro_files == old(ctx)@.macro_files,
            if old(ctx)@.next_macro_file < old(ctx)@.macro_files.len() {
                &&& res is Ok
                &&& final(self)@ == old(self)@ + old(ctx)@.macro_files[old(
                    ctx,
                )@.next_macro_file as int]
                &&& final(ctx)@.next_macro_file == old(ctx)@.next_macro_file + 1
            } else {
                &&& res matches Err(e) && e@ == MacroErrorV::MacroFilePathUnavailable
                &&& final(self)@ == old(self)@
                &&& final(ctx)@.next_macro_file == old(ctx)@.next_macro_file
            },
    {
        match ctx.next_macro_file_path() {
            Ok(next_path) => {
                self.push_str(next_path.as_str());
                Ok(())
            },
            Err(e) => Err(e),
        }
    }

    /// The assembled argument.
    pub fn into_arg(self) -> (res: String)
        ensures
            res@ == self@,
    {
        self.arg
    }
}

/// Collects assembled arguments.
#[derive(Debug, PartialEq)]
pub struct CommandLineBuilder {
    pub args: Vec<String>,
}

impl View for CommandLineBuilder {
    type V = Seq<Seq<char>>;

    open spec fn view(&self) -> Seq<Seq<char>> {
        strings_view(self.args@)
    }
}

impl CommandLineBuilder {
    /// An empty sink.
    pub fn new() -> (res: Self)
        ensures
            res@ == Seq::<Seq<char>>::empty(),
    {
        let builder = CommandLineBuilder { args: Vec::new() };
        proof {
            assert(builder@ =~= Seq::<Seq<char>>::empty());
        }
        builder
    }

    /// Pushes one finished argument.
    pub fn push_arg(&mut self, arg: String)
        ensures
            final(self)@ == old(self)@.push(arg@),
    {
        self.args.push(arg);
        proof {
            assert(final(self)@ =~= old(self)@.push(arg@));
        }
    }
}

/// The path of every output in order, or the first name the execution
/// context cannot resolve.
pub open spec fn resolve_paths(
    outputs: Seq<Seq<char>>,
    artifact_paths: Seq<(Seq<char>, Seq<char>)>,
) -> Result<Seq<Seq<char>>, MacroErrorV>
    decreases outputs.len(),
{
    if outputs.len() == 0 {
        Ok(Seq::empty())
    } else {
        match assoc_find(artifact_paths, outputs[0]) {
            None => Err(MacroErrorV::ArtifactPathUnresolved(outputs[0])),
            Some(path) => match resolve_paths(outputs.drop_first(), artifact_paths) {
                Ok(rest) => Ok(seq![path] + rest),
                Err(e) => Err(e),
            },
        }
    }
}

/// The text the incremental output appender leaves in the builder,
/// whether or not every output resolves: each resolved path in order,
/// preceded by one space for every output but the first. When an output
/// fails to resolve, the separator already written for it stays, and
/// nothing after it is written. `first` says whether the next output is
/// the first, i.e. gets no separator.
pub open spec fn appended_outputs_text(
    outputs: Seq<Seq<char>>,
    artifact_paths: Seq<(Seq<char>, Seq<char>)>,
    first: bool,
) -> Seq<char>
    decreases outputs.len(),
{
    if outputs.len() == 0 {
        Seq::empty()
    } else {
        let separator: Seq<char> = if first {
            Seq::empty()
        } else {
            " "@
        };
        match assoc_find(artifact_paths, outputs[0]) {
            None => separator,
            Some(path) => separator + path + appended_outputs_text(
                outputs.drop_first(),
                artifact_paths,
                false,
            ),
        }
    }
}

/// When every output resolves, the appended text is exactly the joined
/// paths (space-prefixed throughout when a token precedes them).
proof fn lemma_appended_outputs_text_resolved(
    outputs: Seq<Seq<char>>,
    artifact_paths: Seq<(Seq<char>, Seq<char>)>,
    first: bool,
)
    requires
        resolve_paths(outputs, artifact_paths) is Ok,
    ensures
        appended_outputs_text(outputs, artifact_paths, first) == if first {
            join_space(resolve_paths(outputs, artifact_paths)->Ok_0)
        } else {
            space_prefixed(resolve_paths(outputs, artifact_paths)->Ok_0)
        },
    decreases outputs.len(),
{
    if outputs.len() == 0 {
        assert(resolve_paths(outputs, artifact_paths)->Ok_0 =~= Seq::<Seq<char>>::empty());
    } else {
        let rest = outputs.drop_first();
        lemma_appended_outputs_text_resolved(rest, artifact_paths, false);
        let path = assoc_find(artifact_paths, outputs[0])->Some_0;
        let rest_paths = resolve_paths(rest, artifact_paths)->Ok_0;
        let paths = resolve_paths(outputs, artifact_paths)->Ok_0;
        assert(paths =~= seq![path] + rest_paths);
        assert(paths[0] == path);
        assert(paths.drop_first() =~= rest_paths);
        if first {
            assert(appended_outputs_text(outputs, artifact_paths, first) =~= join_space(paths));
        } else {
            assert(appended_outputs_text(outputs, artifact_paths, first) =~= space_prefixed(
                paths,
            ));
        }
    }
}

/// The text one resolved macro renders: a location joins its default
/// outputs' resolved paths with single spaces; an argument-like value and
/// a query join their own tokens likewise.
pub open spec fn render_macro_spec(
    m: ResolvedMacroV,
    artifact_paths: Seq<(Seq<char>, Seq<char>)>,
) -> Result<Seq<char>, MacroErrorV> {
    match m {
        ResolvedMacroV::Location(info) => match resolve_paths(
            info.default_outputs,
            artifact_paths,
        ) {
            Ok(paths) => Ok(join_space(paths)),
            Err(e) => Err(e),
        },
        ResolvedMacroV::ArgLike(arg) => Ok(join_space(arg.tokens)),
        ResolvedMacroV::Query(query) => Ok(join_space(query.arg.tokens)),
    }
}

/// Appends the path of one artifact to the argument being built.
pub fn add_output_to_arg(
    builder: &mut ArgBuilder,
    ctx: &mut CommandLineContext,
    artifact: &Artifact,
) -> (res: Result<(), MacroError>)
    ensures
        final(ctx)@ == old(ctx)@,
        match assoc_find(old(ctx)@.artifact_paths, artifact@) {
            Some(path) => res is Ok && final(builder)@ == old(builder)@ + path,
            None => {
                &&& res matches Err(e) && e@ == MacroErrorV::ArtifactPathUnresolved(artifact@)
                &&& final(builder)@ == old(builder)@
            },
        },
{
    match ctx.resolve_artifact(artifact) {
        Some(path) => {
            let path = path.clone();
            builder.push_str(path.as_str());
            Ok(())
        },
        None => Err(MacroError::ArtifactPathUnresolved(artifact.name.clone())),
    }
}

/// Appends the paths of the outputs in order, a single space before each
/// one but the first. The builder accumulates: when an output cannot be
/// resolved, the paths already appended — and the separator written for
/// the failing output — remain, and the failure propagates.
pub fn add_outputs_to_arg(
    builder: &mut ArgBuilder,
    ctx: &mut CommandLineContext,
    outputs_list: &Vec<Artifact>,
) -> (res: Result<(), MacroError>)
    ensures
        final(ctx)@ == old(ctx)@,
        final(builder)@ == old(builder)@ + appended_outputs_text(
            artifacts_view(outputs_list@),
            old(ctx)@.artifact_paths,
            true,
        ),
        match resolve_paths(artifacts_view(outputs_list@), old(ctx)@.artifact_paths) {
            Ok(paths) => res is Ok && final(builder)@ == old(builder)@ + join_space(paths),
            Err(e) => res matches Err(actual) && actual@ == e,
        },
{
    let ghost outputs_v = artifacts_view(outputs_list@);
    let ghost paths_table = ctx@.artifact_paths;
    let ghost mut appended: Seq<char> = Seq::empty();
    let mut i: usize = 0;
    proof {
        assert(outputs_v.skip(0) =~= outputs_v);
        assert(old(builder)@ + appended =~= old(builder)@);
        assert(appended + appended_outputs_text(outputs_v, paths_table, true)
            =~= appended_outputs_text(outputs_v, paths_table, true));
        match resolve_paths(outputs_v, paths_table) {
            Ok(rest) => {
                assert(Seq::<Seq<char>>::empty() + rest =~= rest);
                lemma_appended_outputs_text_resolved(outputs_v, paths_table, true);
                assert(appended + appended_outputs_text(outputs_v, paths_table, true)
                    =~= join_space(rest));
            },
            Err(e) => {},
        }
    }
    while i < outputs_list.len()
        invariant
            i <= outputs_list.len(),
            outputs_v == artifacts_view(outputs_list@),
            paths_table == ctx@.artifact_paths,
            paths_table == old(ctx)@.artifact_paths,
            ctx@ == old(ctx)@,
            builder@ == old(builder)@ + appended,
            appended_outputs_text(outputs_v, paths_table, true) == appended
                + appended_outputs_text(outputs_v.skip(i as int), paths_table, i == 0),
            ({
                match resolve_paths(outputs_v.skip(i as int), paths_table) {
                    Ok(rest) => resolve_paths(outputs_v, paths_table) is Ok && appended
                        + appended_outputs_text(outputs_v.skip(i as int), paths_table, i == 0)
                        == join_space(resolve_paths(outputs_v, paths_table)->Ok_0),
                    Err(e) => resolve_paths(outputs_v, paths_table) == Err::<
                        Seq<Seq<char>>,
                        MacroErrorV,
                    >(e),
                }
            }),
        decreases outputs_list.len() - i,
    {
        let ghost appended_before = appended;
        proof {
            assert(outputs_v.skip(i as int).drop_first() =~= outputs_v.skip(i as int + 1));
            assert(outputs_v.skip(i as int)[0] == outputs_v[i as int]);
            assert(outputs_v[i as int] == outputs_list@[i as int]@);
        }
        if i != 0 {
            builder.push_str(" ");
            proof {
                appended = appended + " "@;
            }
        }
        match ctx.resolve_artifact(&outputs_list[i]) {
            Some(path) => {
                let path = path.clone();
                builder.push_str(path.as_str());
                proof {
                    let path_v = assoc_find(paths_table, outputs_v[i as int])->Some_0;
                    appended = appended + path_v;
                    let separator: Seq<char> = if i == 0 {
                        Seq::empty()
                    } else {
                        " "@
                    };
                    assert(appended =~= appended_before + separator + path_v);
                    assert(builder@ =~= old(builder)@ + appended);
                    assert(appended_before + (separator + path_v + appended_outputs_text(
                        outputs_v.skip(i as int + 1),
                        paths_table,
                        false,
                    )) =~= appended + appended_outputs_text(
                        outputs_v.skip(i as int + 1),
                        paths_table,
                        false,
                    ));
                    match resolve_paths(outputs_v.skip(i as int + 1), paths_table) {
                        Ok(rest) => {
                            lemma_appended_outputs_text_resolved(
                                outputs_v.skip(i as int),
                                paths_table,
                                i == 0,
                            );
                            lemma_appended_outputs_text_resolved(
                                outputs_v.skip(i as int + 1),
                                paths_table,
                                false,
                            );
                        },
                        Err(e) => {},
                    }
                }
            },
            None => {
                proof {
                    let separator: Seq<char> = if i == 0 {
                        Seq::empty()
                    } else {
                        " "@
                    };
                    assert(appended_outputs_text(outputs_v.skip(i as int), paths_table, i == 0)
                        == separator);
                    assert(appended =~= appended_before + separator);
                    assert(builder@ =~= old(builder)@ + appended_outputs_text(
                        outputs_v,
                        paths_table,
                        true,
                    ));
                }
                return Err(MacroError::ArtifactPathUnresolved(outputs_list[i].name.clone()));
            },
        }
        i += 1;
    }
    proof {
        assert(outputs_v.skip(outputs_list@.len() as int) =~= Seq::<Seq<char>>::empty());
        assert(appended_outputs_text(
            Seq::<Seq<char>>::empty(),
            paths_table,
            outputs_list@.len() == 0,
        ) == Seq::<char>::empty());
        assert(appended + Seq::<char>::empty() =~= appended);
        match resolve_paths(outputs_v, paths_table) {
            Ok(paths) => {
                assert(resolve_paths(Seq::<Seq<char>>::empty(), paths_table) is Ok);
            },
            Err(e) => {},
        }
    }
    Ok(())
}

/// The text a macro leaves in the builder whether or not rendering
/// succeeds: only a location can fail, and it accumulates resolved paths
/// up to the failure.
pub open spec fn render_partial_text(
    m: ResolvedMacroV,
    artifact_paths: Seq<(Seq<char>, Seq<char>)>,
) -> Seq<char> {
    match m {
        ResolvedMacroV::Location(info) => appended_outputs_text(
            info.default_outputs,
            artifact_paths,
            true,
        ),
        ResolvedMacroV::ArgLike(arg) => join_space(arg.tokens),
        ResolvedMacroV::Query(query) => join_space(query.arg.tokens),
    }
}

impl ResolvedMacro {
    /// Appends this macro's rendered text to the argument being built.
    /// The builder accumulates: a location that fails midway leaves its
    /// already-resolved paths behind, as the failure propagates.
    pub fn add_to_arg(&self, builder: &mut ArgBuilder, ctx: &mut CommandLineContext) -> (res:
        Result<(), MacroError>)
        ensures
            final(ctx)@ == old(ctx)@,
            match render_macro_spec(self@, old(ctx)@.artifact_paths) {
                Ok(text) => res is Ok && final(builder)@ == old(builder)@ + text,
                Err(e) => {
                    &&& res matches Err(actual) && actual@ == e
                    &&& final(builder)@ == old(builder)@ + render_partial_text(
                        self@,
                        old(ctx)@.artifact_paths,
                    )
                },
            },
    {
        match self {
            ResolvedMacro::Location(info) => add_outputs_to_arg(
                builder,
                ctx,
                &info.default_outputs,
            ),
            ResolvedMacro::ArgLike(command_line_like) => {
                let mut joined = String::new();
                append_joined(&mut joined, &command_line_like.tokens);
                proof {
                    assert(joined@ =~= join_space(strings_view(command_line_like.tokens@)));
                }
                builder.push_str(joined.as_str());
                Ok(())
            },
            ResolvedMacro::Query(value) => value.add_to_arg(builder, ctx),
        }
    }
}

/// The single argument a resolved value assembles, and the auxiliary-file
/// cursor after it: literals verbatim; a flagged macro as `@` followed by
/// the next reserved path; an unflagged macro as its rendered text.
pub open spec fn assemble_parts_spec(
    parts: Seq<ResolvedStringWithMacrosPartV>,
    artifact_paths: Seq<(Seq<char>, Seq<char>)>,
    macro_files: Seq<Seq<char>>,
    cursor: nat,
) -> Result<(Seq<char>, nat), MacroErrorV>
    decreases parts.len(),
{
    if parts.len() == 0 {
        Ok((Seq::empty(), cursor))
    } else {
        match parts[0] {
            ResolvedStringWithMacrosPartV::Literal(s) => {
                match assemble_parts_spec(parts.drop_first(), artifact_paths, macro_files, cursor) {
                    Ok(r) => Ok((s + r.0, r.1)),
                    Err(e) => Err(e),
                }
            },
            ResolvedStringWithMacrosPartV::Macro(write_to_file, m) => {
                if write_to_file {
                    if cursor < macro_files.len() {
                        match assemble_parts_spec(
                            parts.drop_first(),
                            artifact_paths,
                            macro_files,
                            cursor + 1,
                        ) {
                            Ok(r) => Ok(("@"@ + macro_files[cursor as int] + r.0, r.1)),
                            Err(e) => Err(e),
                        }
                    } else {
                        Err(MacroErrorV::MacroFilePathUnavailable)
                    }
                } else {
                    match render_macro_spec(m, artifact_paths) {
                        Err(e) => Err(e),
                        Ok(text) => match assemble_parts_spec(
                            parts.drop_first(),
                            artifact_paths,
                            macro_files,
                            cursor,
                        ) {
                            Ok(r) => Ok((text + r.0, r.1)),
                            Err(e) => Err(e),
                        },
                    }
                }
            },
        }
    }
}

impl ResolvedStringWithMacros {
    /// Builds exactly one argument from this value, in part order, and
    /// pushes it into the sink. A failure pushes nothing; reserved
    /// auxiliary file paths consumed before the failure stay consumed.
    pub fn add_to_command_line(
        &self,
        cmdline_builder: &mut CommandLineBuilder,
        ctx: &mut CommandLineContext,
    ) -> (res: Result<(), MacroError>)
        ensures
            final(ctx)@.artifact_paths == old(ctx)@.artifact_paths,
            final(ctx)@.macro_files == old(ctx)@.macro_files,
            match assemble_parts_spec(
                self@,
                old(ctx)@.artifact_paths,
                old(ctx)@.macro_files,
                old(ctx)@.next_macro_file,
            ) {
                Ok(r) => {
                    &&& res is Ok
                    &&& final(cmdline_builder)@ == old(cmdline_builder)@.push(r.0)
                    &&& final(ctx)@.next_macro_file == r.1
                },
                Err(e) => {
                    &&& res matches Err(actual) && actual@ == e
                    &&& final(cmdline_builder)@ == old(cmdline_builder)@
                    &&& old(ctx)@.next_macro_file <= final(ctx)@.next_macro_file
                },
            },
    {
        let parts = self.parts();
        let ghost parts_v = self@;
        let ghost paths_table = ctx@.artifact_paths;
        let ghost files = ctx@.macro_files;
        let ghost start_cursor = ctx@.next_macro_file;
        let mut builder = ArgBuilder::new();
        let mut i: usize = 0;
        proof {
            assert(parts_v.skip(0) =~= parts_v);
            match assemble_parts_spec(parts_v, paths_table, files, start_cursor) {
                Ok(r) => {
                    assert(Seq::<char>::empty() + r.0 =~= r.0);
                },
                Err(e) => {},
            }
        }
        while i < parts.len()
            invariant
                i <= parts.len(),
                parts_v == parts@.map_values(|p: ResolvedStringWithMacrosPart| p@),
                parts_v == self@,
                paths_table == ctx@.artifact_paths,
                files == ctx@.macro_files,
                start_cursor <= ctx@.next_macro_file,
                paths_table == old(ctx)@.artifact_paths,
                files == old(ctx)@.macro_files,
                start_cursor == old(ctx)@.next_macro_file,
                cmdline_builder@ == old(cmdline_builder)@,
                ({
                    match assemble_parts_spec(
                        parts_v.skip(i as int),
                        paths_table,
                        files,
                        ctx@.next_macro_file,
                    ) {
                        Ok(r) => assemble_parts_spec(parts_v, paths_table, files, start_cursor)
                            == Ok::<(Seq<char>, nat), MacroErrorV>((builder@ + r.0, r.1)),
                        Err(e) => assemble_parts_spec(parts_v, paths_table, files, start_cursor)
                            == Err::<(Seq<char>, nat), MacroErrorV>(e),
                    }
                }),
            decreases parts.len() - i,
        {
            let ghost built_text = builder@;
            let ghost cursor_now = ctx@.next_macro_file;
            proof {
                assert(parts_v.skip(i as int).drop_first() =~= parts_v.skip(i as int + 1));
                assert(parts_v.skip(i as int)[0] == parts_v[i as int]);
                assert(parts_v[i as int] == parts@[i as int]@);
            }
            let part = &parts[i];
            match part {
                ResolvedStringWithMacrosPart::Literal(s) => {
                    builder.push_str(s.as_str());
                    proof {
                        match assemble_parts_spec(
                            parts_v.skip(i as int + 1),
                            paths_table,
                            files,
                            cursor_now,
                        ) {
                            Ok(r) => {
                                assert((built_text + s@) + r.0 =~= built_text + (s@ + r.0));
                            },
                            Err(e) => {},
                        }
                    }
                },
                ResolvedStringWithMacrosPart::Macro(write_to_file, val) => {
                    if *write_to_file {
                        builder.push_str("@");
                        match builder.push_path(ctx) {
                            Ok(()) => {
                                proof {
                                    let file = files[cursor_now as int];
                                    match assemble_parts_spec(
                                        parts_v.skip(i as int + 1),
                                        paths_table,
                                        files,
                                        cursor_now + 1,
                                    ) {
                                        Ok(r) => {
                                            assert(((built_text + "@"@) + file) + r.0
                                                =~= built_text + ("@"@ + file + r.0));
                                        },
                                        Err(e) => {},
                                    }
                                }
                            },
                            Err(e) => {
                                return Err(e);
                            },
                        }
                    } else {
                        match val.add_to_arg(&mut builder, ctx) {
                            Ok(()) => {
                                proof {
                                    match render_macro_spec(val@, paths_table) {
                                        Ok(text) => {
                                            match assemble_parts_spec(
                                                parts_v.skip(i as int + 1),
                                                paths_table,
                                                files,
                                                cursor_now,
                                            ) {
                                                Ok(r) => {
                                                    assert((built_text + text) + r.0 =~= built_text
                                                        + (text + r.0));
                                                },
                                                Err(e) => {},
                                            }
                                        },
                                        Err(e) => {},
                                    }
                                }
                            },
                            Err(e) => {
                                return Err(e);
                            },
                        }
                    }
                },
            }
            i += 1;
        }
        proof {
            assert(parts_v.skip(parts@.len() as int) =~= Seq::<
                ResolvedStringWithMacrosPartV,
            >::empty());
            assert(builder@ + Seq::<char>::empty() =~= builder@);
        }
        cmdline_builder.push_arg(builder.into_arg());
        Ok(())
    }
}

impl ResolvedQueryMacro {
    /// Appends this query result's rendered text to the argument being
    /// built.
    pub fn add_to_arg(&self, builder: &mut ArgBuilder, ctx: &mut CommandLineContext) -> (res:
        Result<(), MacroError>)
        ensures
            final(ctx)@ == old(ctx)@,
            res is Ok,
            final(builder)@ == old(builder)@ + join_space(self@.arg.tokens),
    {
        let mut joined = String::new();
        append_joined(&mut joined, &self.arg.tokens);
        proof {
            assert(joined@ =~= join_space(strings_view(self.arg.tokens@)));
        }
        builder.push_str(joined.as_str());
        Ok(())
    }
}

} // verus!
