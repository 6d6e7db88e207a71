//! Macro resolution: turning one configured macro occurrence, or a whole
//! parsed attribute string, into an immutable resolved value.
//!
//! Resolution is a pure function of the macro syntax tree and the
//! resolution-context snapshot. It fails atomically: the first macro
//! failure aborts the whole attribute, annotated with the textual form of
//! the failing part, and no partially-resolved value is observable.

use vstd::prelude::*;
use vstd::string::StringExecFns;

use crate::ctx::{AttrResolutionContext, AttrResolutionContextV};
use crate::data::{
    configured_part_display, strings_view, result_view, CommandLineArg, CommandLineArgV, ConfiguredMacro,
    ConfiguredMacroV, ConfiguredStringWithMacros, ConfiguredStringWithMacrosV,
    ConfiguredStringWithMacrosPart, ConfiguredStringWithMacrosPartV, DefaultInfo, DefaultInfoV,
    PlaceholderEntry, PlaceholderEntryV, ResolvedQueryMacro, ResolvedQueryMacroV,
};
use crate::errors::{MacroError, MacroErrorV};
use crate::lookup::{assoc_find, assoc_get};
use crate::text::{append_joined, join_space};

verus! {

/// One resolved macro occurrence. Allocated once during attribute
/// resolution and never mutated afterwards; equality is structural.
#[derive(Debug, PartialEq)]
pub enum ResolvedMacro {
    /// The default-output set of a dependency's default-info provider.
    Location(DefaultInfo),
    /// An argument-like value: a resolved executable, placeholder lookup,
    /// or keyed-mapping lookup.
    ArgLike(CommandLineArg),
    /// A resolved query placeholder.
    Query(ResolvedQueryMacro),
}

/// View of a [`ResolvedMacro`].
pub enum ResolvedMacroV {
    Location(DefaultInfoV),
    ArgLike(CommandLineArgV),
    Query(ResolvedQueryMacroV),
}

impl View for ResolvedMacro {
    type V = ResolvedMacroV;

    open spec fn view(&self) -> ResolvedMacroV {
        match self {
            ResolvedMacro::Location(info) => ResolvedMacroV::Location(info@),
            ResolvedMacro::ArgLike(arg) => ResolvedMacroV::ArgLike(arg@),
            ResolvedMacro::Query(query) => ResolvedMacroV::Query(query@),
        }
    }
}

impl Clone for ResolvedMacro {
    fn clone(&self) -> (res: Self)
        ensures
            res@ == self@,
    {
        match self {
            ResolvedMacro::Location(info) => ResolvedMacro::Location(info.clone()),
            ResolvedMacro::ArgLike(arg) => ResolvedMacro::ArgLike(arg.clone()),
            ResolvedMacro::Query(query) => ResolvedMacro::Query(query.clone()),
        }
    }
}

impl ResolvedMacro {
    /// Structural equality. Unequal values may still render identical
    /// text.
    pub fn equals(&self, other: &ResolvedMacro) -> (res: bool)
        ensures
            res == (self@ == other@),
    {
        match (self, other) {
            (ResolvedMacro::Location(a), ResolvedMacro::Location(b)) => {
                let res = a.equals(b);
                proof {
                    if a@ == b@ {
                        assert(self@ == other@);
                    }
                }
                res
            },
            (ResolvedMacro::ArgLike(a), ResolvedMacro::ArgLike(b)) => {
                let res = a.equals(b);
                proof {
                    if a@ == b@ {
                        assert(self@ == other@);
                    }
                }
                res
            },
            (ResolvedMacro::Query(a), ResolvedMacro::Query(b)) => {
                let res = a.equals(b);
                proof {
                    if a@ == b@ {
                        assert(self@ == other@);
                    }
                }
                res
            },
            _ => false,
        }
    }
}

/// The approximate textual rendering of a resolved macro. A location
/// renders as a fixed placeholder token, since its concrete paths are
/// execution-context-dependent; argument-like values and queries render
/// their tokens joined with single spaces.
pub open spec fn resolved_macro_display(m: ResolvedMacroV) -> Seq<char> {
    match m {
        ResolvedMacroV::Location(info) => "$(location ...)"@,
        ResolvedMacroV::ArgLike(arg) => join_space(arg.tokens),
        ResolvedMacroV::Query(query) => join_space(query.arg.tokens),
    }
}

impl ResolvedMacro {
    /// Renders this resolved macro's approximate textual form.
    pub fn display_text(&self) -> (res: String)
        ensures
            res@ == resolved_macro_display(self@),
    {
        match self {
            ResolvedMacro::Location(_) => {
                // The location itself is not kept here, which makes it
                // harder to show.
                String::from_str("$(location ...)")
            },
            ResolvedMacro::ArgLike(arg) => {
                let mut joined = String::new();
                append_joined(&mut joined, &arg.tokens);
                proof {
                    assert(joined@ =~= join_space(strings_view(arg.tokens@)));
                }
                joined
            },
            ResolvedMacro::Query(query) => {
                let mut joined = String::new();
                append_joined(&mut joined, &query.arg.tokens);
                proof {
                    assert(joined@ =~= join_space(strings_view(query.arg.tokens@)));
                }
                joined
            },
        }
    }
}

/// The sub-argument key a keyed placeholder uses when none is given.
/// Fixed by convention; changing it would be observable by existing rules.
pub open spec fn default_placeholder_key() -> Seq<char> {
    "DEFAULT"@
}

/// The requested sub-argument, or the fixed default key.
pub open spec fn arg_or_default(arg: Option<Seq<char>>) -> Seq<char> {
    match arg {
        Some(a) => a,
        None => default_placeholder_key(),
    }
}

/// What resolving a keyed placeholder returns: the name's entry in the
/// target's template-placeholder table, which must fit the shape the
/// requested sub-argument implies.
pub open spec fn resolve_keyed_spec(
    name: Seq<char>,
    label: Seq<char>,
    arg: Option<Seq<char>>,
    ctx: AttrResolutionContextV,
) -> Result<ResolvedMacroV, MacroErrorV> {
    match assoc_find(ctx.deps, label) {
        None => Err(MacroErrorV::DepLookupFailed(label)),
        Some(providers) => match providers.template_placeholder_info {
            None => Err(MacroErrorV::KeyedPlaceholderInfoMissing(label)),
            Some(info) => match assoc_find(info.keyed_variables, name) {
                None => Err(MacroErrorV::KeyedPlaceholderMappingMissing(name, label)),
                Some(entry) => match entry {
                    PlaceholderEntryV::Single(value) => match arg {
                        None => Ok(ResolvedMacroV::ArgLike(value)),
                        Some(a) => Err(
                            MacroErrorV::KeyedPlaceholderMappingNotADict(name, label, a),
                        ),
                    },
                    PlaceholderEntryV::Mapping(mapping) => match assoc_find(
                        mapping,
                        arg_or_default(arg),
                    ) {
                        Some(value) => Ok(ResolvedMacroV::ArgLike(value)),
                        None => Err(
                            MacroErrorV::KeyedPlaceholderArgMissing(
                                name,
                                label,
                                arg_or_default(arg),
                            ),
                        ),
                    },
                },
            },
        },
    }
}

/// What resolving one macro occurrence returns, for every node and every
/// snapshot.
pub open spec fn resolve_macro_spec(m: ConfiguredMacroV, ctx: AttrResolutionContextV) -> Result<
    ResolvedMacroV,
    MacroErrorV,
> {
    match m {
        ConfiguredMacroV::Location { label } => match assoc_find(ctx.deps, label) {
            Some(providers) => Ok(ResolvedMacroV::Location(providers.default_info)),
            None => Err(MacroErrorV::DepLookupFailed(label)),
        },
        ConfiguredMacroV::Exe { label, exec_dep } => match assoc_find(ctx.deps, label) {
            Some(providers) => match providers.run_info {
                Some(run_info) => Ok(ResolvedMacroV::ArgLike(run_info)),
                None => Err(MacroErrorV::ExpectedRunInfo(label)),
            },
            None => Err(MacroErrorV::DepLookupFailed(label)),
        },
        ConfiguredMacroV::UserUnkeyedPlaceholder { name } => match assoc_find(
            ctx.unkeyed_placeholders,
            name,
        ) {
            Some(value) => Ok(ResolvedMacroV::ArgLike(value)),
            None => Err(MacroErrorV::UnkeyedPlaceholderUnresolved(name)),
        },
        ConfiguredMacroV::UserKeyedPlaceholder { name, label, arg } => resolve_keyed_spec(
            name,
            label,
            arg,
            ctx,
        ),
        ConfiguredMacroV::Query { query } => match assoc_find(ctx.query_results, query) {
            Some(result) => Ok(ResolvedMacroV::Query(result)),
            None => Err(MacroErrorV::QueryResolutionFailed(query)),
        },
        ConfiguredMacroV::Unrecognized { macro_type, args } => Err(
            MacroErrorV::UnrecognizedMacroUnimplemented(macro_type),
        ),
    }
}

impl ResolvedMacro {
    /// Resolves one macro occurrence against the snapshot: looks
    /// dependencies' providers up by label, requires the provider shape
    /// the macro kind demands, and wraps the result. Reads only through
    /// `ctx`; deterministic in `(configured_macro, ctx)`.
    pub fn resolved(configured_macro: &ConfiguredMacro, ctx: &AttrResolutionContext) -> (res:
        Result<ResolvedMacro, MacroError>)
        ensures
            result_view(res) == resolve_macro_spec(configured_macro@, ctx@),
    {
        match configured_macro {
            ConfiguredMacro::Location(label) => match ctx.get_dep(label) {
                Some(providers) => Ok(ResolvedMacro::Location(providers.default_info.clone())),
                None => Err(MacroError::DepLookupFailed(label.clone())),
            },
            ConfiguredMacro::Exe { label, .. } => {
                // The exec_dep distinction was already applied when the
                // label was configured.
                match ctx.get_dep(label) {
                    Some(providers) => match &providers.run_info {
                        Some(run_info) => Ok(ResolvedMacro::ArgLike(run_info.clone())),
                        None => Err(MacroError::ExpectedRunInfo(label.clone())),
                    },
                    None => Err(MacroError::DepLookupFailed(label.clone())),
                }
            },
            ConfiguredMacro::UserUnkeyedPlaceholder(name) => {
                match ctx.resolve_unkeyed_placeholder(name) {
                    Some(value) => Ok(ResolvedMacro::ArgLike(value.clone())),
                    None => Err(MacroError::UnkeyedPlaceholderUnresolved(name.clone())),
                }
            },
            ConfiguredMacro::UserKeyedPlaceholder(name, label, arg) => {
                match ctx.get_dep(label) {
                    None => Err(MacroError::DepLookupFailed(label.clone())),
                    Some(providers) => match &providers.template_placeholder_info {
                        None => Err(MacroError::KeyedPlaceholderInfoMissing(label.clone())),
                        Some(placeholder_info) => {
                            match assoc_get(&placeholder_info.keyed_variables, name) {
                                None => Err(
                                    MacroError::KeyedPlaceholderMappingMissing(
                                        name.clone(),
                                        label.clone(),
                                    ),
                                ),
                                Some(entry) => Self::resolve_keyed_entry(name, label, arg, entry),
                            }
                        },
                    },
                }
            },
            ConfiguredMacro::Query(query) => match ctx.resolve_query(query) {
                Some(result) => Ok(ResolvedMacro::Query(result.clone())),
                None => Err(MacroError::QueryResolutionFailed(query.clone())),
            },
            ConfiguredMacro::UnrecognizedMacro(unrecognized) => Err(
                MacroError::UnrecognizedMacroUnimplemented(unrecognized.macro_type.clone()),
            ),
        }
    }

    /// Picks the value out of a keyed-placeholder table entry: a single
    /// fixed value is used directly (and refuses a sub-argument); a
    /// mapping is indexed by the sub-argument, defaulting to `DEFAULT`.
    fn resolve_keyed_entry(
        name: &String,
        label: &String,
        arg: &Option<String>,
        entry: &PlaceholderEntry,
    ) -> (res: Result<ResolvedMacro, MacroError>)
        ensures
            ({
                let arg_v = match *arg {
                    Some(a) => Some(a@),
                    None => None,
                };
                match entry@ {
                    PlaceholderEntryV::Single(value) => match arg_v {
                        None => result_view(res) == Ok::<ResolvedMacroV, MacroErrorV>(
                            ResolvedMacroV::ArgLike(value),
                        ),
                        Some(a) => result_view(res) == Err::<ResolvedMacroV, MacroErrorV>(
                            MacroErrorV::KeyedPlaceholderMappingNotADict(name@, label@, a),
                        ),
                    },
                    PlaceholderEntryV::Mapping(mapping) => match assoc_find(
                        mapping,
                        arg_or_default(arg_v),
                    ) {
                        Some(value) => result_view(res) == Ok::<ResolvedMacroV, MacroErrorV>(
                            ResolvedMacroV::ArgLike(value),
                        ),
                        None => result_view(res) == Err::<ResolvedMacroV, MacroErrorV>(
                            MacroErrorV::KeyedPlaceholderArgMissing(
                                name@,
                                label@,
                                arg_or_default(arg_v),
                            ),
                        ),
                    },
                }
            }),
    {
        match entry {
            PlaceholderEntry::Single(value) => match arg {
                None => Ok(ResolvedMacro::ArgLike(value.clone())),
                Some(a) => Err(
                    MacroError::KeyedPlaceholderMappingNotADict(
                        name.clone(),
                        label.clone(),
                        a.clone(),
                    ),
                ),
            },
            PlaceholderEntry::Mapping(mapping) => {
                let key: String = match arg {
                    Some(a) => a.clone(),
                    None => String::from_str("DEFAULT"),
                };
                match assoc_get(mapping, &key) {
                    Some(value) => Ok(ResolvedMacro::ArgLike(value.clone())),
                    None => Err(
                        MacroError::KeyedPlaceholderArgMissing(name.clone(), label.clone(), key),
                    ),
                }
            },
        }
    }
}

/// One part of a resolved attribute string.
#[derive(Debug, PartialEq)]
pub enum ResolvedStringWithMacrosPart {
    /// A literal copied through unchanged.
    Literal(String),
    /// A resolved macro together with the occurrence's write-to-file
    /// flag.
    Macro(bool, ResolvedMacro),
}

/// View of a [`ResolvedStringWithMacrosPart`].
pub enum ResolvedStringWithMacrosPartV {
    Literal(Seq<char>),
    Macro(bool, ResolvedMacroV),
}

impl View for ResolvedStringWithMacrosPart {
    type V = ResolvedStringWithMacrosPartV;

    open spec fn view(&self) -> ResolvedStringWithMacrosPartV {
        match self {
            ResolvedStringWithMacrosPart::Literal(s) => ResolvedStringWithMacrosPartV::Literal(s@),
            ResolvedStringWithMacrosPart::Macro(write_to_file, m) => {
                ResolvedStringWithMacrosPartV::Macro(*write_to_file, m@)
            },
        }
    }
}

impl ResolvedStringWithMacrosPart {
    /// Structural equality of one part.
    pub fn equals(&self, other: &ResolvedStringWithMacrosPart) -> (res: bool)
        ensures
            res == (self@ == other@),
    {
        match (self, other) {
            (
                ResolvedStringWithMacrosPart::Literal(a),
                ResolvedStringWithMacrosPart::Literal(b),
            ) => {
                let res = *a == *b;
                proof {
                    if a@ == b@ {
                        assert(self@ == other@);
                    }
                }
                res
            },
            (
                ResolvedStringWithMacrosPart::Macro(flag_a, a),
                ResolvedStringWithMacrosPart::Macro(flag_b, b),
            ) => {
                let res = *flag_a == *flag_b && a.equals(b);
                proof {
                    if *flag_a == *flag_b && a@ == b@ {
                        assert(self@ == other@);
                    }
                }
                res
            },
            _ => false,
        }
    }
}

/// A macro-resolution failure, annotated with the source form of the
/// failing part.
#[derive(Debug, PartialEq)]
pub struct StringResolutionError {
    /// The source form of the part whose macro failed to resolve.
    pub part: String,
    /// The underlying failure, passed through unchanged.
    pub error: MacroError,
}

/// View of a [`StringResolutionError`].
pub struct StringResolutionErrorV {
    pub part: Seq<char>,
    pub error: MacroErrorV,
}

impl View for StringResolutionError {
    type V = StringResolutionErrorV;

    open spec fn view(&self) -> StringResolutionErrorV {
        StringResolutionErrorV { part: self.part@, error: self.error@ }
    }
}

/// A resolved attribute string: an ordered, immutable sequence of parts.
/// Produced once per attribute resolution; no mutation is exposed, so a
/// value may be shared freely by concurrent readers.
#[derive(Debug, PartialEq)]
pub struct ResolvedStringWithMacros {
    parts: Vec<ResolvedStringWithMacrosPart>,
}

impl View for ResolvedStringWithMacros {
    type V = Seq<ResolvedStringWithMacrosPartV>;

    closed spec fn view(&self) -> Seq<ResolvedStringWithMacrosPartV> {
        self.parts@.map_values(|p: ResolvedStringWithMacrosPart| p@)
    }
}

/// What resolving one attribute part returns: a literal copies through; a
/// macro part resolves its macro, and a failure is annotated with the
/// part's source form.
pub open spec fn resolve_part_spec(
    part: ConfiguredStringWithMacrosPartV,
    ctx: AttrResolutionContextV,
) -> Result<ResolvedStringWithMacrosPartV, StringResolutionErrorV> {
    match part {
        ConfiguredStringWithMacrosPartV::Literal(s) => {
            Ok(ResolvedStringWithMacrosPartV::Literal(s))
        },
        ConfiguredStringWithMacrosPartV::Macro(write_to_file, m) => {
            match resolve_macro_spec(m, ctx) {
                Ok(resolved) => Ok(ResolvedStringWithMacrosPartV::Macro(write_to_file, resolved)),
                Err(e) => Err(
                    StringResolutionErrorV { part: configured_part_display(part), error: e },
                ),
            }
        },
    }
}

/// What resolving a part sequence returns: every part in order, or the
/// first failure. All-or-nothing; order is preserved exactly.
pub open spec fn resolve_parts_spec(
    parts: Seq<ConfiguredStringWithMacrosPartV>,
    ctx: AttrResolutionContextV,
) -> Result<Seq<ResolvedStringWithMacrosPartV>, StringResolutionErrorV>
    decreases parts.len(),
{
    if parts.len() == 0 {
        Ok(Seq::empty())
    } else {
        match resolve_part_spec(parts[0], ctx) {
            Err(e) => Err(e),
            Ok(p) => match resolve_parts_spec(parts.drop_first(), ctx) {
                Ok(rest) => Ok(seq![p] + rest),
                Err(e) => Err(e),
            },
        }
    }
}

/// What resolving a whole parsed attribute returns. A single literal
/// string takes the fast path: a one-part sequence, no macro resolution.
pub open spec fn resolve_string_spec(
    configured: ConfiguredStringWithMacrosV,
    ctx: AttrResolutionContextV,
) -> Result<Seq<ResolvedStringWithMacrosPartV>, StringResolutionErrorV> {
    match configured {
        ConfiguredStringWithMacrosV::StringPart(text) => {
            Ok(seq![ResolvedStringWithMacrosPartV::Literal(text)])
        },
        ConfiguredStringWithMacrosV::ManyParts(parts) => resolve_parts_spec(parts, ctx),
    }
}

/// Whether the accessor of [`ResolvedStringWithMacros::downcast_str`]
/// exposes a literal: only a one-part, all-literal value is secretly just
/// one string.
pub open spec fn downcast_str_spec(parts: Seq<ResolvedStringWithMacrosPartV>) -> Option<
    Seq<char>,
> {
    if parts.len() == 1 && parts[0] is Literal {
        Some(parts[0]->Literal_0)
    } else {
        None
    }
}

impl ResolvedStringWithMacros {
    /// Wraps an already-resolved part sequence.
    pub fn new(parts: Vec<ResolvedStringWithMacrosPart>) -> (res: Self)
        ensures
            res@ == parts@.map_values(|p: ResolvedStringWithMacrosPart| p@),
    {
        ResolvedStringWithMacros { parts }
    }

    /// Resolves a whole parsed attribute against the snapshot. The first
    /// macro failure aborts the resolution, annotated with the source
    /// form of the failing part; no partial value escapes.
    pub fn resolved(configured_macros: &ConfiguredStringWithMacros, ctx: &AttrResolutionContext)
        -> (res: Result<ResolvedStringWithMacros, StringResolutionError>)
        ensures
            match res {
                Ok(value) => resolve_string_spec(configured_macros@, ctx@)
                    == Ok::<Seq<ResolvedStringWithMacrosPartV>, StringResolutionErrorV>(value@),
                Err(e) => resolve_string_spec(configured_macros@, ctx@)
                    == Err::<Seq<ResolvedStringWithMacrosPartV>, StringResolutionErrorV>(e@),
            },
    {
        match configured_macros {
            ConfiguredStringWithMacros::StringPart(s) => {
                let mut parts: Vec<ResolvedStringWithMacrosPart> = Vec::new();
                parts.push(ResolvedStringWithMacrosPart::Literal(s.clone()));
                let value = ResolvedStringWithMacros { parts };
                proof {
                    assert(value@ =~= seq![ResolvedStringWithMacrosPartV::Literal(s@)]);
                }
                Ok(value)
            },
            ConfiguredStringWithMacros::ManyParts(parts) => {
                let ghost parts_v = parts@.map_values(|p: ConfiguredStringWithMacrosPart| p@);
                let mut resolved_parts: Vec<ResolvedStringWithMacrosPart> = Vec::new();
                let mut i: usize = 0;
                proof {
                    assert(parts_v.skip(0) =~= parts_v);
                    let built = resolved_parts@.map_values(|p: ResolvedStringWithMacrosPart| p@);
                    assert(built =~= Seq::<ResolvedStringWithMacrosPartV>::empty());
                    match resolve_parts_spec(parts_v, ctx@) {
                        Ok(rest) => {
                            assert(built + rest =~= rest);
                        },
                        Err(e) => {},
                    }
                    assert(configured_macros@ is ManyParts);
                    assert(configured_macros@->ManyParts_0 =~= parts_v);
                }
                while i < parts.len()
                    invariant
                        i <= parts.len(),
                        parts_v == parts@.map_values(|p: ConfiguredStringWithMacrosPart| p@),
                        configured_macros@ == ConfiguredStringWithMacrosV::ManyParts(parts_v),
                        ({
                            let built = resolved_parts@.map_values(
                                |p: ResolvedStringWithMacrosPart| p@,
                            );
                            match resolve_parts_spec(parts_v.skip(i as int), ctx@) {
                                Ok(rest) => resolve_parts_spec(parts_v, ctx@) == Ok::<
                                    Seq<ResolvedStringWithMacrosPartV>,
                                    StringResolutionErrorV,
                                >(built + rest),
                                Err(e) => resolve_parts_spec(parts_v, ctx@) == Err::<
                                    Seq<ResolvedStringWithMacrosPartV>,
                                    StringResolutionErrorV,
                                >(e),
                            }
                        }),
                    decreases parts.len() - i,
                {
                    let ghost built = resolved_parts@.map_values(
                        |p: ResolvedStringWithMacrosPart| p@,
                    );
                    proof {
                        assert(parts_v.skip(i as int).drop_first() =~= parts_v.skip(i as int + 1));
                        assert(parts_v.skip(i as int)[0] == parts_v[i as int]);
                        assert(parts_v[i as int] == parts@[i as int]@);
                    }
                    let part = &parts[i];
                    match part {
                        ConfiguredStringWithMacrosPart::Literal(s) => {
                            resolved_parts.push(ResolvedStringWithMacrosPart::Literal(s.clone()));
                            proof {
                                let p = ResolvedStringWithMacrosPartV::Literal(s@);
                                assert(resolved_parts@.map_values(
                                    |q: ResolvedStringWithMacrosPart| q@,
                                ) =~= built.push(p));
                                match resolve_parts_spec(parts_v.skip(i as int + 1), ctx@) {
                                    Ok(rest) => {
                                        assert(built.push(p) + rest =~= built + (seq![p] + rest));
                                    },
                                    Err(e) => {},
                                }
                            }
                        },
                        ConfiguredStringWithMacrosPart::Macro(write_to_file, m) => {
                            match ResolvedMacro::resolved(m, ctx) {
                                Ok(resolved) => {
                                    resolved_parts.push(
                                        ResolvedStringWithMacrosPart::Macro(
                                            *write_to_file,
                                            resolved,
                                        ),
                                    );
                                    proof {
                                        let p = ResolvedStringWithMacrosPartV::Macro(
                                            *write_to_file,
                                            resolved@,
                                        );
                                        assert(resolved_parts@.map_values(
                                            |q: ResolvedStringWithMacrosPart| q@,
                                        ) =~= built.push(p));
                                        match resolve_parts_spec(parts_v.skip(i as int + 1), ctx@) {
                                            Ok(rest) => {
                                                assert(built.push(p) + rest =~= built + (seq![p]
                                                    + rest));
                                            },
                                            Err(e) => {},
                                        }
                                    }
                                },
                                Err(error) => {
                                    let failure = StringResolutionError {
                                        part: part.display_text(),
                                        error,
                                    };
                                    proof {
                                        assert(resolve_part_spec(parts_v[i as int], ctx@)
                                            == Err::<
                                            ResolvedStringWithMacrosPartV,
                                            StringResolutionErrorV,
                                        >(failure@));
                                        assert(resolve_parts_spec(parts_v.skip(i as int), ctx@)
                                            == Err::<
                                            Seq<ResolvedStringWithMacrosPartV>,
                                            StringResolutionErrorV,
                                        >(failure@));
                                        assert(resolve_parts_spec(parts_v, ctx@) == Err::<
                                            Seq<ResolvedStringWithMacrosPartV>,
                                            StringResolutionErrorV,
                                        >(failure@));
                                        assert(resolve_string_spec(configured_macros@, ctx@)
                                            == Err::<
                                            Seq<ResolvedStringWithMacrosPartV>,
                                            StringResolutionErrorV,
                                        >(failure@));
                                    }
                                    return Err(failure);
                                },
                            }
                        },
                    }
                    i += 1;
                }
                proof {
                    assert(parts_v.skip(parts@.len() as int) =~= Seq::<
                        ConfiguredStringWithMacrosPartV,
                    >::empty());
                    let built = resolved_parts@.map_values(|p: ResolvedStringWithMacrosPart| p@);
                    assert(built + Seq::<ResolvedStringWithMacrosPartV>::empty() =~= built);
                }
                let ghost built_final = resolved_parts@.map_values(
                    |p: ResolvedStringWithMacrosPart| p@,
                );
                let value = ResolvedStringWithMacros { parts: resolved_parts };
                proof {
                    assert(value@ =~= built_final);
                }
                Ok(value)
            },
        }
    }

    /// Read-only access to the parts, in order. The parts field itself
    /// stays private: a resolved value is immutable once produced.
    pub fn parts(&self) -> (res: &Vec<ResolvedStringWithMacrosPart>)
        ensures
            res@.map_values(|p: ResolvedStringWithMacrosPart| p@) == self@,
    {
        &self.parts
    }

    /// The literal text of this value, exactly when it is secretly just
    /// one string: one part, and that part a literal.
    pub fn downcast_str(&self) -> (res: Option<&str>)
        ensures
            match res {
                Some(s) => downcast_str_spec(self@) == Some(s@),
                None => downcast_str_spec(self@) is None,
            },
    {
        if self.parts.len() == 1 {
            match &self.parts[0] {
                ResolvedStringWithMacrosPart::Literal(s) => Some(s.as_str()),
                _ => None,
            }
        } else {
            None
        }
    }

    /// Structural equality of two resolved values: the same parts, in
    /// the same order.
    pub fn equals(&self, other: &ResolvedStringWithMacros) -> (res: bool)
        ensures
            res == (self@ == other@),
    {
        if self.parts.len() != other.parts.len() {
            proof {
                assert(self@.len() != other@.len());
            }
            return false;
        }
        let mut i: usize = 0;
        while i < self.parts.len()
            invariant
                i <= self.parts@.len(),
                self.parts@.len() == other.parts@.len(),
                forall|j: int| 0 <= j < i ==> #[trigger] self@[j] == other@[j],
                self@ == self.parts@.map_values(|p: ResolvedStringWithMacrosPart| p@),
                other@ == other.parts@.map_values(|p: ResolvedStringWithMacrosPart| p@),
            decreases self.parts@.len() - i,
        {
            if !self.parts[i].equals(&other.parts[i]) {
                proof {
                    assert(self@[i as int] != other@[i as int]);
                }
                return false;
            }
            i += 1;
        }
        proof {
            assert(self@ =~= other@);
        }
        true
    }

    /// Whether this value contains any macro at all. Callers use this to
    /// decide whether the cheap literal-only handling applies.
    pub fn contains_arg_attr(&self) -> (res: bool)
        ensures
            res == contains_macro_part(self@),
    {
        let mut i: usize = 0;
        while i < self.parts.len()
            invariant
                i <= self.parts@.len(),
                self@ == self.parts@.map_values(|p: ResolvedStringWithMacrosPart| p@),
                forall|j: int| 0 <= j < i ==> !(#[trigger] self@[j] is Macro),
            decreases self.parts@.len() - i,
        {
            match &self.parts[i] {
                ResolvedStringWithMacrosPart::Macro(_, _) => {
                    proof {
                        assert(self@[i as int] is Macro);
                    }
                    return true;
                },
                ResolvedStringWithMacrosPart::Literal(_) => {},
            }
            i += 1;
        }
        false
    }
}

/// Whether some part of a resolved value is a macro part.
pub open spec fn contains_macro_part(parts: Seq<ResolvedStringWithMacrosPartV>) -> bool {
    exists|i: int| 0 <= i < parts.len() && parts[i] is Macro
}

/// The approximate textual rendering of one resolved part: a flagged
/// macro carries its `@` marker.
pub open spec fn resolved_part_display(p: ResolvedStringWithMacrosPartV) -> Seq<char> {
    match p {
        ResolvedStringWithMacrosPartV::Literal(s) => s,
        ResolvedStringWithMacrosPartV::Macro(write_to_file, m) => {
            if write_to_file {
                "@"@ + resolved_macro_display(m)
            } else {
                resolved_macro_display(m)
            }
        },
    }
}

/// The renderings of all parts, concatenated in order.
pub open spec fn parts_display(parts: Seq<ResolvedStringWithMacrosPartV>) -> Seq<char>
    decreases parts.len(),
{
    if parts.len() == 0 {
        Seq::empty()
    } else {
        resolved_part_display(parts[0]) + parts_display(parts.drop_first())
    }
}

/// The approximate textual rendering of a whole resolved value, wrapped
/// in double quotes.
pub open spec fn resolved_value_display(parts: Seq<ResolvedStringWithMacrosPartV>) -> Seq<char> {
    "\""@ + parts_display(parts) + "\""@
}

proof fn lemma_parts_display_push(
    parts: Seq<ResolvedStringWithMacrosPartV>,
    p: ResolvedStringWithMacrosPartV,
)
    ensures
        parts_display(parts.push(p)) == parts_display(parts) + resolved_part_display(p),
    decreases parts.len(),
{
    if parts.len() == 0 {
        assert(parts.push(p).drop_first() =~= Seq::<ResolvedStringWithMacrosPartV>::empty());
        assert(parts.push(p)[0] == p);
        assert(parts_display(Seq::<ResolvedStringWithMacrosPartV>::empty())
            == Seq::<char>::empty());
        assert(parts_display(parts.push(p)) =~= parts_display(parts) + resolved_part_display(p));
    } else {
        assert(parts.push(p).drop_first() =~= parts.drop_first().push(p));
        lemma_parts_display_push(parts.drop_first(), p);
        assert(parts_display(parts.push(p)) =~= parts_display(parts) + resolved_part_display(p));
    }
}

impl ResolvedStringWithMacrosPart {
    /// Renders this part's approximate textual form.
    pub fn display_text(&self) -> (res: String)
        ensures
            res@ == resolved_part_display(self@),
    {
        match self {
            ResolvedStringWithMacrosPart::Literal(s) => s.clone(),
            ResolvedStringWithMacrosPart::Macro(write_to_file, m) => {
                let mut s = if *write_to_file {
                    String::from_str("@")
                } else {
                    String::new()
                };
                let rendered = m.display_text();
                s.append(rendered.as_str());
                proof {
                    if !*write_to_file {
                        assert(s@ =~= resolved_macro_display(m@));
                    }
                }
                s
            },
        }
    }
}

impl ResolvedStringWithMacros {
    /// Renders this value's approximate textual form, wrapped in double
    /// quotes.
    pub fn display_text(&self) -> (res: String)
        ensures
            res@ == resolved_value_display(self@),
    {
        let parts = self.parts();
        let ghost parts_v = self@;
        let mut out = String::from_str("\"");
        let mut i: usize = 0;
        proof {
            assert(parts_v.take(0) =~= Seq::<ResolvedStringWithMacrosPartV>::empty());
            assert(out@ + parts_display(parts_v.take(0)) =~= out@);
        }
        while i < parts.len()
            invariant
                i <= parts.len(),
                parts_v == parts@.map_values(|p: ResolvedStringWithMacrosPart| p@),
                parts_v == self@,
                out@ == "\""@ + parts_display(parts_v.take(i as int)),
            decreases parts.len() - i,
        {
            proof {
                assert(parts_v[i as int] == parts@[i as int]@);
            }
            let rendered = parts[i].display_text();
            out.append(rendered.as_str());
            proof {
                assert(parts_v.take(i as int + 1) =~= parts_v.take(i as int).push(
                    parts_v[i as int],
                ));
                lemma_parts_display_push(parts_v.take(i as int), parts_v[i as int]);
                assert(out@ =~= "\""@ + parts_display(parts_v.take(i as int + 1)));
            }
            i += 1;
        }
        proof {
            assert(parts_v.take(parts@.len() as int) =~= parts_v);
        }
        out.append("\"");
        out
    }
}

} // verus!
