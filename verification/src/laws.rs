//! The behavioural guarantees of the engine that relate several of its
//! functions, stated and proved over the same spec functions the
//! functions' own contracts use.

use vstd::prelude::*;

use crate::ctx::AttrResolutionContextV;
use crate::data::{
    CommandLineArgV, ConfiguredMacroV, ConfiguredStringWithMacrosV, ProviderSetV,
    TemplatePlaceholderInfoV, PlaceholderEntryV,
};
use crate::errors::MacroErrorV;
use crate::lookup::assoc_find;
use crate::resolve::{
    default_placeholder_key, downcast_str_spec, resolve_macro_spec, resolve_string_spec,
    ResolvedMacroV, ResolvedStringWithMacrosPartV,
};
use crate::text::join_space;
use crate::visit::{
    lemma_parts_artifacts_split, lemma_wtf_macros_split, macro_artifacts, part_artifacts,
    part_wtf_macros, parts_artifacts, wtf_macros,
};

verus! {

/// For every attribute parsed as a single literal string, resolving it
/// and then applying the fast-path literal accessor returns exactly the
/// original string, whatever the snapshot holds.
pub proof fn lemma_literal_round_trip(text: Seq<char>, ctx: AttrResolutionContextV)
    ensures
        resolve_string_spec(ConfiguredStringWithMacrosV::StringPart(text), ctx) matches Ok(parts)
            && downcast_str_spec(parts) == Some(text),
{
    let parts = seq![ResolvedStringWithMacrosPartV::Literal(text)];
    assert(parts.len() == 1);
    assert(parts[0] is Literal);
}

/// The fast-path literal accessor returns nothing for every resolved
/// value with more than one part, or with a single part that is not a
/// literal.
pub proof fn lemma_downcast_none(parts: Seq<ResolvedStringWithMacrosPartV>)
    requires
        parts.len() != 1 || !(parts[0] is Literal),
    ensures
        downcast_str_spec(parts) is None,
{
}

/// Every unrecognized macro node fails to resolve, with the error
/// carrying the node's recorded kind string, for every kind value, every
/// argument list and every snapshot.
pub proof fn lemma_unrecognized_always_fails(
    macro_type: Seq<char>,
    args: Seq<Seq<char>>,
    ctx: AttrResolutionContextV,
)
    ensures
        resolve_macro_spec(ConfiguredMacroV::Unrecognized { macro_type, args }, ctx) == Err::<
            ResolvedMacroV,
            MacroErrorV,
        >(MacroErrorV::UnrecognizedMacroUnimplemented(macro_type)),
{
}

/// A keyed placeholder without a sub-argument whose table entry is the
/// mapping shape resolves successfully exactly when the mapping contains
/// the key `DEFAULT`; otherwise it fails with the arg-missing error for
/// that key.
pub proof fn lemma_keyed_default_key(
    name: Seq<char>,
    label: Seq<char>,
    ctx: AttrResolutionContextV,
    providers: ProviderSetV,
    info: TemplatePlaceholderInfoV,
    mapping: Seq<(Seq<char>, CommandLineArgV)>,
)
    requires
        assoc_find(ctx.deps, label) == Some(providers),
        providers.template_placeholder_info == Some(info),
        assoc_find(info.keyed_variables, name) == Some(PlaceholderEntryV::Mapping(mapping)),
    ensures
        match assoc_find(mapping, default_placeholder_key()) {
            Some(value) => resolve_macro_spec(
                ConfiguredMacroV::UserKeyedPlaceholder { name, label, arg: None },
                ctx,
            ) == Ok::<ResolvedMacroV, MacroErrorV>(ResolvedMacroV::ArgLike(value)),
            None => resolve_macro_spec(
                ConfiguredMacroV::UserKeyedPlaceholder { name, label, arg: None },
                ctx,
            ) == Err::<ResolvedMacroV, MacroErrorV>(
                MacroErrorV::KeyedPlaceholderArgMissing(name, label, default_placeholder_key()),
            ),
        },
{
}

/// Two tokens join with exactly one space between them and none around
/// them.
pub proof fn lemma_join_space_pair(left: Seq<char>, right: Seq<char>)
    ensures
        join_space(seq![left, right]) == left + " "@ + right,
{
    let tokens = seq![left, right];
    assert(tokens.drop_first() =~= seq![right]);
    assert(seq![right].drop_first() =~= Seq::<Seq<char>>::empty());
    assert(crate::text::space_prefixed(Seq::<Seq<char>>::empty()) == Seq::<char>::empty());
    assert(crate::text::space_prefixed(seq![right]) =~= " "@ + right);
    assert(join_space(tokens) =~= left + " "@ + right);
}

/// Whether a part is a macro occurrence flagged for write-to-file
/// indirection.
pub open spec fn is_write_to_file_part(p: ResolvedStringWithMacrosPartV) -> bool {
    p matches ResolvedStringWithMacrosPartV::Macro(true, m)
}

/// The write-to-file report is empty exactly when no part is flagged —
/// so the artifact traversal and the write-to-file traversal visit
/// disjoint macro occurrences exactly when every macro part has its flag
/// off.
pub proof fn lemma_write_to_file_report_empty_iff_unflagged(
    parts: Seq<ResolvedStringWithMacrosPartV>,
)
    ensures
        (wtf_macros(parts) == Seq::<ResolvedMacroV>::empty()) <==> (forall|i: int|
            0 <= i < parts.len() ==> !is_write_to_file_part(#[trigger] parts[i])),
    decreases parts.len(),
{
    if parts.len() == 0 {
        assert(wtf_macros(parts) == Seq::<ResolvedMacroV>::empty());
    } else {
        let rest = parts.drop_first();
        lemma_write_to_file_report_empty_iff_unflagged(rest);
        assert(wtf_macros(parts) == part_wtf_macros(parts[0]) + wtf_macros(rest));
        if wtf_macros(parts) == Seq::<ResolvedMacroV>::empty() {
            assert(part_wtf_macros(parts[0]).len() == 0);
            assert(wtf_macros(rest).len() == 0);
            assert(wtf_macros(rest) =~= Seq::<ResolvedMacroV>::empty());
            assert forall|i: int| 0 <= i < parts.len() implies !is_write_to_file_part(
                #[trigger] parts[i],
            ) by {
                if i == 0 {
                    assert(!is_write_to_file_part(parts[0]));
                } else {
                    assert(rest[i - 1] == parts[i]);
                }
            }
        }
        if forall|i: int| 0 <= i < parts.len() ==> !is_write_to_file_part(#[trigger] parts[i]) {
            assert(!is_write_to_file_part(parts[0]));
            assert forall|i: int| 0 <= i < rest.len() implies !is_write_to_file_part(
                #[trigger] rest[i],
            ) by {
                assert(rest[i] == parts[i + 1]);
            }
            assert(wtf_macros(rest) == Seq::<ResolvedMacroV>::empty());
            assert(part_wtf_macros(parts[0]).len() == 0);
            assert(wtf_macros(parts) =~= Seq::<ResolvedMacroV>::empty());
        }
    }
}

/// Every flagged macro occurrence is reported by the write-to-file
/// traversal — at the position the earlier parts determine — and its
/// artifacts are still reported by the artifact traversal, contiguously
/// at the offset the earlier parts' artifacts determine. Artifact
/// reporting does not depend on the flag: every macro part's artifacts
/// appear the same way.
pub proof fn lemma_flagged_part_reported_by_both(
    parts: Seq<ResolvedStringWithMacrosPartV>,
    i: int,
)
    requires
        0 <= i < parts.len(),
    ensures
        parts[i] matches ResolvedStringWithMacrosPartV::Macro(write_to_file, m) ==> {
            let offset = parts_artifacts(parts.take(i)).len() as int;
            parts_artifacts(parts).subrange(offset, offset + macro_artifacts(m).len() as int)
                == macro_artifacts(m)
        },
        parts[i] matches ResolvedStringWithMacrosPartV::Macro(true, m) ==> {
            let position = wtf_macros(parts.take(i)).len() as int;
            position < wtf_macros(parts).len() && wtf_macros(parts)[position] == m
        },
{
    match parts[i] {
        ResolvedStringWithMacrosPartV::Literal(_) => {},
        ResolvedStringWithMacrosPartV::Macro(write_to_file, m) => {
            lemma_parts_artifacts_split(parts, i);
            assert(parts.skip(i)[0] == parts[i]);
            assert(parts_artifacts(parts.skip(i)) == part_artifacts(parts[i]) + parts_artifacts(
                parts.skip(i).drop_first(),
            ));
            let offset = parts_artifacts(parts.take(i)).len() as int;
            assert(parts_artifacts(parts).subrange(
                offset,
                offset + macro_artifacts(m).len() as int,
            ) =~= macro_artifacts(m));
            if write_to_file {
                lemma_wtf_macros_split(parts, i);
                assert(wtf_macros(parts.skip(i)) == part_wtf_macros(parts[i]) + wtf_macros(
                    parts.skip(i).drop_first(),
                ));
                assert(part_wtf_macros(parts[i]) == seq![m]);
                let position = wtf_macros(parts.take(i)).len() as int;
                assert(wtf_macros(parts)[position] == m);
            }
        },
    }
}

} // verus!
