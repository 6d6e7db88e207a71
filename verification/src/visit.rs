//! The two independent read-only traversals over a resolved value: one
//! reports every artifact the value causes to be read, the other reports
//! every macro occurrence flagged for write-to-file indirection.
//!
//! Neither traversal resolves anything; both read the same immutable
//! resolved value and may be repeated freely.

use vstd::prelude::*;

use crate::data::{artifacts_view, Artifact, ResolvedQueryMacro};
use crate::resolve::{
    ResolvedMacro, ResolvedMacroV, ResolvedStringWithMacros, ResolvedStringWithMacrosPart,
    ResolvedStringWithMacrosPartV,
};

verus! {

/// Collects the artifacts a resolved value reads, in traversal order.
#[derive(Debug, PartialEq)]
pub struct CommandLineArtifactVisitor {
    pub inputs: Vec<Artifact>,
}

impl View for CommandLineArtifactVisitor {
    type V = Seq<Seq<char>>;

    open spec fn view(&self) -> Seq<Seq<char>> {
        artifacts_view(self.inputs@)
    }
}

impl CommandLineArtifactVisitor {
    /// An empty visitor.
    pub fn new() -> (res: Self)
        ensures
            res@ == Seq::<Seq<char>>::empty(),
    {
        let visitor = CommandLineArtifactVisitor { inputs: Vec::new() };
        proof {
            assert(visitor@ =~= Seq::<Seq<char>>::empty());
        }
        visitor
    }

    /// Reports one input artifact.
    pub fn visit_input(&mut self, input: Artifact)
        ensures
            final(self)@ == old(self)@.push(input@),
    {
        self.inputs.push(input);
        proof {
            assert(final(self)@ =~= old(self)@.push(input@));
        }
    }
}

/// Collects the macro occurrences flagged for write-to-file indirection,
/// in part order.
#[derive(Debug, PartialEq)]
pub struct WriteToFileMacroVisitor {
    pub macros: Vec<ResolvedMacro>,
}

impl View for WriteToFileMacroVisitor {
    type V = Seq<ResolvedMacroV>;

    open spec fn view(&self) -> Seq<ResolvedMacroV> {
        self.macros@.map_values(|m: ResolvedMacro| m@)
    }
}

impl WriteToFileMacroVisitor {
    /// An empty visitor.
    pub fn new() -> (res: Self)
        ensures
            res@ == Seq::<ResolvedMacroV>::empty(),
    {
        let visitor = WriteToFileMacroVisitor { macros: Vec::new() };
        proof {
            assert(visitor@ =~= Seq::<ResolvedMacroV>::empty());
        }
        visitor
    }

    /// Reports one flagged macro occurrence.
    pub fn visit_write_to_file_macro(&mut self, m: &ResolvedMacro)
        ensures
            final(self)@ == old(self)@.push(m@),
    {
        self.macros.push(m.clone());
        proof {
            assert(final(self)@ =~= old(self)@.push(m@));
        }
    }
}

/// The artifacts one resolved macro reads: a location's default outputs,
/// or an argument-like value's own inputs.
pub open spec fn macro_artifacts(m: ResolvedMacroV) -> Seq<Seq<char>> {
    match m {
        ResolvedMacroV::Location(info) => info.default_outputs,
        ResolvedMacroV::ArgLike(arg) => arg.inputs,
        ResolvedMacroV::Query(query) => query.arg.inputs,
    }
}

/// The artifacts one part reads: literals read none.
pub open spec fn part_artifacts(p: ResolvedStringWithMacrosPartV) -> Seq<Seq<char>> {
    match p {
        ResolvedStringWithMacrosPartV::Literal(s) => Seq::empty(),
        ResolvedStringWithMacrosPartV::Macro(write_to_file, m) => macro_artifacts(m),
    }
}

/// All artifacts a resolved value reads, in part order. Every macro part
/// contributes, whatever its write-to-file flag.
pub open spec fn parts_artifacts(parts: Seq<ResolvedStringWithMacrosPartV>) -> Seq<Seq<char>>
    decreases parts.len(),
{
    if parts.len() == 0 {
        Seq::empty()
    } else {
        part_artifacts(parts[0]) + parts_artifacts(parts.drop_first())
    }
}

/// The macros one part contributes to the write-to-file report: exactly
/// the flagged macro occurrences.
pub open spec fn part_wtf_macros(p: ResolvedStringWithMacrosPartV) -> Seq<ResolvedMacroV> {
    match p {
        ResolvedStringWithMacrosPartV::Macro(true, m) => seq![m],
        _ => Seq::empty(),
    }
}

/// All flagged macro occurrences of a resolved value, in part order.
pub open spec fn wtf_macros(parts: Seq<ResolvedStringWithMacrosPartV>) -> Seq<ResolvedMacroV>
    decreases parts.len(),
{
    if parts.len() == 0 {
        Seq::empty()
    } else {
        part_wtf_macros(parts[0]) + wtf_macros(parts.drop_first())
    }
}

pub proof fn lemma_parts_artifacts_push(
    parts: Seq<ResolvedStringWithMacrosPartV>,
    p: ResolvedStringWithMacrosPartV,
)
    ensures
        parts_artifacts(parts.push(p)) == parts_artifacts(parts) + part_artifacts(p),
    decreases parts.len(),
{
    if parts.len() == 0 {
        assert(parts.push(p).drop_first() =~= Seq::<ResolvedStringWithMacrosPartV>::empty());
        assert(parts.push(p)[0] == p);
        assert(parts_artifacts(Seq::<ResolvedStringWithMacrosPartV>::empty()) == Seq::<
            Seq<char>,
        >::empty());
        assert(parts_artifacts(parts.push(p)) =~= parts_artifacts(parts) + part_artifacts(p));
    } else {
        assert(parts.push(p).drop_first() =~= parts.drop_first().push(p));
        lemma_parts_artifacts_push(parts.drop_first(), p);
        assert(parts_artifacts(parts.push(p)) =~= parts_artifacts(parts) + part_artifacts(p));
    }
}

pub proof fn lemma_wtf_macros_push(
    parts: Seq<ResolvedStringWithMacrosPartV>,
    p: ResolvedStringWithMacrosPartV,
)
    ensures
        wtf_macros(parts.push(p)) == wtf_macros(parts) + part_wtf_macros(p),
    decreases parts.len(),
{
    if parts.len() == 0 {
        assert(parts.push(p).drop_first() =~= Seq::<ResolvedStringWithMacrosPartV>::empty());
        assert(parts.push(p)[0] == p);
        assert(wtf_macros(Seq::<ResolvedStringWithMacrosPartV>::empty()) == Seq::<
            ResolvedMacroV,
        >::empty());
        assert(wtf_macros(parts.push(p)) =~= wtf_macros(parts) + part_wtf_macros(p));
    } else {
        assert(parts.push(p).drop_first() =~= parts.drop_first().push(p));
        lemma_wtf_macros_push(parts.drop_first(), p);
        assert(wtf_macros(parts.push(p)) =~= wtf_macros(parts) + part_wtf_macros(p));
    }
}

/// The artifact report splits at any index: what the first `i` parts
/// contribute, then what the rest contribute.
pub proof fn lemma_parts_artifacts_split(parts: Seq<ResolvedStringWithMacrosPartV>, i: int)
    requires
        0 <= i <= parts.len(),
    ensures
        parts_artifacts(parts) == parts_artifacts(parts.take(i)) + parts_artifacts(parts.skip(i)),
    decreases i,
{
    if i == 0 {
        assert(parts.take(0) =~= Seq::<ResolvedStringWithMacrosPartV>::empty());
        assert(parts.skip(0) =~= parts);
        assert(parts_artifacts(Seq::<ResolvedStringWithMacrosPartV>::empty()) == Seq::<
            Seq<char>,
        >::empty());
        assert(parts_artifacts(parts.take(0)) + parts_artifacts(parts.skip(0)) =~= parts_artifacts(
            parts,
        ));
    } else {
        lemma_parts_artifacts_split(parts, i - 1);
        assert(parts.skip(i - 1)[0] == parts[i - 1]);
        assert(parts.skip(i - 1).drop_first() =~= parts.skip(i));
        assert(parts.take(i) =~= parts.take(i - 1).push(parts[i - 1]));
        lemma_parts_artifacts_push(parts.take(i - 1), parts[i - 1]);
        assert(parts_artifacts(parts.take(i)) + parts_artifacts(parts.skip(i)) =~= parts_artifacts(
            parts,
        ));
    }
}

/// The write-to-file report splits at any index likewise.
pub proof fn lemma_wtf_macros_split(parts: Seq<ResolvedStringWithMacrosPartV>, i: int)
    requires
        0 <= i <= parts.len(),
    ensures
        wtf_macros(parts) == wtf_macros(parts.take(i)) + wtf_macros(parts.skip(i)),
    decreases i,
{
    if i == 0 {
        assert(parts.take(0) =~= Seq::<ResolvedStringWithMacrosPartV>::empty());
        assert(parts.skip(0) =~= parts);
        assert(wtf_macros(Seq::<ResolvedStringWithMacrosPartV>::empty()) == Seq::<
            ResolvedMacroV,
        >::empty());
        assert(wtf_macros(parts.take(0)) + wtf_macros(parts.skip(0)) =~= wtf_macros(parts));
    } else {
        lemma_wtf_macros_split(parts, i - 1);
        assert(parts.skip(i - 1)[0] == parts[i - 1]);
        assert(parts.skip(i - 1).drop_first() =~= parts.skip(i));
        assert(parts.take(i) =~= parts.take(i - 1).push(parts[i - 1]));
        lemma_wtf_macros_push(parts.take(i - 1), parts[i - 1]);
        assert(wtf_macros(parts.take(i)) + wtf_macros(parts.skip(i)) =~= wtf_macros(parts));
    }
}

/// Reports every artifact of the list, in order.
fn visit_artifact_list(visitor: &mut CommandLineArtifactVisitor, artifacts: &Vec<Artifact>)
    ensures
        final(visitor)@ == old(visitor)@ + artifacts_view(artifacts@),
{
    let ghost artifacts_v = artifacts_view(artifacts@);
    let mut i: usize = 0;
    proof {
        assert(old(visitor)@ + artifacts_v.take(0) =~= old(visitor)@);
    }
    while i < artifacts.len()
        invariant
            i <= artifacts.len(),
            artifacts_v == artifacts_view(artifacts@),
            visitor@ == old(visitor)@ + artifacts_v.take(i as int),
        decreases artifacts.len() - i,
    {
        visitor.visit_input(artifacts[i].clone());
        proof {
            assert(artifacts_v.take(i as int + 1) =~= artifacts_v.take(i as int).push(
                artifacts_v[i as int],
            ));
            assert(artifacts_v[i as int] == artifacts@[i as int]@);
            assert((old(visitor)@ + artifacts_v.take(i as int)).push(artifacts_v[i as int])
                =~= old(visitor)@ + artifacts_v.take(i as int + 1));
        }
        i += 1;
    }
    proof {
        assert(artifacts_v.take(artifacts@.len() as int) =~= artifacts_v);
    }
}

impl ResolvedQueryMacro {
    /// Reports the artifacts this query result depends on.
    pub fn visit_artifacts(&self, visitor: &mut CommandLineArtifactVisitor)
        ensures
            final(visitor)@ == old(visitor)@ + self@.arg.inputs,
    {
        visit_artifact_list(visitor, &self.arg.inputs);
    }
}

impl ResolvedMacro {
    /// Reports every artifact this resolved macro causes to be read.
    pub fn visit_artifacts(&self, visitor: &mut CommandLineArtifactVisitor)
        ensures
            final(visitor)@ == old(visitor)@ + macro_artifacts(self@),
    {
        match self {
            ResolvedMacro::Location(info) => {
                visit_artifact_list(visitor, &info.default_outputs);
            },
            ResolvedMacro::ArgLike(command_line_like) => {
                visit_artifact_list(visitor, &command_line_like.inputs);
            },
            ResolvedMacro::Query(value) => {
                value.visit_artifacts(visitor);
            },
        }
    }
}

impl ResolvedStringWithMacros {
    /// Reports every artifact this resolved value causes to be read, in
    /// part order; literal parts contribute nothing.
    pub fn visit_artifacts(&self, visitor: &mut CommandLineArtifactVisitor)
        ensures
            final(visitor)@ == old(visitor)@ + parts_artifacts(self@),
    {
        let parts = self.parts();
        let ghost parts_v = self@;
        let mut i: usize = 0;
        proof {
            assert(parts_v.take(0) =~= Seq::<ResolvedStringWithMacrosPartV>::empty());
            assert(old(visitor)@ + parts_artifacts(parts_v.take(0)) =~= old(visitor)@);
        }
        while i < parts.len()
            invariant
                i <= parts.len(),
                parts_v == parts@.map_values(|p: ResolvedStringWithMacrosPart| p@),
                parts_v == self@,
                visitor@ == old(visitor)@ + parts_artifacts(parts_v.take(i as int)),
            decreases parts.len() - i,
        {
            proof {
                assert(parts_v[i as int] == parts@[i as int]@);
            }
            match &parts[i] {
                ResolvedStringWithMacrosPart::Literal(_) => {},
                ResolvedStringWithMacrosPart::Macro(_, val) => {
                    val.visit_artifacts(visitor);
                },
            }
            proof {
                assert(parts_v.take(i as int + 1) =~= parts_v.take(i as int).push(
                    parts_v[i as int],
                ));
                lemma_parts_artifacts_push(parts_v.take(i as int), parts_v[i as int]);
                assert(visitor@ =~= old(visitor)@ + parts_artifacts(parts_v.take(i as int + 1)));
            }
            i += 1;
        }
        proof {
            assert(parts_v.take(parts@.len() as int) =~= parts_v);
        }
    }

    /// Reports every macro occurrence flagged for write-to-file
    /// indirection, in part order; literal parts and unflagged macro
    /// parts are skipped.
    pub fn visit_write_to_file_macros(&self, visitor: &mut WriteToFileMacroVisitor)
        ensures
            final(visitor)@ == old(visitor)@ + wtf_macros(self@),
    {
        let parts = self.parts();
        let ghost parts_v = self@;
        let mut i: usize = 0;
        proof {
            assert(parts_v.take(0) =~= Seq::<ResolvedStringWithMacrosPartV>::empty());
            assert(old(visitor)@ + wtf_macros(parts_v.take(0)) =~= old(visitor)@);
        }
        while i < parts.len()
            invariant
                i <= parts.len(),
                parts_v == parts@.map_values(|p: ResolvedStringWithMacrosPart| p@),
                parts_v == self@,
                visitor@ == old(visitor)@ + wtf_macros(parts_v.take(i as int)),
            decreases parts.len() - i,
        {
            proof {
                assert(parts_v[i as int] == parts@[i as int]@);
            }
            match &parts[i] {
                ResolvedStringWithMacrosPart::Literal(_) => {},
                ResolvedStringWithMacrosPart::Macro(write_to_file, val) => {
                    if *write_to_file {
                        visitor.visit_write_to_file_macro(val);
                    }
                },
            }
            proof {
                assert(parts_v.take(i as int + 1) =~= parts_v.take(i as int).push(
                    parts_v[i as int],
                ));
                lemma_wtf_macros_push(parts_v.take(i as int), parts_v[i as int]);
                assert(visitor@ =~= old(visitor)@ + wtf_macros(parts_v.take(i as int + 1)));
            }
            i += 1;
        }
        proof {
            assert(parts_v.take(parts@.len() as int) =~= parts_v);
        }
    }
}

} // verus!
