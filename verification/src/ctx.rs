//! The capabilities the engine consumes, passed explicitly into every
//! entry point.
//!
//! [`AttrResolutionContext`] is a snapshot of the configured dependency
//! data available when an attribute is resolved: providers by label, the
//! build-wide unkeyed placeholder mapping, and the results the query
//! collaborator produced. Resolution is deterministic in this snapshot.
//!
//! [`CommandLineContext`] is what command-line assembly consumes: artifact
//! paths and the auxiliary file paths reserved for write-to-file
//! indirection, handed out in order.

use vstd::prelude::*;

use crate::data::{
    assoc_view, strings_view, Artifact, CommandLineArg, CommandLineArgV, ProviderSet, ProviderSetV,
    ResolvedQueryMacro, ResolvedQueryMacroV,
};
use crate::errors::{MacroError, MacroErrorV};
use crate::lookup::{assoc_find, assoc_get};

verus! {

/// Snapshot of the dependency data macro resolution reads.
#[derive(Debug, PartialEq)]
pub struct AttrResolutionContext {
    /// Providers of each configured dependency, by label.
    pub deps: Vec<(String, ProviderSet)>,
    /// The build-wide unkeyed placeholder mapping.
    pub unkeyed_placeholders: Vec<(String, CommandLineArg)>,
    /// Resolved query results, by query text.
    pub query_results: Vec<(String, ResolvedQueryMacro)>,
}

/// View of an [`AttrResolutionContext`].
pub struct AttrResolutionContextV {
    pub deps: Seq<(Seq<char>, ProviderSetV)>,
    pub unkeyed_placeholders: Seq<(Seq<char>, CommandLineArgV)>,
    pub query_results: Seq<(Seq<char>, ResolvedQueryMacroV)>,
}

impl View for AttrResolutionContext {
    type V = AttrResolutionContextV;

    open spec fn view(&self) -> AttrResolutionContextV {
        AttrResolutionContextV {
            deps: assoc_view(self.deps@),
            unkeyed_placeholders: assoc_view(self.unkeyed_placeholders@),
            query_results: assoc_view(self.query_results@),
        }
    }
}

impl AttrResolutionContext {
    /// Providers of the dependency configured at `label`, if the snapshot
    /// holds it.
    pub fn get_dep(&self, label: &String) -> (res: Option<&ProviderSet>)
        ensures
            match res {
                Some(p) => assoc_find(self@.deps, label@) == Some(p@),
                None => assoc_find(self@.deps, label@) is None,
            },
    {
        assoc_get(&self.deps, label)
    }

    /// The build-wide value of the unkeyed placeholder `name`, if any.
    pub fn resolve_unkeyed_placeholder(&self, name: &String) -> (res: Option<&CommandLineArg>)
        ensures
            match res {
                Some(a) => assoc_find(self@.unkeyed_placeholders, name@) == Some(a@),
                None => assoc_find(self@.unkeyed_placeholders, name@) is None,
            },
    {
        assoc_get(&self.unkeyed_placeholders, name)
    }

    /// The result the query collaborator produced for `query`, if any.
    pub fn resolve_query(&self, query: &String) -> (res: Option<&ResolvedQueryMacro>)
        ensures
            match res {
                Some(q) => assoc_find(self@.query_results, query@) == Some(q@),
                None => assoc_find(self@.query_results, query@) is None,
            },
    {
        assoc_get(&self.query_results, query)
    }
}

/// What command-line assembly consumes: artifact paths, and the auxiliary
/// file paths reserved for write-to-file indirection.
#[derive(Debug, PartialEq)]
pub struct CommandLineContext {
    /// The path of each artifact, by artifact name.
    pub artifact_paths: Vec<(String, String)>,
    /// Auxiliary file paths, consumed in order by write-to-file parts.
    pub macro_files: Vec<String>,
    /// Index of the next unconsumed auxiliary file path.
    pub next_macro_file: usize,
}

/// View of a [`CommandLineContext`].
pub struct CommandLineContextV {
    pub artifact_paths: Seq<(Seq<char>, Seq<char>)>,
    pub macro_files: Seq<Seq<char>>,
    pub next_macro_file: nat,
}

impl View for CommandLineContext {
    type V = CommandLineContextV;

    open spec fn view(&self) -> CommandLineContextV {
        CommandLineContextV {
            artifact_paths: assoc_view(self.artifact_paths@),
            macro_files: strings_view(self.macro_files@),
            next_macro_file: self.next_macro_file as nat,
        }
    }
}

impl CommandLineContext {
    /// The path of `artifact`, if this context can resolve it.
    pub fn resolve_artifact(&self, artifact: &Artifact) -> (res: Option<&String>)
        ensures
            match res {
                Some(p) => assoc_find(self@.artifact_paths, artifact@) == Some(p@),
                None => assoc_find(self@.artifact_paths, artifact@) is None,
            },
    {
        assoc_get(&self.artifact_paths, &artifact.name)
    }

    /// Hands out the next reserved auxiliary file path. Each call consumes
    /// one path; the paths themselves are never altered.
    pub fn next_macro_file_path(&mut self) -> (res: Result<String, MacroError>)
        ensures
            final(self)@.artifact_paths == old(self)@.artifact_paths,
            final(self)@.macro_files == old(self)@.macro_files,
            if old(self)@.next_macro_file < old(self)@.macro_files.len() {
                &&& res matches Ok(p)
                &&& p@ == old(self)@.macro_files[old(self)@.next_macro_file as int]
                &&& final(self)@.next_macro_file == old(self)@.next_macro_file + 1
            } else {
                &&& res matches Err(e)
                &&& e@ == MacroErrorV::MacroFilePathUnavailable
                &&& final(self)@.next_macro_file == old(self)@.next_macro_file
            },
    {
        if self.next_macro_file < self.macro_files.len() {
            let path = self.macro_files[self.next_macro_file].clone();
            self.next_macro_file = self.next_macro_file + 1;
            Ok(path)
        } else {
            Err(MacroError::MacroFilePathUnavailable)
        }
    }
}

} // verus!
