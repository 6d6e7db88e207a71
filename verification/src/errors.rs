//! The error taxonomy of macro resolution and command-line assembly.
//!
//! Every error is terminal for the attribute being resolved; nothing is
//! retried. The first seven variants are this engine's own failures; the
//! remaining ones carry failures of the resolution or execution context
//! through unchanged.

use vstd::prelude::*;
use vstd::string::StringExecFns;

verus! {

/// Why a macro could not be resolved or rendered.
#[derive(Debug, PartialEq)]
pub enum MacroError {
    /// The macro kind has no expansion support; carries the kind string.
    UnrecognizedMacroUnimplemented(String),
    /// The `Exe` target's providers lack a run-info provider.
    ExpectedRunInfo(String),
    /// The keyed-placeholder target lacks a template-placeholder-info
    /// provider.
    KeyedPlaceholderInfoMissing(String),
    /// The provider is present but has no entry for the requested name.
    KeyedPlaceholderMappingMissing(String, String),
    /// A sub-argument was given but the entry is a single fixed value.
    KeyedPlaceholderMappingNotADict(String, String, String),
    /// The entry is a mapping but lacks the requested sub-argument key.
    KeyedPlaceholderArgMissing(String, String, String),
    /// No build-wide mapping exists for an unkeyed placeholder name.
    UnkeyedPlaceholderUnresolved(String),
    /// Pass-through: the resolution context could not look up the
    /// dependency's providers.
    DepLookupFailed(String),
    /// Pass-through: the query collaborator could not resolve the query.
    QueryResolutionFailed(String),
    /// Pass-through: the execution context could not resolve an artifact
    /// to a path.
    ArtifactPathUnresolved(String),
    /// Pass-through: the execution context could not provide an auxiliary
    /// file path.
    MacroFilePathUnavailable,
}

/// View of a [`MacroError`].
pub enum MacroErrorV {
    UnrecognizedMacroUnimplemented(Seq<char>),
    ExpectedRunInfo(Seq<char>),
    KeyedPlaceholderInfoMissing(Seq<char>),
    KeyedPlaceholderMappingMissing(Seq<char>, Seq<char>),
    KeyedPlaceholderMappingNotADict(Seq<char>, Seq<char>, Seq<char>),
    KeyedPlaceholderArgMissing(Seq<char>, Seq<char>, Seq<char>),
    UnkeyedPlaceholderUnresolved(Seq<char>),
    DepLookupFailed(Seq<char>),
    QueryResolutionFailed(Seq<char>),
    ArtifactPathUnresolved(Seq<char>),
    MacroFilePathUnavailable,
}

impl View for MacroError {
    type V = MacroErrorV;

    open spec fn view(&self) -> MacroErrorV {
        match self {
            MacroError::UnrecognizedMacroUnimplemented(kind) => {
                MacroErrorV::UnrecognizedMacroUnimplemented(kind@)
            },
            MacroError::ExpectedRunInfo(label) => MacroErrorV::ExpectedRunInfo(label@),
            MacroError::KeyedPlaceholderInfoMissing(label) => {
                MacroErrorV::KeyedPlaceholderInfoMissing(label@)
            },
            MacroError::KeyedPlaceholderMappingMissing(name, label) => {
                MacroErrorV::KeyedPlaceholderMappingMissing(name@, label@)
            },
            MacroError::KeyedPlaceholderMappingNotADict(name, label, arg) => {
                MacroErrorV::KeyedPlaceholderMappingNotADict(name@, label@, arg@)
            },
            MacroError::KeyedPlaceholderArgMissing(name, label, arg) => {
                MacroErrorV::KeyedPlaceholderArgMissing(name@, label@, arg@)
            },
            MacroError::UnkeyedPlaceholderUnresolved(name) => {
                MacroErrorV::UnkeyedPlaceholderUnresolved(name@)
            },
            MacroError::DepLookupFailed(label) => MacroErrorV::DepLookupFailed(label@),
            MacroError::QueryResolutionFailed(query) => MacroErrorV::QueryResolutionFailed(query@),
            MacroError::ArtifactPathUnresolved(name) => MacroErrorV::ArtifactPathUnresolved(name@),
            MacroError::MacroFilePathUnavailable => MacroErrorV::MacroFilePathUnavailable,
        }
    }
}

/// The diagnostic text of each error.
pub open spec fn message_of(e: MacroErrorV) -> Seq<char> {
    match e {
        MacroErrorV::UnrecognizedMacroUnimplemented(kind) => {
            "Can't expand unrecognized macros (`"@ + kind + "`)."@
        },
        MacroErrorV::ExpectedRunInfo(label) => {
            "Expected a RunInfo provider from target `"@ + label + "`."@
        },
        MacroErrorV::KeyedPlaceholderInfoMissing(label) => {
            "There was no TemplatePlaceholderInfo for "@ + label + "."@
        },
        MacroErrorV::KeyedPlaceholderMappingMissing(name, label) => {
            "There was no mapping for "@ + name + " in the TemplatePlaceholderInfo for "@ + label
                + "."@
        },
        MacroErrorV::KeyedPlaceholderMappingNotADict(name, label, arg) => {
            "The mapping for "@ + name + " in the TemplatePlaceholderInfo for "@ + label
                + " was not a dictionary (required because requested arg `"@ + arg + "`)."@
        },
        MacroErrorV::KeyedPlaceholderArgMissing(name, label, arg) => {
            "The mapping for "@ + name + " in the TemplatePlaceholderInfo for "@ + label
                + " had no mapping for arg `"@ + arg + "`."@
        },
        MacroErrorV::UnkeyedPlaceholderUnresolved(name) => {
            "There was no mapping for "@ + name + "."@
        },
        MacroErrorV::DepLookupFailed(label) => {
            "Failed to look up providers for `"@ + label + "`."@
        },
        MacroErrorV::QueryResolutionFailed(query) => {
            "Failed to resolve query `"@ + query + "`."@
        },
        MacroErrorV::ArtifactPathUnresolved(name) => {
            "Failed to resolve artifact `"@ + name + "` to a path."@
        },
        MacroErrorV::MacroFilePathUnavailable => "Failed to reserve a macro file path."@,
    }
}

impl MacroError {
    /// Renders the diagnostic text of this error.
    pub fn message(&self) -> (res: String)
        ensures
            res@ == message_of(self@),
    {
        match self {
            MacroError::UnrecognizedMacroUnimplemented(kind) => {
                let mut s = String::from_str("Can't expand unrecognized macros (`");
                s.append(kind.as_str());
                s.append("`).");
                s
            },
            MacroError::ExpectedRunInfo(label) => {
                let mut s = String::from_str("Expected a RunInfo provider from target `");
                s.append(label.as_str());
                s.append("`.");
                s
            },
            MacroError::KeyedPlaceholderInfoMissing(label) => {
                let mut s = String::from_str("There was no TemplatePlaceholderInfo for ");
                s.append(label.as_str());
                s.append(".");
                s
            },
            MacroError::KeyedPlaceholderMappingMissing(name, label) => {
                let mut s = String::from_str("There was no mapping for ");
                s.append(name.as_str());
                s.append(" in the TemplatePlaceholderInfo for ");
                s.append(label.as_str());
                s.append(".");
                s
            },
            MacroError::KeyedPlaceholderMappingNotADict(name, label, arg) => {
                let mut s = String::from_str("The mapping for ");
                s.append(name.as_str());
                s.append(" in the TemplatePlaceholderInfo for ");
                s.append(label.as_str());
                s.append(" was not a dictionary (required because requested arg `");
                s.append(arg.as_str());
                s.append("`).");
                s
            },
            MacroError::KeyedPlaceholderArgMissing(name, label, arg) => {
                let mut s = String::from_str("The mapping for ");
                s.append(name.as_str());
                s.append(" in the TemplatePlaceholderInfo for ");
                s.append(label.as_str());
                s.append(" had no mapping for arg `");
                s.append(arg.as_str());
                s.append("`.");
                s
            },
            MacroError::UnkeyedPlaceholderUnresolved(name) => {
                let mut s = String::from_str("There was no mapping for ");
                s.append(name.as_str());
                s.append(".");
                s
            },
            MacroError::DepLookupFailed(label) => {
                let mut s = String::from_str("Failed to look up providers for `");
                s.append(label.as_str());
                s.append("`.");
                s
            },
            MacroError::QueryResolutionFailed(query) => {
                let mut s = String::from_str("Failed to resolve query `");
                s.append(query.as_str());
                s.append("`.");
                s
            },
            MacroError::ArtifactPathUnresolved(name) => {
                let mut s = String::from_str("Failed to resolve artifact `");
                s.append(name.as_str());
                s.append("` to a path.");
                s
            },
            MacroError::MacroFilePathUnavailable => {
                String::from_str("Failed to reserve a macro file path.")
            },
        }
    }
}

} // verus!
