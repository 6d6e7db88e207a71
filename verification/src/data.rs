//! The data model: artifacts, argument-like values, providers, and the
//! macro syntax tree that attribute configuration hands to the resolver.
//!
//! Every executable type has a mathematical view (a `...V` type) over
//! `Seq<char>` and `Seq`, so that contracts can be stated over character
//! sequences rather than heap values.

use vstd::prelude::*;
use vstd::string::StringExecFns;

use crate::text::{append_space_prefixed, space_prefixed};

verus! {

/// Maps a `Result` over executable values to the `Result` over their views.
pub open spec fn result_view<T: View, E: View>(r: Result<T, E>) -> Result<T::V, E::V> {
    match r {
        Ok(t) => Ok(t@),
        Err(e) => Err(e@),
    }
}

/// View of a sequence of `String`s as a sequence of character sequences.
pub open spec fn strings_view(s: Seq<String>) -> Seq<Seq<char>> {
    s.map_values(|x: String| x@)
}

/// View of a sequence of artifacts as the sequence of their names.
pub open spec fn artifacts_view(s: Seq<Artifact>) -> Seq<Seq<char>> {
    s.map_values(|a: Artifact| a@)
}

/// An artifact produced or read by the build, identified here by its name.
/// The execution context maps a name to a concrete path at assembly time.
#[derive(Debug, PartialEq)]
pub struct Artifact {
    pub name: String,
}

impl View for Artifact {
    type V = Seq<char>;

    open spec fn view(&self) -> Seq<char> {
        self.name@
    }
}

impl Clone for Artifact {
    fn clone(&self) -> (res: Self)
        ensures
            res@ == self@,
    {
        Artifact { name: self.name.clone() }
    }
}

impl Artifact {
    pub fn new(name: String) -> (res: Self)
        ensures
            res@ == name@,
    {
        Artifact { name }
    }
}

fn clone_strings(v: &Vec<String>) -> (res: Vec<String>)
    ensures
        strings_view(res@) == strings_view(v@),
{
    let mut res: Vec<String> = Vec::new();
    let mut i: usize = 0;
    while i < v.len()
        invariant
            i <= v.len(),
            res@.len() == i as nat,
            forall|j: int| 0 <= j < i ==> #[trigger] res@[j]@ == v@[j]@,
        decreases v.len() - i,
    {
        res.push(v[i].clone());
        i += 1;
    }
    proof {
        assert(strings_view(res@) =~= strings_view(v@));
    }
    res
}

fn clone_artifacts(v: &Vec<Artifact>) -> (res: Vec<Artifact>)
    ensures
        artifacts_view(res@) == artifacts_view(v@),
{
    let mut res: Vec<Artifact> = Vec::new();
    let mut i: usize = 0;
    while i < v.len()
        invariant
            i <= v.len(),
            res@.len() == i as nat,
            forall|j: int| 0 <= j < i ==> #[trigger] res@[j]@ == v@[j]@,
        decreases v.len() - i,
    {
        res.push(v[i].clone());
        i += 1;
    }
    proof {
        assert(artifacts_view(res@) =~= artifacts_view(v@));
    }
    res
}

/// Whether two string lists hold the same character sequences, in order.
fn strings_equal(a: &Vec<String>, b: &Vec<String>) -> (res: bool)
    ensures
        res == (strings_view(a@) == strings_view(b@)),
{
    if a.len() != b.len() {
        proof {
            assert(strings_view(a@).len() != strings_view(b@).len());
        }
        return false;
    }
    let mut i: usize = 0;
    while i < a.len()
        invariant
            i <= a.len(),
            a@.len() == b@.len(),
            forall|j: int| 0 <= j < i ==> #[trigger] strings_view(a@)[j] == strings_view(b@)[j],
        decreases a.len() - i,
    {
        if !(a[i] == b[i]) {
            proof {
                assert(strings_view(a@)[i as int] != strings_view(b@)[i as int]);
            }
            return false;
        }
        i += 1;
    }
    proof {
        assert(strings_view(a@) =~= strings_view(b@));
    }
    true
}

/// Whether two artifact lists name the same artifacts, in order.
fn artifacts_equal(a: &Vec<Artifact>, b: &Vec<Artifact>) -> (res: bool)
    ensures
        res == (artifacts_view(a@) == artifacts_view(b@)),
{
    if a.len() != b.len() {
        proof {
            assert(artifacts_view(a@).len() != artifacts_view(b@).len());
        }
        return false;
    }
    let mut i: usize = 0;
    while i < a.len()
        invariant
            i <= a.len(),
            a@.len() == b@.len(),
            forall|j: int| 0 <= j < i ==> #[trigger] artifacts_view(a@)[j] == artifacts_view(
                b@,
            )[j],
        decreases a.len() - i,
    {
        if !(a[i].name == b[i].name) {
            proof {
                assert(artifacts_view(a@)[i as int] != artifacts_view(b@)[i as int]);
            }
            return false;
        }
        i += 1;
    }
    proof {
        assert(artifacts_view(a@) =~= artifacts_view(b@));
    }
    true
}

/// A type-erased "command-line-argument-like" value: it can emit its text
/// as a sequence of tokens (joined with single spaces when rendered) and it
/// can report the artifacts it depends on.
#[derive(Debug, PartialEq)]
pub struct CommandLineArg {
    pub tokens: Vec<String>,
    pub inputs: Vec<Artifact>,
}

/// View of a [`CommandLineArg`].
pub struct CommandLineArgV {
    pub tokens: Seq<Seq<char>>,
    pub inputs: Seq<Seq<char>>,
}

impl View for CommandLineArg {
    type V = CommandLineArgV;

    open spec fn view(&self) -> CommandLineArgV {
        CommandLineArgV { tokens: strings_view(self.tokens@), inputs: artifacts_view(self.inputs@) }
    }
}

impl Clone for CommandLineArg {
    fn clone(&self) -> (res: Self)
        ensures
            res@ == self@,
    {
        CommandLineArg { tokens: clone_strings(&self.tokens), inputs: clone_artifacts(&self.inputs) }
    }
}

impl CommandLineArg {
    /// Structural equality: same tokens and same inputs, in order.
    pub fn equals(&self, other: &CommandLineArg) -> (res: bool)
        ensures
            res == (self@ == other@),
    {
        let res = strings_equal(&self.tokens, &other.tokens) && artifacts_equal(
            &self.inputs,
            &other.inputs,
        );
        proof {
            if strings_view(self.tokens@) == strings_view(other.tokens@) && artifacts_view(
                self.inputs@,
            ) == artifacts_view(other.inputs@) {
                assert(self@ == other@);
            }
        }
        res
    }
}

/// The default-info provider of a configured dependency: its default
/// output set.
#[derive(Debug, PartialEq)]
pub struct DefaultInfo {
    pub default_outputs: Vec<Artifact>,
}

/// View of a [`DefaultInfo`]: the names of its default outputs.
pub struct DefaultInfoV {
    pub default_outputs: Seq<Seq<char>>,
}

impl View for DefaultInfo {
    type V = DefaultInfoV;

    open spec fn view(&self) -> DefaultInfoV {
        DefaultInfoV { default_outputs: artifacts_view(self.default_outputs@) }
    }
}

impl Clone for DefaultInfo {
    fn clone(&self) -> (res: Self)
        ensures
            res@ == self@,
    {
        DefaultInfo { default_outputs: clone_artifacts(&self.default_outputs) }
    }
}

impl DefaultInfo {
    /// Structural equality: the same default outputs, in order.
    pub fn equals(&self, other: &DefaultInfo) -> (res: bool)
        ensures
            res == (self@ == other@),
    {
        let res = artifacts_equal(&self.default_outputs, &other.default_outputs);
        proof {
            if artifacts_view(self.default_outputs@) == artifacts_view(other.default_outputs@) {
                assert(self@ == other@);
            }
        }
        res
    }
}

/// A resolved query placeholder. Opaque to this engine except that it is
/// itself argument-like.
#[derive(Debug, PartialEq)]
pub struct ResolvedQueryMacro {
    pub arg: CommandLineArg,
}

/// View of a [`ResolvedQueryMacro`].
pub struct ResolvedQueryMacroV {
    pub arg: CommandLineArgV,
}

impl View for ResolvedQueryMacro {
    type V = ResolvedQueryMacroV;

    open spec fn view(&self) -> ResolvedQueryMacroV {
        ResolvedQueryMacroV { arg: self.arg@ }
    }
}

impl Clone for ResolvedQueryMacro {
    fn clone(&self) -> (res: Self)
        ensures
            res@ == self@,
    {
        ResolvedQueryMacro { arg: self.arg.clone() }
    }
}

impl ResolvedQueryMacro {
    /// Structural equality of the underlying argument-like value.
    pub fn equals(&self, other: &ResolvedQueryMacro) -> (res: bool)
        ensures
            res == (self@ == other@),
    {
        let res = self.arg.equals(&other.arg);
        proof {
            if self.arg@ == other.arg@ {
                assert(self@ == other@);
            }
        }
        res
    }
}

/// One entry of a template-placeholder table: either a single fixed
/// argument-like value, or a mapping from sub-argument name to
/// argument-like value.
#[derive(Debug, PartialEq)]
pub enum PlaceholderEntry {
    Single(CommandLineArg),
    Mapping(Vec<(String, CommandLineArg)>),
}

/// View of a [`PlaceholderEntry`].
pub enum PlaceholderEntryV {
    Single(CommandLineArgV),
    Mapping(Seq<(Seq<char>, CommandLineArgV)>),
}

/// View of an association list with `String` keys as an association list
/// over character sequences.
pub open spec fn assoc_view<V: View>(entries: Seq<(String, V)>) -> Seq<(Seq<char>, V::V)> {
    entries.map_values(|e: (String, V)| (e.0@, e.1@))
}

impl View for PlaceholderEntry {
    type V = PlaceholderEntryV;

    open spec fn view(&self) -> PlaceholderEntryV {
        match self {
            PlaceholderEntry::Single(arg) => PlaceholderEntryV::Single(arg@),
            PlaceholderEntry::Mapping(m) => PlaceholderEntryV::Mapping(assoc_view(m@)),
        }
    }
}

/// The template-placeholder-info provider of a configured dependency: a
/// table of keyed template variables.
#[derive(Debug, PartialEq)]
pub struct TemplatePlaceholderInfo {
    pub keyed_variables: Vec<(String, PlaceholderEntry)>,
}

/// View of a [`TemplatePlaceholderInfo`].
pub struct TemplatePlaceholderInfoV {
    pub keyed_variables: Seq<(Seq<char>, PlaceholderEntryV)>,
}

impl View for TemplatePlaceholderInfo {
    type V = TemplatePlaceholderInfoV;

    open spec fn view(&self) -> TemplatePlaceholderInfoV {
        TemplatePlaceholderInfoV { keyed_variables: assoc_view(self.keyed_variables@) }
    }
}

/// The providers a configured dependency exposes to its consumers. Every
/// dependency carries a default-info provider; run-info and
/// template-placeholder-info are optional.
#[derive(Debug, PartialEq)]
pub struct ProviderSet {
    pub default_info: DefaultInfo,
    pub run_info: Option<CommandLineArg>,
    pub template_placeholder_info: Option<TemplatePlaceholderInfo>,
}

/// View of a [`ProviderSet`].
pub struct ProviderSetV {
    pub default_info: DefaultInfoV,
    pub run_info: Option<CommandLineArgV>,
    pub template_placeholder_info: Option<TemplatePlaceholderInfoV>,
}

impl View for ProviderSet {
    type V = ProviderSetV;

    open spec fn view(&self) -> ProviderSetV {
        ProviderSetV {
            default_info: self.default_info@,
            run_info: match self.run_info {
                Some(ri) => Some(ri@),
                None => None,
            },
            template_placeholder_info: match self.template_placeholder_info {
                Some(t) => Some(t@),
                None => None,
            },
        }
    }
}

/// A macro whose kind the configuration layer accepted syntactically but
/// this engine does not support expanding; carried only for diagnostics.
#[derive(Debug, PartialEq)]
pub struct UnrecognizedMacro {
    pub macro_type: String,
    pub args: Vec<String>,
}

/// One occurrence of a macro inside an attribute string, as produced by
/// attribute configuration.
#[derive(Debug, PartialEq)]
pub enum ConfiguredMacro {
    /// Reference to a target's default outputs.
    Location(String),
    /// Reference to a target's executable. The `exec_dep` distinction was
    /// already applied when the label was configured and has no further
    /// effect during resolution.
    Exe { label: String, exec_dep: bool },
    /// A build-wide unkeyed placeholder, by name.
    UserUnkeyedPlaceholder(String),
    /// A keyed placeholder: name, target label, and optional sub-argument.
    UserKeyedPlaceholder(String, String, Option<String>),
    /// A query placeholder, resolved by the query collaborator.
    Query(String),
    /// An unsupported macro kind.
    UnrecognizedMacro(UnrecognizedMacro),
}

/// View of a [`ConfiguredMacro`].
pub enum ConfiguredMacroV {
    Location { label: Seq<char> },
    Exe { label: Seq<char>, exec_dep: bool },
    UserUnkeyedPlaceholder { name: Seq<char> },
    UserKeyedPlaceholder { name: Seq<char>, label: Seq<char>, arg: Option<Seq<char>> },
    Query { query: Seq<char> },
    Unrecognized { macro_type: Seq<char>, args: Seq<Seq<char>> },
}

impl View for ConfiguredMacro {
    type V = ConfiguredMacroV;

    open spec fn view(&self) -> ConfiguredMacroV {
        match self {
            ConfiguredMacro::Location(label) => ConfiguredMacroV::Location { label: label@ },
            ConfiguredMacro::Exe { label, exec_dep } => ConfiguredMacroV::Exe {
                label: label@,
                exec_dep: *exec_dep,
            },
            ConfiguredMacro::UserUnkeyedPlaceholder(name) => {
                ConfiguredMacroV::UserUnkeyedPlaceholder { name: name@ }
            },
            ConfiguredMacro::UserKeyedPlaceholder(name, label, arg) => {
                ConfiguredMacroV::UserKeyedPlaceholder {
                    name: name@,
                    label: label@,
                    arg: match arg {
                        Some(a) => Some(a@),
                        None => None,
                    },
                }
            },
            ConfiguredMacro::Query(query) => ConfiguredMacroV::Query { query: query@ },
            ConfiguredMacro::UnrecognizedMacro(u) => ConfiguredMacroV::Unrecognized {
                macro_type: u.macro_type@,
                args: strings_view(u.args@),
            },
        }
    }
}

/// The source form of a macro occurrence, used to annotate resolution
/// failures with the part that caused them.
pub open spec fn configured_macro_display(m: ConfiguredMacroV) -> Seq<char> {
    match m {
        ConfiguredMacroV::Location { label } => "$(location "@ + label + ")"@,
        ConfiguredMacroV::Exe { label, exec_dep } => "$(exe "@ + label + ")"@,
        ConfiguredMacroV::UserUnkeyedPlaceholder { name } => "$("@ + name + ")"@,
        ConfiguredMacroV::UserKeyedPlaceholder { name, label, arg } => match arg {
            None => "$("@ + name + " "@ + label + ")"@,
            Some(a) => "$("@ + name + " "@ + label + " "@ + a + ")"@,
        },
        ConfiguredMacroV::Query { query } => "$(query "@ + query + ")"@,
        ConfiguredMacroV::Unrecognized { macro_type, args } => {
            "$("@ + macro_type + space_prefixed(args) + ")"@
        },
    }
}

impl ConfiguredMacro {
    /// Renders this macro occurrence back in its source form.
    pub fn display_text(&self) -> (res: String)
        ensures
            res@ == configured_macro_display(self@),
    {
        match self {
            ConfiguredMacro::Location(label) => {
                let mut s = String::from_str("$(location ");
                s.append(label.as_str());
                s.append(")");
                s
            },
            ConfiguredMacro::Exe { label, .. } => {
                let mut s = String::from_str("$(exe ");
                s.append(label.as_str());
                s.append(")");
                s
            },
            ConfiguredMacro::UserUnkeyedPlaceholder(name) => {
                let mut s = String::from_str("$(");
                s.append(name.as_str());
                s.append(")");
                s
            },
            ConfiguredMacro::UserKeyedPlaceholder(name, label, arg) => {
                let mut s = String::from_str("$(");
                s.append(name.as_str());
                s.append(" ");
                s.append(label.as_str());
                match arg {
                    Some(a) => {
                        s.append(" ");
                        s.append(a.as_str());
                    },
                    None => {},
                }
                s.append(")");
                s
            },
            ConfiguredMacro::Query(query) => {
                let mut s = String::from_str("$(query ");
                s.append(query.as_str());
                s.append(")");
                s
            },
            ConfiguredMacro::UnrecognizedMacro(unrecognized) => {
                let mut s = String::from_str("$(");
                s.append(unrecognized.macro_type.as_str());
                append_space_prefixed(&mut s, &unrecognized.args);
                s.append(")");
                s
            },
        }
    }
}

/// One part of a parsed attribute string: a literal, or one macro
/// occurrence together with its write-to-file flag. The flag belongs to
/// the occurrence, not to the macro kind.
#[derive(Debug, PartialEq)]
pub enum ConfiguredStringWithMacrosPart {
    Literal(String),
    Macro(bool, ConfiguredMacro),
}

/// View of a [`ConfiguredStringWithMacrosPart`].
pub enum ConfiguredStringWithMacrosPartV {
    Literal(Seq<char>),
    Macro(bool, ConfiguredMacroV),
}

impl View for ConfiguredStringWithMacrosPart {
    type V = ConfiguredStringWithMacrosPartV;

    open spec fn view(&self) -> ConfiguredStringWithMacrosPartV {
        match self {
            ConfiguredStringWithMacrosPart::Literal(s) => {
                ConfiguredStringWithMacrosPartV::Literal(s@)
            },
            ConfiguredStringWithMacrosPart::Macro(write_to_file, m) => {
                ConfiguredStringWithMacrosPartV::Macro(*write_to_file, m@)
            },
        }
    }
}

/// The source form of one attribute part.
pub open spec fn configured_part_display(p: ConfiguredStringWithMacrosPartV) -> Seq<char> {
    match p {
        ConfiguredStringWithMacrosPartV::Literal(s) => s,
        ConfiguredStringWithMacrosPartV::Macro(write_to_file, m) => {
            if write_to_file {
                "@"@ + configured_macro_display(m)
            } else {
                configured_macro_display(m)
            }
        },
    }
}

impl ConfiguredStringWithMacrosPart {
    /// Renders this part back in its source form.
    pub fn display_text(&self) -> (res: String)
        ensures
            res@ == configured_part_display(self@),
    {
        match self {
            ConfiguredStringWithMacrosPart::Literal(s) => s.clone(),
            ConfiguredStringWithMacrosPart::Macro(write_to_file, m) => {
                let mut s = if *write_to_file {
                    String::from_str("@")
                } else {
                    String::new()
                };
                let rendered = m.display_text();
                s.append(rendered.as_str());
                proof {
                    if !*write_to_file {
                        assert(s@ =~= configured_macro_display(m@));
                    }
                }
                s
            },
        }
    }
}

/// A parsed attribute string: either a single literal, or an ordered
/// sequence of literal and macro parts.
#[derive(Debug, PartialEq)]
pub enum ConfiguredStringWithMacros {
    StringPart(String),
    ManyParts(Vec<ConfiguredStringWithMacrosPart>),
}

/// View of a [`ConfiguredStringWithMacros`].
pub enum ConfiguredStringWithMacrosV {
    StringPart(Seq<char>),
    ManyParts(Seq<ConfiguredStringWithMacrosPartV>),
}

impl View for ConfiguredStringWithMacros {
    type V = ConfiguredStringWithMacrosV;

    open spec fn view(&self) -> ConfiguredStringWithMacrosV {
        match self {
            ConfiguredStringWithMacros::StringPart(s) => {
                ConfiguredStringWithMacrosV::StringPart(s@)
            },
            ConfiguredStringWithMacros::ManyParts(parts) => {
                ConfiguredStringWithMacrosV::ManyParts(
                    parts@.map_values(|p: ConfiguredStringWithMacrosPart| p@),
                )
            },
        }
    }
}

} // verus!
