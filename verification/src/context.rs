//! The installation context: the record of user choices accumulated across
//! the wizard's stages (target directory, content source, selected packages).

use vstd::prelude::*;

verus! {

/// Mathematical model of an [`InstallContext`].
#[verifier::ext_equal]
pub ghost struct ContextModel {
    pub game_path: Seq<char>,
    pub source: Seq<char>,
    pub mods: Seq<Seq<char>>,
}

/// View of an optional owned string.
pub open spec fn opt_str_view(o: Option<String>) -> Option<Seq<char>> {
    match o {
        Some(s) => Some(s@),
        None => None,
    }
}

/// The source identifier every run starts from (and the only one offered).
pub open spec fn default_source() -> Seq<char> {
    "https://kmf-station.zice.top"@
}

/// The context a fresh wizard run starts with: no target directory, the
/// default source, no packages.
pub open spec fn initial_context_model() -> ContextModel {
    ContextModel { game_path: Seq::empty(), source: default_source(), mods: Seq::empty() }
}

/// The accumulated user choices, carried forward across stages.
#[derive(Debug, Clone)]
pub struct InstallContext {
    /// Filesystem path of the target application directory; empty until the
    /// directory stage completes.
    pub game_path: String,
    /// Identifier (URI) of the content source.
    pub source: String,
    /// Identifiers of the packages to install, duplicate-free.
    pub mods: Vec<String>,
}

impl View for InstallContext {
    type V = ContextModel;

    open spec fn view(&self) -> ContextModel {
        ContextModel {
            game_path: self.game_path@,
            source: self.source@,
            mods: self.mods.deep_view(),
        }
    }
}

/// The default source identifier as an owned string.
pub fn default_source_string() -> (s: String)
    ensures
        s@ == default_source(),
{
    String::from_str("https://kmf-station.zice.top")
}

impl InstallContext {
    /// A fresh, empty context.
    pub fn new() -> (c: InstallContext)
        ensures
            c@ == initial_context_model(),
    {
        let c = InstallContext {
            game_path: String::new(),
            source: default_source_string(),
            mods: Vec::new(),
        };
        proof {
            assert(c@ =~= initial_context_model());
        }
        c
    }
}

} // verus!
