//! Startup diagnostics: what was selected and how.

use vstd::prelude::*;

use crate::runtime::app_profile::{input_mode_name, profile_name, AppProfile, CommType};
use crate::runtime::provider_registry::{strings_view, CapabilityKind};

verus! {

/// How the fallback chain ended for a capability.
#[derive(Debug, Clone, Copy, PartialEq, Eq, Structural)]
pub enum FallbackStatus {
    Attempted,
    Succeeded,
    Failed,
}

/// What startup selected, for each capability and overall.
#[derive(Debug, Clone, PartialEq, Eq)]
pub struct StartupDiagnostics {
    pub selected_profile: String,
    pub selected_adapters: Vec<String>,
    pub selected_providers: Vec<(CapabilityKind, String)>,
    pub plugin_search_paths: Vec<String>,
    pub fallback_status: Vec<(CapabilityKind, FallbackStatus, Vec<String>)>,
    pub enabled_comms: Vec<CommType>,
    pub disabled_comms: Vec<CommType>,
    pub input_mode: String,
}

pub struct StartupDiagnosticsView {
    pub selected_profile: Seq<char>,
    pub selected_adapters: Seq<Seq<char>>,
    pub selected_providers: Seq<(CapabilityKind, Seq<char>)>,
    pub plugin_search_paths: Seq<Seq<char>>,
    pub fallback_status: Seq<(CapabilityKind, FallbackStatus, Seq<Seq<char>>)>,
    pub enabled_comms: Seq<CommType>,
    pub disabled_comms: Seq<CommType>,
    pub input_mode: Seq<char>,
}

/// The views of the selected providers.
pub open spec fn selections_view(v: Seq<(CapabilityKind, String)>) -> Seq<(CapabilityKind, Seq<char>)> {
    v.map_values(|p: (CapabilityKind, String)| (p.0, p.1@))
}

/// The views of the fallback records.
pub open spec fn fallbacks_view(v: Seq<(CapabilityKind, FallbackStatus, Vec<String>)>) -> Seq<(CapabilityKind, FallbackStatus, Seq<Seq<char>>)> {
    v.map_values(|t: (CapabilityKind, FallbackStatus, Vec<String>)| (t.0, t.1, strings_view(t.2@)))
}

impl View for StartupDiagnostics {
    type V = StartupDiagnosticsView;

    open spec fn view(&self) -> StartupDiagnosticsView {
        StartupDiagnosticsView {
            selected_profile: self.selected_profile@,
            selected_adapters: strings_view(self.selected_adapters@),
            selected_providers: selections_view(self.selected_providers@),
            plugin_search_paths: strings_view(self.plugin_search_paths@),
            fallback_status: fallbacks_view(self.fallback_status@),
            enabled_comms: self.enabled_comms@,
            disabled_comms: self.disabled_comms@,
            input_mode: self.input_mode@,
        }
    }
}

/// The diagnostics of a profile before any provider is selected.
pub open spec fn spec_diagnostics_from_profile(
    id: crate::runtime::app_profile::ProfileId,
    enabled: Seq<CommType>,
    disabled: Seq<CommType>,
    mode: crate::runtime::app_profile::InputMode,
) -> StartupDiagnosticsView {
    StartupDiagnosticsView {
        selected_profile: profile_name(id),
        selected_adapters: seq![],
        selected_providers: seq![],
        plugin_search_paths: seq![],
        fallback_status: seq![],
        enabled_comms: enabled,
        disabled_comms: disabled,
        input_mode: input_mode_name(mode),
    }
}

fn copy_comms(v: &Vec<CommType>) -> (r: Vec<CommType>)
    ensures
        r@ == v@,
{
    let mut out: Vec<CommType> = Vec::new();
    let mut i: usize = 0;
    while i < v.len()
        invariant
            i <= v@.len(),
            out@ == v@.subrange(0, i as int),
        decreases v@.len() - i,
    {
        out.push(v[i]);
        i = i + 1;
        assert(out@ =~= v@.subrange(0, i as int));
    }
    assert(out@ =~= v@);
    out
}

impl StartupDiagnostics {
    /// Diagnostics that name the profile, its transports and input mode, and
    /// hold no selection yet.
    pub fn from_profile(profile: &AppProfile) -> (r: Self)
        ensures
            r@ == spec_diagnostics_from_profile(profile.id, profile.enabled_comms@, profile.disabled_comms@, profile.input_mode),
    {
        let r = StartupDiagnostics {
            selected_profile: profile.id.as_str().to_string(),
            selected_adapters: Vec::new(),
            selected_providers: Vec::new(),
            plugin_search_paths: Vec::new(),
            fallback_status: Vec::new(),
            enabled_comms: copy_comms(&profile.enabled_comms),
            disabled_comms: copy_comms(&profile.disabled_comms),
            input_mode: profile.input_mode.name().to_string(),
        };
        assert(strings_view(r.selected_adapters@) =~= seq![]);
        assert(strings_view(r.plugin_search_paths@) =~= seq![]);
        assert(selections_view(r.selected_providers@) =~= seq![]);
        assert(fallbacks_view(r.fallback_status@) =~= seq![]);
        assert(r@ == spec_diagnostics_from_profile(profile.id, profile.enabled_comms@, profile.disabled_comms@, profile.input_mode));
        r
    }
}

} // verus!
