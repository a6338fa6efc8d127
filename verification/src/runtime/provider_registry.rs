//! Selection of a provider for each capability: an explicit candidate, then a
//! discovered one, then the optimized built-in, then the reference built-in.

use vstd::prelude::*;

use crate::plugins::{
    debug_path, decide_load, extension_of, path_extension, push_debug_path, platform_library_extension,
    spec_load, Capability, LoadOutcome, LoadOutcomeView,
    LoadStrategy, PluginFiles, PluginLoadRequest, PluginLoadRequestView,
};
use crate::text::{
    contains_sub, debug_quoted, decimal, push_debug_quoted, push_decimal, str_contains,
};

verus! {

/// A capability the runtime needs a provider for.
#[derive(Debug, Clone, Copy, PartialEq, Eq, PartialOrd, Ord, Hash, Structural)]
pub enum CapabilityKind {
    Compute,
    Transport,
    Clock,
}

/// The name `Debug` gives a capability.
pub open spec fn capability_name(c: CapabilityKind) -> Seq<char> {
    match c {
        CapabilityKind::Compute => "Compute"@,
        CapabilityKind::Transport => "Transport"@,
        CapabilityKind::Clock => "Clock"@,
    }
}

/// The plugin capability that serves a runtime capability.
pub open spec fn spec_plugin_capability(c: CapabilityKind) -> Capability {
    match c {
        CapabilityKind::Compute => Capability::Compute,
        CapabilityKind::Transport => Capability::Transport,
        CapabilityKind::Clock => Capability::Clock,
    }
}

impl CapabilityKind {
    fn as_plugin_capability(self) -> (r: Capability)
        ensures
            r == spec_plugin_capability(self),
    {
        match self {
            CapabilityKind::Compute => Capability::Compute,
            CapabilityKind::Transport => Capability::Transport,
            CapabilityKind::Clock => Capability::Clock,
        }
    }

    /// Appends the capability's `Debug` name to `out`.
    pub fn push_name(self, out: &mut String)
        ensures
            final(out)@ == old(out)@ + capability_name(self),
    {
        match self {
            CapabilityKind::Compute => out.append("Compute"),
            CapabilityKind::Transport => out.append("Transport"),
            CapabilityKind::Clock => out.append("Clock"),
        }
    }
}

/// Where a provider candidate comes from.
#[derive(Debug, Clone, PartialEq, Eq)]
pub enum ProviderSourceSpec {
    Adapter,
    PluginPath(String),
    BuiltInOptimized,
    BuiltInReference,
}

pub enum ProviderSourceSpecView {
    Adapter,
    PluginPath(Seq<char>),
    BuiltInOptimized,
    BuiltInReference,
}

impl View for ProviderSourceSpec {
    type V = ProviderSourceSpecView;

    open spec fn view(&self) -> ProviderSourceSpecView {
        match self {
            ProviderSourceSpec::Adapter => ProviderSourceSpecView::Adapter,
            ProviderSourceSpec::PluginPath(p) => ProviderSourceSpecView::PluginPath(p@),
            ProviderSourceSpec::BuiltInOptimized => ProviderSourceSpecView::BuiltInOptimized,
            ProviderSourceSpec::BuiltInReference => ProviderSourceSpecView::BuiltInReference,
        }
    }
}

/// The `Debug` text of a source.
pub open spec fn source_debug(s: ProviderSourceSpecView) -> Seq<char> {
    match s {
        ProviderSourceSpecView::Adapter => "Adapter"@,
        ProviderSourceSpecView::PluginPath(p) => "PluginPath("@ + debug_path(p) + ")"@,
        ProviderSourceSpecView::BuiltInOptimized => "BuiltInOptimized"@,
        ProviderSourceSpecView::BuiltInReference => "BuiltInReference"@,
    }
}

impl ProviderSourceSpec {
    /// A copy with the same value.
    pub fn duplicate(&self) -> (r: ProviderSourceSpec)
        ensures
            r@ == self@,
    {
        match self {
            ProviderSourceSpec::Adapter => ProviderSourceSpec::Adapter,
            ProviderSourceSpec::PluginPath(p) => ProviderSourceSpec::PluginPath(p.clone()),
            ProviderSourceSpec::BuiltInOptimized => ProviderSourceSpec::BuiltInOptimized,
            ProviderSourceSpec::BuiltInReference => ProviderSourceSpec::BuiltInReference,
        }
    }

    /// Appends the source's `Debug` text to `out`.
    pub fn push_debug(&self, out: &mut String)
        ensures
            final(out)@ == old(out)@ + source_debug(self@),
    {
        match self {
            ProviderSourceSpec::Adapter => out.append("Adapter"),
            ProviderSourceSpec::PluginPath(p) => {
                out.append("PluginPath(");
                push_debug_path(out, p.as_str());
                out.append(")");
                assert(final(out)@ =~= old(out)@ + source_debug(self@));
            },
            ProviderSourceSpec::BuiltInOptimized => out.append("BuiltInOptimized"),
            ProviderSourceSpec::BuiltInReference => out.append("BuiltInReference"),
        }
    }
}

/// A provider that may serve a capability.
#[derive(Debug, Clone, PartialEq, Eq)]
pub struct ProviderCandidate {
    pub path: String,
    pub abi: u32,
    pub source: ProviderSourceSpec,
}

pub struct ProviderCandidateView {
    pub path: Seq<char>,
    pub abi: u32,
    pub source: ProviderSourceSpecView,
}

impl View for ProviderCandidate {
    type V = ProviderCandidateView;

    open spec fn view(&self) -> ProviderCandidateView {
        ProviderCandidateView { path: self.path@, abi: self.abi, source: self.source@ }
    }
}

impl ProviderCandidate {
    /// A copy with the same value.
    pub fn duplicate(&self) -> (r: ProviderCandidate)
        ensures
            r@ == self@,
    {
        ProviderCandidate { path: self.path.clone(), abi: self.abi, source: self.source.duplicate() }
    }
}

/// An optional candidate, taken by its view.
pub open spec fn opt_candidate_view(c: Option<ProviderCandidate>) -> Option<ProviderCandidateView> {
    match c {
        Some(x) => Some(x@),
        None => None,
    }
}

/// Why a candidate, or a whole resolution, failed.
#[derive(Debug, Clone, PartialEq, Eq)]
pub enum ProviderError {
    LoadFailed { reason: String },
    AbiMismatch { reason: String },
    InvalidSpec { reason: String },
}

pub enum ProviderErrorView {
    LoadFailed { reason: Seq<char> },
    AbiMismatch { reason: Seq<char> },
    InvalidSpec { reason: Seq<char> },
}

impl View for ProviderError {
    type V = ProviderErrorView;

    open spec fn view(&self) -> ProviderErrorView {
        match self {
            ProviderError::LoadFailed { reason } => ProviderErrorView::LoadFailed { reason: reason@ },
            ProviderError::AbiMismatch { reason } => ProviderErrorView::AbiMismatch { reason: reason@ },
            ProviderError::InvalidSpec { reason } => ProviderErrorView::InvalidSpec { reason: reason@ },
        }
    }
}

/// The `Debug` text of a provider error.
pub open spec fn provider_error_debug(e: ProviderErrorView) -> Seq<char> {
    match e {
        ProviderErrorView::LoadFailed { reason } => "LoadFailed { reason: "@ + debug_quoted(reason) + " }"@,
        ProviderErrorView::AbiMismatch { reason } => "AbiMismatch { reason: "@ + debug_quoted(reason) + " }"@,
        ProviderErrorView::InvalidSpec { reason } => "InvalidSpec { reason: "@ + debug_quoted(reason) + " }"@,
    }
}

impl ProviderError {
    /// Appends the error's `Debug` text to `out`.
    pub fn push_debug(&self, out: &mut String)
        ensures
            final(out)@ == old(out)@ + provider_error_debug(self@),
    {
        let reason = match self {
            ProviderError::LoadFailed { reason } => {
                out.append("LoadFailed { reason: ");
                reason
            },
            ProviderError::AbiMismatch { reason } => {
                out.append("AbiMismatch { reason: ");
                reason
            },
            ProviderError::InvalidSpec { reason } => {
                out.append("InvalidSpec { reason: ");
                reason
            },
        };
        push_debug_quoted(out, reason.as_str());
        out.append(" }");
        assert(final(out)@ =~= old(out)@ + provider_error_debug(self@));
    }
}

/// The provider chosen for a capability and how it was chosen.
#[derive(Debug, Clone, PartialEq, Eq)]
pub struct ProviderResolution {
    pub capability: CapabilityKind,
    pub selected: String,
    pub selected_source: ProviderSourceSpec,
    pub decision_path: Vec<String>,
}

pub struct ProviderResolutionView {
    pub capability: CapabilityKind,
    pub selected: Seq<char>,
    pub selected_source: ProviderSourceSpecView,
    pub decision_path: Seq<Seq<char>>,
}

/// The views of a sequence of strings.
pub open spec fn strings_view(v: Seq<String>) -> Seq<Seq<char>> {
    v.map_values(|s: String| s@)
}

impl View for ProviderResolution {
    type V = ProviderResolutionView;

    open spec fn view(&self) -> ProviderResolutionView {
        ProviderResolutionView {
            capability: self.capability,
            selected: self.selected@,
            selected_source: self.selected_source@,
            decision_path: strings_view(self.decision_path@),
        }
    }
}

/// One candidate slot per capability.
#[derive(Debug, Clone, PartialEq, Eq)]
pub struct CapabilityTable {
    compute: Option<ProviderCandidate>,
    transport: Option<ProviderCandidate>,
    clock: Option<ProviderCandidate>,
}

pub struct CapabilityTableView {
    pub compute: Option<ProviderCandidateView>,
    pub transport: Option<ProviderCandidateView>,
    pub clock: Option<ProviderCandidateView>,
}

impl CapabilityTableView {
    pub open spec fn get(self, cap: CapabilityKind) -> Option<ProviderCandidateView> {
        match cap {
            CapabilityKind::Compute => self.compute,
            CapabilityKind::Transport => self.transport,
            CapabilityKind::Clock => self.clock,
        }
    }

    pub open spec fn set(self, cap: CapabilityKind, c: Option<ProviderCandidateView>) -> CapabilityTableView {
        match cap {
            CapabilityKind::Compute => CapabilityTableView { compute: c, ..self },
            CapabilityKind::Transport => CapabilityTableView { transport: c, ..self },
            CapabilityKind::Clock => CapabilityTableView { clock: c, ..self },
        }
    }
}

impl View for CapabilityTable {
    type V = CapabilityTableView;

    closed spec fn view(&self) -> CapabilityTableView {
        CapabilityTableView {
            compute: opt_candidate_view(self.compute),
            transport: opt_candidate_view(self.transport),
            clock: opt_candidate_view(self.clock),
        }
    }
}

impl CapabilityTable {
    /// A table with no candidate.
    pub fn new() -> (r: Self)
        ensures
            r@.compute is None && r@.transport is None && r@.clock is None,
    {
        CapabilityTable { compute: None, transport: None, clock: None }
    }

    /// The candidate for a capability, if any.
    pub fn get(&self, cap: CapabilityKind) -> (r: Option<&ProviderCandidate>)
        ensures
            match r {
                Some(c) => self@.get(cap) == Some(c@),
                None => self@.get(cap) is None,
            },
    {
        match cap {
            CapabilityKind::Compute => self.compute.as_ref(),
            CapabilityKind::Transport => self.transport.as_ref(),
            CapabilityKind::Clock => self.clock.as_ref(),
        }
    }

    /// Sets the candidate for a capability and returns the one it replaces.
    pub fn insert(&mut self, cap: CapabilityKind, candidate: ProviderCandidate) -> (r: Option<ProviderCandidate>)
        ensures
            final(self)@ == old(self)@.set(cap, Some(candidate@)),
            opt_candidate_view(r) == old(self)@.get(cap),
    {
        match cap {
            CapabilityKind::Compute => {
                let previous = self.compute.take();
                self.compute = Some(candidate);
                previous
            },
            CapabilityKind::Transport => {
                let previous = self.transport.take();
                self.transport = Some(candidate);
                previous
            },
            CapabilityKind::Clock => {
                let previous = self.clock.take();
                self.clock = Some(candidate);
                previous
            },
        }
    }

    /// Removes the candidate for a capability and returns it.
    pub fn remove(&mut self, cap: CapabilityKind) -> (r: Option<ProviderCandidate>)
        ensures
            final(self)@ == old(self)@.set(cap, None),
            opt_candidate_view(r) == old(self)@.get(cap),
    {
        match cap {
            CapabilityKind::Compute => self.compute.take(),
            CapabilityKind::Transport => self.transport.take(),
            CapabilityKind::Clock => self.clock.take(),
        }
    }
}

} // verus!

verus! {

/// Reason given when a candidate's ABI is not the one required.
pub open spec fn abi_mismatch_reason(found: u32, required: u32) -> Seq<char> {
    "candidate abi "@ + decimal(found as nat) + " != required "@ + decimal(required as nat)
}

/// Whether a candidate validates and loads, and the provider it names when it does.
/// A plugin-path candidate needs an extension and is loaded dynamically; any
/// other candidate loads unless its path contains "load-fail".
pub open spec fn spec_validate_candidate(
    cap: CapabilityKind,
    c: ProviderCandidateView,
    required_abi: u32,
    required: bool,
    files: Set<Seq<char>>,
    ext: Seq<char>,
) -> Result<Seq<char>, ProviderErrorView> {
    if c.abi != required_abi {
        Err(ProviderErrorView::AbiMismatch { reason: abi_mismatch_reason(c.abi, required_abi) })
    } else {
        match c.source {
            ProviderSourceSpecView::PluginPath(path) => {
                if path_extension(path) is None {
                    Err(ProviderErrorView::InvalidSpec { reason: "plugin path "@ + path + " has no extension"@ })
                } else {
                    let req = PluginLoadRequestView {
                        path,
                        expected_capability: spec_plugin_capability(cap),
                        required,
                        strategy: LoadStrategy::Dynamic,
                    };
                    match spec_load(req, files.contains(path), ext) {
                        Ok(LoadOutcomeView::Loaded(p)) => Ok(p.path),
                        Ok(LoadOutcomeView::OptionalMissing { attempted_path }) => Ok("optional-missing:"@ + attempted_path),
                        Err(e) => Err(
                            ProviderErrorView::LoadFailed {
                                reason: "plugin load failed at "@ + e.plugin_path_attempted + ": "@
                                    + crate::plugins::load_error_kind_debug(e.reason),
                            },
                        ),
                    }
                }
            },
            _ => {
                if contains_sub(c.path, "load-fail"@) {
                    Err(ProviderErrorView::LoadFailed { reason: "provider "@ + c.path + " failed during simulated load"@ })
                } else {
                    Ok(c.path)
                }
            },
        }
    }
}

/// What considering one slot of the selection order leads to.
pub enum SlotStepView {
    Next,
    Selected(Seq<char>, ProviderSourceSpecView),
    Failed(ProviderErrorView),
}

/// The decisions one slot records and where it leads. A missing slot records
/// "<label>:missing"; a present one records its source, then "<label>:selected"
/// or "<label>:rejected:<error>". A rejection stops the search only when
/// `fail_fast` holds (a required explicit candidate).
pub open spec fn spec_slot(
    label: Seq<char>,
    c: Option<ProviderCandidateView>,
    cap: CapabilityKind,
    required_abi: u32,
    fail_fast: bool,
    files: Set<Seq<char>>,
    ext: Seq<char>,
) -> (Seq<Seq<char>>, SlotStepView) {
    match c {
        None => (seq![label + ":missing"@], SlotStepView::Next),
        Some(cand) => {
            let source = label + ":source="@ + source_debug(cand.source);
            match spec_validate_candidate(cap, cand, required_abi, fail_fast, files, ext) {
                Ok(selected) => (seq![source, label + ":selected"@], SlotStepView::Selected(selected, cand.source)),
                Err(e) => (
                    seq![source, label + ":rejected:"@ + provider_error_debug(e)],
                    if fail_fast { SlotStepView::Failed(e) } else { SlotStepView::Next },
                ),
            }
        },
    }
}

/// The resolution over the remaining slots, after `decisions` were recorded.
pub open spec fn spec_resolve_slots(
    slots: Seq<(Seq<char>, Option<ProviderCandidateView>, bool)>,
    cap: CapabilityKind,
    required_abi: u32,
    required: bool,
    files: Set<Seq<char>>,
    ext: Seq<char>,
    decisions: Seq<Seq<char>>,
) -> Result<ProviderResolutionView, ProviderErrorView>
    decreases slots.len(),
{
    if slots.len() == 0 {
        if required {
            Err(ProviderErrorView::LoadFailed { reason: "required capability "@ + capability_name(cap) + " unresolved"@ })
        } else {
            Ok(
                ProviderResolutionView {
                    capability: cap,
                    selected: "none-optional"@,
                    selected_source: ProviderSourceSpecView::BuiltInReference,
                    decision_path: decisions,
                },
            )
        }
    } else {
        let (label, c, fail_fast) = slots[0];
        let (added, step) = spec_slot(label, c, cap, required_abi, fail_fast, files, ext);
        let d = decisions + added;
        match step {
            SlotStepView::Selected(selected, source) => Ok(
                ProviderResolutionView { capability: cap, selected, selected_source: source, decision_path: d },
            ),
            SlotStepView::Failed(e) => Err(e),
            SlotStepView::Next => spec_resolve_slots(slots.drop_first(), cap, required_abi, required, files, ext, d),
        }
    }
}

/// The selection order: explicit, discovered, optimized built-in, reference built-in.
pub open spec fn resolution_slots(
    reg: ProviderRegistryView,
    cap: CapabilityKind,
    explicit: Option<ProviderCandidateView>,
    required: bool,
) -> Seq<(Seq<char>, Option<ProviderCandidateView>, bool)> {
    seq![
        ("explicit"@, explicit, required),
        ("discovered"@, reg.discovered.get(cap), false),
        ("builtin-optimized"@, reg.built_in_optimized.get(cap), false),
        ("builtin-reference"@, reg.built_in_reference.get(cap), false),
    ]
}

/// The registry's resolution of a capability.
pub open spec fn spec_resolve(
    reg: ProviderRegistryView,
    cap: CapabilityKind,
    explicit: Option<ProviderCandidateView>,
    required_abi: u32,
    required: bool,
    files: Set<Seq<char>>,
    ext: Seq<char>,
) -> Result<ProviderResolutionView, ProviderErrorView> {
    spec_resolve_slots(resolution_slots(reg, cap, explicit, required), cap, required_abi, required, files, ext, seq![])
}

/// A resolution result, taken by its view.
pub open spec fn resolution_result_view(r: Result<ProviderResolution, ProviderError>) -> Result<ProviderResolutionView, ProviderErrorView> {
    match r {
        Ok(x) => Ok(x@),
        Err(e) => Err(e@),
    }
}

/// The provider candidates known to the runtime, by origin.
#[derive(Debug)]
pub struct ProviderRegistry {
    discovered: CapabilityTable,
    built_in_optimized: CapabilityTable,
    built_in_reference: CapabilityTable,
}

pub struct ProviderRegistryView {
    pub discovered: CapabilityTableView,
    pub built_in_optimized: CapabilityTableView,
    pub built_in_reference: CapabilityTableView,
}

impl View for ProviderRegistry {
    type V = ProviderRegistryView;

    closed spec fn view(&self) -> ProviderRegistryView {
        ProviderRegistryView {
            discovered: self.discovered@,
            built_in_optimized: self.built_in_optimized@,
            built_in_reference: self.built_in_reference@,
        }
    }
}

/// The built-in candidate of a kind ("optimized" or "reference") for a capability.
pub open spec fn builtin_candidate(kind: Seq<char>, source: ProviderSourceSpecView, cap: CapabilityKind) -> ProviderCandidateView {
    ProviderCandidateView { path: "builtin://"@ + kind + "/"@ + capability_name(cap), abi: 1, source }
}

/// A table that holds, for every capability, the built-in candidate of a kind.
pub open spec fn builtin_table(kind: Seq<char>, source: ProviderSourceSpecView) -> CapabilityTableView {
    CapabilityTableView {
        compute: Some(builtin_candidate(kind, source, CapabilityKind::Compute)),
        transport: Some(builtin_candidate(kind, source, CapabilityKind::Transport)),
        clock: Some(builtin_candidate(kind, source, CapabilityKind::Clock)),
    }
}

/// The empty table, taken by its view.
pub open spec fn empty_table() -> CapabilityTableView {
    CapabilityTableView { compute: None, transport: None, clock: None }
}

/// A built-in candidate for a capability.
fn make_builtin(kind: &str, source: ProviderSourceSpec, cap: CapabilityKind) -> (r: ProviderCandidate)
    ensures
        r@ == builtin_candidate(kind@, source@, cap),
{
    let mut path = "builtin://".to_string();
    path.append(kind);
    path.append("/");
    cap.push_name(&mut path);
    ProviderCandidate { path, abi: 1, source }
}

impl Default for ProviderRegistry {
    fn default() -> (r: Self)
        ensures
            r@.discovered == empty_table(),
            r@.built_in_optimized == empty_table(),
            r@.built_in_reference == empty_table(),
    {
        ProviderRegistry {
            discovered: CapabilityTable::new(),
            built_in_optimized: CapabilityTable::new(),
            built_in_reference: CapabilityTable::new(),
        }
    }
}

impl ProviderRegistry {
    /// A registry with no candidate at all.
    pub fn empty() -> (r: Self)
        ensures
            r@.discovered == empty_table(),
            r@.built_in_optimized == empty_table(),
            r@.built_in_reference == empty_table(),
    {
        Self::default()
    }

    /// A registry with an optimized and a reference built-in candidate for
    /// every capability, both at ABI 1, and nothing discovered.
    pub fn with_defaults() -> (r: Self)
        ensures
            r@.discovered == empty_table(),
            r@.built_in_optimized == builtin_table("optimized"@, ProviderSourceSpecView::BuiltInOptimized),
            r@.built_in_reference == builtin_table("reference"@, ProviderSourceSpecView::BuiltInReference),
    {
        let mut reg = Self::default();
        reg.built_in_optimized.insert(CapabilityKind::Compute, make_builtin("optimized", ProviderSourceSpec::BuiltInOptimized, CapabilityKind::Compute));
        reg.built_in_optimized.insert(CapabilityKind::Transport, make_builtin("optimized", ProviderSourceSpec::BuiltInOptimized, CapabilityKind::Transport));
        reg.built_in_optimized.insert(CapabilityKind::Clock, make_builtin("optimized", ProviderSourceSpec::BuiltInOptimized, CapabilityKind::Clock));
        reg.built_in_reference.insert(CapabilityKind::Compute, make_builtin("reference", ProviderSourceSpec::BuiltInReference, CapabilityKind::Compute));
        reg.built_in_reference.insert(CapabilityKind::Transport, make_builtin("reference", ProviderSourceSpec::BuiltInReference, CapabilityKind::Transport));
        reg.built_in_reference.insert(CapabilityKind::Clock, make_builtin("reference", ProviderSourceSpec::BuiltInReference, CapabilityKind::Clock));
        reg
    }

    /// The table of discovered candidates, for the caller to fill.
    pub fn discovered_mut(&mut self) -> (r: &mut CapabilityTable)
        ensures
            r@ == old(self)@.discovered,
            final(self)@.discovered == final(r)@,
            final(self)@.built_in_optimized == old(self)@.built_in_optimized,
            final(self)@.built_in_reference == old(self)@.built_in_reference,
    {
        &mut self.discovered
    }
}

} // verus!

verus! {

/// `prefix` followed by `s`.
fn prefixed(prefix: &str, s: &str) -> (r: String)
    ensures
        r@ == prefix@ + s@,
{
    let mut out = prefix.to_string();
    out.append(s);
    out
}

/// What considering one slot leads to.
enum SlotStep {
    Next,
    Selected(String, ProviderSourceSpec),
    Failed(ProviderError),
}

impl View for SlotStep {
    type V = SlotStepView;

    closed spec fn view(&self) -> SlotStepView {
        match self {
            SlotStep::Next => SlotStepView::Next,
            SlotStep::Selected(s, src) => SlotStepView::Selected(s@, src@),
            SlotStep::Failed(e) => SlotStepView::Failed(e@),
        }
    }
}

impl ProviderRegistry {
    fn validate_and_load_candidate(
        capability: CapabilityKind,
        candidate: &ProviderCandidate,
        required_abi: u32,
        required: bool,
        files: &PluginFiles,
        extension: &str,
    ) -> (r: Result<String, ProviderError>)
        ensures
            match r {
                Ok(s) => spec_validate_candidate(capability, candidate@, required_abi, required, files@, extension@)
                    == Ok::<Seq<char>, ProviderErrorView>(s@),
                Err(e) => spec_validate_candidate(capability, candidate@, required_abi, required, files@, extension@)
                    == Err::<Seq<char>, ProviderErrorView>(e@),
            },
    {
        if candidate.abi != required_abi {
            let mut reason = "candidate abi ".to_string();
            push_decimal(&mut reason, candidate.abi as u64);
            reason.append(" != required ");
            push_decimal(&mut reason, required_abi as u64);
            return Err(ProviderError::AbiMismatch { reason });
        }
        match &candidate.source {
            ProviderSourceSpec::PluginPath(path) => {
                if extension_of(path.as_str()).is_none() {
                    let mut reason = prefixed("plugin path ", path.as_str());
                    reason.append(" has no extension");
                    return Err(ProviderError::InvalidSpec { reason });
                }
                let req = PluginLoadRequest {
                    path: path.clone(),
                    expected_capability: capability.as_plugin_capability(),
                    required,
                    strategy: LoadStrategy::Dynamic,
                };
                let exists = files.contains(path.as_str());
                let outcome = decide_load(&req, exists, extension);
                match outcome {
                    Ok(LoadOutcome::Loaded(loaded)) => Ok(loaded.path),
                    Ok(LoadOutcome::OptionalMissing { attempted_path }) => Ok(prefixed("optional-missing:", attempted_path.as_str())),
                    Err(err) => {
                        let mut reason = prefixed("plugin load failed at ", err.plugin_path_attempted.as_str());
                        reason.append(": ");
                        err.reason.push_debug(&mut reason);
                        Err(ProviderError::LoadFailed { reason })
                    },
                }
            },
            _ => {
                if str_contains(candidate.path.as_str(), "load-fail") {
                    let mut reason = prefixed("provider ", candidate.path.as_str());
                    reason.append(" failed during simulated load");
                    return Err(ProviderError::LoadFailed { reason });
                }
                Ok(candidate.path.clone())
            },
        }
    }

    fn consider_slot(
        label: &str,
        candidate: Option<&ProviderCandidate>,
        capability: CapabilityKind,
        required_abi: u32,
        fail_fast: bool,
        files: &PluginFiles,
        extension: &str,
        decisions: &mut Vec<String>,
    ) -> (r: SlotStep)
        ensures
            ({
                let c = match candidate {
                    Some(x) => Some(x@),
                    None => None,
                };
                let (added, step) = spec_slot(label@, c, capability, required_abi, fail_fast, files@, extension@);
                &&& strings_view(final(decisions)@) == strings_view(old(decisions)@) + added
                &&& r@ == step
            }),
    {
        let ghost before = strings_view(decisions@);
        match candidate {
            None => {
                decisions.push(prefixed(label, ":missing"));
                assert(strings_view(decisions@) =~= before + seq![label@ + ":missing"@]);
                SlotStep::Next
            },
            Some(cand) => {
                let mut source = prefixed(label, ":source=");
                cand.source.push_debug(&mut source);
                decisions.push(source);
                match Self::validate_and_load_candidate(capability, cand, required_abi, fail_fast, files, extension) {
                    Ok(selected) => {
                        decisions.push(prefixed(label, ":selected"));
                        assert(strings_view(decisions@) =~= before + spec_slot(
                            label@,
                            Some(cand@),
                            capability,
                            required_abi,
                            fail_fast,
                            files@,
                            extension@,
                        ).0);
                        SlotStep::Selected(selected, cand.source.duplicate())
                    },
                    Err(err) => {
                        let mut rejected = prefixed(label, ":rejected:");
                        err.push_debug(&mut rejected);
                        decisions.push(rejected);
                        assert(strings_view(decisions@) =~= before + spec_slot(
                            label@,
                            Some(cand@),
                            capability,
                            required_abi,
                            fail_fast,
                            files@,
                            extension@,
                        ).0);
                        if fail_fast {
                            SlotStep::Failed(err)
                        } else {
                            SlotStep::Next
                        }
                    },
                }
            },
        }
    }
}

} // verus!

verus! {

impl ProviderRegistry {
    /// Resolves a capability given the platform's library extension: the
    /// first candidate in the order explicit, discovered, optimized built-in,
    /// reference built-in that validates and loads is selected. A required
    /// explicit candidate that fails ends the search with its error; when no
    /// candidate is selected, a required capability is an error and an
    /// optional one resolves to "none-optional".
    pub fn resolve_for_platform(
        &self,
        capability: CapabilityKind,
        explicit: Option<ProviderCandidate>,
        required_abi: u32,
        required: bool,
        files: &PluginFiles,
        extension: &str,
    ) -> (r: Result<ProviderResolution, ProviderError>)
        ensures
            resolution_result_view(r) == spec_resolve(
                self@,
                capability,
                opt_candidate_view(explicit),
                required_abi,
                required,
                files@,
                extension@,
            ),
    {
        let ghost slots = resolution_slots(self@, capability, opt_candidate_view(explicit), required);
        let ghost target = spec_resolve(self@, capability, opt_candidate_view(explicit), required_abi, required, files@, extension@);
        let mut decisions: Vec<String> = Vec::new();
        proof {
            assert(strings_view(decisions@) =~= Seq::<Seq<char>>::empty());
        }

        let step = Self::consider_slot("explicit", explicit.as_ref(), capability, required_abi, required, files, extension, &mut decisions);
        match step {
            SlotStep::Selected(selected, source) => {
                return Ok(ProviderResolution { capability, selected, selected_source: source, decision_path: decisions });
            },
            SlotStep::Failed(e) => {
                return Err(e);
            },
            SlotStep::Next => {},
        }
        assert(target == spec_resolve_slots(slots.drop_first(), capability, required_abi, required, files@, extension@, strings_view(decisions@)));

        let step = Self::consider_slot("discovered", self.discovered.get(capability), capability, required_abi, false, files, extension, &mut decisions);
        match step {
            SlotStep::Selected(selected, source) => {
                return Ok(ProviderResolution { capability, selected, selected_source: source, decision_path: decisions });
            },
            SlotStep::Failed(e) => {
                return Err(e);
            },
            SlotStep::Next => {},
        }
        assert(target == spec_resolve_slots(slots.drop_first().drop_first(), capability, required_abi, required, files@, extension@, strings_view(decisions@)));

        let step = Self::consider_slot("builtin-optimized", self.built_in_optimized.get(capability), capability, required_abi, false, files, extension, &mut decisions);
        match step {
            SlotStep::Selected(selected, source) => {
                return Ok(ProviderResolution { capability, selected, selected_source: source, decision_path: decisions });
            },
            SlotStep::Failed(e) => {
                return Err(e);
            },
            SlotStep::Next => {},
        }
        assert(target == spec_resolve_slots(slots.drop_first().drop_first().drop_first(), capability, required_abi, required, files@, extension@, strings_view(decisions@)));

        let step = Self::consider_slot("builtin-reference", self.built_in_reference.get(capability), capability, required_abi, false, files, extension, &mut decisions);
        match step {
            SlotStep::Selected(selected, source) => {
                return Ok(ProviderResolution { capability, selected, selected_source: source, decision_path: decisions });
            },
            SlotStep::Failed(e) => {
                return Err(e);
            },
            SlotStep::Next => {},
        }
        assert(target == spec_resolve_slots(slots.drop_first().drop_first().drop_first().drop_first(), capability, required_abi, required, files@, extension@, strings_view(decisions@)));

        if required {
            let mut reason = "required capability ".to_string();
            capability.push_name(&mut reason);
            reason.append(" unresolved");
            return Err(ProviderError::LoadFailed { reason });
        }
        Ok(
            ProviderResolution {
                capability,
                selected: "none-optional".to_string(),
                selected_source: ProviderSourceSpec::BuiltInReference,
                decision_path: decisions,
            },
        )
    }

    /// Resolves a capability on this platform (see `resolve_for_platform`),
    /// with the plugin files known to exist.
    pub fn resolve(
        &self,
        capability: CapabilityKind,
        explicit: Option<ProviderCandidate>,
        required_abi: u32,
        required: bool,
        files: &PluginFiles,
    ) -> (r: Result<ProviderResolution, ProviderError>)
        ensures
            resolution_result_view(r) == spec_resolve(self@, capability, opt_candidate_view(explicit), required_abi, required, files@, "so"@)
                || resolution_result_view(r) == spec_resolve(self@, capability, opt_candidate_view(explicit), required_abi, required, files@, "dll"@),
    {
        self.resolve_for_platform(capability, explicit, required_abi, required, files, platform_library_extension())
    }
}

} // verus!

verus! {

/// An explicit candidate that validates and loads is always the one selected,
/// whatever the registry holds, and the decision path ends with
/// "explicit:selected".
pub proof fn lemma_explicit_candidate_wins(
    reg: ProviderRegistryView,
    cap: CapabilityKind,
    explicit: ProviderCandidateView,
    required_abi: u32,
    required: bool,
    files: Set<Seq<char>>,
    ext: Seq<char>,
)
    requires
        spec_validate_candidate(cap, explicit, required_abi, required, files, ext) is Ok,
    ensures
        spec_resolve(reg, cap, Some(explicit), required_abi, required, files, ext) matches Ok(res) && res.selected
            == spec_validate_candidate(cap, explicit, required_abi, required, files, ext)->Ok_0 && res.selected_source
            == explicit.source && res.decision_path.last() == "explicit:selected"@,
{
    let slots = resolution_slots(reg, cap, Some(explicit), required);
    assert(slots[0] == ("explicit"@, Some(explicit), required));
    reveal_strlit("explicit");
    reveal_strlit(":selected");
    reveal_strlit("explicit:selected");
    assert("explicit"@ + ":selected"@ =~= "explicit:selected"@);
    let (added, step) = spec_slot("explicit"@, Some(explicit), cap, required_abi, required, files, ext);
    assert(added.last() == "explicit"@ + ":selected"@);
    assert((Seq::<Seq<char>>::empty() + added).last() == added.last());
}

/// A required explicit candidate that fails ends the resolution with its own
/// error, whatever the other candidates are.
pub proof fn lemma_required_explicit_failure_is_final(
    reg: ProviderRegistryView,
    cap: CapabilityKind,
    explicit: ProviderCandidateView,
    required_abi: u32,
    files: Set<Seq<char>>,
    ext: Seq<char>,
)
    requires
        spec_validate_candidate(cap, explicit, required_abi, true, files, ext) is Err,
    ensures
        spec_resolve(reg, cap, Some(explicit), required_abi, true, files, ext) == Err::<ProviderResolutionView, ProviderErrorView>(
            spec_validate_candidate(cap, explicit, required_abi, true, files, ext)->Err_0,
        ),
{
    let slots = resolution_slots(reg, cap, Some(explicit), true);
    assert(slots[0] == ("explicit"@, Some(explicit), true));
}

/// A candidate whose ABI differs from the required one is rejected with an
/// ABI mismatch, before its source is considered.
pub proof fn lemma_abi_mismatch_rejected(
    cap: CapabilityKind,
    c: ProviderCandidateView,
    required_abi: u32,
    required: bool,
    files: Set<Seq<char>>,
    ext: Seq<char>,
)
    requires
        c.abi != required_abi,
    ensures
        spec_validate_candidate(cap, c, required_abi, required, files, ext) == Err::<Seq<char>, ProviderErrorView>(
            ProviderErrorView::AbiMismatch { reason: abi_mismatch_reason(c.abi, required_abi) },
        ),
{
}

} // verus!

verus! {

/// When no candidate exists for a capability, a required capability fails to
/// resolve and an optional one resolves to "none-optional" after recording
/// that each of the four slots was missing.
pub proof fn lemma_nothing_to_select(
    reg: ProviderRegistryView,
    cap: CapabilityKind,
    required_abi: u32,
    required: bool,
    files: Set<Seq<char>>,
    ext: Seq<char>,
)
    requires
        reg.discovered.get(cap) is None,
        reg.built_in_optimized.get(cap) is None,
        reg.built_in_reference.get(cap) is None,
    ensures
        required ==> spec_resolve(reg, cap, None, required_abi, required, files, ext) == Err::<
            ProviderResolutionView,
            ProviderErrorView,
        >(ProviderErrorView::LoadFailed { reason: "required capability "@ + capability_name(cap) + " unresolved"@ }),
        !required ==> spec_resolve(reg, cap, None, required_abi, required, files, ext) == Ok::<
            ProviderResolutionView,
            ProviderErrorView,
        >(
            ProviderResolutionView {
                capability: cap,
                selected: "none-optional"@,
                selected_source: ProviderSourceSpecView::BuiltInReference,
                decision_path: seq![
                    "explicit"@ + ":missing"@,
                    "discovered"@ + ":missing"@,
                    "builtin-optimized"@ + ":missing"@,
                    "builtin-reference"@ + ":missing"@,
                ],
            },
        ),
{
    let slots = resolution_slots(reg, cap, None, required);
    let s1 = slots.drop_first();
    let s2 = s1.drop_first();
    let s3 = s2.drop_first();
    let s4 = s3.drop_first();
    let d0 = Seq::<Seq<char>>::empty();
    let d1 = d0 + seq!["explicit"@ + ":missing"@];
    let d2 = d1 + seq!["discovered"@ + ":missing"@];
    let d3 = d2 + seq!["builtin-optimized"@ + ":missing"@];
    let d4 = d3 + seq!["builtin-reference"@ + ":missing"@];
    assert(slots[0] == ("explicit"@, None::<ProviderCandidateView>, required));
    assert(s1[0] == ("discovered"@, None::<ProviderCandidateView>, false));
    assert(s2[0] == ("builtin-optimized"@, None::<ProviderCandidateView>, false));
    assert(s3[0] == ("builtin-reference"@, None::<ProviderCandidateView>, false));
    assert(s4.len() == 0);
    let r4 = spec_resolve_slots(s4, cap, required_abi, required, files, ext, d4);
    assert(spec_resolve_slots(s3, cap, required_abi, required, files, ext, d3) == r4);
    assert(spec_resolve_slots(s2, cap, required_abi, required, files, ext, d2) == r4);
    assert(spec_resolve_slots(s1, cap, required_abi, required, files, ext, d1) == r4);
    assert(spec_resolve_slots(slots, cap, required_abi, required, files, ext, d0) == r4);
    assert(d4 =~= seq![
        "explicit"@ + ":missing"@,
        "discovered"@ + ":missing"@,
        "builtin-optimized"@ + ":missing"@,
        "builtin-reference"@ + ":missing"@,
    ]);
}

} // verus!

verus! {

/// A resolution of a required capability that succeeds has selected a
/// candidate: its last decision is "<label>:selected" for one of the slots.
pub proof fn lemma_required_resolution_selects(
    slots: Seq<(Seq<char>, Option<ProviderCandidateView>, bool)>,
    cap: CapabilityKind,
    required_abi: u32,
    files: Set<Seq<char>>,
    ext: Seq<char>,
    decisions: Seq<Seq<char>>,
)
    requires
        spec_resolve_slots(slots, cap, required_abi, true, files, ext, decisions) is Ok,
    ensures
        ({
            let res = spec_resolve_slots(slots, cap, required_abi, true, files, ext, decisions)->Ok_0;
            exists|i: int| 0 <= i < slots.len() && res.decision_path.len() > 0 && res.decision_path.last() == #[trigger] slots[i].0
                + ":selected"@
        }),
    decreases slots.len(),
{
    let (label, c, fail_fast) = slots[0];
    let (added, step) = spec_slot(label, c, cap, required_abi, fail_fast, files, ext);
    let d = decisions + added;
    match step {
        SlotStepView::Selected(_, _) => {
            assert(d.last() == slots[0].0 + ":selected"@);
        },
        SlotStepView::Failed(_) => {},
        SlotStepView::Next => {
            lemma_required_resolution_selects(slots.drop_first(), cap, required_abi, files, ext, d);
            let res = spec_resolve_slots(slots, cap, required_abi, true, files, ext, decisions)->Ok_0;
            let i = choose|i: int| 0 <= i < slots.drop_first().len() && res.decision_path.len() > 0 && res.decision_path.last()
                == #[trigger] slots.drop_first()[i].0 + ":selected"@;
            assert(slots[i + 1] == slots.drop_first()[i]);
        },
    }
}

/// A required capability that resolves has selected a candidate.
pub proof fn lemma_required_capability_resolution_selects(
    reg: ProviderRegistryView,
    cap: CapabilityKind,
    explicit: Option<ProviderCandidateView>,
    required_abi: u32,
    files: Set<Seq<char>>,
    ext: Seq<char>,
)
    requires
        spec_resolve(reg, cap, explicit, required_abi, true, files, ext) is Ok,
    ensures
        ({
            let res = spec_resolve(reg, cap, explicit, required_abi, true, files, ext)->Ok_0;
            &&& res.decision_path.len() > 0
            &&& res.decision_path.last() == "explicit"@ + ":selected"@ || res.decision_path.last() == "discovered"@
                + ":selected"@ || res.decision_path.last() == "builtin-optimized"@ + ":selected"@
                || res.decision_path.last() == "builtin-reference"@ + ":selected"@
        }),
{
    let slots = resolution_slots(reg, cap, explicit, true);
    lemma_required_resolution_selects(slots, cap, required_abi, files, ext, seq![]);
}

} // verus!

verus! {

/// A text in which the character at position `j` of `needle` never occurs
/// does not contain `needle`.
proof fn lemma_absent_char_excludes(hay: Seq<char>, needle: Seq<char>, j: int)
    requires
        0 <= j < needle.len(),
        forall|i: int| 0 <= i < hay.len() ==> hay[i] != needle[j],
    ensures
        !contains_sub(hay, needle),
{
    if contains_sub(hay, needle) {
        let i = choose|i: int| #[trigger] crate::text::occurs_at(hay, needle, i);
        assert(hay.subrange(i, i + needle.len())[j] == hay[i + j]);
    }
}

/// The path of a built-in candidate never contains "load-fail", whose fifth
/// character '-' it does not hold.
proof fn lemma_builtin_path_loads(kind: Seq<char>, source: ProviderSourceSpecView, cap: CapabilityKind)
    requires
        forall|i: int| 0 <= i < kind.len() ==> kind[i] != '-',
    ensures
        !contains_sub(builtin_candidate(kind, source, cap).path, "load-fail"@),
{
    reveal_strlit("builtin://");
    reveal_strlit("/");
    reveal_strlit("load-fail");
    reveal_strlit("Compute");
    reveal_strlit("Transport");
    reveal_strlit("Clock");
    let a = "builtin://"@;
    let b = "/"@;
    let n = capability_name(cap);
    assert forall|i: int| 0 <= i < a.len() implies a[i] != '-' by {}
    assert forall|i: int| 0 <= i < n.len() implies n[i] != '-' by {}
    let path = a + kind + b + n;
    assert forall|i: int| 0 <= i < path.len() implies path[i] != '-' by {
        if i < a.len() {
            assert(path[i] == a[i]);
        } else if i < a.len() + kind.len() {
            assert(path[i] == kind[i - a.len()]);
        } else if i < a.len() + kind.len() + b.len() {
            assert(path[i] == b[i - a.len() - kind.len()]);
        } else {
            assert(path[i] == n[i - a.len() - kind.len() - b.len()]);
        }
    }
    assert("load-fail"@[4] == '-');
    lemma_absent_char_excludes(path, "load-fail"@, 4);
}

/// The registry that `with_defaults` builds, taken by its view.
pub open spec fn default_registry() -> ProviderRegistryView {
    ProviderRegistryView {
        discovered: empty_table(),
        built_in_optimized: builtin_table("optimized"@, ProviderSourceSpecView::BuiltInOptimized),
        built_in_reference: builtin_table("reference"@, ProviderSourceSpecView::BuiltInReference),
    }
}

/// With the default registry and ABI 1, a capability with no explicit
/// candidate, or with an optional one that fails, falls back to the
/// optimized built-in provider: "builtin://optimized/<capability>" is
/// selected and the last decision is "builtin-optimized:selected".
pub proof fn lemma_defaults_fall_back_to_optimized(
    cap: CapabilityKind,
    explicit: Option<ProviderCandidateView>,
    required: bool,
    files: Set<Seq<char>>,
    ext: Seq<char>,
)
    requires
        explicit is None || (!required && spec_validate_candidate(cap, explicit->0, 1, required, files, ext) is Err),
    ensures
        spec_resolve(default_registry(), cap, explicit, 1, required, files, ext) matches Ok(res)
            && res.selected == "builtin://optimized/"@ + capability_name(cap)
            && res.selected_source == ProviderSourceSpecView::BuiltInOptimized
            && res.decision_path.last() == "builtin-optimized"@ + ":selected"@,
{
    reveal_strlit("optimized");
    reveal_strlit("builtin://");
    reveal_strlit("/");
    reveal_strlit("builtin://optimized/");
    let kind = "optimized"@;
    assert forall|i: int| 0 <= i < kind.len() implies kind[i] != '-' by {}
    let cand = builtin_candidate(kind, ProviderSourceSpecView::BuiltInOptimized, cap);
    lemma_builtin_path_loads(kind, ProviderSourceSpecView::BuiltInOptimized, cap);
    assert(spec_validate_candidate(cap, cand, 1, false, files, ext) == Ok::<Seq<char>, ProviderErrorView>(cand.path));
    assert("builtin://"@ + kind + "/"@ =~= "builtin://optimized/"@);
    let reg = default_registry();
    let slots = resolution_slots(reg, cap, explicit, required);
    let s1 = slots.drop_first();
    let s2 = s1.drop_first();
    assert(slots[0] == ("explicit"@, explicit, required));
    assert(s1[0] == ("discovered"@, None::<ProviderCandidateView>, false));
    assert(s2[0] == ("builtin-optimized"@, Some(cand), false));
    let (a0, st0) = spec_slot("explicit"@, explicit, cap, 1, required, files, ext);
    assert(st0 == SlotStepView::Next);
    let d1 = Seq::<Seq<char>>::empty() + a0;
    let d2 = d1 + seq!["discovered"@ + ":missing"@];
    let (a2, st2) = spec_slot("builtin-optimized"@, Some(cand), cap, 1, false, files, ext);
    assert(st2 == SlotStepView::Selected(cand.path, ProviderSourceSpecView::BuiltInOptimized));
    assert((d2 + a2).last() == "builtin-optimized"@ + ":selected"@);
    let (a1, st1) = spec_slot("discovered"@, None, cap, 1, false, files, ext);
    assert(a1 == seq!["discovered"@ + ":missing"@] && st1 == SlotStepView::Next);
    assert(spec_resolve_slots(s1, cap, 1, required, files, ext, d1) == spec_resolve_slots(s2, cap, 1, required, files, ext, d2));
    assert(spec_resolve_slots(slots, cap, 1, required, files, ext, seq![]) == spec_resolve_slots(s1, cap, 1, required, files, ext, d1));
}

} // verus!
