//! Application startup: validates the configuration, then resolves a
//! provider for every capability.

use vstd::prelude::*;

use crate::plugins::{platform_library_extension, PluginFiles};
use crate::runtime::app_profile::{
    spec_disabled_comms, spec_enabled_comms, spec_input_mode, AppProfile, ProfileId,
};
use crate::runtime::diagnostics::{
    fallbacks_view, selections_view, spec_diagnostics_from_profile, FallbackStatus,
    StartupDiagnostics, StartupDiagnosticsView,
};
use crate::runtime::health::HealthReport;
use crate::runtime::provider_registry::{
    default_registry, lemma_defaults_fall_back_to_optimized, spec_resolve,
    strings_view, CapabilityKind, CapabilityTable,
    CapabilityTableView, ProviderError, ProviderErrorView, ProviderRegistry, ProviderRegistryView,
};
use crate::text::{contains_sub, str_contains};

verus! {

/// Why startup failed.
#[derive(Debug, Clone, PartialEq, Eq)]
pub enum StartupError {
    RequiredCapabilityMissing { capability: CapabilityKind },
    ProviderLoadFailed { capability: CapabilityKind },
    ProviderAbiMismatch { capability: CapabilityKind },
    StartupValidationFailed { reason: String },
}

pub enum StartupErrorView {
    RequiredCapabilityMissing { capability: CapabilityKind },
    ProviderLoadFailed { capability: CapabilityKind },
    ProviderAbiMismatch { capability: CapabilityKind },
    StartupValidationFailed { reason: Seq<char> },
}

impl View for StartupError {
    type V = StartupErrorView;

    open spec fn view(&self) -> StartupErrorView {
        match self {
            StartupError::RequiredCapabilityMissing { capability } => StartupErrorView::RequiredCapabilityMissing { capability: *capability },
            StartupError::ProviderLoadFailed { capability } => StartupErrorView::ProviderLoadFailed { capability: *capability },
            StartupError::ProviderAbiMismatch { capability } => StartupErrorView::ProviderAbiMismatch { capability: *capability },
            StartupError::StartupValidationFailed { reason } => StartupErrorView::StartupValidationFailed { reason: reason@ },
        }
    }
}

/// What the application asks of startup.
#[derive(Debug, Clone)]
pub struct StartupConfig {
    pub profile: ProfileId,
    pub plugin_search_paths: Vec<String>,
    pub explicit_providers: CapabilityTable,
    pub required_capabilities: Vec<CapabilityKind>,
    pub required_abi: u32,
}

pub struct StartupConfigView {
    pub profile: ProfileId,
    pub plugin_search_paths: Seq<Seq<char>>,
    pub explicit_providers: CapabilityTableView,
    pub required_capabilities: Seq<CapabilityKind>,
    pub required_abi: u32,
}

impl View for StartupConfig {
    type V = StartupConfigView;

    open spec fn view(&self) -> StartupConfigView {
        StartupConfigView {
            profile: self.profile,
            plugin_search_paths: strings_view(self.plugin_search_paths@),
            explicit_providers: self.explicit_providers@,
            required_capabilities: self.required_capabilities@,
            required_abi: self.required_abi,
        }
    }
}

/// A successful startup.
#[derive(Debug, Clone)]
pub struct StartupResult {
    pub diagnostics: StartupDiagnostics,
}

/// The started application: its startup result and its health.
#[derive(Debug)]
pub struct AppHost {
    pub startup: StartupResult,
    pub health: HealthReport,
}

impl AppHost {
    pub fn new(startup: StartupResult, health: HealthReport) -> (r: Self)
        ensures
            r.startup == startup,
            r.health == health,
    {
        AppHost { startup, health }
    }
}

/// A fallback chain succeeded when one of its decisions mentions "selected".
pub open spec fn spec_fallback_status(decisions: Seq<Seq<char>>) -> FallbackStatus {
    if exists|i: int| 0 <= i < decisions.len() && contains_sub(#[trigger] decisions[i], "selected"@) {
        FallbackStatus::Succeeded
    } else {
        FallbackStatus::Attempted
    }
}

/// One capability's step of startup: resolve it and record the selection,
/// or fail with the error that matches the resolution's error.
pub open spec fn spec_startup_step(
    cap: CapabilityKind,
    config: StartupConfigView,
    reg: ProviderRegistryView,
    files: Set<Seq<char>>,
    ext: Seq<char>,
    diag: StartupDiagnosticsView,
) -> Result<StartupDiagnosticsView, StartupErrorView> {
    let required = config.required_capabilities.contains(cap);
    match spec_resolve(reg, cap, config.explicit_providers.get(cap), config.required_abi, required, files, ext) {
        Ok(res) => Ok(
            StartupDiagnosticsView {
                selected_providers: diag.selected_providers.push((cap, res.selected)),
                fallback_status: diag.fallback_status.push((cap, spec_fallback_status(res.decision_path), res.decision_path)),
                ..diag
            },
        ),
        Err(ProviderErrorView::AbiMismatch { .. }) => Err(StartupErrorView::ProviderAbiMismatch { capability: cap }),
        Err(_) => if required {
            Err(StartupErrorView::RequiredCapabilityMissing { capability: cap })
        } else {
            Err(StartupErrorView::ProviderLoadFailed { capability: cap })
        },
    }
}

/// What startup gives: an error when no plugin search path is configured,
/// else the outcome of resolving compute, transport and clock in that order.
pub open spec fn spec_startup(
    config: StartupConfigView,
    reg: ProviderRegistryView,
    files: Set<Seq<char>>,
    ext: Seq<char>,
) -> Result<StartupDiagnosticsView, StartupErrorView> {
    if config.plugin_search_paths.len() == 0 {
        Err(StartupErrorView::StartupValidationFailed { reason: "plugin_search_paths cannot be empty"@ })
    } else {
        let base = StartupDiagnosticsView {
            plugin_search_paths: config.plugin_search_paths,
            ..spec_diagnostics_from_profile(
                config.profile,
                spec_enabled_comms(config.profile),
                spec_disabled_comms(config.profile),
                spec_input_mode(config.profile),
            )
        };
        match spec_startup_step(CapabilityKind::Compute, config, reg, files, ext, base) {
            Err(e) => Err(e),
            Ok(d1) => match spec_startup_step(CapabilityKind::Transport, config, reg, files, ext, d1) {
                Err(e) => Err(e),
                Ok(d2) => spec_startup_step(CapabilityKind::Clock, config, reg, files, ext, d2),
            },
        }
    }
}

/// A startup result, taken by its view.
pub open spec fn startup_result_view(r: Result<StartupResult, StartupError>) -> Result<StartupDiagnosticsView, StartupErrorView> {
    match r {
        Ok(x) => Ok(x.diagnostics@),
        Err(e) => Err(e@),
    }
}

fn contains_capability(caps: &Vec<CapabilityKind>, cap: CapabilityKind) -> (r: bool)
    ensures
        r == caps@.contains(cap),
{
    let mut i: usize = 0;
    while i < caps.len()
        invariant
            i <= caps@.len(),
            forall|k: int| 0 <= k < i ==> caps@[k] != cap,
        decreases caps@.len() - i,
    {
        if caps[i] == cap {
            assert(caps@[i as int] == cap);
            return true;
        }
        i = i + 1;
    }
    false
}

fn any_mentions_selected(decisions: &Vec<String>) -> (r: bool)
    ensures
        r == exists|i: int| 0 <= i < decisions@.len() && contains_sub(#[trigger] strings_view(decisions@)[i], "selected"@),
{
    let mut i: usize = 0;
    while i < decisions.len()
        invariant
            i <= decisions@.len(),
            forall|k: int| 0 <= k < i ==> !contains_sub(#[trigger] strings_view(decisions@)[k], "selected"@),
        decreases decisions@.len() - i,
    {
        if str_contains(decisions[i].as_str(), "selected") {
            assert(contains_sub(strings_view(decisions@)[i as int], "selected"@));
            return true;
        }
        i = i + 1;
    }
    false
}

fn startup_step(
    cap: CapabilityKind,
    config: &StartupConfig,
    registry: &ProviderRegistry,
    files: &PluginFiles,
    extension: &str,
    diagnostics: &mut StartupDiagnostics,
) -> (r: Result<(), StartupError>)
    ensures
        match spec_startup_step(cap, config@, registry@, files@, extension@, old(diagnostics)@) {
            Ok(d) => r is Ok && final(diagnostics)@ == d,
            Err(e) => r matches Err(x) && x@ == e,
        },
{
    let required = contains_capability(&config.required_capabilities, cap);
    let explicit = match config.explicit_providers.get(cap) {
        Some(c) => Some(c.duplicate()),
        None => None,
    };
    match registry.resolve_for_platform(cap, explicit, config.required_abi, required, files, extension) {
        Ok(res) => {
            let status = if any_mentions_selected(&res.decision_path) {
                FallbackStatus::Succeeded
            } else {
                FallbackStatus::Attempted
            };
            let ghost before = *old(diagnostics);
            diagnostics.selected_providers.push((cap, res.selected));
            diagnostics.fallback_status.push((cap, status, res.decision_path));
            proof {
                assert(selections_view(diagnostics.selected_providers@) =~= selections_view(before.selected_providers@).push((cap, res.selected@)));
                assert(fallbacks_view(diagnostics.fallback_status@) =~= fallbacks_view(before.fallback_status@).push(
                    (cap, status, strings_view(res.decision_path@)),
                ));
            }
            Ok(())
        },
        Err(ProviderError::AbiMismatch { .. }) => Err(StartupError::ProviderAbiMismatch { capability: cap }),
        Err(_) => {
            if required {
                Err(StartupError::RequiredCapabilityMissing { capability: cap })
            } else {
                Err(StartupError::ProviderLoadFailed { capability: cap })
            }
        },
    }
}

/// Starts the application given the platform's library extension: the search
/// paths must not be empty, then a provider is resolved for compute,
/// transport and clock in that order. A resolution that fails with an ABI
/// mismatch fails startup with `ProviderAbiMismatch`; any other failure with
/// `RequiredCapabilityMissing` for a required capability and
/// `ProviderLoadFailed` otherwise.
pub fn startup_for_platform(
    config: StartupConfig,
    registry: &ProviderRegistry,
    files: &PluginFiles,
    extension: &str,
) -> (r: Result<StartupResult, StartupError>)
    ensures
        startup_result_view(r) == spec_startup(config@, registry@, files@, extension@),
{
    if config.plugin_search_paths.len() == 0 {
        return Err(StartupError::StartupValidationFailed { reason: "plugin_search_paths cannot be empty".to_string() });
    }
    let profile = AppProfile::new(config.profile);
    let mut diagnostics = StartupDiagnostics::from_profile(&profile);
    diagnostics.plugin_search_paths = config.plugin_search_paths.clone();
    proof {
        assert(strings_view(diagnostics.plugin_search_paths@) =~= strings_view(config.plugin_search_paths@));
    }
    startup_step(CapabilityKind::Compute, &config, registry, files, extension, &mut diagnostics)?;
    startup_step(CapabilityKind::Transport, &config, registry, files, extension, &mut diagnostics)?;
    startup_step(CapabilityKind::Clock, &config, registry, files, extension, &mut diagnostics)?;
    Ok(StartupResult { diagnostics })
}

/// Starts the application on this platform (see `startup_for_platform`).
pub fn startup(config: StartupConfig, registry: &ProviderRegistry, files: &PluginFiles) -> (r: Result<StartupResult, StartupError>)
    ensures
        startup_result_view(r) == spec_startup(config@, registry@, files@, "so"@)
            || startup_result_view(r) == spec_startup(config@, registry@, files@, "dll"@),
{
    startup_for_platform(config, registry, files, platform_library_extension())
}

} // verus!

verus! {

proof fn lemma_selected_is_mentioned(label: Seq<char>)
    ensures
        contains_sub(label + ":selected"@, "selected"@),
{
    reveal_strlit(":selected");
    reveal_strlit("selected");
    let hay = label + ":selected"@;
    let i: int = label.len() as int + 1;
    assert(hay.subrange(i, i + 8) =~= "selected"@);
    assert(crate::text::occurs_at(hay, "selected"@, i));
}

/// Required capabilities as startup treats them: a resolution that succeeds
/// for a required capability reports `Succeeded`.
proof fn lemma_required_step_succeeds(
    cap: CapabilityKind,
    config: StartupConfigView,
    reg: ProviderRegistryView,
    files: Set<Seq<char>>,
    ext: Seq<char>,
    diag: StartupDiagnosticsView,
)
    requires
        config.required_capabilities.contains(cap),
        spec_startup_step(cap, config, reg, files, ext, diag) is Ok,
    ensures
        ({
            let d = spec_startup_step(cap, config, reg, files, ext, diag)->Ok_0;
            &&& d.fallback_status == diag.fallback_status.push((cap, FallbackStatus::Succeeded, d.fallback_status.last().2))
            &&& d.selected_providers.len() == diag.selected_providers.len() + 1
            &&& d.selected_providers.last().0 == cap
        }),
{
    crate::runtime::provider_registry::lemma_required_capability_resolution_selects(
        reg,
        cap,
        config.explicit_providers.get(cap),
        config.required_abi,
        files,
        ext,
    );
    let res = spec_resolve(reg, cap, config.explicit_providers.get(cap), config.required_abi, true, files, ext)->Ok_0;
    let last = res.decision_path.last();
    let n = res.decision_path.len() - 1;
    assert(res.decision_path[n] == last);
    if last == "explicit"@ + ":selected"@ {
        lemma_selected_is_mentioned("explicit"@);
    } else if last == "discovered"@ + ":selected"@ {
        lemma_selected_is_mentioned("discovered"@);
    } else if last == "builtin-optimized"@ + ":selected"@ {
        lemma_selected_is_mentioned("builtin-optimized"@);
    } else {
        lemma_selected_is_mentioned("builtin-reference"@);
    }
    assert(contains_sub(res.decision_path[n], "selected"@));
}

/// A startup that succeeds has resolved compute, transport and clock in that
/// order, and reports `Succeeded` for every required capability: a required
/// capability is never left unserved.
pub proof fn lemma_startup_serves_required_capabilities(
    config: StartupConfigView,
    reg: ProviderRegistryView,
    files: Set<Seq<char>>,
    ext: Seq<char>,
)
    requires
        spec_startup(config, reg, files, ext) is Ok,
    ensures
        ({
            let d = spec_startup(config, reg, files, ext)->Ok_0;
            let caps = seq![CapabilityKind::Compute, CapabilityKind::Transport, CapabilityKind::Clock];
            &&& d.selected_providers.len() == 3
            &&& d.fallback_status.len() == 3
            &&& forall|k: int| 0 <= k < 3 ==> #[trigger] d.selected_providers[k].0 == caps[k] && d.fallback_status[k].0 == caps[k]
            &&& forall|k: int| 0 <= k < 3 && config.required_capabilities.contains(caps[k]) ==> #[trigger] d.fallback_status[k].1
                == FallbackStatus::Succeeded
        }),
{
    let base = StartupDiagnosticsView {
        plugin_search_paths: config.plugin_search_paths,
        ..spec_diagnostics_from_profile(
            config.profile,
            spec_enabled_comms(config.profile),
            spec_disabled_comms(config.profile),
            spec_input_mode(config.profile),
        )
    };
    let d1 = spec_startup_step(CapabilityKind::Compute, config, reg, files, ext, base)->Ok_0;
    let d2 = spec_startup_step(CapabilityKind::Transport, config, reg, files, ext, d1)->Ok_0;
    let d3 = spec_startup_step(CapabilityKind::Clock, config, reg, files, ext, d2)->Ok_0;
    if config.required_capabilities.contains(CapabilityKind::Compute) {
        lemma_required_step_succeeds(CapabilityKind::Compute, config, reg, files, ext, base);
    }
    if config.required_capabilities.contains(CapabilityKind::Transport) {
        lemma_required_step_succeeds(CapabilityKind::Transport, config, reg, files, ext, d1);
    }
    if config.required_capabilities.contains(CapabilityKind::Clock) {
        lemma_required_step_succeeds(CapabilityKind::Clock, config, reg, files, ext, d2);
    }
    assert(d3.fallback_status[0] == d1.fallback_status[0]);
    assert(d3.fallback_status[1] == d2.fallback_status[1]);
    assert(d3.selected_providers[0] == d1.selected_providers[0]);
    assert(d3.selected_providers[1] == d2.selected_providers[1]);
}

/// When nothing can serve a required compute capability (no explicit,
/// discovered or built-in candidate), startup with search paths fails with
/// `RequiredCapabilityMissing` for compute.
pub proof fn lemma_startup_fails_without_compute(
    config: StartupConfigView,
    reg: ProviderRegistryView,
    files: Set<Seq<char>>,
    ext: Seq<char>,
)
    requires
        config.plugin_search_paths.len() > 0,
        config.required_capabilities.contains(CapabilityKind::Compute),
        config.explicit_providers.get(CapabilityKind::Compute) is None,
        reg.discovered.get(CapabilityKind::Compute) is None,
        reg.built_in_optimized.get(CapabilityKind::Compute) is None,
        reg.built_in_reference.get(CapabilityKind::Compute) is None,
    ensures
        spec_startup(config, reg, files, ext) == Err::<StartupDiagnosticsView, StartupErrorView>(
            StartupErrorView::RequiredCapabilityMissing { capability: CapabilityKind::Compute },
        ),
{
    crate::runtime::provider_registry::lemma_nothing_to_select(reg, CapabilityKind::Compute, config.required_abi, true, files, ext);
}

} // verus!

verus! {

/// A capability that the default registry can serve under this configuration:
/// its explicit candidate is absent, validates, or is optional.
pub open spec fn servable_by_defaults(
    cap: CapabilityKind,
    config: StartupConfigView,
    files: Set<Seq<char>>,
    ext: Seq<char>,
) -> bool {
    let required = config.required_capabilities.contains(cap);
    match config.explicit_providers.get(cap) {
        None => true,
        Some(c) => !required || crate::runtime::provider_registry::spec_validate_candidate(cap, c, 1, required, files, ext) is Ok,
    }
}

proof fn lemma_default_step_succeeds(
    cap: CapabilityKind,
    config: StartupConfigView,
    files: Set<Seq<char>>,
    ext: Seq<char>,
    diag: StartupDiagnosticsView,
)
    requires
        config.required_abi == 1,
        servable_by_defaults(cap, config, files, ext),
    ensures
        spec_startup_step(cap, config, default_registry(), files, ext, diag) is Ok,
{
    let required = config.required_capabilities.contains(cap);
    let explicit = config.explicit_providers.get(cap);
    match explicit {
        Some(c) => {
            if crate::runtime::provider_registry::spec_validate_candidate(cap, c, 1, required, files, ext) is Ok {
                crate::runtime::provider_registry::lemma_explicit_candidate_wins(default_registry(), cap, c, 1, required, files, ext);
            } else {
                lemma_defaults_fall_back_to_optimized(cap, explicit, required, files, ext);
            }
        },
        None => {
            lemma_defaults_fall_back_to_optimized(cap, explicit, required, files, ext);
        },
    }
}

/// With the default registry, ABI 1 and at least one search path, startup
/// succeeds whenever every capability is servable: none is left without a
/// provider, since the built-in providers back every capability.
pub proof fn lemma_default_startup_succeeds(config: StartupConfigView, files: Set<Seq<char>>, ext: Seq<char>)
    requires
        config.plugin_search_paths.len() > 0,
        config.required_abi == 1,
        servable_by_defaults(CapabilityKind::Compute, config, files, ext),
        servable_by_defaults(CapabilityKind::Transport, config, files, ext),
        servable_by_defaults(CapabilityKind::Clock, config, files, ext),
    ensures
        spec_startup(config, default_registry(), files, ext) is Ok,
{
    let reg = default_registry();
    let base = StartupDiagnosticsView {
        plugin_search_paths: config.plugin_search_paths,
        ..spec_diagnostics_from_profile(
            config.profile,
            spec_enabled_comms(config.profile),
            spec_disabled_comms(config.profile),
            spec_input_mode(config.profile),
        )
    };
    lemma_default_step_succeeds(CapabilityKind::Compute, config, files, ext, base);
    let d1 = spec_startup_step(CapabilityKind::Compute, config, reg, files, ext, base)->Ok_0;
    lemma_default_step_succeeds(CapabilityKind::Transport, config, files, ext, d1);
    let d2 = spec_startup_step(CapabilityKind::Transport, config, reg, files, ext, d1)->Ok_0;
    lemma_default_step_succeeds(CapabilityKind::Clock, config, files, ext, d2);
}

} // verus!
