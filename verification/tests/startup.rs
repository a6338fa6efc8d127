use target_bridge::plugins::PluginFiles;
use target_bridge::runtime::app_profile::{AppProfile, CommType, InputMode, ProfileId};
use target_bridge::runtime::diagnostics::{FallbackStatus, StartupDiagnostics};
use target_bridge::runtime::health::{HealthReport, HealthState};
use target_bridge::runtime::provider_registry::{
    CapabilityKind, CapabilityTable, ProviderCandidate, ProviderRegistry, ProviderSourceSpec,
};
use target_bridge::runtime::startup::{startup, AppHost, StartupConfig, StartupError};

#[test]
fn optional_provider_missing_falls_back_successfully() {
    let registry = ProviderRegistry::with_defaults();
    let cfg = StartupConfig {
        profile: ProfileId::ReplayRunner,
        plugin_search_paths: vec!["./plugins".into()],
        explicit_providers: CapabilityTable::new(),
        required_capabilities: vec![],
        required_abi: 1,
    };
    let result = startup(cfg, &registry, &PluginFiles::new()).expect("startup should succeed");
    assert!(result
        .diagnostics
        .fallback_status
        .iter()
        .all(|(_, status, _)| *status == FallbackStatus::Succeeded));
}

#[test]
fn required_provider_missing_fails_startup() {
    let registry = ProviderRegistry::empty();
    let cfg = StartupConfig {
        profile: ProfileId::Target5Real,
        plugin_search_paths: vec!["./plugins".into()],
        explicit_providers: CapabilityTable::new(),
        required_capabilities: vec![CapabilityKind::Compute],
        required_abi: 1,
    };
    let err = startup(cfg, &registry, &PluginFiles::new()).expect_err("required capability should fail");
    assert_eq!(err, StartupError::RequiredCapabilityMissing { capability: CapabilityKind::Compute });
}

#[test]
fn abi_mismatch_path_has_clear_error() {
    let registry = ProviderRegistry::with_defaults();
    let mut explicit = CapabilityTable::new();
    explicit.insert(
        CapabilityKind::Transport,
        ProviderCandidate { path: "plugin://transport".into(), abi: 2, source: ProviderSourceSpec::Adapter },
    );
    let cfg = StartupConfig {
        profile: ProfileId::WindowsTarget10Sim,
        plugin_search_paths: vec!["./plugins".into()],
        explicit_providers: explicit,
        required_capabilities: vec![CapabilityKind::Transport],
        required_abi: 1,
    };
    let err = startup(cfg, &registry, &PluginFiles::new()).expect_err("abi mismatch should fail");
    assert_eq!(err, StartupError::ProviderAbiMismatch { capability: CapabilityKind::Transport });
}

#[test]
fn empty_search_paths_fail_validation() {
    let cfg = StartupConfig {
        profile: ProfileId::Target10Real,
        plugin_search_paths: vec![],
        explicit_providers: CapabilityTable::new(),
        required_capabilities: vec![],
        required_abi: 1,
    };
    let err = startup(cfg, &ProviderRegistry::with_defaults(), &PluginFiles::new()).expect_err("no search paths");
    assert_eq!(
        err,
        StartupError::StartupValidationFailed { reason: "plugin_search_paths cannot be empty".into() }
    );
}

#[test]
fn startup_records_profile_and_selections() {
    let mut explicit = CapabilityTable::new();
    explicit.insert(
        CapabilityKind::Compute,
        ProviderCandidate { path: "adapter://target5".into(), abi: 1, source: ProviderSourceSpec::Adapter },
    );
    let cfg = StartupConfig {
        profile: ProfileId::Target5Real,
        plugin_search_paths: vec!["./plugins".into(), "/usr/lib/plugins".into()],
        explicit_providers: explicit,
        required_capabilities: vec![CapabilityKind::Compute],
        required_abi: 1,
    };
    let result = startup(cfg, &ProviderRegistry::empty(), &PluginFiles::new()).expect("starts");
    let d = result.diagnostics;
    assert_eq!(d.selected_profile, "target5-real");
    assert_eq!(d.input_mode, "Live");
    assert_eq!(d.enabled_comms, vec![CommType::Ethernet]);
    assert_eq!(d.plugin_search_paths, vec!["./plugins".to_string(), "/usr/lib/plugins".to_string()]);
    assert_eq!(
        d.selected_providers,
        vec![
            (CapabilityKind::Compute, "adapter://target5".to_string()),
            (CapabilityKind::Transport, "none-optional".to_string()),
            (CapabilityKind::Clock, "none-optional".to_string()),
        ]
    );
    assert_eq!(d.fallback_status[0].1, FallbackStatus::Succeeded);
    assert_eq!(d.fallback_status[1].1, FallbackStatus::Attempted);
    assert_eq!(d.fallback_status[2].1, FallbackStatus::Attempted);

    let host = AppHost::new(
        target_bridge::runtime::startup::StartupResult { diagnostics: d.clone() },
        HealthReport { state: HealthState::Ready, reason: "ok".into() },
    );
    assert_eq!(host.health.state, HealthState::Ready);
    assert_eq!(host.startup.diagnostics, d);
}

#[test]
fn profile_matrix_matches_the_documented_table() {
    let p = AppProfile::new(ProfileId::Target10Real);
    assert_eq!(p.enabled_comms, vec![CommType::Ethernet, CommType::CommType1, CommType::CommType2]);
    assert_eq!(p.disabled_comms, vec![CommType::LoopbackEthernet]);
    assert_eq!(p.input_mode, InputMode::Live);
    let p = AppProfile::new(ProfileId::WindowsTarget10Sim);
    assert_eq!(p.enabled_comms, vec![CommType::LoopbackEthernet, CommType::CommType1, CommType::CommType2]);
    assert_eq!(p.disabled_comms, vec![CommType::Ethernet]);
    assert_eq!(p.input_mode, InputMode::Simulated);
    let p = AppProfile::new(ProfileId::ReplayRunner);
    assert_eq!(p.input_mode, InputMode::Replay);
    assert_eq!(ProfileId::WindowsTarget5Sim.as_str(), "windows-target5-sim");
    let d = StartupDiagnostics::from_profile(&p);
    assert_eq!(d.selected_profile, "replay-runner");
    assert_eq!(d.input_mode, "Replay");
    assert!(d.selected_providers.is_empty());
}

#[test]
fn default_registry_serves_every_capability_of_an_app_profile() {
    let registry = ProviderRegistry::with_defaults();
    let mut explicit = CapabilityTable::new();
    explicit.insert(
        CapabilityKind::Compute,
        ProviderCandidate { path: "adapter://target5".into(), abi: 1, source: ProviderSourceSpec::Adapter },
    );
    explicit.insert(
        CapabilityKind::Transport,
        ProviderCandidate { path: "adapter://ethernet".into(), abi: 1, source: ProviderSourceSpec::Adapter },
    );
    let cfg = StartupConfig {
        profile: ProfileId::Target5Real,
        plugin_search_paths: vec!["./plugins".into()],
        explicit_providers: explicit,
        required_capabilities: vec![CapabilityKind::Compute, CapabilityKind::Transport],
        required_abi: 1,
    };
    let started = startup(cfg, &registry, &PluginFiles::new()).expect("startup should succeed");
    assert_eq!(
        started.diagnostics.selected_providers,
        vec![
            (CapabilityKind::Compute, "adapter://target5".to_string()),
            (CapabilityKind::Transport, "adapter://ethernet".to_string()),
            (CapabilityKind::Clock, "builtin://optimized/Clock".to_string()),
        ]
    );
    assert_eq!(started.diagnostics.selected_profile, "target5-real");
}
