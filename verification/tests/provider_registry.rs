use target_bridge::plugins::PluginFiles;
use target_bridge::runtime::provider_registry::{
    CapabilityKind, CapabilityTable, ProviderCandidate, ProviderError, ProviderRegistry, ProviderSourceSpec,
};

#[test]
fn explicit_provider_wins_selection_order() {
    let registry = ProviderRegistry::with_defaults();
    let explicit = ProviderCandidate {
        path: "plugin://explicit-compute".into(),
        abi: 1,
        source: ProviderSourceSpec::Adapter,
    };
    let res = registry
        .resolve(CapabilityKind::Compute, Some(explicit.clone()), 1, true, &PluginFiles::new())
        .expect("explicit provider should resolve");
    assert_eq!(res.selected, explicit.path);
    assert_eq!(res.decision_path.last(), Some(&"explicit:selected".to_string()));
}

#[test]
fn plugin_path_without_extension_is_invalid_spec() {
    let registry = ProviderRegistry::with_defaults();
    let explicit = ProviderCandidate {
        path: "plugin://bad".into(),
        abi: 1,
        source: ProviderSourceSpec::PluginPath("/tmp/plugin-no-ext".into()),
    };
    let err = registry
        .resolve(CapabilityKind::Compute, Some(explicit), 1, true, &PluginFiles::new())
        .expect_err("invalid spec expected");
    assert!(matches!(err, ProviderError::InvalidSpec { .. }));
}

#[test]
fn fallback_records_every_decision_in_order() {
    let registry = ProviderRegistry::with_defaults();
    let explicit = ProviderCandidate { path: "adapter://x".into(), abi: 2, source: ProviderSourceSpec::Adapter };
    let res = registry
        .resolve(CapabilityKind::Clock, Some(explicit), 1, false, &PluginFiles::new())
        .expect("falls back to the optimized built-in");
    assert_eq!(res.selected, "builtin://optimized/Clock");
    assert_eq!(res.selected_source, ProviderSourceSpec::BuiltInOptimized);
    assert_eq!(
        res.decision_path,
        vec![
            "explicit:source=Adapter".to_string(),
            "explicit:rejected:AbiMismatch { reason: \"candidate abi 2 != required 1\" }".to_string(),
            "discovered:missing".to_string(),
            "builtin-optimized:source=BuiltInOptimized".to_string(),
            "builtin-optimized:selected".to_string(),
        ]
    );
}

#[test]
fn simulated_load_failure_falls_through_to_reference() {
    let mut registry = ProviderRegistry::with_defaults();
    registry.discovered_mut().insert(
        CapabilityKind::Transport,
        ProviderCandidate { path: "adapter://load-fail".into(), abi: 1, source: ProviderSourceSpec::Adapter },
    );
    let res = registry
        .resolve(CapabilityKind::Transport, None, 1, true, &PluginFiles::new())
        .expect("optimized built-in still serves");
    assert_eq!(res.decision_path[0], "explicit:missing");
    assert_eq!(res.decision_path[1], "discovered:source=Adapter");
    assert_eq!(
        res.decision_path[2],
        "discovered:rejected:LoadFailed { reason: \"provider adapter://load-fail failed during simulated load\" }"
    );
    assert_eq!(res.selected, "builtin://optimized/Transport");
}

#[test]
fn empty_registry_resolves_optional_to_none_and_required_to_error() {
    let registry = ProviderRegistry::empty();
    let res = registry
        .resolve(CapabilityKind::Compute, None, 1, false, &PluginFiles::new())
        .expect("optional capability");
    assert_eq!(res.selected, "none-optional");
    assert_eq!(res.selected_source, ProviderSourceSpec::BuiltInReference);
    assert_eq!(res.decision_path.len(), 4);
    let err = registry
        .resolve(CapabilityKind::Clock, None, 1, true, &PluginFiles::new())
        .expect_err("required capability");
    assert_eq!(err, ProviderError::LoadFailed { reason: "required capability Clock unresolved".into() });
}

#[test]
fn plugin_candidates_are_loaded_from_known_files() {
    let registry = ProviderRegistry::empty();
    let missing = ProviderCandidate {
        path: "plugin://compute".into(),
        abi: 1,
        source: ProviderSourceSpec::PluginPath("/opt/plugins/compute.so".into()),
    };
    let res = registry
        .resolve(CapabilityKind::Compute, Some(missing.clone()), 1, false, &PluginFiles::new())
        .expect("optional missing plugin is tolerated");
    assert_eq!(res.selected, "optional-missing:/opt/plugins/compute.so");
    assert_eq!(res.decision_path[0], "explicit:source=PluginPath(\"/opt/plugins/compute.so\")");

    let mut files = PluginFiles::new();
    files.insert("/opt/plugins/compute.so".into());
    let err = registry
        .resolve(CapabilityKind::Compute, Some(missing), 1, true, &files)
        .expect_err("dynamic loading is unavailable");
    match err {
        ProviderError::LoadFailed { reason } => assert_eq!(
            reason,
            "plugin load failed at /opt/plugins/compute.so: LibraryOpenFailed { reason: \"dynamic loading backend unavailable in this build\" }"
        ),
        other => panic!("unexpected error {other:?}"),
    }
}

#[test]
fn capability_table_replaces_and_removes() {
    let mut table = CapabilityTable::new();
    let a = ProviderCandidate { path: "a".into(), abi: 1, source: ProviderSourceSpec::Adapter };
    let b = ProviderCandidate { path: "b".into(), abi: 1, source: ProviderSourceSpec::Adapter };
    assert_eq!(table.insert(CapabilityKind::Compute, a.clone()), None);
    assert_eq!(table.insert(CapabilityKind::Compute, b.clone()), Some(a));
    assert_eq!(table.get(CapabilityKind::Compute), Some(&b));
    assert_eq!(table.get(CapabilityKind::Clock), None);
    assert_eq!(table.remove(CapabilityKind::Compute), Some(b));
    assert_eq!(table.get(CapabilityKind::Compute), None);
}

#[test]
fn plugin_source_is_recorded_with_the_debug_text_of_its_path() {
    let registry = ProviderRegistry::with_defaults();
    let path = "/opt/plugins/it's-compute.so";
    let explicit = ProviderCandidate {
        path: "plugin://compute".into(),
        abi: 1,
        source: ProviderSourceSpec::PluginPath(path.into()),
    };
    let res = registry
        .resolve(CapabilityKind::Compute, Some(explicit), 1, false, &PluginFiles::new())
        .expect("optional plugin falls back");
    let expected = format!("explicit:source=PluginPath({:?})", std::path::Path::new(path));
    assert_eq!(res.decision_path[0], expected);
}
