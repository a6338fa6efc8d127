use target_bridge::plugins::{
    decide_load, extension_of, invoke_outcome, library_extension_for, load_plugin, platform_library_extension, Capability, LoadErrorKind, LoadOutcome,
    LoadStrategy, PluginFiles, PluginLoadRequest, CAPABILITY_COMPUTE, SYMBOL_PLUGIN_DESCRIPTOR_V1,
    SYMBOL_PLUGIN_FN_TABLE_V1,
};

fn touch(name: &str) -> (String, PluginFiles) {
    let path = format!("/tmp/plugin-loader-unit-tests/{name}");
    let mut files = PluginFiles::new();
    files.insert(path.clone());
    (path, files)
}

#[test]
fn simulated_symbol_lookup_missing_descriptor() {
    let (path, files) = touch(&format!("compute-missing-desc.{}", platform_library_extension()));
    let req = PluginLoadRequest {
        path,
        expected_capability: Capability::Compute,
        required: true,
        strategy: LoadStrategy::Simulated,
    };
    let err = load_plugin(&req, &files).expect_err("expected missing descriptor");
    assert!(
        matches!(err.reason, LoadErrorKind::MissingRequiredSymbol { symbol } if symbol == SYMBOL_PLUGIN_DESCRIPTOR_V1)
    );
}

#[test]
fn capability_contract_pass_and_fail() {
    let (pass_path, pass_files) = touch(&format!("transport-valid.{}", platform_library_extension()));
    let pass_req = PluginLoadRequest {
        path: pass_path,
        expected_capability: Capability::Transport,
        required: true,
        strategy: LoadStrategy::Simulated,
    };
    assert!(matches!(load_plugin(&pass_req, &pass_files), Ok(LoadOutcome::Loaded(_))));

    let (fail_path, fail_files) = touch(&format!("compute-valid.{}", platform_library_extension()));
    let fail_req = PluginLoadRequest {
        path: fail_path,
        expected_capability: Capability::Clock,
        required: true,
        strategy: LoadStrategy::Simulated,
    };
    let err = load_plugin(&fail_req, &fail_files).expect_err("expected capability mismatch");
    assert!(
        matches!(err.reason, LoadErrorKind::CapabilityMismatch { expected: Capability::Clock, found_capability_id } if found_capability_id == CAPABILITY_COMPUTE)
    );
}

#[test]
fn dynamic_loader_open_failure_is_typed() {
    let (path, files) = touch(&format!("not-a-real-library.{}", platform_library_extension()));
    let req = PluginLoadRequest {
        path,
        expected_capability: Capability::Compute,
        required: true,
        strategy: LoadStrategy::Dynamic,
    };
    let err = load_plugin(&req, &files).expect_err("expected open failure");
    assert!(matches!(err.reason, LoadErrorKind::LibraryOpenFailed { .. }));
}

#[test]
fn valid_plugin_accepted() {
    let ext = platform_library_extension();
    let (path, files) = touch(&format!("compute-valid.{ext}"));
    let req = PluginLoadRequest {
        path,
        expected_capability: Capability::Compute,
        required: true,
        strategy: LoadStrategy::Simulated,
    };
    let outcome = load_plugin(&req, &files).expect("plugin should load");
    assert!(matches!(outcome, LoadOutcome::Loaded(_)));
}

#[test]
fn abi_mismatch_rejected() {
    let ext = platform_library_extension();
    let (path, files) = touch(&format!("compute-abi2.{ext}"));
    let req = PluginLoadRequest {
        path: path.clone(),
        expected_capability: Capability::Compute,
        required: true,
        strategy: LoadStrategy::Simulated,
    };
    let err = load_plugin(&req, &files).expect_err("abi mismatch expected");
    assert_eq!(err.plugin_path_attempted, path);
    assert!(matches!(err.reason, LoadErrorKind::AbiMismatch { .. }));
}

#[test]
fn missing_optional_plugin_falls_back() {
    let ext = platform_library_extension();
    let path = format!("/tmp/missing-optional.{ext}");
    let req = PluginLoadRequest {
        path: path.clone(),
        expected_capability: Capability::Compute,
        required: false,
        strategy: LoadStrategy::Simulated,
    };
    let outcome = load_plugin(&req, &PluginFiles::new()).expect("optional missing should not fail");
    assert!(matches!(outcome, LoadOutcome::OptionalMissing { attempted_path } if attempted_path == path));
}

#[test]
fn missing_required_plugin_fails_startup() {
    let ext = platform_library_extension();
    let path = format!("/tmp/missing-required.{ext}");
    let req = PluginLoadRequest {
        path: path.clone(),
        expected_capability: Capability::Compute,
        required: true,
        strategy: LoadStrategy::Simulated,
    };
    let err = load_plugin(&req, &PluginFiles::new()).expect_err("required missing should fail");
    assert_eq!(err.plugin_path_attempted, path);
    assert!(matches!(err.reason, LoadErrorKind::NotFound));
}

#[test]
fn required_plugin_mismatch_is_detectable() {
    let ext = platform_library_extension();
    let (path, files) = touch(&format!("compute-abi2.{ext}"));
    let req = PluginLoadRequest {
        path: path.clone(),
        expected_capability: Capability::Compute,
        required: true,
        strategy: LoadStrategy::Simulated,
    };
    let err = load_plugin(&req, &files).expect_err("abi mismatch expected");
    assert_eq!(err.plugin_path_attempted, path);
    assert!(matches!(err.reason, LoadErrorKind::AbiMismatch { .. }));
}

#[test]
fn optional_plugin_fallback_is_detectable() {
    let ext = platform_library_extension();
    let path = format!("/tmp/missing-vslice-optional.{ext}");
    let req = PluginLoadRequest {
        path: path.clone(),
        expected_capability: Capability::Compute,
        required: false,
        strategy: LoadStrategy::Simulated,
    };
    let outcome = load_plugin(&req, &PluginFiles::new()).expect("fallback should be non-fatal");
    assert!(matches!(outcome, LoadOutcome::OptionalMissing { attempted_path } if attempted_path == path));
}

#[test]
fn load_decisions_on_extension_table_and_debug_text() {
    let req = PluginLoadRequest {
        path: "/p/clock-missing-table.so".into(),
        expected_capability: Capability::Clock,
        required: true,
        strategy: LoadStrategy::Simulated,
    };
    let err = decide_load(&req, true, "so").expect_err("no table");
    assert!(matches!(err.reason, LoadErrorKind::MissingRequiredSymbol { symbol } if symbol == SYMBOL_PLUGIN_FN_TABLE_V1));
    let err = decide_load(&req, true, "dll").expect_err("wrong extension");
    assert_eq!(err.reason, LoadErrorKind::UnsupportedExtension);

    let mut text = String::new();
    LoadErrorKind::InvokeFailed { code: -12 }.push_debug(&mut text);
    assert_eq!(text, format!("{:?}", LoadErrorKind::InvokeFailed { code: -12 }));
    let kind = LoadErrorKind::AbiMismatch {
        expected: target_bridge::plugins::AbiVersion { major: 1, minor: 0, patch: 0 },
        found: target_bridge::plugins::AbiVersion { major: 2, minor: 0, patch: 17 },
    };
    let mut text = String::new();
    kind.push_debug(&mut text);
    assert_eq!(text, format!("{kind:?}"));
    let kind = LoadErrorKind::CapabilityMismatch { expected: Capability::Transport, found_capability_id: 3 };
    let mut text = String::new();
    kind.push_debug(&mut text);
    assert_eq!(text, format!("{kind:?}"));

    assert_eq!(invoke_outcome(0), Ok(()));
    assert_eq!(invoke_outcome(21), Err(LoadErrorKind::InvokeFailed { code: 21 }));
    assert_eq!(Capability::Clock.as_abi_id(), 3);
}

#[test]
fn library_extension_follows_the_path_separator() {
    assert_eq!(library_extension_for('\\'), "dll");
    assert_eq!(library_extension_for('/'), "so");
    let here = platform_library_extension();
    assert_eq!(here, library_extension_for(std::path::MAIN_SEPARATOR));
}

#[test]
fn extension_is_what_follows_the_last_dot_of_the_file_name() {
    assert_eq!(extension_of("dir/lib.so"), Some("so".to_string()));
    assert_eq!(extension_of("dir/archive.tar.gz"), Some("gz".to_string()));
    assert_eq!(extension_of("dir/name."), Some(String::new()));
    assert_eq!(extension_of("dir/.hidden"), None);
    assert_eq!(extension_of("dir/plain"), None);
}
