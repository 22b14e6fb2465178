use bridge_supervisor::resolver::{
    apply_credential, resolve, LaunchSpec, Platform, ResolutionError, RunMode,
};

#[test]
fn resolve_debug_non_windows_uses_python3() {
    for platform in [Platform::MacOs, Platform::Linux, Platform::Other] {
        let ls = resolve(RunMode::Debug, platform, None).unwrap();
        assert_eq!(ls.program, "python3");
        assert_eq!(ls.args, vec!["-m".to_string(), "aya.tauri_bridge".to_string()]);
        assert!(ls.env_overrides.is_empty());
    }
}

#[test]
fn resolve_debug_windows_uses_python() {
    let ls = resolve(RunMode::Debug, Platform::Windows, None).unwrap();
    assert_eq!(ls.program, "python");
    assert_eq!(ls.args, vec!["-m".to_string(), "aya.tauri_bridge".to_string()]);
}

#[test]
fn resolve_debug_ignores_app_dir() {
    let ls = resolve(RunMode::Debug, Platform::Linux, Some("/ignored".to_string())).unwrap();
    assert_eq!(ls.program, "python3");
}

#[test]
fn resolve_production_macos_path() {
    let dir = "/Users/me/Library/Application Support/aya".to_string();
    let ls = resolve(RunMode::Production, Platform::MacOs, Some(dir.clone())).unwrap();
    assert!(ls.program.ends_with("Resources/aya_bridge"));
    assert_eq!(ls.program, format!("{}/Resources/aya_bridge", dir));
    assert!(ls.args.is_empty());
    assert!(ls.env_overrides.is_empty());
}

#[test]
fn resolve_production_linux_path() {
    let ls =
        resolve(RunMode::Production, Platform::Linux, Some("/home/me/.local/share/aya".to_string()))
            .unwrap();
    assert_eq!(ls.program, "/home/me/.local/share/aya/resources/aya_bridge");
}

#[test]
fn resolve_production_windows_path() {
    let ls = resolve(RunMode::Production, Platform::Windows, Some("C:/Users/me/AppData/aya".to_string()))
        .unwrap();
    assert_eq!(ls.program, "C:/Users/me/AppData/aya/resources/aya_bridge.exe");
}

#[test]
fn resolve_production_without_app_dir_fails() {
    let err = resolve(RunMode::Production, Platform::MacOs, None).unwrap_err();
    assert_eq!(err, ResolutionError::AppDirUnavailable);
}

#[test]
fn resolve_production_unrecognized_platform_fails() {
    let err = resolve(RunMode::Production, Platform::Other, Some("/data".to_string())).unwrap_err();
    assert_eq!(err, ResolutionError::UnsupportedPlatform);
}

#[test]
fn resolve_production_missing_dir_reported_before_platform() {
    let err = resolve(RunMode::Production, Platform::Other, None).unwrap_err();
    assert_eq!(err, ResolutionError::AppDirUnavailable);
}

#[test]
fn apply_credential_present_is_forwarded() {
    let ls = resolve(RunMode::Debug, Platform::Linux, None).unwrap();
    let full = apply_credential(ls, Some("local-test-key".to_string()));
    assert_eq!(
        full.env_overrides,
        vec![("GEMINI_API_KEY".to_string(), "local-test-key".to_string())]
    );
    assert_eq!(full.program, "python3");
    assert_eq!(full.args, vec!["-m".to_string(), "aya.tauri_bridge".to_string()]);
}

#[test]
fn apply_credential_absent_is_not_an_error() {
    let ls = resolve(RunMode::Debug, Platform::Linux, None).unwrap();
    let full = apply_credential(ls, None);
    assert!(full.env_overrides.is_empty());
}

#[test]
fn launch_spec_is_plain_data() {
    let ls = LaunchSpec {
        program: "python3".to_string(),
        args: vec!["-m".to_string()],
        env_overrides: vec![],
    };
    let copy = ls.clone();
    assert_eq!(ls, copy);
}
