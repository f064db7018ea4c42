use webox::config::{
    production_paths, resolve_macos_bundle_root, xdg_dir, AppConfig, BrowserRuntimeMode,
    BrowserUiHost, HostDirectories, PlatformTarget,
};

fn no_dirs() -> HostDirectories {
    HostDirectories { home: None, local_app_data: None, xdg_data_home: None, xdg_cache_home: None }
}

#[test]
fn development_config_targets_eight_gib_tabs() {
    let platform = PlatformTarget::current("linux", "x86_64").unwrap();
    let config = AppConfig::development(platform, "/opt/webox/webox");
    assert_eq!(config.startup.max_memory_per_tab_bytes, 8 * 1024 * 1024 * 1024);
    assert_eq!(config.startup.remote_debugging_port, 9222);
    assert_eq!(config.startup.runtime_mode, BrowserRuntimeMode::RealCef);
    assert_eq!(config.startup.ui_host, BrowserUiHost::Eframe);
    assert_eq!(config.startup.platform_target, PlatformTarget::LinuxX64);
}

#[test]
fn simulated_config_keeps_same_memory_target() {
    let config = AppConfig::simulated(PlatformTarget::LinuxX64, "/opt/webox/webox");
    assert_eq!(config.startup.runtime_mode, BrowserRuntimeMode::Simulated);
    assert_eq!(config.startup.max_memory_per_tab_bytes, 8 * 1024 * 1024 * 1024);
}

#[test]
fn linux_production_paths_write_outside_install_dir() {
    let exe_dir = "/opt/webox-browser";
    let dirs = HostDirectories {
        home: Some("/home/webox".to_string()),
        local_app_data: None,
        xdg_data_home: None,
        xdg_cache_home: None,
    };
    let paths = production_paths(PlatformTarget::LinuxX64, exe_dir, &dirs);
    assert_eq!(paths.cef_distribution_root, exe_dir);
    assert_ne!(paths.data_dir, "/opt/webox-browser/.webox/data");
    assert_ne!(paths.cache_dir, "/opt/webox-browser/.webox/cache");
    assert_eq!(paths.cef_locales_dir, "/opt/webox-browser/locales");
}

#[test]
fn windows_production_paths_use_local_app_data() {
    let exe_dir = r"C:\Program Files\WebOX Browser";
    let dirs = HostDirectories {
        home: Some(r"C:\Users\webox".to_string()),
        local_app_data: Some(r"C:\Users\webox\AppData\Local".to_string()),
        xdg_data_home: None,
        xdg_cache_home: None,
    };
    let paths = production_paths(PlatformTarget::WindowsX64, exe_dir, &dirs);
    assert!(paths.data_dir.contains("WebOX Browser"));
    assert!(!paths.data_dir.starts_with(exe_dir));
    assert_eq!(paths.cef_resources_dir, exe_dir);
}

#[test]
fn macos_bundle_root_resolution_uses_app_root() {
    let exe_dir = "/Applications/WeboxBrowser.app/Contents/MacOS";
    assert_eq!(resolve_macos_bundle_root(exe_dir), "/Applications/WeboxBrowser.app");
}

#[test]
fn xdg_dir_rejects_relative_overrides() {
    let home = "/home/webox";
    assert_eq!(xdg_dir(&None, home, ".cache"), "/home/webox/.cache");
    assert_eq!(xdg_dir(&Some("relative/cache".to_string()), home, ".cache"), "/home/webox/.cache");
    assert_eq!(xdg_dir(&Some(String::new()), home, ".cache"), "/home/webox/.cache");
    assert_eq!(xdg_dir(&Some("/var/cache".to_string()), home, ".cache"), "/var/cache");
}

#[test]
fn unsupported_host_is_reported_with_its_names() {
    let error = PlatformTarget::current("freebsd", "x86_64").unwrap_err();
    assert_eq!(error.message(), "unsupported host platform: os='freebsd', arch='x86_64'");
}

#[test]
fn every_supported_host_has_its_own_target() {
    assert_eq!(PlatformTarget::current("linux", "aarch64").unwrap(), PlatformTarget::LinuxArm64);
    assert_eq!(PlatformTarget::current("macos", "aarch64").unwrap(), PlatformTarget::MacosArm64);
    assert_eq!(PlatformTarget::current("windows", "x86_64").unwrap(), PlatformTarget::WindowsX64);
    assert_eq!(PlatformTarget::LinuxX64.cef_slug(), "linux-x64");
    assert_eq!(PlatformTarget::MacosArm64.runtime_plan_target(), "macos-aarch64");
}

#[test]
fn development_paths_follow_the_platform_slug() {
    let config = AppConfig::development(PlatformTarget::LinuxArm64, "/usr/bin/webox");
    assert_eq!(config.cef.distribution_root, "third_party/cef/linux-arm64");
    assert_eq!(config.cef.locales_dir, "third_party/cef/linux-arm64/locales");
    assert_eq!(config.subprocess.browser_subprocess_path, "/usr/bin/webox");
    assert_eq!(config.paths.data_dir, ".webox/data");
    assert_eq!(config.startup.environment, "development");
}

#[test]
fn simulated_config_differs_only_in_mode_and_environment() {
    let dev = AppConfig::development(PlatformTarget::LinuxX64, "/usr/bin/webox");
    let sim = AppConfig::simulated(PlatformTarget::LinuxX64, "/usr/bin/webox");
    assert_eq!(sim.startup.environment, "test");
    assert_eq!(sim.cef, dev.cef);
    assert_eq!(sim.paths, dev.paths);
    assert_eq!(sim.subprocess, dev.subprocess);
}

#[test]
fn production_config_uses_executable_directory_for_assets() {
    let dirs = HostDirectories {
        home: Some("/home/webox".to_string()),
        local_app_data: None,
        xdg_data_home: Some("/data/xdg".to_string()),
        xdg_cache_home: None,
    };
    let config = AppConfig::production(
        PlatformTarget::LinuxX64,
        "/opt/webox-browser/webox",
        "/opt/webox-browser",
        &dirs,
    );
    assert_eq!(config.startup.environment, "production");
    assert_eq!(config.cef.distribution_root, "/opt/webox-browser");
    assert_eq!(config.paths.data_dir, "/data/xdg/webox-browser/data");
    assert_eq!(config.paths.cache_dir, "/home/webox/.cache/webox-browser/cache");
    let fallback = production_paths(PlatformTarget::LinuxX64, "/opt/webox-browser", &no_dirs());
    assert_eq!(fallback.data_dir, "/opt/webox-browser/.local/share/webox-browser/data");
}
