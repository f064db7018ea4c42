use webox::runtime_env::{cef_switches, detect_runtime_environment, RuntimeEnvironment};

#[test]
fn wsl_is_detected_from_proc_version_in_any_case() {
    assert_eq!(
        detect_runtime_environment("linux", Some("Linux version 5.15.90.1-Microsoft-standard-WSL2")),
        RuntimeEnvironment::Wsl
    );
    assert_eq!(
        detect_runtime_environment("linux", Some("Linux version 5.15 (microsoft@host)")),
        RuntimeEnvironment::Wsl
    );
}

#[test]
fn native_platforms_are_detected_from_the_os_name() {
    assert_eq!(
        detect_runtime_environment("linux", Some("Linux version 6.8.0-generic (buildd@ubuntu)")),
        RuntimeEnvironment::Linux
    );
    assert_eq!(detect_runtime_environment("linux", None), RuntimeEnvironment::Linux);
    assert_eq!(detect_runtime_environment("macos", None), RuntimeEnvironment::MacOs);
    assert_eq!(detect_runtime_environment("windows", None), RuntimeEnvironment::Windows);
    assert_eq!(detect_runtime_environment("freebsd", None), RuntimeEnvironment::Linux);
}

#[test]
fn wsl_gets_the_software_rendering_switches() {
    let switches = cef_switches(RuntimeEnvironment::Wsl);
    assert_eq!(
        switches,
        vec![
            "disable-gpu",
            "disable-gpu-compositing",
            "disable-gpu-sandbox",
            "no-sandbox",
            "disable-setuid-sandbox",
            "no-zygote",
            "disable-dev-shm-usage",
            "enable-unsafe-swiftshader",
            "enable-unsafe-webgpu",
        ]
    );
}

#[test]
fn native_platforms_keep_hardware_gpu() {
    assert_eq!(
        cef_switches(RuntimeEnvironment::Linux),
        vec!["enable-unsafe-swiftshader", "enable-unsafe-webgpu"]
    );
    assert_eq!(cef_switches(RuntimeEnvironment::Windows), vec!["enable-unsafe-webgpu"]);
    assert_eq!(cef_switches(RuntimeEnvironment::MacOs), vec!["enable-unsafe-webgpu"]);
}
