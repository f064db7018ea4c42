//! Startup configuration: the host platform, the CEF distribution paths,
//! subprocess launch options and the per-user runtime directories.
//!
//! What the process environment supplies (the OS and architecture names,
//! the current executable, home and XDG directories) is read by the caller
//! and handed in as plain values.
use crate::text::{joined_path, path_join, text_eq};
use vstd::prelude::*;

verus! {

#[derive(Clone, Debug, PartialEq, Eq)]
pub struct UnsupportedHostError {
    os: String,
    arch: String,
}

impl UnsupportedHostError {
    pub closed spec fn spec_os(&self) -> Seq<char> {
        self.os@
    }

    pub closed spec fn spec_arch(&self) -> Seq<char> {
        self.arch@
    }

    fn new(os: &str, arch: &str) -> (r: Self)
        ensures
            r.spec_os() == os@,
            r.spec_arch() == arch@,
    {
        UnsupportedHostError { os: String::from_str(os), arch: String::from_str(arch) }
    }

    /// The error's message, as its `Display` prints it.
    pub fn message(&self) -> (s: String)
        ensures
            s@ == "unsupported host platform: os='"@ + self.spec_os() + "', arch='"@
                + self.spec_arch() + "'"@,
    {
        String::from_str("unsupported host platform: os='").concat(self.os.as_str()).concat(
            "', arch='",
        ).concat(self.arch.as_str()).concat("'")
    }
}

#[derive(Clone, Copy, Debug, PartialEq, Eq, Structural)]
pub enum BrowserRuntimeMode {
    Simulated,
    RealCef,
}

#[derive(Clone, Copy, Debug, PartialEq, Eq, Structural)]
pub enum BrowserUiHost {
    Eframe,
}

#[derive(Clone, Copy, Debug, PartialEq, Eq, Structural)]
pub enum PlatformTarget {
    LinuxX64,
    LinuxArm64,
    MacosArm64,
    WindowsX64,
}

#[derive(Clone, Debug, PartialEq, Eq)]
pub struct EnvironmentPaths {
    pub workspace_root: String,
    pub data_dir: String,
    pub cache_dir: String,
    pub log_dir: String,
}

#[derive(Clone, Debug, PartialEq, Eq)]
pub struct CefRuntimePaths {
    pub distribution_root: String,
    pub framework_dir: String,
    pub resources_dir: String,
    pub locales_dir: String,
}

#[derive(Clone, Debug, PartialEq, Eq)]
pub struct SubprocessLaunchOptions {
    pub browser_subprocess_path: String,
    pub extra_args: Vec<String>,
    pub log_file_path: String,
}

#[derive(Clone, Debug, PartialEq, Eq)]
pub struct BrowserStartupConfig {
    pub home_page: String,
    pub max_memory_per_tab_bytes: u64,
    pub environment: String,
    pub runtime_mode: BrowserRuntimeMode,
    pub ui_host: BrowserUiHost,
    pub platform_target: PlatformTarget,
    pub enable_cef_sandbox: bool,
    pub remote_debugging_port: u16,
}

#[derive(Clone, Debug, PartialEq, Eq)]
pub struct AppConfig {
    pub startup: BrowserStartupConfig,
    pub cef: CefRuntimePaths,
    pub subprocess: SubprocessLaunchOptions,
    pub paths: EnvironmentPaths,
}

/// The per-user directories of the host, as the process environment gives
/// them: the home directory (USERPROFILE on Windows, HOME elsewhere),
/// LOCALAPPDATA, XDG_DATA_HOME and XDG_CACHE_HOME, each when set.
pub struct HostDirectories {
    pub home: Option<String>,
    pub local_app_data: Option<String>,
    pub xdg_data_home: Option<String>,
    pub xdg_cache_home: Option<String>,
}

/// The name `{:?}` prints for a runtime mode.
pub open spec fn runtime_mode_name(m: BrowserRuntimeMode) -> Seq<char> {
    match m {
        BrowserRuntimeMode::Simulated => "Simulated"@,
        BrowserRuntimeMode::RealCef => "RealCef"@,
    }
}

impl BrowserRuntimeMode {
    pub fn debug_name(&self) -> (s: &'static str)
        ensures
            s@ == runtime_mode_name(*self),
    {
        match self {
            BrowserRuntimeMode::Simulated => "Simulated",
            BrowserRuntimeMode::RealCef => "RealCef",
        }
    }
}

/// The per-tab memory target of the built-in configurations: 8 GiB.
pub open spec fn default_tab_target() -> u64 {
    8589934592
}

pub open spec fn cef_slug_of(p: PlatformTarget) -> Seq<char> {
    match p {
        PlatformTarget::LinuxX64 => "linux-x64"@,
        PlatformTarget::LinuxArm64 => "linux-arm64"@,
        PlatformTarget::MacosArm64 => "macos-arm64"@,
        PlatformTarget::WindowsX64 => "windows-x64"@,
    }
}

pub open spec fn plan_target_of(p: PlatformTarget) -> Seq<char> {
    match p {
        PlatformTarget::LinuxX64 => "linux-x86_64"@,
        PlatformTarget::LinuxArm64 => "linux-aarch64"@,
        PlatformTarget::MacosArm64 => "macos-aarch64"@,
        PlatformTarget::WindowsX64 => "windows-x86_64"@,
    }
}

/// The platform target of a host, by the names `std::env::consts` gives.
pub open spec fn platform_of(os: Seq<char>, arch: Seq<char>) -> Option<PlatformTarget> {
    if os == "linux"@ && arch == "x86_64"@ {
        Some(PlatformTarget::LinuxX64)
    } else if os == "linux"@ && arch == "aarch64"@ {
        Some(PlatformTarget::LinuxArm64)
    } else if os == "macos"@ && arch == "aarch64"@ {
        Some(PlatformTarget::MacosArm64)
    } else if os == "windows"@ && arch == "x86_64"@ {
        Some(PlatformTarget::WindowsX64)
    } else {
        None
    }
}

/// The CEF distribution root used in development for a platform.
pub open spec fn development_root_of(p: PlatformTarget) -> Seq<char> {
    "third_party/cef/"@ + cef_slug_of(p)
}

impl PlatformTarget {
    /// The platform target for a host given by its OS and architecture
    /// names, as `std::env::consts::{OS, ARCH}` spell them.
    pub fn current(os: &str, arch: &str) -> (r: Result<Self, UnsupportedHostError>)
        ensures
            platform_of(os@, arch@) matches Some(p) ==> r == Ok::<
                PlatformTarget,
                UnsupportedHostError,
            >(p),
            platform_of(os@, arch@) is None ==> (r matches Err(e) && e.spec_os() == os@
                && e.spec_arch() == arch@),
    {
        if text_eq(os, "linux") && text_eq(arch, "x86_64") {
            Ok(PlatformTarget::LinuxX64)
        } else if text_eq(os, "linux") && text_eq(arch, "aarch64") {
            Ok(PlatformTarget::LinuxArm64)
        } else if text_eq(os, "macos") && text_eq(arch, "aarch64") {
            Ok(PlatformTarget::MacosArm64)
        } else if text_eq(os, "windows") && text_eq(arch, "x86_64") {
            Ok(PlatformTarget::WindowsX64)
        } else {
            Err(UnsupportedHostError::new(os, arch))
        }
    }

    pub fn cef_slug(self) -> (s: &'static str)
        ensures
            s@ == cef_slug_of(self),
    {
        match self {
            PlatformTarget::LinuxX64 => "linux-x64",
            PlatformTarget::LinuxArm64 => "linux-arm64",
            PlatformTarget::MacosArm64 => "macos-arm64",
            PlatformTarget::WindowsX64 => "windows-x64",
        }
    }

    pub fn runtime_plan_target(self) -> (s: &'static str)
        ensures
            s@ == plan_target_of(self),
    {
        match self {
            PlatformTarget::LinuxX64 => "linux-x86_64",
            PlatformTarget::LinuxArm64 => "linux-aarch64",
            PlatformTarget::MacosArm64 => "macos-aarch64",
            PlatformTarget::WindowsX64 => "windows-x86_64",
        }
    }
}

fn development_cef_root(platform_target: PlatformTarget) -> (s: String)
    ensures
        s@ == development_root_of(platform_target),
{
    String::from_str("third_party/cef/").concat(platform_target.cef_slug())
}

fn development_resources_dir(platform_target: PlatformTarget) -> (s: String)
    ensures
        s@ == development_root_of(platform_target),
{
    match platform_target {
        PlatformTarget::MacosArm64 => development_cef_root(platform_target),
        _ => development_cef_root(platform_target),
    }
}

fn development_framework_dir(platform_target: PlatformTarget) -> (s: String)
    ensures
        s@ == development_root_of(platform_target),
{
    match platform_target {
        PlatformTarget::MacosArm64 => development_cef_root(platform_target),
        _ => development_cef_root(platform_target),
    }
}

fn development_locales_dir(platform_target: PlatformTarget) -> (s: String)
    ensures
        s@ == development_root_of(platform_target) + "/locales"@,
{
    development_cef_root(platform_target).concat("/locales")
}

/// The development configuration for a platform whose browser subprocess
/// is `current_exe` (the running executable; CEF re-launches it).
pub open spec fn is_development_config(c: AppConfig, p: PlatformTarget, current_exe: Seq<char>) -> bool {
    &&& development_shape(c, p, current_exe)
    &&& c.startup.environment@ == "development"@
    &&& c.startup.runtime_mode == BrowserRuntimeMode::RealCef
}

/// Everything the development configuration fixes besides its environment
/// name and runtime mode.
pub open spec fn development_shape(c: AppConfig, p: PlatformTarget, current_exe: Seq<char>) -> bool {
    &&& c.startup.home_page@ == "https://example.com"@
    &&& c.startup.max_memory_per_tab_bytes == default_tab_target()
    &&& c.startup.ui_host == BrowserUiHost::Eframe
    &&& c.startup.platform_target == p
    &&& !c.startup.enable_cef_sandbox
    &&& c.startup.remote_debugging_port == 9222
    &&& c.cef.distribution_root@ == development_root_of(p)
    &&& c.cef.framework_dir@ == development_root_of(p)
    &&& c.cef.resources_dir@ == development_root_of(p)
    &&& c.cef.locales_dir@ == development_root_of(p) + "/locales"@
    &&& c.subprocess.browser_subprocess_path@ == current_exe
    &&& c.subprocess.extra_args.deep_view() == seq!["--enable-logging"@]
    &&& c.subprocess.log_file_path@ == ".webox/logs/webox-engine.log"@
    &&& c.paths.workspace_root@ == "."@
    &&& c.paths.data_dir@ == ".webox/data"@
    &&& c.paths.cache_dir@ == ".webox/cache"@
    &&& c.paths.log_dir@ == ".webox/logs"@
}

/// The production paths of a platform, all derived from the executable's
/// directory and the user's directories.
pub struct ProductionPaths {
    pub workspace_root: String,
    pub data_dir: String,
    pub cache_dir: String,
    pub log_dir: String,
    pub cef_distribution_root: String,
    pub cef_framework_dir: String,
    pub cef_resources_dir: String,
    pub cef_locales_dir: String,
}

/// The text of `Path::parent`, when the path has one, under the path rules
/// of the platform the library is built for.
pub uninterp spec fn parent_path(p: Seq<char>) -> Option<Seq<char>>;

/// The text of `Path::extension`, when the path has one, under the path
/// rules of the platform the library is built for.
pub uninterp spec fn path_extension(p: Seq<char>) -> Option<Seq<char>>;

/// Whether `Path::is_absolute` holds of the path, under the path rules of
/// the platform the library is built for.
pub uninterp spec fn is_absolute_path(p: Seq<char>) -> bool;

/// Calls std's `Path::parent`; the contract names the result.
#[verifier::external_body]
fn path_parent(p: &str) -> (r: Option<String>)
    ensures
        r is Some <==> parent_path(p@) is Some,
        r matches Some(s) ==> s@ == parent_path(p@)->0,
{
    std::path::Path::new(p).parent().map(|d| d.display().to_string())
}

/// Calls std's `Path::extension`; the contract names the result.
#[verifier::external_body]
fn path_extension_of(p: &str) -> (r: Option<String>)
    ensures
        r is Some <==> path_extension(p@) is Some,
        r matches Some(s) ==> s@ == path_extension(p@)->0,
{
    std::path::Path::new(p).extension().map(|e| e.to_string_lossy().to_string())
}

/// Calls std's `Path::is_absolute`; the contract names the result.
#[verifier::external_body]
pub(crate) fn path_is_absolute(p: &str) -> (r: bool)
    ensures
        r == is_absolute_path(p@),
{
    std::path::Path::new(p).is_absolute()
}

/// The directory an XDG variable selects: its value when it is a non-empty
/// absolute path, else `fallback` under the home directory.
pub open spec fn xdg_choice(value: Option<Seq<char>>, home: Seq<char>, fallback: Seq<char>) -> Seq<
    char,
> {
    match value {
        Some(v) => if v.len() > 0 && is_absolute_path(v) {
            v
        } else {
            joined_path(home, fallback)
        },
        None => joined_path(home, fallback),
    }
}

pub fn xdg_dir(value: &Option<String>, home: &str, fallback: &str) -> (r: String)
    ensures
        r@ == xdg_choice(crate::ui::opt_view(*value), home@, fallback@),
{
    match value {
        Some(v) => {
            if !v.as_str().is_empty() && path_is_absolute(v.as_str()) {
                v.clone()
            } else {
                path_join(home, fallback)
            }
        },
        None => path_join(home, fallback),
    }
}

/// The bundle root of a macOS executable directory: the grandparent when it
/// is an `.app` directory, else the directory itself.
pub open spec fn macos_bundle_root(exe_dir: Seq<char>) -> Seq<char> {
    match parent_path(exe_dir) {
        Some(contents) => match parent_path(contents) {
            Some(root) => if path_extension(root) == Some("app"@) {
                root
            } else {
                exe_dir
            },
            None => exe_dir,
        },
        None => exe_dir,
    }
}

pub fn resolve_macos_bundle_root(exe_dir: &str) -> (r: String)
    ensures
        r@ == macos_bundle_root(exe_dir@),
{
    match path_parent(exe_dir) {
        Some(contents) => match path_parent(contents.as_str()) {
            Some(root) => {
                let is_app = match path_extension_of(root.as_str()) {
                    Some(ext) => text_eq(ext.as_str(), "app"),
                    None => false,
                };
                if is_app {
                    root
                } else {
                    String::from_str(exe_dir)
                }
            },
            None => String::from_str(exe_dir),
        },
        None => String::from_str(exe_dir),
    }
}

fn home_or(dirs: &HostDirectories, exe_dir: &str) -> (r: String)
    ensures
        r@ == match crate::ui::opt_view(dirs.home) {
            Some(h) => h,
            None => exe_dir@,
        },
{
    match &dirs.home {
        Some(h) => h.clone(),
        None => String::from_str(exe_dir),
    }
}

/// Where the executable's assets and the user's data go in production.
pub open spec fn production_paths_match(
    r: ProductionPaths,
    p: PlatformTarget,
    exe_dir: Seq<char>,
    home: Option<Seq<char>>,
    local_app_data: Option<Seq<char>>,
    xdg_data: Option<Seq<char>>,
    xdg_cache: Option<Seq<char>>,
) -> bool {
    let home_dir = match home {
        Some(h) => h,
        None => exe_dir,
    };
    match p {
        PlatformTarget::WindowsX64 => {
            let base = match local_app_data {
                Some(l) => l,
                None => home_dir,
            };
            let root = joined_path(base, "WebOX Browser"@);
            &&& r.workspace_root@ == exe_dir
            &&& r.data_dir@ == joined_path(root, "data"@)
            &&& r.cache_dir@ == joined_path(root, "cache"@)
            &&& r.log_dir@ == joined_path(root, "logs"@)
            &&& r.cef_distribution_root@ == exe_dir
            &&& r.cef_framework_dir@ == exe_dir
            &&& r.cef_resources_dir@ == exe_dir
            &&& r.cef_locales_dir@ == joined_path(exe_dir, "locales"@)
        },
        PlatformTarget::MacosArm64 => {
            let bundle = macos_bundle_root(exe_dir);
            let macos_dir = joined_path(bundle, "Contents/MacOS"@);
            let support = joined_path(home_dir, "Library/Application Support/WebOX Browser"@);
            let caches = joined_path(home_dir, "Library/Caches/WebOX Browser"@);
            &&& r.workspace_root@ == bundle
            &&& r.data_dir@ == joined_path(support, "data"@)
            &&& r.cache_dir@ == joined_path(caches, "cache"@)
            &&& r.log_dir@ == joined_path(support, "logs"@)
            &&& r.cef_distribution_root@ == macos_dir
            &&& r.cef_framework_dir@ == macos_dir
            &&& r.cef_resources_dir@ == macos_dir
            &&& r.cef_locales_dir@ == joined_path(macos_dir, "locales"@)
        },
        _ => {
            let data_root = joined_path(
                xdg_choice(xdg_data, home_dir, ".local/share"@),
                "webox-browser"@,
            );
            let cache_root = joined_path(xdg_choice(xdg_cache, home_dir, ".cache"@), "webox-browser"@);
            &&& r.workspace_root@ == exe_dir
            &&& r.data_dir@ == joined_path(data_root, "data"@)
            &&& r.cache_dir@ == joined_path(cache_root, "cache"@)
            &&& r.log_dir@ == joined_path(data_root, "logs"@)
            &&& r.cef_distribution_root@ == exe_dir
            &&& r.cef_framework_dir@ == exe_dir
            &&& r.cef_resources_dir@ == exe_dir
            &&& r.cef_locales_dir@ == joined_path(exe_dir, "locales"@)
        },
    }
}

/// The production paths of `platform_target` for an executable in `exe_dir`.
pub fn production_paths(platform_target: PlatformTarget, exe_dir: &str, dirs: &HostDirectories) -> (r:
    ProductionPaths)
    ensures
        production_paths_match(
            r,
            platform_target,
            exe_dir@,
            crate::ui::opt_view(dirs.home),
            crate::ui::opt_view(dirs.local_app_data),
            crate::ui::opt_view(dirs.xdg_data_home),
            crate::ui::opt_view(dirs.xdg_cache_home),
        ),
{
    match platform_target {
        PlatformTarget::WindowsX64 => {
            let base = match &dirs.local_app_data {
                Some(l) => l.clone(),
                None => home_or(dirs, exe_dir),
            };
            let root = path_join(base.as_str(), "WebOX Browser");
            ProductionPaths {
                workspace_root: String::from_str(exe_dir),
                data_dir: path_join(root.as_str(), "data"),
                cache_dir: path_join(root.as_str(), "cache"),
                log_dir: path_join(root.as_str(), "logs"),
                cef_distribution_root: String::from_str(exe_dir),
                cef_framework_dir: String::from_str(exe_dir),
                cef_resources_dir: String::from_str(exe_dir),
                cef_locales_dir: path_join(exe_dir, "locales"),
            }
        },
        PlatformTarget::MacosArm64 => {
            let bundle_root = resolve_macos_bundle_root(exe_dir);
            let macos_dir = path_join(bundle_root.as_str(), "Contents/MacOS");
            let home = home_or(dirs, exe_dir);
            let app_support = path_join(home.as_str(), "Library/Application Support/WebOX Browser");
            let cache_root = path_join(home.as_str(), "Library/Caches/WebOX Browser");
            ProductionPaths {
                workspace_root: bundle_root,
                data_dir: path_join(app_support.as_str(), "data"),
                cache_dir: path_join(cache_root.as_str(), "cache"),
                log_dir: path_join(app_support.as_str(), "logs"),
                cef_distribution_root: macos_dir.clone(),
                cef_framework_dir: macos_dir.clone(),
                cef_resources_dir: macos_dir.clone(),
                cef_locales_dir: path_join(macos_dir.as_str(), "locales"),
            }
        },
        _ => {
            let home = home_or(dirs, exe_dir);
            let data_base = xdg_dir(&dirs.xdg_data_home, home.as_str(), ".local/share");
            let data_root = path_join(data_base.as_str(), "webox-browser");
            let cache_base = xdg_dir(&dirs.xdg_cache_home, home.as_str(), ".cache");
            let cache_root = path_join(cache_base.as_str(), "webox-browser");
            ProductionPaths {
                workspace_root: String::from_str(exe_dir),
                data_dir: path_join(data_root.as_str(), "data"),
                cache_dir: path_join(cache_root.as_str(), "cache"),
                log_dir: path_join(data_root.as_str(), "logs"),
                cef_distribution_root: String::from_str(exe_dir),
                cef_framework_dir: String::from_str(exe_dir),
                cef_resources_dir: String::from_str(exe_dir),
                cef_locales_dir: path_join(exe_dir, "locales"),
            }
        },
    }
}

impl AppConfig {
    /// The development configuration: CEF assets under `third_party/cef`,
    /// runtime directories under `.webox`, debugging on port 9222, and the
    /// running executable (`current_exe`) as the CEF subprocess.
    pub fn development(platform_target: PlatformTarget, current_exe: &str) -> (r: Self)
        ensures
            is_development_config(r, platform_target, current_exe@),
    {
        let mut extra_args: Vec<String> = Vec::new();
        extra_args.push(String::from_str("--enable-logging"));
        proof {
            assert(extra_args.deep_view() =~= seq!["--enable-logging"@]);
        }
        AppConfig {
            startup: BrowserStartupConfig {
                home_page: String::from_str("https://example.com"),
                max_memory_per_tab_bytes: 8589934592,
                environment: String::from_str("development"),
                runtime_mode: BrowserRuntimeMode::RealCef,
                ui_host: BrowserUiHost::Eframe,
                platform_target,
                enable_cef_sandbox: false,
                remote_debugging_port: 9222,
            },
            cef: CefRuntimePaths {
                distribution_root: development_cef_root(platform_target),
                framework_dir: development_framework_dir(platform_target),
                resources_dir: development_resources_dir(platform_target),
                locales_dir: development_locales_dir(platform_target),
            },
            subprocess: SubprocessLaunchOptions {
                browser_subprocess_path: String::from_str(current_exe),
                extra_args,
                log_file_path: String::from_str(".webox/logs/webox-engine.log"),
            },
            paths: EnvironmentPaths {
                workspace_root: String::from_str("."),
                data_dir: String::from_str(".webox/data"),
                cache_dir: String::from_str(".webox/cache"),
                log_dir: String::from_str(".webox/logs"),
            },
        }
    }

    /// The production configuration: every path is derived from the
    /// executable (`exe_path`, in `exe_dir`) and the user's directories.
    pub fn production(
        platform_target: PlatformTarget,
        exe_path: &str,
        exe_dir: &str,
        dirs: &HostDirectories,
    ) -> (r: Self)
        ensures
            r.startup.home_page@ == "https://example.com"@,
            r.startup.max_memory_per_tab_bytes == default_tab_target(),
            r.startup.environment@ == "production"@,
            r.startup.runtime_mode == BrowserRuntimeMode::RealCef,
            r.startup.ui_host == BrowserUiHost::Eframe,
            r.startup.platform_target == platform_target,
            !r.startup.enable_cef_sandbox,
            r.startup.remote_debugging_port == 0,
            r.subprocess.browser_subprocess_path@ == exe_path@,
            r.subprocess.extra_args@.len() == 0,
            exists|p: ProductionPaths|
                {
                    &&& production_paths_match(
                        p,
                        platform_target,
                        exe_dir@,
                        crate::ui::opt_view(dirs.home),
                        crate::ui::opt_view(dirs.local_app_data),
                        crate::ui::opt_view(dirs.xdg_data_home),
                        crate::ui::opt_view(dirs.xdg_cache_home),
                    )
                    &&& r.cef.distribution_root@ == p.cef_distribution_root@
                    &&& r.cef.framework_dir@ == p.cef_framework_dir@
                    &&& r.cef.resources_dir@ == p.cef_resources_dir@
                    &&& r.cef.locales_dir@ == p.cef_locales_dir@
                    &&& r.subprocess.log_file_path@ == joined_path(
                        p.log_dir@,
                        "webox-engine.log"@,
                    )
                    &&& r.paths.workspace_root@ == p.workspace_root@
                    &&& r.paths.data_dir@ == p.data_dir@
                    &&& r.paths.cache_dir@ == p.cache_dir@
                    &&& r.paths.log_dir@ == p.log_dir@
                },
    {
        let paths = production_paths(platform_target, exe_dir, dirs);
        let log_file_path = path_join(paths.log_dir.as_str(), "webox-engine.log");
        let ghost p = paths;
        let r = AppConfig {
            startup: BrowserStartupConfig {
                home_page: String::from_str("https://example.com"),
                max_memory_per_tab_bytes: 8589934592,
                environment: String::from_str("production"),
                runtime_mode: BrowserRuntimeMode::RealCef,
                ui_host: BrowserUiHost::Eframe,
                platform_target,
                enable_cef_sandbox: false,
                remote_debugging_port: 0,
            },
            cef: CefRuntimePaths {
                distribution_root: paths.cef_distribution_root,
                framework_dir: paths.cef_framework_dir,
                resources_dir: paths.cef_resources_dir,
                locales_dir: paths.cef_locales_dir,
            },
            subprocess: SubprocessLaunchOptions {
                browser_subprocess_path: String::from_str(exe_path),
                extra_args: Vec::new(),
                log_file_path,
            },
            paths: EnvironmentPaths {
                workspace_root: paths.workspace_root,
                data_dir: paths.data_dir,
                cache_dir: paths.cache_dir,
                log_dir: paths.log_dir,
            },
        };
        r
    }

    /// The development configuration run in the explicit simulated mode,
    /// with environment "test"; everything else is as in development.
    pub fn simulated(platform_target: PlatformTarget, current_exe: &str) -> (r: Self)
        ensures
            development_shape(r, platform_target, current_exe@),
            r.startup.environment@ == "test"@,
            r.startup.runtime_mode == BrowserRuntimeMode::Simulated,
    {
        let mut config = Self::development(platform_target, current_exe);
        config.startup.environment = String::from_str("test");
        config.startup.runtime_mode = BrowserRuntimeMode::Simulated;
        config
    }
}

/// The simulated configuration keeps the development memory target and
/// differs from development only in its environment name and runtime mode.
pub proof fn lemma_simulated_keeps_memory_target(dev: AppConfig, sim: AppConfig, p: PlatformTarget, exe: Seq<char>)
    requires
        is_development_config(dev, p, exe),
        development_shape(sim, p, exe),
    ensures
        sim.startup.max_memory_per_tab_bytes == dev.startup.max_memory_per_tab_bytes,
        sim.startup.max_memory_per_tab_bytes == default_tab_target(),
        sim.startup.remote_debugging_port == dev.startup.remote_debugging_port,
        sim.cef.distribution_root@ == dev.cef.distribution_root@,
        sim.subprocess.browser_subprocess_path@ == dev.subprocess.browser_subprocess_path@,
{
}

/// Distinct platforms have distinct CEF slugs and plan targets.
pub proof fn lemma_platform_names_distinct(a: PlatformTarget, b: PlatformTarget)
    requires
        a != b,
    ensures
        cef_slug_of(a) != cef_slug_of(b),
        plan_target_of(a) != plan_target_of(b),
{
    reveal_strlit("linux-x64");
    reveal_strlit("linux-arm64");
    reveal_strlit("macos-arm64");
    reveal_strlit("windows-x64");
    reveal_strlit("linux-x86_64");
    reveal_strlit("linux-aarch64");
    reveal_strlit("macos-aarch64");
    reveal_strlit("windows-x86_64");
    assert("linux-x64"@[6] != "linux-arm64"@[6]);
    assert("linux-x64"@[0] != "macos-arm64"@[0]);
    assert("linux-x64"@[0] != "windows-x64"@[0]);
    assert("linux-arm64"@[0] != "macos-arm64"@[0]);
    assert("linux-arm64"@[0] != "windows-x64"@[0]);
    assert("macos-arm64"@[0] != "windows-x64"@[0]);
    assert("linux-x86_64"@[6] != "linux-aarch64"@[6]);
    assert("linux-x86_64"@[0] != "macos-aarch64"@[0]);
    assert("linux-x86_64"@[0] != "windows-x86_64"@[0]);
    assert("linux-aarch64"@[0] != "macos-aarch64"@[0]);
    assert("linux-aarch64"@[0] != "windows-x86_64"@[0]);
    assert("macos-aarch64"@[0] != "windows-x86_64"@[0]);
}

} // verus!
