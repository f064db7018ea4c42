//! The environment the browser process runs in, as the host detects it,
//! and the Chromium command-line switches the CEF app applies for it:
//! hardware GPU where the platform supports it, a software fallback under
//! WSL, and WebGPU everywhere.
use crate::text::{ascii_lower, contains_text, text_ascii_lowercase};
use vstd::prelude::*;

verus! {

#[derive(Clone, Copy, Debug, PartialEq, Eq, Structural)]
pub enum RuntimeEnvironment {
    /// Linux under Windows Subsystem for Linux.
    Wsl,
    /// Native Linux with a real GPU driver stack.
    Linux,
    Windows,
    MacOs,
}

/// The environment for the operating system `os` (as `std::env::consts::OS`
/// names it) and, on Linux, the text of `/proc/version` when it could be
/// read: WSL writes "microsoft", in any case, into it.
pub open spec fn environment_of(os: Seq<char>, proc_version: Option<Seq<char>>) -> RuntimeEnvironment {
    if os == "macos"@ {
        RuntimeEnvironment::MacOs
    } else if os == "windows"@ {
        RuntimeEnvironment::Windows
    } else if os == "linux"@ && (proc_version matches Some(v) && contains_text(
        v.map_values(|c: char| ascii_lower(c)),
        "microsoft"@,
    )) {
        RuntimeEnvironment::Wsl
    } else {
        RuntimeEnvironment::Linux
    }
}

/// The switches for each environment, in the order they are appended.
pub open spec fn switches_for(env: RuntimeEnvironment) -> Seq<Seq<char>> {
    match env {
        RuntimeEnvironment::Wsl => seq![
            "disable-gpu"@,
            "disable-gpu-compositing"@,
            "disable-gpu-sandbox"@,
            "no-sandbox"@,
            "disable-setuid-sandbox"@,
            "no-zygote"@,
            "disable-dev-shm-usage"@,
            "enable-unsafe-swiftshader"@,
            "enable-unsafe-webgpu"@,
        ],
        RuntimeEnvironment::Linux => seq!["enable-unsafe-swiftshader"@, "enable-unsafe-webgpu"@],
        RuntimeEnvironment::Windows => seq!["enable-unsafe-webgpu"@],
        RuntimeEnvironment::MacOs => seq!["enable-unsafe-webgpu"@],
    }
}

/// WebGPU is switched on in every environment, and only under WSL is the
/// hardware GPU switched off.
pub proof fn lemma_webgpu_everywhere(env: RuntimeEnvironment)
    ensures
        switches_for(env).last() == "enable-unsafe-webgpu"@,
        switches_for(env).contains("disable-gpu"@) <==> env == RuntimeEnvironment::Wsl,
{
    reveal_strlit("disable-gpu");
    reveal_strlit("enable-unsafe-webgpu");
    reveal_strlit("enable-unsafe-swiftshader");
    if env == RuntimeEnvironment::Wsl {
        assert(switches_for(env)[0] == "disable-gpu"@);
    } else {
        assert("disable-gpu"@[0] != "enable-unsafe-webgpu"@[0]);
        assert("disable-gpu"@[0] != "enable-unsafe-swiftshader"@[0]);
    }
}

pub open spec fn opt_str(o: Option<&str>) -> Option<Seq<char>> {
    match o {
        Some(s) => Some(s@),
        None => None,
    }
}

/// The environment the process runs in; see `environment_of`.
pub fn detect_runtime_environment(os: &str, proc_version: Option<&str>) -> (r: RuntimeEnvironment)
    ensures
        r == environment_of(os@, opt_str(proc_version)),
{
    proof {
        reveal_strlit("macos");
        reveal_strlit("windows");
        reveal_strlit("linux");
    }
    if crate::text::text_eq(os, "macos") {
        RuntimeEnvironment::MacOs
    } else if crate::text::text_eq(os, "windows") {
        RuntimeEnvironment::Windows
    } else if crate::text::text_eq(os, "linux") {
        match proc_version {
            Some(v) => {
                let lower = text_ascii_lowercase(v);
                if crate::text::text_contains(lower.as_str(), "microsoft") {
                    RuntimeEnvironment::Wsl
                } else {
                    RuntimeEnvironment::Linux
                }
            },
            None => RuntimeEnvironment::Linux,
        }
    } else {
        RuntimeEnvironment::Linux
    }
}

/// The command-line switches the CEF app appends for `env`.
pub fn cef_switches(env: RuntimeEnvironment) -> (r: Vec<String>)
    ensures
        r.deep_view() == switches_for(env),
{
    let mut out: Vec<String> = Vec::new();
    match env {
        RuntimeEnvironment::Wsl => {
            out.push(String::from_str("disable-gpu"));
            out.push(String::from_str("disable-gpu-compositing"));
            out.push(String::from_str("disable-gpu-sandbox"));
            out.push(String::from_str("no-sandbox"));
            out.push(String::from_str("disable-setuid-sandbox"));
            out.push(String::from_str("no-zygote"));
            out.push(String::from_str("disable-dev-shm-usage"));
            out.push(String::from_str("enable-unsafe-swiftshader"));
        },
        RuntimeEnvironment::Linux => {
            out.push(String::from_str("enable-unsafe-swiftshader"));
        },
        RuntimeEnvironment::Windows | RuntimeEnvironment::MacOs => {},
    }
    out.push(String::from_str("enable-unsafe-webgpu"));
    proof {
        assert(out.deep_view() =~= switches_for(env));
    }
    out
}

} // verus!
