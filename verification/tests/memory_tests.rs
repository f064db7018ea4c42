use webox::memory::{
    AttributionConfidence, LinuxProcessMemoryCollector, MemoryAttribution, MemoryController,
    MemoryPressureLevel, MitigationAction, ProcessMemoryObservation, ProcessScan, TabTelemetry,
    TelemetrySource, MEMORY_CACHE_TTL_MS,
};
use webox::memory::{proc_pid, process_scan, scan_fits, status_rss_bytes, ProcEntry};

fn current_process_scan(rss_bytes: u64) -> ProcessScan {
    ProcessScan {
        browser_processes: Vec::new(),
        current_process: ProcessMemoryObservation {
            pid: 4242,
            command: "current webox process".to_string(),
            rss_bytes,
        },
    }
}

fn telemetry(tab: &str, renderer: u64, browser: u64, gpu: u64) -> TabTelemetry {
    TabTelemetry {
        tab_id: tab.to_string(),
        renderer_bytes: renderer,
        browser_bytes: browser,
        gpu_bytes: gpu,
    }
}

#[test]
fn controller_escalates_to_critical_pressure() {
    let controller = MemoryController::new(100);
    let decision = controller.evaluate(&telemetry("tab-1", 70, 15, 10));
    assert_eq!(decision.event.level, MemoryPressureLevel::Critical);
}

#[test]
fn linux_collector_observes_current_process_memory() {
    let mut collector = LinuxProcessMemoryCollector::new();
    let observed = collector
        .collect_for_tab("tab-1", 1_000, Some(current_process_scan(123_456)))
        .unwrap();

    assert_eq!(observed.telemetry.tab_id, "tab-1");
    assert!(observed.attribution.live_mvp_evidence);
    assert!(!observed.processes.is_empty());
    assert_eq!(observed.telemetry.renderer_bytes, 123_456);
}

#[test]
fn attribution_metadata_distinguishes_synthetic_from_observed() {
    let synthetic = MemoryAttribution::synthetic();
    let observed = MemoryAttribution::aggregate_process(2);

    assert_eq!(synthetic.source, TelemetrySource::SyntheticSample);
    assert_eq!(synthetic.confidence, AttributionConfidence::TestOnly);
    assert!(!synthetic.live_mvp_evidence);
    assert_eq!(observed.source, TelemetrySource::AggregateProcessRss);
    assert_eq!(observed.confidence, AttributionConfidence::Aggregate);
    assert!(observed.live_mvp_evidence);
    assert!(observed.label().contains("live_mvp_evidence=true"));
}

#[test]
fn linux_collector_returns_cached_result_within_ttl() {
    let mut collector = LinuxProcessMemoryCollector::new();
    let first = collector.collect_for_tab("tab-1", 10_000, Some(current_process_scan(4_096))).unwrap();
    // Within the TTL the cached aggregate is served: no scan is needed.
    assert!(collector.cache_fresh(10_000 + MEMORY_CACHE_TTL_MS - 1));
    let second = collector.collect_for_tab("tab-2", 10_000 + MEMORY_CACHE_TTL_MS - 1, None).unwrap();

    assert_eq!(first.processes, second.processes);
    assert_eq!(second.telemetry.tab_id, "tab-2");
}

#[test]
fn linux_collector_cache_is_invalidated_after_ttl() {
    let mut collector = LinuxProcessMemoryCollector::new();
    collector.collect_for_tab("tab-1", 10_000, Some(current_process_scan(4_096)));

    let later = 10_000 + MEMORY_CACHE_TTL_MS + 1;
    assert!(!collector.cache_fresh(later));
    // A stale cache needs a fresh scan; without one nothing is served.
    assert!(collector.collect_for_tab("tab-1", later, None).is_none());
    let fresh = collector.collect_for_tab("tab-1", later, Some(current_process_scan(8_192))).unwrap();
    assert!(!fresh.processes.is_empty());
    assert_eq!(fresh.telemetry.renderer_bytes, 8_192);
    assert!(collector.cache_fresh(later + 1));
}

#[test]
fn thresholds_follow_the_headroom() {
    let controller = MemoryController::new(1_000);
    let thresholds = controller.thresholds();
    assert_eq!(thresholds.warning_bytes, 750);
    assert_eq!(thresholds.critical_bytes, 900);
    assert_eq!(thresholds.hard_limit_bytes, 1_000);
}

#[test]
fn every_pressure_level_has_its_actions() {
    let controller = MemoryController::new(100);
    let normal = controller.evaluate(&telemetry("tab-1", 10, 10, 10));
    assert_eq!(normal.event.level, MemoryPressureLevel::Normal);
    assert_eq!(normal.actions, vec![MitigationAction::Observe]);
    assert_eq!(normal.event.total_bytes, 30);
    assert_eq!(normal.event.summary, "Tab 'tab-1' is at Normal memory pressure");

    let warning = controller.evaluate(&telemetry("tab-1", 75, 0, 0));
    assert_eq!(warning.event.level, MemoryPressureLevel::Warning);
    assert_eq!(warning.actions, vec![MitigationAction::WarnUser]);

    let exhausted = controller.evaluate(&telemetry("tab-1", 100, 0, 0));
    assert_eq!(exhausted.event.level, MemoryPressureLevel::Exhausted);
    assert_eq!(
        exhausted.actions,
        vec![
            MitigationAction::WarnUser,
            MitigationAction::DeprioritizeBackgroundWork,
            MitigationAction::CaptureRecoveryReport,
        ]
    );
}

#[test]
fn system_report_states_whether_the_target_is_met() {
    let controller = MemoryController::new(8 * 1024 * 1024 * 1024);
    let supported = controller.system_report(16 * 1024 * 1024 * 1024);
    assert!(supported.meets_target);
    assert_eq!(supported.summary, "System can support the configured high-memory tab target");
    let constrained = controller.system_report(6 * 1024 * 1024 * 1024);
    assert!(!constrained.meets_target);
    assert_eq!(
        constrained.summary,
        "System memory is below the configured high-memory tab target"
    );
}

#[test]
fn recovery_report_keeps_sample_and_attribution() {
    let controller = MemoryController::new(100);
    let report = controller.capture_recovery_report(
        &telemetry("tab-9", 90, 20, 5),
        MemoryAttribution::aggregate_process(3),
    );
    assert_eq!(report.tab_id, "tab-9");
    assert_eq!(report.suspected_cause, "suspected-memory-exhaustion");
    assert_eq!(report.captured_bytes, 115);
    assert_eq!(report.process_count, 0);
    assert_eq!(
        report.attribution.label(),
        "source=AggregateProcessRss; confidence=Aggregate; live_mvp_evidence=true; observed aggregate Linux RSS across 3 browser-related process(es)"
    );
}

#[test]
fn scan_sums_browser_processes() {
    let mut collector = LinuxProcessMemoryCollector::new();
    let scan = ProcessScan {
        browser_processes: vec![
            ProcessMemoryObservation { pid: 10, command: "webox".to_string(), rss_bytes: 100 },
            ProcessMemoryObservation { pid: 11, command: "cef renderer".to_string(), rss_bytes: 250 },
        ],
        current_process: ProcessMemoryObservation {
            pid: 12,
            command: "current webox process".to_string(),
            rss_bytes: 999,
        },
    };
    let observed = collector.collect_for_tab("tab-3", 5, Some(scan)).unwrap();
    assert_eq!(observed.telemetry.renderer_bytes, 350);
    assert_eq!(observed.processes.len(), 2);
    assert_eq!(observed.telemetry.browser_bytes, 0);
    assert!(observed.attribution.detail.contains("across 2 browser-related"));
}

#[test]
fn status_rss_reads_the_first_parsable_vmrss_line() {
    assert_eq!(
        status_rss_bytes("Name:\twebox\nVmRSS:\t    2048 kB\nVmSwap:\t0 kB\n"),
        Some(2048 * 1024)
    );
    assert_eq!(status_rss_bytes("VmRSS: 10 kB\r\nThreads: 4\r\n"), Some(10 * 1024));
    assert_eq!(status_rss_bytes("VmRSS: abc kB\nVmRSS: 5 kB\n"), Some(5 * 1024));
    assert_eq!(status_rss_bytes("VmRSS: +7 kB"), Some(7 * 1024));
    assert_eq!(status_rss_bytes("Name: webox\nThreads: 4\n"), None);
    assert_eq!(status_rss_bytes("VmRSS:\n"), None);
    assert_eq!(status_rss_bytes("VmRSS: 18446744073709551615 kB\n"), None);
}

#[test]
fn process_scan_keeps_browser_processes_ordered_by_pid() {
    let entries = vec![
        ProcEntry {
            pid: 30,
            cmdline: Some("/opt/webox/webox\0--type=renderer\0".to_string()),
            status: Some("VmRSS:\t100 kB\n".to_string()),
        },
        ProcEntry { pid: 10, cmdline: Some("bash\0".to_string()), status: Some("VmRSS: 9 kB\n".to_string()) },
        ProcEntry { pid: 20, cmdline: Some("/usr/lib/libCEF helper\0".to_string()), status: None },
        ProcEntry { pid: 5, cmdline: None, status: Some("VmRSS: 1 kB\n".to_string()) },
    ];
    let scan = process_scan(entries, 1, Some("VmRSS: 4 kB\n".to_string()));
    let observed = scan
        .browser_processes
        .iter()
        .map(|p| (p.pid, p.command.as_str(), p.rss_bytes))
        .collect::<Vec<_>>();
    assert_eq!(
        observed,
        vec![(20, "/usr/lib/libCEF helper", 0), (30, "/opt/webox/webox --type=renderer", 100 * 1024)]
    );
    assert_eq!(scan.current_process.pid, 1);
    assert_eq!(scan.current_process.command, "current webox process");
    assert_eq!(scan.current_process.rss_bytes, 4 * 1024);
}

#[test]
fn scan_fits_checks_the_resident_total() {
    let observation = |pid: u32, rss_bytes: u64| ProcessMemoryObservation {
        pid,
        command: "webox".to_string(),
        rss_bytes,
    };
    let small = ProcessScan {
        browser_processes: vec![observation(2, 10), observation(3, 20)],
        current_process: observation(1, u64::MAX),
    };
    assert!(scan_fits(&small));
    let too_large = ProcessScan {
        browser_processes: vec![observation(2, u64::MAX), observation(3, 1)],
        current_process: observation(1, 0),
    };
    assert!(!scan_fits(&too_large));
    let fallback = ProcessScan { browser_processes: Vec::new(), current_process: observation(1, u64::MAX) };
    assert!(scan_fits(&fallback));
    let unordered = ProcessScan {
        browser_processes: vec![observation(3, 10), observation(2, 20)],
        current_process: observation(1, 0),
    };
    assert!(!scan_fits(&unordered));
}

#[test]
fn collector_serves_cached_aggregates_of_ordered_scans() {
    let entries = vec![
        ProcEntry { pid: 9, cmdline: Some("webox\0".to_string()), status: Some("VmRSS: 3 kB\n".to_string()) },
        ProcEntry { pid: 4, cmdline: Some("cef-helper\0".to_string()), status: Some("VmRSS: 1 kB\n".to_string()) },
    ];
    let scan = process_scan(entries, 1, None);
    assert!(scan_fits(&scan));
    let mut collector = LinuxProcessMemoryCollector::new();
    let first = collector.collect_for_tab("tab-1", 100, Some(scan)).unwrap();
    let cached = collector.collect_for_tab("tab-2", 100 + MEMORY_CACHE_TTL_MS - 1, None).unwrap();
    for observed in [&first, &cached] {
        let pids = observed.processes.iter().map(|p| p.pid).collect::<Vec<_>>();
        assert_eq!(pids, vec![4, 9]);
        assert_eq!(observed.telemetry.renderer_bytes, 4 * 1024);
        assert_eq!(observed.telemetry.browser_bytes, 0);
        assert_eq!(observed.telemetry.gpu_bytes, 0);
        assert_eq!(observed.attribution, MemoryAttribution::aggregate_process(2));
    }
    assert_eq!(cached.telemetry.tab_id, "tab-2");
}

#[test]
fn proc_entry_names_give_pids_only_for_processes() {
    assert_eq!(proc_pid("123"), Some(123));
    assert_eq!(proc_pid("+7"), Some(7));
    assert_eq!(proc_pid("4294967295"), Some(u32::MAX));
    assert_eq!(proc_pid("4294967296"), None);
    assert_eq!(proc_pid("self"), None);
    assert_eq!(proc_pid(""), None);
    assert_eq!(proc_pid("-1"), None);
}
