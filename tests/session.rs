use tamamo_x::provision::HachimiVersion;
use tamamo_x::watch::{
    injected_string, Action, Event, GameVersion, Phase, Session, TamamoApp, WatchState,
    EXIT_POLL_MS, IDLE_TIMEOUT_MS, LOCATE_RETRY_MS, SETTLE_MS, WINDOW_RETRY_MS,
};

fn app_with(hachimi: bool, edge: bool, custom: &[&str], auto_restart: bool) -> TamamoApp {
    let mut app = TamamoApp::new();
    app.hachimi_enabled = hachimi;
    app.hachimi_edge_enabled = edge;
    app.auto_restart = auto_restart;
    for c in custom {
        app.add_custom_dll(c.to_string());
    }
    app
}

/// Runs a session from the scan to the end of its injections, reporting
/// `results` for the injections in turn.
fn run_to_injections(s: &mut Session, w: &mut WatchState, results: &[bool]) -> Action {
    assert_eq!(s.step(w, Event::ProcessFound(true)), Action::CheckWindow);
    assert_eq!(w.status, "Process found! Waiting for window...");
    assert_eq!(s.step(w, Event::WindowFound(true)), Action::WaitInputIdle(s.idle_timeout_ms));
    assert_eq!(w.status, "Waiting for process to become idle...");
    assert_eq!(s.step(w, Event::IdleWaitEnded), Action::Sleep(s.settle_ms));
    let mut a = s.step(w, Event::Slept);
    for (i, ok) in results.iter().enumerate() {
        assert_eq!(a, Action::Inject(i));
        a = s.step(w, Event::Injected(*ok));
    }
    a
}

#[test]
fn defaults_of_a_new_app() {
    let app = TamamoApp::new();
    assert!(app.hachimi_enabled);
    assert!(!app.hachimi_edge_enabled);
    assert_eq!(app.game_version, GameVersion::Global);
    assert!(app.custom_dlls.is_empty());
    assert!(app.auto_restart);
    assert!(!app.is_watching);
    assert_eq!(app.status, "Idle");
    let w = WatchState::new();
    assert_eq!(w.status, "Idle");
    assert!(!w.is_watching && !w.should_stop);
}

#[test]
fn process_names_of_the_releases() {
    assert_eq!(GameVersion::Global.process_name(), "UmamusumePrettyDerby.exe");
    assert_eq!(GameVersion::Japanese.process_name(), "umamusume.exe");
}

#[test]
fn start_without_downloads_scans_at_once() {
    let mut app = app_with(false, false, &[], true);
    let mut w = WatchState::new();
    let s = app.start_watching(&mut w).unwrap();
    assert!(app.is_watching);
    assert!(w.is_watching);
    assert_eq!(s.phase, Phase::Locating);
    assert_eq!(s.action(), Action::FindProcess(GameVersion::Global));
    assert_eq!(w.status, "Watching for UmamusumePrettyDerby.exe...");
}

#[test]
fn start_with_downloads_provisions_first() {
    let mut app = app_with(true, false, &[], true);
    app.game_version = GameVersion::Japanese;
    let mut w = WatchState::new();
    let mut s = app.start_watching(&mut w).unwrap();
    assert_eq!(s.action(), Action::Provision(HachimiVersion::Original));
    assert_eq!(w.status, "Downloading latest Hachimi...");
    let a = s.step(&mut w, Event::Provisioned(Ok("external/hachimi/hachimi.dll".to_string())));
    assert_eq!(a, Action::FindProcess(GameVersion::Japanese));
    assert_eq!(w.status, "Watching for umamusume.exe...");
    assert_eq!(s.downloaded, vec!["external/hachimi/hachimi.dll".to_string()]);
}

#[test]
fn edge_download_announced() {
    let mut app = app_with(false, true, &[], true);
    let mut w = WatchState::new();
    let s = app.start_watching(&mut w).unwrap();
    assert_eq!(s.action(), Action::Provision(HachimiVersion::Edge));
    assert_eq!(w.status, "Downloading latest Hachimi Edge...");
}

#[test]
fn absent_process_keeps_scanning_until_stopped() {
    let mut app = app_with(false, false, &[], true);
    let mut w = WatchState::new();
    let mut s = app.start_watching(&mut w).unwrap();
    for _ in 0..50 {
        assert_eq!(s.step(&mut w, Event::ProcessFound(false)), Action::Sleep(LOCATE_RETRY_MS));
        assert_eq!(s.phase, Phase::LocateBackoff);
        assert_eq!(s.step(&mut w, Event::Slept), Action::FindProcess(GameVersion::Global));
        assert_eq!(s.phase, Phase::Locating);
    }
    app.stop_watching(&mut w);
    assert_eq!(s.step(&mut w, Event::ProcessFound(false)), Action::Sleep(LOCATE_RETRY_MS));
    assert_eq!(s.step(&mut w, Event::Slept), Action::Finish);
    assert_eq!(s.phase, Phase::Stopped);
    assert!(!w.is_watching);
    assert_eq!(w.status, "Stopping...");
}

#[test]
fn stop_during_window_wait_ends_at_next_check() {
    let mut app = app_with(false, false, &[], true);
    let mut w = WatchState::new();
    let mut s = app.start_watching(&mut w).unwrap();
    assert_eq!(s.step(&mut w, Event::ProcessFound(true)), Action::CheckWindow);
    assert_eq!(s.step(&mut w, Event::WindowFound(false)), Action::Sleep(WINDOW_RETRY_MS));
    app.stop_watching(&mut w);
    assert_eq!(s.step(&mut w, Event::Slept), Action::Finish);
    assert_eq!(s.phase, Phase::Stopped);
}

#[test]
fn stop_twice_is_a_no_op() {
    let mut app = app_with(false, false, &[], true);
    let mut w = WatchState::new();
    let _s = app.start_watching(&mut w).unwrap();
    app.stop_watching(&mut w);
    assert!(!w.is_watching && w.should_stop);
    assert_eq!(w.status, "Stopping...");
    app.stop_watching(&mut w);
    assert!(!w.is_watching && w.should_stop);
    assert_eq!(w.status, "Stopping...");
    assert!(!app.is_watching);
}

#[test]
fn stop_without_session_is_harmless() {
    let mut app = TamamoApp::new();
    let mut w = WatchState::new();
    app.stop_watching(&mut w);
    app.stop_watching(&mut w);
    assert!(!w.is_watching);
    assert!(!app.is_watching);
}

#[test]
fn failed_provision_left_out_of_the_count() {
    let mut app = app_with(true, true, &["C:\\mods\\custom.dll"], false);
    let mut w = WatchState::new();
    let mut s = app.start_watching(&mut w).unwrap();
    let a = s.step(&mut w, Event::Provisioned(Ok("external/hachimi/hachimi.dll".to_string())));
    assert_eq!(a, Action::Provision(HachimiVersion::Edge));
    assert_eq!(w.status, "Downloading latest Hachimi Edge...");
    let a = s.step(&mut w, Event::Provisioned(Err("timed out".to_string())));
    assert_eq!(a, Action::ReportProvisionFailure(HachimiVersion::Edge));
    assert_eq!(w.status, "Download failed: timed out");
    let a = s.step(&mut w, Event::Reported);
    assert_eq!(a, Action::FindProcess(GameVersion::Global));
    let a = run_to_injections(&mut s, &mut w, &[true, true]);
    assert_eq!(a, Action::Finish);
    assert_eq!(s.queue, vec!["external/hachimi/hachimi.dll".to_string(), "C:\\mods\\custom.dll".to_string()]);
    assert_eq!(w.status, "Injected 2/2 DLLs");
    assert_ne!(w.status, "Injected 2/3 DLLs");
}

#[test]
fn provision_failure_is_shown_until_the_next_status() {
    let mut app = app_with(true, true, &[], true);
    let mut w = WatchState::new();
    let mut s = app.start_watching(&mut w).unwrap();
    let a = s.step(&mut w, Event::Provisioned(Err("no network".to_string())));
    assert_eq!(a, Action::ReportProvisionFailure(HachimiVersion::Original));
    assert_eq!(w.status, "Download failed: no network");
    assert_eq!(s.step(&mut w, Event::Slept), Action::ReportProvisionFailure(HachimiVersion::Original));
    assert_eq!(w.status, "Download failed: no network");
    let a = s.step(&mut w, Event::Reported);
    assert_eq!(a, Action::Provision(HachimiVersion::Edge));
    assert_eq!(w.status, "Downloading latest Hachimi Edge...");
    assert!(s.downloaded.is_empty());
}

#[test]
fn no_restart_ends_after_one_cycle() {
    let mut app = app_with(false, false, &["a.dll", "b.dll", "c.dll"], false);
    let mut w = WatchState::new();
    let mut s = app.start_watching(&mut w).unwrap();
    let a = run_to_injections(&mut s, &mut w, &[true, false, true]);
    assert_eq!(a, Action::Finish);
    assert_eq!(s.phase, Phase::Done);
    assert!(!w.is_watching);
    assert_eq!(w.status, "Injected 2/3 DLLs");
    // Nothing the worker reports afterwards moves a finished session.
    assert_eq!(s.step(&mut w, Event::ProcessExited(true)), Action::Finish);
    assert_eq!(s.phase, Phase::Done);
}

#[test]
fn restart_after_the_process_exits() {
    let mut app = app_with(false, false, &["a.dll"], true);
    let mut w = WatchState::new();
    let mut s = app.start_watching(&mut w).unwrap();
    let a = run_to_injections(&mut s, &mut w, &[true]);
    assert_eq!(a, Action::WaitExit(EXIT_POLL_MS));
    assert_eq!(s.phase, Phase::ExitWaiting);
    assert_eq!(w.status, "Injected. Waiting for process to exit...");
    assert_eq!(s.step(&mut w, Event::ProcessExited(false)), Action::WaitExit(EXIT_POLL_MS));
    let a = s.step(&mut w, Event::ProcessExited(true));
    assert_eq!(a, Action::FindProcess(GameVersion::Global));
    assert_eq!(s.phase, Phase::Locating);
    assert_eq!(w.status, "Watching for UmamusumePrettyDerby.exe...");
    assert!(w.is_watching);
    // A second cycle attempts the same libraries, counted afresh.
    let a = run_to_injections(&mut s, &mut w, &[false]);
    assert_eq!(a, Action::WaitExit(EXIT_POLL_MS));
    assert_eq!(s.succeeded, 0);
}

#[test]
fn empty_cycle_reports_zero_of_zero() {
    let mut app = app_with(false, false, &[], false);
    let mut w = WatchState::new();
    let mut s = app.start_watching(&mut w).unwrap();
    let a = run_to_injections(&mut s, &mut w, &[]);
    assert_eq!(a, Action::Finish);
    assert_eq!(w.status, "Injected 0/0 DLLs");
}

#[test]
fn unexpected_event_changes_nothing() {
    let mut app = app_with(false, false, &[], true);
    let mut w = WatchState::new();
    let mut s = app.start_watching(&mut w).unwrap();
    assert_eq!(s.step(&mut w, Event::Slept), Action::FindProcess(GameVersion::Global));
    assert_eq!(s.phase, Phase::Locating);
    assert_eq!(w.status, "Watching for UmamusumePrettyDerby.exe...");
}

#[test]
fn injected_counts_in_decimal() {
    assert_eq!(injected_string(0, 0), "Injected 0/0 DLLs");
    assert_eq!(injected_string(12, 105), "Injected 12/105 DLLs");
}

#[test]
fn only_one_build_selected() {
    let mut app = TamamoApp::new();
    app.set_hachimi_edge_enabled(true);
    assert!(app.hachimi_edge_enabled && !app.hachimi_enabled);
    app.set_hachimi_enabled(true);
    assert!(app.hachimi_enabled && !app.hachimi_edge_enabled);
    app.set_hachimi_enabled(false);
    assert!(!app.hachimi_enabled && !app.hachimi_edge_enabled);
}

#[test]
fn custom_libraries_added_and_removed() {
    let mut app = TamamoApp::new();
    app.add_custom_dll("a.dll".to_string());
    app.add_custom_dll("b.dll".to_string());
    app.remove_custom_dll(0);
    assert_eq!(app.custom_dlls, vec!["b.dll".to_string()]);
}

#[test]
fn sync_copies_the_shared_state() {
    let mut app = TamamoApp::new();
    let mut w = WatchState::new();
    w.start();
    app.sync(&w);
    assert!(app.is_watching);
    assert_eq!(app.status, "Watching for Umamusume...");
}

#[test]
fn second_start_refused_while_watching() {
    let mut app = app_with(false, false, &[], true);
    let mut w = WatchState::new();
    let mut s = app.start_watching(&mut w).unwrap();
    assert_eq!(s.step(&mut w, Event::ProcessFound(false)), Action::Sleep(LOCATE_RETRY_MS));
    assert!(app.start_watching(&mut w).is_none());
    assert!(w.is_watching);
    assert_eq!(w.status, "Watching for UmamusumePrettyDerby.exe...");
    // Once the session is stopped a new one can start.
    app.stop_watching(&mut w);
    let s2 = app.start_watching(&mut w).unwrap();
    assert!(w.is_watching && !w.should_stop);
    assert_eq!(s2.action(), Action::FindProcess(GameVersion::Global));
}

#[test]
fn configured_waits_are_used() {
    let mut app = app_with(false, false, &["a.dll"], false);
    assert_eq!(app.idle_timeout_ms, IDLE_TIMEOUT_MS);
    assert_eq!(app.settle_ms, SETTLE_MS);
    app.idle_timeout_ms = 2500;
    app.settle_ms = 0;
    let mut w = WatchState::new();
    let mut s = app.start_watching(&mut w).unwrap();
    assert_eq!(s.step(&mut w, Event::ProcessFound(true)), Action::CheckWindow);
    assert_eq!(s.step(&mut w, Event::WindowFound(true)), Action::WaitInputIdle(2500));
    assert_eq!(s.step(&mut w, Event::IdleWaitEnded), Action::Sleep(0));
    assert_eq!(s.step(&mut w, Event::Slept), Action::Inject(0));
}
