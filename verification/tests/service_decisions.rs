use fsc::logging::default_log_path;
use fsc::process_state::{determine_process_state, is_interactive, ProcessState};
use fsc::service::{manager_error_hint, service_open_failure, EnumStep, ServiceOpenFailure, ServiceSearch};
use fsc::supervisor::{
    is_ignorable_name_error, is_ignorable_open_error, path_buf_to_wide, pids_returned, stop_requested,
    CoreWatch, ProcessScan, ServiceRequest, WatchAction, WatchEvent, WatchPhase,
};

fn wide(s: &str) -> Vec<u16> {
    s.encode_utf16().collect()
}

#[test]
fn process_states() {
    assert_eq!(determine_process_state(true, true), ProcessState::InteractiveSystem);
    assert_eq!(determine_process_state(true, false), ProcessState::System);
    assert_eq!(determine_process_state(false, true), ProcessState::User);
    assert_eq!(determine_process_state(false, false), ProcessState::OtherService);
}

#[test]
fn interactive_window_station() {
    assert!(is_interactive("WinSta0"));
    assert!(!is_interactive("winsta0"));
    assert!(!is_interactive("Service-0x0-3e7$"));
    assert!(!is_interactive(""));
}

#[test]
fn log_path_replaces_exe_with_log() {
    assert_eq!(default_log_path(&wide("C:\\FSC\\fsc_core.exe")), Some(wide("C:\\FSC\\fsc_core.log")));
    assert_eq!(default_log_path(&wide(".exe")), Some(wide(".log")));
}

#[test]
fn short_module_path_has_no_log_file() {
    assert_eq!(default_log_path(&[]), None);
    assert_eq!(default_log_path(&wide("exe")), None);
}

#[test]
fn wide_paths_are_nul_terminated() {
    let mut expected = wide("C:\\FSC\\fsc_core.exe");
    expected.push(0);
    assert_eq!(path_buf_to_wide(&wide("C:\\FSC\\fsc_core.exe")), expected);
    assert_eq!(path_buf_to_wide(&[]), vec![0]);
    assert_eq!(path_buf_to_wide(&wide("\u{1F600}")), vec![0xD83D, 0xDE00, 0]);
    // units that are not valid UTF-16 are kept as they are
    assert_eq!(path_buf_to_wide(&[0x43, 0xD800, 0x5C]), vec![0x43, 0xD800, 0x5C, 0]);
    let back = path_buf_to_wide(&wide("C:\\Program Files\\FSC"));
    assert_eq!(String::from_utf16(&back[..back.len() - 1]).unwrap(), "C:\\Program Files\\FSC");
}

#[test]
fn ignorable_errors() {
    assert!(is_ignorable_open_error(0x8007_0005u32 as i32));
    assert!(is_ignorable_open_error(0x8007_0057u32 as i32));
    assert!(!is_ignorable_open_error(5));
    assert!(!is_ignorable_open_error(0x8007_0006u32 as i32));
    assert!(is_ignorable_name_error(5));
    assert!(is_ignorable_name_error(31));
    assert!(!is_ignorable_name_error(87));
}

#[test]
fn pids_are_cut_to_the_bytes_returned() {
    let buffer = [10u32, 20, 30, 40];
    assert_eq!(pids_returned(&buffer, 12), vec![10, 20, 30]);
    assert_eq!(pids_returned(&buffer, 14), vec![10, 20, 30]);
    assert_eq!(pids_returned(&buffer, 0), Vec::<u32>::new());
}

#[test]
fn scan_finds_winlogon_and_stale_cores() {
    let mut scan = ProcessScan::new();
    assert!(!scan.observe(4, false, &wide("smss.exe")));
    assert_eq!(scan.winlogon_pid, None);
    assert!(!scan.observe(600, true, &wide("winlogon.exe")));
    assert_eq!(scan.winlogon_pid, Some(600));
    assert!(scan.observe(900, false, &wide("fsc_core.exe")));
    assert!(!scan.observe(901, false, &wide("fsc_core.exe.bak")));
    assert!(!scan.observe(902, false, &wide("FSC_CORE.EXE")));
    assert!(!scan.observe(903, false, &[]));
    assert_eq!(scan.winlogon_pid, Some(600));
    scan.observe(800, true, &wide("winlogon.exe"));
    assert_eq!(scan.winlogon_pid, Some(800));
}

#[test]
fn only_stop_requests_stop() {
    assert!(stop_requested(ServiceRequest::Stop));
    assert!(!stop_requested(ServiceRequest::Other));
}

#[test]
fn watch_respawns_dead_core_and_terminates_on_stop() {
    let mut w = CoreWatch::new(100);
    assert_eq!(w.step(WatchEvent::Poll { keep_running: true }), WatchAction::CheckCore { pid: 100 });
    assert_eq!(w.step(WatchEvent::ExitCode { code: 259 }), WatchAction::Poll);
    assert_eq!(w.step(WatchEvent::Poll { keep_running: true }), WatchAction::CheckCore { pid: 100 });
    assert_eq!(w.step(WatchEvent::ExitCode { code: 1 }), WatchAction::Respawn { exit_code: 1 });
    assert_eq!(w.step(WatchEvent::Spawned { pid: 200 }), WatchAction::Poll);
    assert_eq!(w.pid, 200);
    assert_eq!(w.step(WatchEvent::Poll { keep_running: true }), WatchAction::CheckCore { pid: 200 });
    assert_eq!(w.step(WatchEvent::ExitCode { code: 0 }), WatchAction::Respawn { exit_code: 0 });
    assert_eq!(w.step(WatchEvent::SpawnFailed), WatchAction::Poll);
    assert_eq!(w.pid, 200);
    assert_eq!(w.step(WatchEvent::Poll { keep_running: false }), WatchAction::TerminateCore { pid: 200 });
    assert_eq!(w.phase, WatchPhase::Done);
    assert_eq!(w.step(WatchEvent::Poll { keep_running: true }), WatchAction::GiveUp);
}

#[test]
fn watch_gives_up_when_core_cannot_be_opened() {
    let mut w = CoreWatch::new(5);
    w.step(WatchEvent::Poll { keep_running: true });
    assert_eq!(w.step(WatchEvent::OpenFailed), WatchAction::GiveUp);
    assert_eq!(w.phase, WatchPhase::Done);
    assert_eq!(w.step(WatchEvent::Spawned { pid: 9 }), WatchAction::GiveUp);
    assert_eq!(w.pid, 5);
}

#[test]
fn manager_errors() {
    assert_eq!(manager_error_hint(5), " Are you admin?");
    assert_eq!(manager_error_hint(6), "");
    assert_eq!(service_open_failure(1060), ServiceOpenFailure::CreateService);
    assert_eq!(service_open_failure(5), ServiceOpenFailure::Fail { code: 5 });
}

#[test]
fn service_search_over_batches() {
    let mut s = ServiceSearch::new();
    let batch1 = vec![wide("Appinfo"), vec![0xD800], wide("Spooler")];
    assert_eq!(s.take_batch(3, Some(234), &batch1), EnumStep::Continue);
    assert!(!s.found);
    let batch2 = vec![wide("fscserv"), wide("wuauserv")];
    assert_eq!(s.take_batch(2, None, &batch2), EnumStep::Continue);
    assert!(s.found);
    assert_eq!(s.take_batch(0, Some(5), &vec![]), EnumStep::Finished { found: true });
}

#[test]
fn service_search_failure_and_undecodable_names() {
    let mut s = ServiceSearch::new();
    assert_eq!(s.take_batch(1, Some(5), &vec![wide("fscserv")]), EnumStep::Failed { code: 5 });
    assert!(!s.found);
    let mut broken = wide("fscserv");
    broken.push(0xDC00);
    assert_eq!(s.take_batch(1, None, &vec![broken, wide("FSCSERV")]), EnumStep::Continue);
    assert_eq!(s.take_batch(0, None, &vec![]), EnumStep::Finished { found: false });
}

#[test]
fn watch_ends_within_three_steps_once_stop_is_requested() {
    // stop requested while the core was being checked and had exited
    let mut w = CoreWatch::new(7);
    w.step(WatchEvent::Poll { keep_running: true });
    assert_eq!(w.step(WatchEvent::ExitCode { code: 3 }), WatchAction::Respawn { exit_code: 3 });
    assert_eq!(w.step(WatchEvent::Spawned { pid: 8 }), WatchAction::Poll);
    assert_eq!(w.step(WatchEvent::Poll { keep_running: false }), WatchAction::TerminateCore { pid: 8 });
    assert_eq!(w.phase, WatchPhase::Done);
    assert_eq!(w.step(WatchEvent::Poll { keep_running: false }), WatchAction::GiveUp);
}
