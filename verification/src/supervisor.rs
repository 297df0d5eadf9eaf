//! What the Windows service decides while it keeps the core running: which
//! processes it finds on start (the winlogon process, stale cores), and how
//! it watches the core and starts it again when it exits.

use vstd::prelude::*;
use crate::text::{encode_utf16, law_utf16_round_trip, same_units, utf16_encode, utf16_strict};
use crate::win32::{
    hresult_from_win32, hresult_of_win32, ERROR_ACCESS_DENIED, ERROR_GEN_FAILURE,
    ERROR_INVALID_PARAMETER,
};

verus! {

/// The file name of the core's executable.
pub const FSC_CORE_NAME: &'static str = "fsc_core.exe";
/// `STILL_ACTIVE`: the exit code of a process that has not exited.
pub const STILL_ACTIVE: u32 = 259;

/// A path, given as the UTF-16 units of its OS string, as the
/// NUL-terminated string that Win32 calls take.
pub fn path_buf_to_wide(path: &[u16]) -> (wide: Vec<u16>)
    ensures
        wide@ == path@.push(0u16),
{
    let mut wide: Vec<u16> = Vec::new();
    let mut i: usize = 0;
    while i < path.len()
        invariant
            i <= path@.len(),
            wide@ == path@.take(i as int),
        decreases path@.len() - i,
    {
        wide.push(path[i]);
        assert(path@.take(i + 1) =~= path@.take(i as int).push(path@[i as int]));
        i = i + 1;
    }
    assert(path@.take(path@.len() as int) =~= path@);
    wide.push(0);
    wide
}

/// The wide string of a path ends in a NUL, and what comes before it
/// decodes back to the path.
pub proof fn law_wide_path_decodes_back(path: Seq<char>)
    ensures
        utf16_encode(path).push(0u16).len() >= 1,
        utf16_encode(path).push(0u16).last() == 0,
        utf16_strict(utf16_encode(path).push(0u16).drop_last()) == Some(path),
{
    assert(utf16_encode(path).push(0u16).drop_last() =~= utf16_encode(path));
    law_utf16_round_trip(path);
}

/// Whether a failure to open a process, given as its HRESULT, is one that
/// protected or pseudo processes give (access denied, invalid parameter)
/// and is passed over without a warning.
pub fn is_ignorable_open_error(code: i32) -> (ignorable: bool)
    ensures
        ignorable == (code == hresult_of_win32(ERROR_ACCESS_DENIED) || code == hresult_of_win32(
            ERROR_INVALID_PARAMETER,
        )),
{
    code == hresult_from_win32(ERROR_ACCESS_DENIED) || code == hresult_from_win32(
        ERROR_INVALID_PARAMETER,
    )
}

/// Whether a failure to read a process's image name, given as its Win32
/// error code, is one that some system processes give (access denied,
/// general failure) and is passed over without a warning.
pub fn is_ignorable_name_error(code: u32) -> (ignorable: bool)
    ensures
        ignorable == (code == ERROR_ACCESS_DENIED || code == ERROR_GEN_FAILURE),
{
    code == ERROR_ACCESS_DENIED || code == ERROR_GEN_FAILURE
}

/// The process ids that an enumeration wrote into `buffer`, given the
/// number of bytes it reported.
pub fn pids_returned(buffer: &[u32], bytes: u32) -> (pids: Vec<u32>)
    requires
        bytes / 4 <= buffer@.len(),
    ensures
        pids@ == buffer@.take((bytes / 4) as int),
{
    let count = (bytes / 4) as usize;
    let mut pids: Vec<u32> = Vec::new();
    let mut i: usize = 0;
    while i < count
        invariant
            count == bytes / 4,
            count <= buffer@.len(),
            i <= count,
            pids@ == buffer@.take(i as int),
        decreases count - i,
    {
        pids.push(buffer[i]);
        assert(buffer@.take(i + 1) =~= buffer@.take(i as int).push(buffer@[i as int]));
        i = i + 1;
    }
    pids
}

/// What the scan of the running processes has found so far: the pid of the
/// process whose image is winlogon's, the last one seen.
#[derive(Clone, Copy, Debug, PartialEq, Eq, Structural)]
pub struct ProcessScan {
    pub winlogon_pid: Option<u32>,
}

/// Whether a file name (the UTF-16 units of its OS string) is the core's.
pub open spec fn names_core(file_name: Seq<u16>) -> bool {
    file_name == utf16_encode(FSC_CORE_NAME@)
}

/// The scan after a process `pid`: it is winlogon's if its image path is
/// winlogon's.
pub open spec fn scan_step(s: ProcessScan, pid: u32, is_winlogon: bool) -> ProcessScan {
    ProcessScan { winlogon_pid: if is_winlogon { Some(pid) } else { s.winlogon_pid } }
}

impl ProcessScan {
    /// A scan that has found nothing yet.
    pub fn new() -> (scan: ProcessScan)
        ensures
            scan.winlogon_pid is None,
    {
        ProcessScan { winlogon_pid: None }
    }

    /// Takes process `pid` into account and says whether it is a core left
    /// from before, to be terminated. `is_winlogon` says whether its
    /// (canonical) image path equals winlogon's, and `file_name` is the
    /// file name of that path (empty where the path has none), as UTF-16
    /// units; both come from the platform's path handling.
    pub fn observe(&mut self, pid: u32, is_winlogon: bool, file_name: &[u16]) -> (terminate: bool)
        ensures
            *final(self) == scan_step(*old(self), pid, is_winlogon),
            terminate == names_core(file_name@),
    {
        if is_winlogon {
            self.winlogon_pid = Some(pid);
        }
        let core = encode_utf16(FSC_CORE_NAME);
        same_units(file_name, core.as_slice())
    }
}

/// A file name that is the UTF-16 encoding of a text is the core's exactly
/// when that text is `fsc_core.exe`.
pub proof fn law_core_is_recognised_by_name(name: Seq<char>)
    ensures
        names_core(utf16_encode(name)) <==> name == FSC_CORE_NAME@,
{
    law_utf16_round_trip(name);
    law_utf16_round_trip(FSC_CORE_NAME@);
}

/// The scan run over the processes found, each a pid and whether its image
/// path is winlogon's.
pub open spec fn scan_run(s: ProcessScan, records: Seq<(u32, bool)>) -> ProcessScan
    decreases records.len(),
{
    if records.len() == 0 {
        s
    } else {
        scan_run(scan_step(s, records[0].0, records[0].1), records.drop_first())
    }
}

/// The winlogon pid that a scan ends with is that of the last process whose
/// image path is winlogon's; where no process has it, the scan keeps what
/// it had.
pub proof fn law_scan_keeps_last_winlogon(s: ProcessScan, records: Seq<(u32, bool)>)
    ensures
        (forall|j: int| 0 <= j < records.len() ==> !(#[trigger] records[j]).1) ==> scan_run(
            s,
            records,
        ) == s,
        forall|i: int|
            0 <= i < records.len() && (#[trigger] records[i]).1 && (forall|j: int|
                i < j < records.len() ==> !(#[trigger] records[j]).1) ==> scan_run(s, records).winlogon_pid
                == Some(records[i].0),
    decreases records.len(),
{
    if records.len() > 0 {
        let r = records[0];
        let rest = records.drop_first();
        let s1 = scan_step(s, r.0, r.1);
        law_scan_keeps_last_winlogon(s1, rest);
        assert forall|i: int|
            0 <= i < records.len() && (#[trigger] records[i]).1 && (forall|j: int|
                i < j < records.len() ==> !(#[trigger] records[j]).1) implies scan_run(
            s,
            records,
        ).winlogon_pid == Some(records[i].0) by {
            if i == 0 {
                assert forall|j: int| 0 <= j < rest.len() implies !(#[trigger] rest[j]).1 by {
                    assert(records[j + 1] == rest[j]);
                }
            } else {
                assert(rest[i - 1] == records[i]);
                assert forall|j: int| i - 1 < j < rest.len() implies !(#[trigger] rest[j]).1 by {
                    assert(records[j + 1] == rest[j]);
                }
            }
        }
        if forall|j: int| 0 <= j < records.len() ==> !(#[trigger] records[j]).1 {
            assert(!r.1);
            assert forall|j: int| 0 <= j < rest.len() implies !(#[trigger] rest[j]).1 by {
                assert(records[j + 1] == rest[j]);
            }
        }
    }
}

/// A request that the service control manager sends to the service.
#[derive(Clone, Copy, Debug, PartialEq, Eq, Structural)]
pub enum ServiceRequest {
    Stop,
    Other,
}

/// Whether a request asks the service to stop watching the core. Every
/// request is answered as handled.
pub fn stop_requested(request: ServiceRequest) -> (stop: bool)
    ensures
        stop == (request == ServiceRequest::Stop),
{
    match request {
        ServiceRequest::Stop => true,
        ServiceRequest::Other => false,
    }
}

/// Where the watch over the core stands.
#[derive(Clone, Copy, Debug, PartialEq, Eq, Structural)]
pub enum WatchPhase {
    /// Waiting to learn whether the service should go on.
    Idle,
    /// Waiting for the exit code of the core.
    AwaitExitCode,
    /// Waiting for a new core to be created.
    AwaitSpawn,
    /// The watch has ended.
    Done,
}

/// The watch over the core process.
#[derive(Clone, Copy, Debug, PartialEq, Eq, Structural)]
pub struct CoreWatch {
    /// The pid of the core being watched.
    pub pid: u32,
    pub phase: WatchPhase,
}

/// What the last piece of work on the core found.
#[derive(Clone, Copy, Debug, PartialEq, Eq, Structural)]
pub enum WatchEvent {
    /// Whether the service is still to run (no stop was requested).
    Poll { keep_running: bool },
    /// The core could not be opened.
    OpenFailed,
    /// The core's exit code, read half a second after it was opened.
    ExitCode { code: u32 },
    /// A new core was created with this pid.
    Spawned { pid: u32 },
    /// Creating a new core failed.
    SpawnFailed,
}

/// The next piece of work on the core.
#[derive(Clone, Copy, Debug, PartialEq, Eq, Structural)]
pub enum WatchAction {
    /// Learn whether the service is still to run.
    Poll,
    /// Open the core `pid`, wait half a second, and read its exit code.
    CheckCore { pid: u32 },
    /// The core exited with `exit_code`: create a new one.
    Respawn { exit_code: u32 },
    /// The service stops: terminate the core `pid`; the watch is over.
    TerminateCore { pid: u32 },
    /// The watch is over and the core is left as it is.
    GiveUp,
}

/// One step of the watch: the new watch and the next piece of work.
pub open spec fn watch_step(w: CoreWatch, e: WatchEvent) -> (CoreWatch, WatchAction) {
    let done = CoreWatch { phase: WatchPhase::Done, ..w };
    let idle = CoreWatch { phase: WatchPhase::Idle, ..w };
    match w.phase {
        WatchPhase::Idle => match e {
            WatchEvent::Poll { keep_running } => if keep_running {
                (CoreWatch { phase: WatchPhase::AwaitExitCode, ..w }, WatchAction::CheckCore { pid: w.pid })
            } else {
                (done, WatchAction::TerminateCore { pid: w.pid })
            },
            _ => (done, WatchAction::GiveUp),
        },
        WatchPhase::AwaitExitCode => match e {
            WatchEvent::ExitCode { code } => if code == STILL_ACTIVE {
                (idle, WatchAction::Poll)
            } else {
                (CoreWatch { phase: WatchPhase::AwaitSpawn, ..w }, WatchAction::Respawn { exit_code: code })
            },
            _ => (done, WatchAction::GiveUp),
        },
        WatchPhase::AwaitSpawn => match e {
            WatchEvent::Spawned { pid } => (CoreWatch { pid, phase: WatchPhase::Idle }, WatchAction::Poll),
            WatchEvent::SpawnFailed => (idle, WatchAction::Poll),
            _ => (done, WatchAction::GiveUp),
        },
        WatchPhase::Done => (done, WatchAction::GiveUp),
    }
}

impl CoreWatch {
    /// Starts watching the core `pid`; the first piece of work is to learn
    /// whether the service is still to run.
    pub fn new(pid: u32) -> (w: CoreWatch)
        ensures
            w == (CoreWatch { pid, phase: WatchPhase::Idle }),
    {
        CoreWatch { pid, phase: WatchPhase::Idle }
    }

    /// Takes what the last piece of work found and answers with the next.
    pub fn step(&mut self, event: WatchEvent) -> (action: WatchAction)
        ensures
            (*final(self), action) == watch_step(*old(self), event),
    {
        match self.phase {
            WatchPhase::Idle => {
                if let WatchEvent::Poll { keep_running } = event {
                    if keep_running {
                        self.phase = WatchPhase::AwaitExitCode;
                        return WatchAction::CheckCore { pid: self.pid };
                    } else {
                        self.phase = WatchPhase::Done;
                        return WatchAction::TerminateCore { pid: self.pid };
                    }
                }
            },
            WatchPhase::AwaitExitCode => {
                if let WatchEvent::ExitCode { code } = event {
                    if code == STILL_ACTIVE {
                        self.phase = WatchPhase::Idle;
                        return WatchAction::Poll;
                    } else {
                        self.phase = WatchPhase::AwaitSpawn;
                        return WatchAction::Respawn { exit_code: code };
                    }
                }
            },
            WatchPhase::AwaitSpawn => {
                match event {
                    WatchEvent::Spawned { pid } => {
                        self.pid = pid;
                        self.phase = WatchPhase::Idle;
                        return WatchAction::Poll;
                    },
                    WatchEvent::SpawnFailed => {
                        self.phase = WatchPhase::Idle;
                        return WatchAction::Poll;
                    },
                    _ => {},
                }
            },
            WatchPhase::Done => {},
        }
        self.phase = WatchPhase::Done;
        WatchAction::GiveUp
    }
}

/// The watch run through a sequence of findings: the final watch and the
/// piece of work answered to each finding.
pub open spec fn watch_run(w: CoreWatch, events: Seq<WatchEvent>) -> (CoreWatch, Seq<WatchAction>)
    decreases events.len(),
{
    if events.len() == 0 {
        (w, Seq::empty())
    } else {
        let (w1, a) = watch_step(w, events[0]);
        let rest = watch_run(w1, events.drop_first());
        (rest.0, seq![a] + rest.1)
    }
}

proof fn lemma_watch_run_shape(w: CoreWatch, events: Seq<WatchEvent>)
    ensures
        watch_run(w, events).1.len() == events.len(),
        events.len() > 0 ==> watch_run(w, events).1[0] == watch_step(w, events[0]).1,
        forall|k: int|
            0 < k < events.len() ==> #[trigger] watch_run(w, events).1[k] == watch_run(
                watch_step(w, events[0]).0,
                events.drop_first(),
            ).1[k - 1],
    decreases events.len(),
{
    if events.len() > 0 {
        lemma_watch_run_shape(watch_step(w, events[0]).0, events.drop_first());
    }
}

/// Once the watch has ended it stays ended: every further finding is
/// answered with `GiveUp`, and the watched pid stays as it was.
pub proof fn law_ended_watch_stays_ended(w: CoreWatch, events: Seq<WatchEvent>)
    requires
        w.phase == WatchPhase::Done,
    ensures
        watch_run(w, events).0 == w,
        forall|k: int|
            0 <= k < events.len() ==> #[trigger] watch_run(w, events).1[k] == WatchAction::GiveUp,
    decreases events.len(),
{
    lemma_watch_run_shape(w, events);
    if events.len() > 0 {
        law_ended_watch_stays_ended(w, events.drop_first());
    }
}

/// The watched pid is the one the watch started with or one that a
/// successful creation of a new core reported.
pub proof fn law_watched_pid_is_started_or_spawned(w: CoreWatch, events: Seq<WatchEvent>)
    ensures
        watch_run(w, events).0.pid == w.pid || exists|i: int|
            0 <= i < events.len() && events[i] == (WatchEvent::Spawned {
                pid: watch_run(w, events).0.pid,
            }),
    decreases events.len(),
{
    if events.len() > 0 {
        let (w1, a) = watch_step(w, events[0]);
        let rest = events.drop_first();
        law_watched_pid_is_started_or_spawned(w1, rest);
        let pid = watch_run(w, events).0.pid;
        if pid != w.pid {
            if pid == w1.pid {
                assert(events[0] == (WatchEvent::Spawned { pid }));
            } else {
                let i = choose|i: int| 0 <= i < rest.len() && rest[i] == (WatchEvent::Spawned { pid });
                assert(events[i + 1] == rest[i]);
            }
        }
    }
}

/// Once every poll reads that the service is to stop, the watch ends within
/// three steps: from `Idle` the answer to the poll terminates the core, from the
/// other phases the watch passes through `Idle` (or gives up) on the way,
/// and after that every finding is answered with `GiveUp`.
pub proof fn law_watch_ends_once_stop_is_requested(w: CoreWatch, events: Seq<WatchEvent>)
    requires
        events.len() >= 3,
        forall|i: int|
            0 <= i < events.len() && (#[trigger] events[i]) is Poll ==> !events[i]->keep_running,
    ensures
        watch_run(w, events).0.phase == WatchPhase::Done,
        forall|k: int|
            3 <= k < events.len() ==> #[trigger] watch_run(w, events).1[k] == WatchAction::GiveUp,
        w.phase == WatchPhase::Idle && events[0] is Poll ==> watch_run(w, events).1[0] == (WatchAction::TerminateCore {
            pid: w.pid,
        }),
{
    lemma_watch_run_shape(w, events);
    let s1 = watch_step(w, events[0]);
    let e1 = events.drop_first();
    lemma_watch_run_shape(s1.0, e1);
    assert(e1[0] == events[1]);
    let s2 = watch_step(s1.0, e1[0]);
    let e2 = e1.drop_first();
    lemma_watch_run_shape(s2.0, e2);
    assert(e2[0] == events[2]);
    let s3 = watch_step(s2.0, e2[0]);
    let e3 = e2.drop_first();
    lemma_watch_run_shape(s3.0, e3);
    assert(s3.0.phase == WatchPhase::Done);
    law_ended_watch_stays_ended(s3.0, e3);
    assert(watch_run(w, events).0 == watch_run(s3.0, e3).0);
    assert forall|k: int| 3 <= k < events.len() implies #[trigger] watch_run(w, events).1[k]
        == WatchAction::GiveUp by {
        assert(watch_run(w, events).1[k] == watch_run(s1.0, e1).1[k - 1]);
        assert(watch_run(s1.0, e1).1[k - 1] == watch_run(s2.0, e2).1[k - 2]);
        assert(watch_run(s2.0, e2).1[k - 2] == watch_run(s3.0, e3).1[k - 3]);
    }
}

/// The core is terminated only when the service is told to stop, and it is
/// the core watched at that moment; a new core is asked for only when the
/// watched one reported an exit code other than `STILL_ACTIVE`.
pub proof fn law_terminate_and_respawn_causes(w: CoreWatch, e: WatchEvent)
    ensures
        watch_step(w, e).1 is TerminateCore ==> w.phase == WatchPhase::Idle && e == (WatchEvent::Poll {
            keep_running: false,
        }) && watch_step(w, e).1 == (WatchAction::TerminateCore { pid: w.pid }),
        watch_step(w, e).1 is Respawn ==> w.phase == WatchPhase::AwaitExitCode
            && e is ExitCode && e->code != STILL_ACTIVE,
        w.phase == WatchPhase::AwaitExitCode && e is ExitCode ==> (watch_step(w, e).1 is Respawn
            <==> e->code != STILL_ACTIVE),
{
}

} // verus!
