//! What the core decides for each top-level window while it enumerates
//! them: a full-screen window of a ScreenConnect or Remote Utilities client
//! is its privacy screen, and is made layered and semi-transparent.
//!
//! The work with the windows themselves (reading rectangles, opening the
//! owning process, reading its module path and the window styles, setting
//! them) is done by the caller; [`Translucency::step`] takes what each
//! piece of work gave and answers with the next piece of work.

use vstd::prelude::*;
use crate::text::{
    after_last, decode_utf16_lossy, law_utf16_round_trip, same_text, text_after_last, utf16_encode,
    utf16_lossy,
};
use crate::win32::{hresult_from_win32, hresult_of_win32, ERROR_ACCESS_DENIED};

verus! {

/// The module of the ScreenConnect client.
pub const SCREENCONNECT_MODULE_NAME: &'static str = "ScreenConnect.WindowsClient.exe";
/// The module of the Remote Utilities client.
pub const REMOTE_UTILITIES_MODULE_NAME: &'static str = "rfusclient.exe";
/// `WS_VISIBLE`.
pub const WS_VISIBLE: u32 = 0x1000_0000;
/// `WS_EX_LAYERED`.
pub const WS_EX_LAYERED: u32 = 0x0008_0000;

/// A window rectangle in screen coordinates.
#[derive(Clone, Copy, Debug, PartialEq, Eq, Structural)]
pub struct Rect {
    pub left: i32,
    pub top: i32,
    pub right: i32,
    pub bottom: i32,
}

/// A remote-desktop client whose privacy screen is made translucent.
#[derive(Clone, Copy, Debug, PartialEq, Eq, Structural)]
pub enum ScreenClient {
    ScreenConnect,
    RemoteUtilities,
}

/// The client whose module carries the file name `name`, if any.
pub open spec fn module_client(name: Seq<char>) -> Option<ScreenClient> {
    if name == SCREENCONNECT_MODULE_NAME@ {
        Some(ScreenClient::ScreenConnect)
    } else if name == REMOTE_UTILITIES_MODULE_NAME@ {
        Some(ScreenClient::RemoteUtilities)
    } else {
        None
    }
}

/// The client whose module has the file name `name`, if any.
pub fn client_for_module(name: &str) -> (client: Option<ScreenClient>)
    ensures
        client == module_client(name@),
{
    if same_text(name, SCREENCONNECT_MODULE_NAME) {
        Some(ScreenClient::ScreenConnect)
    } else if same_text(name, REMOTE_UTILITIES_MODULE_NAME) {
        Some(ScreenClient::RemoteUtilities)
    } else {
        None
    }
}

/// The client, if any, that a module path (UTF-16, as the process reports
/// it) belongs to: the path is decoded lossily and its text after the last
/// backslash compared with the two module names.
pub open spec fn path_client(units: Seq<u16>) -> Option<ScreenClient> {
    module_client(after_last(utf16_lossy(units), '\\'))
}

/// The client that a module path (UTF-16 units) belongs to, if any.
pub fn client_for_module_path(units: &[u16]) -> (client: Option<ScreenClient>)
    ensures
        client == path_client(units@),
{
    let path = decode_utf16_lossy(units);
    let name = text_after_last(path.as_str(), '\\');
    client_for_module(name)
}

/// A module path that is the UTF-16 encoding of a text is recognised by
/// the text after its last backslash: the ScreenConnect and Remote Utilities
/// modules are found wherever they are installed.
pub proof fn law_encoded_module_path_is_recognised(path: Seq<char>)
    ensures
        path_client(utf16_encode(path)) == module_client(after_last(path, '\\')),
{
    law_utf16_round_trip(path);
}

/// The names under which the two clients are reported.
pub open spec fn friendly_name_of(client: ScreenClient) -> Seq<char> {
    match client {
        ScreenClient::ScreenConnect => "ScreenConnect Client"@,
        ScreenClient::RemoteUtilities => "Remote Utilities"@,
    }
}

impl ScreenClient {
    /// The name under which the client is reported.
    pub fn friendly_name(&self) -> (name: &'static str)
        ensures
            name@ == friendly_name_of(*self),
    {
        match self {
            ScreenClient::ScreenConnect => "ScreenConnect Client",
            ScreenClient::RemoteUtilities => "Remote Utilities",
        }
    }
}

/// Whether a window style holds `WS_VISIBLE`.
pub open spec fn shows(style: u32) -> bool {
    style == style | WS_VISIBLE
}

/// Whether an extended window style holds `WS_EX_LAYERED`.
pub open spec fn is_layered(ex_style: u32) -> bool {
    ex_style == ex_style | WS_EX_LAYERED
}

/// How far the examination of one window has come.
#[derive(Clone, Copy, Debug, PartialEq, Eq, Structural)]
pub enum WindowStage {
    /// Waiting for the rectangles of the window and of the desktop.
    AwaitGeometry,
    /// Waiting for the owning process to be opened.
    AwaitProcess,
    /// Waiting for the module path of the owning process.
    AwaitModulePath,
    /// The window belongs to `client`; waiting for its styles.
    AwaitStyles { client: ScreenClient },
    /// Nothing more is done with this window.
    Finished,
}

/// The examination of one window.
#[derive(Clone, Copy, Debug, PartialEq, Eq, Structural)]
pub struct WindowProbe {
    /// The window's handle, as an address.
    pub hwnd: usize,
    pub stage: WindowStage,
}

/// What was found by the last piece of work on a window.
#[derive(Clone, Debug)]
pub enum WindowEvent {
    /// The rectangles of the window and of the desktop window.
    Geometry { window: Rect, desktop: Rect },
    /// The process that owns the window was opened.
    ProcessOpened,
    /// Opening the owning process failed with this HRESULT.
    ProcessOpenFailed { code: i32 },
    /// The module path of the owning process, as UTF-16 units.
    ModulePath { units: Vec<u16> },
    /// The style and extended style, as `GetWindowLongPtrW` returned them.
    Styles { style: isize, ex_style: isize },
}

/// The next piece of work on a window.
#[derive(Clone, Copy, Debug, PartialEq, Eq, Structural)]
pub enum WindowAction {
    /// Find the owning process and open it.
    OpenProcess,
    /// Read the module path of the owning process.
    ReadModulePath,
    /// Read the window's style and extended style.
    ReadStyles,
    /// Set the extended style to `ex_style`, make the window layered with
    /// this alpha, and stop the enumeration.
    MakeTranslucent { ex_style: u32, alpha: u8, client: ScreenClient },
    /// Leave the window and go on with the next one; `warn` asks for a
    /// warning to be logged.
    Skip { warn: bool },
}

/// The state the core keeps across windows: the alpha it applies and the
/// last window it made translucent (0 for none).
#[derive(Clone, Copy, Debug, PartialEq, Eq, Structural)]
pub struct Translucency {
    pub alpha: u8,
    pub last_hwnd: usize,
}

/// One step of the examination of a window: the new shared state, the new
/// state of the window's examination, and the next piece of work.
pub open spec fn window_step(t: Translucency, p: WindowProbe, e: WindowEvent) -> (
    Translucency,
    WindowProbe,
    WindowAction,
) {
    let finished = WindowProbe { stage: WindowStage::Finished, ..p };
    let skip = WindowAction::Skip { warn: false };
    match p.stage {
        WindowStage::AwaitGeometry => match e {
            WindowEvent::Geometry { window, desktop } => if window == desktop {
                (t, WindowProbe { stage: WindowStage::AwaitProcess, ..p }, WindowAction::OpenProcess)
            } else {
                (t, finished, skip)
            },
            _ => (t, finished, skip),
        },
        WindowStage::AwaitProcess => match e {
            WindowEvent::ProcessOpened => (
                t,
                WindowProbe { stage: WindowStage::AwaitModulePath, ..p },
                WindowAction::ReadModulePath,
            ),
            WindowEvent::ProcessOpenFailed { code } => (
                t,
                finished,
                WindowAction::Skip { warn: code != hresult_of_win32(ERROR_ACCESS_DENIED) },
            ),
            _ => (t, finished, skip),
        },
        WindowStage::AwaitModulePath => match e {
            WindowEvent::ModulePath { units } => match path_client(units@) {
                Some(client) => if t.last_hwnd == p.hwnd {
                    (t, finished, skip)
                } else {
                    (
                        t,
                        WindowProbe { stage: WindowStage::AwaitStyles { client }, ..p },
                        WindowAction::ReadStyles,
                    )
                },
                None => (t, finished, skip),
            },
            _ => (t, finished, skip),
        },
        WindowStage::AwaitStyles { client } => match e {
            WindowEvent::Styles { style, ex_style } => {
                let s = style as u32;
                let x = ex_style as u32;
                if !shows(s) && !is_layered(x) {
                    (t, finished, skip)
                } else {
                    (
                        Translucency { last_hwnd: p.hwnd, ..t },
                        finished,
                        WindowAction::MakeTranslucent {
                            ex_style: x | WS_EX_LAYERED,
                            alpha: t.alpha,
                            client,
                        },
                    )
                }
            },
            _ => (t, finished, skip),
        },
        WindowStage::Finished => (t, finished, skip),
    }
}

impl WindowProbe {
    /// Starts the examination of a window; the first piece of work is to
    /// read its rectangle and the desktop's.
    pub fn new(hwnd: usize) -> (probe: WindowProbe)
        ensures
            probe == (WindowProbe { hwnd, stage: WindowStage::AwaitGeometry }),
    {
        WindowProbe { hwnd, stage: WindowStage::AwaitGeometry }
    }
}

impl Translucency {
    /// The state before any window was made translucent, for an opacity in
    /// percent.
    pub fn new(opacity: isize) -> (t: Translucency)
        requires
            0 <= opacity <= 100,
        ensures
            t.alpha == crate::opacity::alpha_of(opacity as int),
            t.last_hwnd == 0,
    {
        Translucency { alpha: crate::opacity::alpha_for_opacity(opacity), last_hwnd: 0 }
    }

    /// Takes what the last piece of work on `probe`'s window found and
    /// answers with the next piece of work.
    pub fn step(&mut self, probe: &mut WindowProbe, event: WindowEvent) -> (action: WindowAction)
        ensures
            (*final(self), *final(probe), action) == window_step(*old(self), *old(probe), event),
    {
        let skip = WindowAction::Skip { warn: false };
        match probe.stage {
            WindowStage::AwaitGeometry => {
                if let WindowEvent::Geometry { window, desktop } = event {
                    if window == desktop {
                        probe.stage = WindowStage::AwaitProcess;
                        return WindowAction::OpenProcess;
                    }
                }
            },
            WindowStage::AwaitProcess => {
                match event {
                    WindowEvent::ProcessOpened => {
                        probe.stage = WindowStage::AwaitModulePath;
                        return WindowAction::ReadModulePath;
                    },
                    WindowEvent::ProcessOpenFailed { code } => {
                        probe.stage = WindowStage::Finished;
                        let denied = hresult_from_win32(ERROR_ACCESS_DENIED);
                        return WindowAction::Skip { warn: code != denied };
                    },
                    _ => {},
                }
            },
            WindowStage::AwaitModulePath => {
                if let WindowEvent::ModulePath { units } = event {
                    if let Some(client) = client_for_module_path(units.as_slice()) {
                        if self.last_hwnd != probe.hwnd {
                            probe.stage = WindowStage::AwaitStyles { client };
                            return WindowAction::ReadStyles;
                        }
                    }
                }
            },
            WindowStage::AwaitStyles { client } => {
                if let WindowEvent::Styles { style, ex_style } = event {
                    let s = style as u32;
                    let x = ex_style as u32;
                    let visible = s == s | WS_VISIBLE;
                    let layered = x == x | WS_EX_LAYERED;
                    if visible || layered {
                        self.last_hwnd = probe.hwnd;
                        probe.stage = WindowStage::Finished;
                        return WindowAction::MakeTranslucent {
                            ex_style: x | WS_EX_LAYERED,
                            alpha: self.alpha,
                            client,
                        };
                    }
                }
            },
            WindowStage::Finished => {},
        }
        probe.stage = WindowStage::Finished;
        skip
    }
}


/// The examination of a window run through a sequence of findings: the
/// final shared state, the final state of the examination, and the piece of
/// work answered to each finding.
pub open spec fn window_run(t: Translucency, p: WindowProbe, events: Seq<WindowEvent>) -> (
    Translucency,
    WindowProbe,
    Seq<WindowAction>,
)
    decreases events.len(),
{
    if events.len() == 0 {
        (t, p, Seq::empty())
    } else {
        let (t1, p1, a) = window_step(t, p, events[0]);
        let rest = window_run(t1, p1, events.drop_first());
        (rest.0, rest.1, seq![a] + rest.2)
    }
}

/// The examination of a new window: waiting for its geometry.
pub open spec fn fresh_probe(hwnd: usize) -> WindowProbe {
    WindowProbe { hwnd, stage: WindowStage::AwaitGeometry }
}

proof fn lemma_run_shape(t: Translucency, p: WindowProbe, events: Seq<WindowEvent>)
    ensures
        window_run(t, p, events).2.len() == events.len(),
        events.len() > 0 ==> window_run(t, p, events).2[0] == window_step(t, p, events[0]).2,
        forall|k: int|
            0 < k < events.len() ==> #[trigger] window_run(t, p, events).2[k] == window_run(
                window_step(t, p, events[0]).0,
                window_step(t, p, events[0]).1,
                events.drop_first(),
            ).2[k - 1],
    decreases events.len(),
{
    if events.len() > 0 {
        let st = window_step(t, p, events[0]);
        lemma_run_shape(st.0, st.1, events.drop_first());
    }
}

/// A window whose examination has finished is left alone: every further
/// finding is answered with a silent skip, and the shared state stays as it
/// is.
pub proof fn law_finished_window_is_left_alone(
    t: Translucency,
    p: WindowProbe,
    events: Seq<WindowEvent>,
)
    requires
        p.stage == WindowStage::Finished,
    ensures
        window_run(t, p, events).0 == t,
        window_run(t, p, events).1 == p,
        forall|k: int|
            0 <= k < events.len() ==> #[trigger] window_run(t, p, events).2[k]
                == (WindowAction::Skip { warn: false }),
    decreases events.len(),
{
    lemma_run_shape(t, p, events);
    if events.len() > 0 {
        law_finished_window_is_left_alone(t, p, events.drop_first());
    }
}

/// Whatever the findings, the alpha never changes, and the last window made
/// translucent is either what it was or the window under examination.
pub proof fn law_shared_state_changes_only_by_the_examined_window(
    t: Translucency,
    p: WindowProbe,
    events: Seq<WindowEvent>,
)
    ensures
        window_run(t, p, events).0.alpha == t.alpha,
        window_run(t, p, events).0.last_hwnd == t.last_hwnd || window_run(t, p, events).0.last_hwnd
            == p.hwnd,
        window_run(t, p, events).1.hwnd == p.hwnd,
    decreases events.len(),
{
    if events.len() > 0 {
        let st = window_step(t, p, events[0]);
        law_shared_state_changes_only_by_the_examined_window(st.0, st.1, events.drop_first());
    }
}

/// What has to hold of the first four findings on a window for it to be
/// made translucent: it covers the desktop, its process could be opened,
/// its module is that of `client`, it is not the window made translucent
/// last, and it is visible or already layered.
pub open spec fn is_privacy_screen(
    t: Translucency,
    hwnd: usize,
    events: Seq<WindowEvent>,
    client: ScreenClient,
) -> bool {
    &&& events.len() >= 4
    &&& events[0] matches WindowEvent::Geometry { window, desktop } && window == desktop
    &&& events[1] is ProcessOpened
    &&& events[2] matches WindowEvent::ModulePath { units } && path_client(units@) == Some(client)
    &&& hwnd != t.last_hwnd
    &&& events[3] matches WindowEvent::Styles { style, ex_style } && (shows(style as u32)
        || is_layered(ex_style as u32))
}

/// The extended style that a window gets when it is made translucent: the
/// one it had, with `WS_EX_LAYERED` added.
pub open spec fn layered_style(event: WindowEvent) -> u32 {
    match event {
        WindowEvent::Styles { ex_style, .. } => (ex_style as u32) | WS_EX_LAYERED,
        _ => 0,
    }
}

/// A window is made translucent only as the answer to the fourth finding
/// on it, and only if it is the privacy screen of a client; then it gets
/// its extended style with `WS_EX_LAYERED` added and the configured alpha.
pub proof fn law_only_privacy_screens_become_translucent(
    t: Translucency,
    hwnd: usize,
    events: Seq<WindowEvent>,
    k: int,
)
    requires
        0 <= k < events.len(),
        window_run(t, fresh_probe(hwnd), events).2[k] is MakeTranslucent,
    ensures
        k == 3,
        is_privacy_screen(
            t,
            hwnd,
            events,
            window_run(t, fresh_probe(hwnd), events).2[k]->client,
        ),
        window_run(t, fresh_probe(hwnd), events).2[k] == (WindowAction::MakeTranslucent {
            ex_style: layered_style(events[3]),
            alpha: t.alpha,
            client: window_run(t, fresh_probe(hwnd), events).2[k]->client,
        }),
{
    let p0 = fresh_probe(hwnd);
    let run = window_run(t, p0, events);
    lemma_run_shape(t, p0, events);
    let s1 = window_step(t, p0, events[0]);
    let e1 = events.drop_first();
    lemma_run_shape(s1.0, s1.1, e1);
    if s1.1.stage == WindowStage::Finished {
        law_finished_window_is_left_alone(s1.0, s1.1, e1);
        if k > 0 {
            assert(run.2[k] == window_run(s1.0, s1.1, e1).2[k - 1]);
        }
        assert(false);
    }
    assert(k >= 1);
    assert(run.2[k] == window_run(s1.0, s1.1, e1).2[k - 1]);
    let s2 = window_step(s1.0, s1.1, e1[0]);
    let e2 = e1.drop_first();
    lemma_run_shape(s2.0, s2.1, e2);
    if s2.1.stage == WindowStage::Finished {
        law_finished_window_is_left_alone(s2.0, s2.1, e2);
        if k > 1 {
            assert(window_run(s1.0, s1.1, e1).2[k - 1] == window_run(s2.0, s2.1, e2).2[k - 2]);
        }
        assert(false);
    }
    assert(k >= 2);
    assert(window_run(s1.0, s1.1, e1).2[k - 1] == window_run(s2.0, s2.1, e2).2[k - 2]);
    let s3 = window_step(s2.0, s2.1, e2[0]);
    let e3 = e2.drop_first();
    lemma_run_shape(s3.0, s3.1, e3);
    if s3.1.stage == WindowStage::Finished {
        law_finished_window_is_left_alone(s3.0, s3.1, e3);
        if k > 2 {
            assert(window_run(s2.0, s2.1, e2).2[k - 2] == window_run(s3.0, s3.1, e3).2[k - 3]);
        }
        assert(false);
    }
    assert(k >= 3);
    assert(window_run(s2.0, s2.1, e2).2[k - 2] == window_run(s3.0, s3.1, e3).2[k - 3]);
    let s4 = window_step(s3.0, s3.1, e3[0]);
    let e4 = e3.drop_first();
    law_finished_window_is_left_alone(s4.0, s4.1, e4);
    lemma_run_shape(s4.0, s4.1, e4);
    if k > 3 {
        assert(window_run(s3.0, s3.1, e3).2[k - 3] == window_run(s4.0, s4.1, e4).2[k - 4]);
        assert(false);
    }
    assert(e1[0] == events[1]);
    assert(e2[0] == events[2]);
    assert(e3[0] == events[3]);
}

/// Conversely, the privacy screen of a client is made translucent as the
/// answer to the fourth finding on it.
pub proof fn law_privacy_screens_become_translucent(
    t: Translucency,
    hwnd: usize,
    events: Seq<WindowEvent>,
    client: ScreenClient,
)
    requires
        is_privacy_screen(t, hwnd, events, client),
    ensures
        window_run(t, fresh_probe(hwnd), events).2[3] == (WindowAction::MakeTranslucent {
            ex_style: layered_style(events[3]),
            alpha: t.alpha,
            client,
        }),
        window_run(t, fresh_probe(hwnd), events).0 == (Translucency { last_hwnd: hwnd, ..t }),
{
    let p0 = fresh_probe(hwnd);
    lemma_run_shape(t, p0, events);
    let s1 = window_step(t, p0, events[0]);
    let e1 = events.drop_first();
    lemma_run_shape(s1.0, s1.1, e1);
    let s2 = window_step(s1.0, s1.1, e1[0]);
    let e2 = e1.drop_first();
    lemma_run_shape(s2.0, s2.1, e2);
    let s3 = window_step(s2.0, s2.1, e2[0]);
    let e3 = e2.drop_first();
    lemma_run_shape(s3.0, s3.1, e3);
    let s4 = window_step(s3.0, s3.1, e3[0]);
    let e4 = e3.drop_first();
    assert(e1[0] == events[1]);
    assert(e2[0] == events[2]);
    assert(e3[0] == events[3]);
    law_finished_window_is_left_alone(s4.0, s4.1, e4);
}

/// The window made translucent last is left alone when it is examined
/// again: no findings make it translucent a second time.
pub proof fn law_last_window_is_not_treated_again(
    t: Translucency,
    events: Seq<WindowEvent>,
    k: int,
)
    requires
        0 <= k < events.len(),
    ensures
        !(window_run(t, fresh_probe(t.last_hwnd), events).2[k] is MakeTranslucent),
{
    if window_run(t, fresh_probe(t.last_hwnd), events).2[k] is MakeTranslucent {
        law_only_privacy_screens_become_translucent(t, t.last_hwnd, events, k);
    }
}

/// A window style counts as visible exactly when its `WS_VISIBLE` bit
/// (0x1000_0000) is set, whatever its other bits; an extended style counts
/// as layered exactly when its `WS_EX_LAYERED` bit (0x0008_0000) is set.
pub proof fn law_style_bits_decide(style: u32, ex_style: u32)
    ensures
        shows(style) <==> (style & 0x1000_0000u32) != 0,
        is_layered(ex_style) <==> (ex_style & 0x0008_0000u32) != 0,
{
    assert((style == (style | 0x1000_0000u32)) <==> ((style & 0x1000_0000u32) != 0)) by (bit_vector);
    assert((ex_style == (ex_style | 0x0008_0000u32)) <==> ((ex_style & 0x0008_0000u32) != 0))
        by (bit_vector);
}

/// A full-screen window of a client, not the one treated last, is made
/// translucent as soon as its style has the visible bit or its extended
/// style has the layered bit, whatever their other bits; it keeps those
/// other bits and gains the layered one.
pub proof fn law_visible_or_layered_screen_is_treated(
    t: Translucency,
    hwnd: usize,
    rect: Rect,
    units: Vec<u16>,
    client: ScreenClient,
    style: isize,
    ex_style: isize,
    later: Seq<WindowEvent>,
)
    requires
        path_client(units@) == Some(client),
        hwnd != t.last_hwnd,
        ((style as u32) & 0x1000_0000u32) != 0 || ((ex_style as u32) & 0x0008_0000u32) != 0,
    ensures
        ({
            let events = seq![
                WindowEvent::Geometry { window: rect, desktop: rect },
                WindowEvent::ProcessOpened,
                WindowEvent::ModulePath { units },
                WindowEvent::Styles { style, ex_style },
            ] + later;
            &&& window_run(t, fresh_probe(hwnd), events).2[3] == (WindowAction::MakeTranslucent {
                ex_style: (ex_style as u32) | 0x0008_0000u32,
                alpha: t.alpha,
                client,
            })
            &&& window_run(t, fresh_probe(hwnd), events).0.last_hwnd == hwnd
        }),
{
    let events = seq![
        WindowEvent::Geometry { window: rect, desktop: rect },
        WindowEvent::ProcessOpened,
        WindowEvent::ModulePath { units },
        WindowEvent::Styles { style, ex_style },
    ] + later;
    law_style_bits_decide(style as u32, ex_style as u32);
    assert(events[0] == WindowEvent::Geometry { window: rect, desktop: rect });
    assert(events[1] == WindowEvent::ProcessOpened);
    assert(events[2] == WindowEvent::ModulePath { units });
    assert(events[3] == WindowEvent::Styles { style, ex_style });
    assert(is_privacy_screen(t, hwnd, events, client));
    law_privacy_screens_become_translucent(t, hwnd, events, client);
}

} // verus!
