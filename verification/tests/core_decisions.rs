use fsc::opacity::{alpha_for_opacity, parse_opacity, DEFAULT_OPACITY};
use fsc::text::{encode_utf16, same_text, text_after_last};
use fsc::window::{
    client_for_module, client_for_module_path, Rect, ScreenClient, Translucency, WindowAction,
    WindowEvent, WindowProbe, WindowStage,
};

fn wide(s: &str) -> Vec<u16> {
    s.encode_utf16().collect()
}

const DESKTOP: Rect = Rect { left: 0, top: 0, right: 1920, bottom: 1080 };
const ACCESS_DENIED_HRESULT: i32 = 0x8007_0005u32 as i32;

#[test]
fn opacity_defaults_when_argument_is_missing_or_bad() {
    assert_eq!(parse_opacity(""), DEFAULT_OPACITY);
    assert_eq!(parse_opacity("abc"), 50);
    assert_eq!(parse_opacity("4a"), 50);
    assert_eq!(parse_opacity("-"), 50);
    assert_eq!(parse_opacity("+"), 50);
    assert_eq!(parse_opacity(" 40"), 50);
    assert_eq!(parse_opacity("99999999999999999999999999"), 50);
}

#[test]
fn opacity_out_of_range_is_default() {
    assert_eq!(parse_opacity("101"), 50);
    assert_eq!(parse_opacity("-5"), 50);
    assert_eq!(parse_opacity("1000"), 50);
}

#[test]
fn opacity_in_range_is_kept() {
    assert_eq!(parse_opacity("0"), 0);
    assert_eq!(parse_opacity("75"), 75);
    assert_eq!(parse_opacity("100"), 100);
    assert_eq!(parse_opacity("+42"), 42);
    assert_eq!(parse_opacity("-0"), 0);
    assert_eq!(parse_opacity("007"), 7);
}

#[test]
fn opacity_matches_isize_from_str_on_samples() {
    for s in ["", "0", "-0", "+0", "12", "-12", "100", "101", "x", "1x", "+", "-", "0050", "255"] {
        let expected = match s.parse::<isize>() {
            Ok(v) if (0..=100).contains(&v) => v,
            _ => 50,
        };
        assert_eq!(parse_opacity(s), expected, "argument {:?}", s);
    }
}

#[test]
fn alpha_is_percent_of_255() {
    assert_eq!(alpha_for_opacity(0), 0);
    assert_eq!(alpha_for_opacity(50), 127);
    assert_eq!(alpha_for_opacity(100), 255);
    assert_eq!(alpha_for_opacity(33), 84);
}

#[test]
fn utf16_encoding_matches_std() {
    let s = "C:\\Programme\\a\u{20AC}\u{1F600}";
    assert_eq!(encode_utf16(s), wide(s));
    assert_eq!(encode_utf16(""), Vec::<u16>::new());
}

#[test]
fn text_helpers() {
    assert!(same_text("WinSta0", "WinSta0"));
    assert!(!same_text("WinSta0", "winsta0"));
    assert_eq!(text_after_last("C:\\a\\b.exe", '\\'), "b.exe");
    assert_eq!(text_after_last("b.exe", '\\'), "b.exe");
    assert_eq!(text_after_last("C:\\a\\", '\\'), "");
}

#[test]
fn module_names_select_clients() {
    assert_eq!(client_for_module("ScreenConnect.WindowsClient.exe"), Some(ScreenClient::ScreenConnect));
    assert_eq!(client_for_module("rfusclient.exe"), Some(ScreenClient::RemoteUtilities));
    assert_eq!(client_for_module("screenconnect.windowsclient.exe"), None);
    assert_eq!(client_for_module("notepad.exe"), None);
    assert_eq!(ScreenClient::ScreenConnect.friendly_name(), "ScreenConnect Client");
    assert_eq!(ScreenClient::RemoteUtilities.friendly_name(), "Remote Utilities");
}

#[test]
fn module_paths_are_decoded_and_cut_at_the_last_backslash() {
    let sc = wide("C:\\Program Files (x86)\\ScreenConnect Client (abc)\\ScreenConnect.WindowsClient.exe");
    assert_eq!(client_for_module_path(&sc), Some(ScreenClient::ScreenConnect));
    let ru = wide("C:\\Program Files\\Remote Utilities\\rfusclient.exe");
    assert_eq!(client_for_module_path(&ru), Some(ScreenClient::RemoteUtilities));
    // a lone surrogate in a directory name is replaced, the file name still matches
    let mut odd = vec![0x43, 0x3A, 0x5C, 0xD800, 0x5C];
    odd.extend(wide("rfusclient.exe"));
    assert_eq!(client_for_module_path(&odd), Some(ScreenClient::RemoteUtilities));
    assert_eq!(client_for_module_path(&wide("C:\\Windows\\explorer.exe")), None);
    assert_eq!(client_for_module_path(&[]), None);
}

fn privacy_screen_events(style: isize, ex_style: isize) -> Vec<WindowEvent> {
    vec![
        WindowEvent::Geometry { window: DESKTOP, desktop: DESKTOP },
        WindowEvent::ProcessOpened,
        WindowEvent::ModulePath { units: wide("C:\\SC\\ScreenConnect.WindowsClient.exe") },
        WindowEvent::Styles { style, ex_style },
    ]
}

fn run(t: &mut Translucency, hwnd: usize, events: Vec<WindowEvent>) -> Vec<WindowAction> {
    let mut probe = WindowProbe::new(hwnd);
    events.into_iter().map(|e| t.step(&mut probe, e)).collect()
}

#[test]
fn privacy_screen_is_made_translucent_once() {
    let mut t = Translucency::new(50);
    assert_eq!(t.alpha, 127);
    assert_eq!(t.last_hwnd, 0);
    let actions = run(&mut t, 0x1234, privacy_screen_events(0x1000_0000, 0x0000_0008));
    assert_eq!(
        actions,
        vec![
            WindowAction::OpenProcess,
            WindowAction::ReadModulePath,
            WindowAction::ReadStyles,
            WindowAction::MakeTranslucent {
                ex_style: 0x0008_0008,
                alpha: 127,
                client: ScreenClient::ScreenConnect,
            },
        ]
    );
    assert_eq!(t.last_hwnd, 0x1234);
    // the same window is left alone the next time round
    let again = run(&mut t, 0x1234, privacy_screen_events(0x1000_0000, 0x0000_0008));
    assert_eq!(again[2], WindowAction::Skip { warn: false });
    assert_eq!(t.last_hwnd, 0x1234);
}

#[test]
fn window_not_covering_the_desktop_is_skipped() {
    let mut t = Translucency::new(50);
    let mut probe = WindowProbe::new(7);
    let small = Rect { left: 0, top: 0, right: 800, bottom: 600 };
    let a = t.step(&mut probe, WindowEvent::Geometry { window: small, desktop: DESKTOP });
    assert_eq!(a, WindowAction::Skip { warn: false });
    assert_eq!(probe.stage, WindowStage::Finished);
    let b = t.step(&mut probe, WindowEvent::ProcessOpened);
    assert_eq!(b, WindowAction::Skip { warn: false });
}

#[test]
fn open_failure_warns_unless_access_is_denied() {
    let mut t = Translucency::new(50);
    let mut probe = WindowProbe::new(7);
    t.step(&mut probe, WindowEvent::Geometry { window: DESKTOP, desktop: DESKTOP });
    let a = t.step(&mut probe, WindowEvent::ProcessOpenFailed { code: ACCESS_DENIED_HRESULT });
    assert_eq!(a, WindowAction::Skip { warn: false });
    let mut probe = WindowProbe::new(8);
    t.step(&mut probe, WindowEvent::Geometry { window: DESKTOP, desktop: DESKTOP });
    let b = t.step(&mut probe, WindowEvent::ProcessOpenFailed { code: 0x8007_0057u32 as i32 });
    assert_eq!(b, WindowAction::Skip { warn: true });
}

#[test]
fn hidden_unlayered_window_is_skipped() {
    let mut t = Translucency::new(80);
    let actions = run(&mut t, 9, privacy_screen_events(0, 0));
    assert_eq!(actions[3], WindowAction::Skip { warn: false });
    assert_eq!(t.last_hwnd, 0);
}

#[test]
fn layered_but_hidden_window_is_treated() {
    let mut t = Translucency::new(100);
    let actions = run(&mut t, 9, privacy_screen_events(0, 0x0008_0000));
    assert_eq!(
        actions[3],
        WindowAction::MakeTranslucent { ex_style: 0x0008_0000, alpha: 255, client: ScreenClient::ScreenConnect }
    );
}

#[test]
fn style_values_are_truncated_to_32_bits() {
    let mut t = Translucency::new(0);
    let style: isize = 0x1000_0000;
    let ex_style: isize = 0x0000_0100;
    let actions = run(&mut t, 10, privacy_screen_events(style, ex_style));
    assert_eq!(
        actions[3],
        WindowAction::MakeTranslucent { ex_style: 0x0008_0100, alpha: 0, client: ScreenClient::ScreenConnect }
    );
}

#[test]
fn other_programs_are_skipped() {
    let mut t = Translucency::new(50);
    let mut probe = WindowProbe::new(11);
    t.step(&mut probe, WindowEvent::Geometry { window: DESKTOP, desktop: DESKTOP });
    t.step(&mut probe, WindowEvent::ProcessOpened);
    let a = t.step(&mut probe, WindowEvent::ModulePath { units: wide("C:\\Windows\\explorer.exe") });
    assert_eq!(a, WindowAction::Skip { warn: false });
}
