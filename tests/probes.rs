use screen_capture::monitor::{
    find_monitor_at_position, primary_monitor_index, select_capture_target, MonitorGeometry,
};
use screen_capture::pointer::{
    get_mouse_position, probe_chain, read_probe, Platform, PointerProbe, ProbeOutput,
};
use screen_capture::support::{check_multi_monitor_support, ToolPresence};
use screen_capture::text::{contains_text, parse_i32, split_text, trim_text, Splitter};

fn t(s: &str) -> Vec<char> {
    s.chars().collect()
}

fn layout() -> Vec<MonitorGeometry> {
    vec![
        MonitorGeometry { x: 0, y: 0, width: 1920, height: 1080, is_primary: false },
        MonitorGeometry { x: 1920, y: 0, width: 1080, height: 1920, is_primary: true },
    ]
}

#[test]
fn finds_monitor_under_point() {
    let ms = layout();
    assert_eq!(find_monitor_at_position(&ms, 0, 0), Some(0));
    assert_eq!(find_monitor_at_position(&ms, 1919, 1079), Some(0));
    assert_eq!(find_monitor_at_position(&ms, 1920, 0), Some(1));
    assert_eq!(find_monitor_at_position(&ms, 2500, 1500), Some(1));
    assert_eq!(find_monitor_at_position(&ms, 100, 1500), None);
    assert_eq!(find_monitor_at_position(&ms, -1, 5), None);
}

#[test]
fn target_follows_pointer_then_primary() {
    let ms = layout();
    assert_eq!(select_capture_target(&ms, Some((2000, 10))), Some(1));
    assert_eq!(select_capture_target(&ms, Some((10, 10))), Some(0));
    assert_eq!(select_capture_target(&ms, Some((100, 5000))), Some(0));
    assert_eq!(select_capture_target(&ms, None), Some(1));
    assert_eq!(select_capture_target(&vec![], Some((0, 0))), None);
    assert_eq!(select_capture_target(&vec![], None), None);
    assert_eq!(primary_monitor_index(&ms), Some(1));
    assert_eq!(primary_monitor_index(&vec![]), None);
}

#[test]
fn parses_decimal_integers() {
    assert_eq!(parse_i32(&t("123")), Some(123));
    assert_eq!(parse_i32(&t("-45")), Some(-45));
    assert_eq!(parse_i32(&t("+7")), Some(7));
    assert_eq!(parse_i32(&t("2147483647")), Some(i32::MAX));
    assert_eq!(parse_i32(&t("-2147483648")), Some(i32::MIN));
    assert_eq!(parse_i32(&t("2147483648")), None);
    assert_eq!(parse_i32(&t("99999999999999")), None);
    assert_eq!(parse_i32(&t("")), None);
    assert_eq!(parse_i32(&t("-")), None);
    assert_eq!(parse_i32(&t("12a")), None);
    assert_eq!(parse_i32(&t(" 1")), None);
}

#[test]
fn splits_and_trims() {
    assert_eq!(split_text(&t("a,,b"), Splitter::Comma), vec![t("a"), vec![], t("b")]);
    assert_eq!(split_text(&t("  a  b "), Splitter::Whitespace), vec![t("a"), t("b")]);
    assert_eq!(split_text(&t("x\n\ny\n"), Splitter::Lines), vec![t("x"), vec![], t("y")]);
    assert_eq!(split_text(&t(""), Splitter::Equals), vec![Vec::<char>::new()]);
    assert_eq!(trim_text(&t(" \t ab c\r\n")), t("ab c"));
    assert!(contains_text(&t("abcdef"), &t("cde")));
    assert!(!contains_text(&t("abcdef"), &t("ce")));
    assert!(contains_text(&t(""), &t("")));
}

#[test]
fn reads_each_probe_format() {
    assert_eq!(read_probe(PointerProbe::Xdotool, &t("X=100\nY=200\nSCREEN=0\nWINDOW=5\n")), Some((100, 200)));
    assert_eq!(read_probe(PointerProbe::Xdotool, &t("X=0\nY=0\n")), None);
    assert_eq!(read_probe(PointerProbe::Kdotool, &t("x:12 y:34\n")), Some((12, 34)));
    assert_eq!(read_probe(PointerProbe::Ydotool, &t("300 400\n")), Some((300, 400)));
    assert_eq!(read_probe(PointerProbe::Ydotool, &t("300\n")), None);
    assert_eq!(read_probe(PointerProbe::Hyprctl, &t("1234, 567\n")), Some((1234, 567)));
    assert_eq!(read_probe(PointerProbe::Slurp, &t("0 0\n")), Some((0, 0)));
    assert_eq!(
        read_probe(PointerProbe::Xinput, &t("2 classes :\nButtonClass\nValuatorClass Mode=Absolute Proximity=In\n\tvaluator[0]=640\n\tvaluator[1]=480\n")),
        Some((640, 480))
    );
    assert_eq!(read_probe(PointerProbe::Osascript, &t("15, 25\n")), Some((15, 25)));
    assert_eq!(read_probe(PointerProbe::Osascript, &t("512, 384\n")), Some((512, 384)));
    assert_eq!(read_probe(PointerProbe::Osascript, &t("512,384\n")), None);
    assert_eq!(read_probe(PointerProbe::Osascript, &t("512,  384")), Some((512, 0)));
    assert_eq!(read_probe(PointerProbe::Osascript, &t("0, 0")), Some((0, 0)));
    assert_eq!(read_probe(PointerProbe::Osascript, &t("nothing\n")), None);
}

#[test]
fn first_probe_with_a_position_wins() {
    let outputs = vec![
        ProbeOutput { probe: PointerProbe::Xdotool, stdout: t("X=0\nY=0\n") },
        ProbeOutput { probe: PointerProbe::Kdotool, stdout: t("x:5 y:6") },
        ProbeOutput { probe: PointerProbe::Slurp, stdout: t("7 8") },
    ];
    assert_eq!(get_mouse_position(&outputs), Some((5, 6)));
    assert_eq!(get_mouse_position(&outputs[..1].iter().map(|o| ProbeOutput { probe: o.probe, stdout: o.stdout.clone() }).collect()), None);
    assert_eq!(get_mouse_position(&vec![]), None);
}

#[test]
fn probe_order_per_platform() {
    assert_eq!(
        probe_chain(Platform::Linux, true),
        vec![
            PointerProbe::Xdotool,
            PointerProbe::Kdotool,
            PointerProbe::Ydotool,
            PointerProbe::Hyprctl,
            PointerProbe::Slurp,
            PointerProbe::Xinput
        ]
    );
    assert_eq!(probe_chain(Platform::Linux, false), vec![PointerProbe::Xdotool, PointerProbe::Xinput]);
    assert_eq!(probe_chain(Platform::MacOs, false), vec![PointerProbe::Osascript]);
    assert!(probe_chain(Platform::Windows, true).is_empty());
}

fn tools(xdotool: bool, kdotool: bool, hyprctl: bool) -> ToolPresence {
    ToolPresence { xdotool, kdotool, ydotool: false, hyprctl, slurp: false }
}

#[test]
fn linux_support_on_kde_wayland() {
    let r = check_multi_monitor_support(
        Platform::Linux,
        Some("wayland".to_string()),
        Some("KDE".to_string()),
        tools(false, true, false),
    );
    assert!(r.supported);
    assert_eq!(r.session_type, "wayland");
    assert_eq!(r.available_tools, vec!["kdotool".to_string()]);
    assert_eq!(r.missing_tools, vec!["xdotool".to_string()]);
    assert_eq!(r.install_command, "sudo apt install kdotool  # atau dari AUR untuk Arch");
}

#[test]
fn linux_support_on_hyprland_and_x11() {
    let r = check_multi_monitor_support(
        Platform::Linux,
        Some("wayland".to_string()),
        Some("Hyprland".to_string()),
        tools(true, false, true),
    );
    assert_eq!(r.available_tools, vec!["xdotool".to_string(), "hyprctl".to_string()]);
    assert!(r.missing_tools.is_empty());
    assert_eq!(r.install_command, "# hyprctl sudah tersedia dengan Hyprland");
    let r = check_multi_monitor_support(Platform::Linux, None, None, tools(false, false, false));
    assert!(!r.supported);
    assert_eq!(r.session_type, "unknown");
    assert_eq!(r.install_command, "sudo apt install xdotool");
    let r = check_multi_monitor_support(Platform::Linux, Some("wayland".to_string()), None, tools(true, false, false));
    assert_eq!(r.install_command, "sudo apt install xdotool  # untuk XWayland compatibility");
}

#[test]
fn other_platforms_support() {
    let m = check_multi_monitor_support(Platform::MacOs, None, None, tools(false, false, false));
    assert!(m.supported);
    assert_eq!(m.available_tools, vec!["osascript".to_string()]);
    let w = check_multi_monitor_support(Platform::Windows, None, None, tools(true, true, true));
    assert!(!w.supported);
    assert_eq!(w.missing_tools, vec!["win32api".to_string()]);
    assert_eq!(w.session_type, "windows");
}

#[test]
fn splits_at_comma_space_from_the_left() {
    assert_eq!(split_text(&t("a, b, c"), Splitter::CommaSpace), vec![t("a"), t("b"), t("c")]);
    assert_eq!(split_text(&t(",, "), Splitter::CommaSpace), vec![t(","), t("")]);
    assert_eq!(split_text(&t("a,b"), Splitter::CommaSpace), vec![t("a,b")]);
    assert_eq!(split_text(&t(""), Splitter::CommaSpace), vec![t("")]);
}

#[test]
fn lines_drop_carriage_return_only_before_line_feed() {
    assert_eq!(split_text(&t("a\r\nb\r"), Splitter::Lines), vec![t("a"), t("b\r")]);
    assert_eq!(read_probe(PointerProbe::Xdotool, &t("X=5\r\nY=6\r\n")), Some((5, 6)));
    assert_eq!(read_probe(PointerProbe::Xdotool, &t("X=5\nY=6\r")), Some((5, 0)));
}

#[test]
fn unicode_whitespace_separates_and_trims() {
    assert_eq!(read_probe(PointerProbe::Ydotool, &t("300\u{a0}400")), Some((300, 400)));
    assert_eq!(trim_text(&t("\u{3000} 12\u{2009}")), t("12"));
    assert_eq!(split_text(&t("a\u{85}b"), Splitter::Whitespace), vec![t("a"), t("b")]);
}
