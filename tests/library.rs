use veltrix::command::{program, CommandOutcome, FanSpeed, SpeedError, ToolCommand};
use veltrix::device::device_identity;
use veltrix::status::{contains_text, find_field, StatusSnapshot};
use veltrix::text::{is_white_space_char, parse_lines, read_output, trim_text};
use veltrix::veltrix::{find_config, Veltrix};

fn strings(items: &[&str]) -> Vec<String> {
    items.iter().map(|s| s.to_string()).collect()
}

#[test]
fn white_space_agrees_with_std() {
    for u in 0u32..=0x10FFFF {
        if let Some(c) = char::from_u32(u) {
            assert_eq!(is_white_space_char(c), c.is_whitespace(), "code point {:#x}", u);
        }
    }
}

#[test]
fn trim_agrees_with_std() {
    let samples = [
        "",
        "   ",
        "abc",
        "  abc  ",
        "\t\r\n a b \u{3000}",
        "\u{A0}x\u{2028}",
        "x\u{200B}",
        " \u{85}Fan\u{1680} ",
    ];
    for s in samples {
        assert_eq!(trim_text(s), s.trim());
    }
}

#[test]
fn parse_lines_drops_blank_lines_and_keeps_order() {
    let text = "  Alpha  \n\n   \nBeta\r\n\t\nGamma";
    let lines = parse_lines(text);
    assert_eq!(lines, strings(&["Alpha", "Beta", "Gamma"]));
    assert!(lines.len() <= text.lines().count());
}

#[test]
fn parse_lines_agrees_with_std_lines() {
    let samples = ["", "\n", "a\n", "\n\na\n\n", " x \r\n y \r\n", "one\ntwo\r\nthree \n  "];
    for s in samples {
        let expected: Vec<String> = s
            .lines()
            .map(|l| l.trim().to_string())
            .filter(|l| !l.is_empty())
            .collect();
        assert_eq!(parse_lines(s), expected);
    }
}

#[test]
fn read_output_replaces_invalid_bytes() {
    let bytes: Vec<u8> = vec![b' ', b'a', 0xFF, b'b', b'\n', b'\n', b'c', b' '];
    assert_eq!(read_output(&bytes), strings(&["a\u{FFFD}b", "c"]));
    assert!(read_output(&[]).is_empty());
}

#[test]
fn identity_is_trimmed_content() {
    assert_eq!(device_identity(Some("  Beta \n".to_string())), "Beta");
    assert_eq!(device_identity(Some("".to_string())), "");
}

#[test]
fn identity_defaults_to_unknown() {
    assert_eq!(device_identity(None), "Unknown");
}

#[test]
fn contains_text_edge_cases() {
    assert!(contains_text("Temperature: 45C", "Temperature"));
    assert!(contains_text("CPU Temperature: 45C", "Temperature"));
    assert!(contains_text("abc", ""));
    assert!(contains_text("", ""));
    assert!(!contains_text("Temp", "Temperature"));
    assert!(!contains_text("temperature", "Temperature"));
}

#[test]
fn find_field_takes_first_match() {
    let lines = strings(&["x", "Fan 1", "Fan 2"]);
    assert_eq!(find_field(&lines, "Fan", "none"), "Fan 1");
    assert_eq!(find_field(&lines, "Temp", "none"), "none");
}

#[test]
fn status_fields_fall_back_independently() {
    let lines = strings(&["Temperature: 45C", "Current Fan Speed: 30%"]);
    let s = StatusSnapshot::from_lines(&lines);
    assert_eq!(s.temperature, "Temperature: 45C");
    assert_eq!(s.current_fan_speed, "Current Fan Speed: 30%");
    assert_eq!(s.target_fan_speed, "Unknown Speed");
}

#[test]
fn status_of_empty_report_is_all_fallbacks() {
    let s = StatusSnapshot::from_lines(&Vec::new());
    assert_eq!(s.temperature, "Unknown Temp");
    assert_eq!(s.current_fan_speed, "Unknown Speed");
    assert_eq!(s.target_fan_speed, "Unknown Speed");
}

#[test]
fn status_from_tool_output() {
    let out = b"Service enabled: true\n  Temperature: 51.00\n\nFan Display Name: CPU\nCurrent Fan Speed: 40.00\nTarget Fan Speed: 50.00\n";
    let s = StatusSnapshot::from_lines(&read_output(out));
    assert_eq!(s.temperature, "Temperature: 51.00");
    assert_eq!(s.current_fan_speed, "Current Fan Speed: 40.00");
    assert_eq!(s.target_fan_speed, "Target Fan Speed: 50.00");
}

#[test]
fn refresh_twice_gives_same_snapshot() {
    let lines = strings(&["Temperature: 45C", "Target Fan Speed: 50%"]);
    let mut app = Veltrix::new(strings(&["A"]), "A".to_string(), &Vec::new());
    app.refresh(&lines);
    let first = (
        app.status().temperature.clone(),
        app.status().current_fan_speed.clone(),
        app.status().target_fan_speed.clone(),
    );
    app.refresh(&lines);
    let second = (
        app.status().temperature.clone(),
        app.status().current_fan_speed.clone(),
        app.status().target_fan_speed.clone(),
    );
    assert_eq!(first, second);
    assert_eq!(first.1, "Unknown Speed");
    assert_eq!(app.selected(), Some(0));
}

#[test]
fn startup_selects_matching_config() {
    let app = Veltrix::new(strings(&["Alpha", "Beta", "Gamma"]), "Beta".to_string(), &Vec::new());
    assert_eq!(app.selected(), Some(1));
    assert_eq!(app.selected_config().map(|s| s.as_str()), Some("Beta"));
    assert_eq!(app.laptop_model(), "Beta");
    assert_eq!(app.fan_speed_value(), 0);
}

#[test]
fn startup_without_match_selects_nothing() {
    let app = Veltrix::new(strings(&["Alpha", "Beta", "Gamma"]), "Zeta".to_string(), &Vec::new());
    assert_eq!(app.selected(), None);
    assert_eq!(app.selected_config(), None);
    assert_eq!(app.configs().len(), 3);
}

#[test]
fn find_config_takes_first_of_equal_names() {
    let configs = strings(&["A", "B", "A"]);
    assert_eq!(find_config(&configs, &"A".to_string()), Some(0));
    assert_eq!(find_config(&Vec::new(), &"A".to_string()), None);
}

#[test]
fn select_rejects_index_out_of_range() {
    let mut app = Veltrix::new(strings(&["Alpha", "Beta"]), "Zeta".to_string(), &Vec::new());
    assert!(app.select(1));
    assert_eq!(app.selected(), Some(1));
    assert!(!app.select(2));
    assert_eq!(app.selected(), Some(1));
}

#[test]
fn manual_speed_outside_range_is_refused() {
    for v in [-1i64, 97, 255, 1000, i64::MIN, i64::MAX] {
        assert_eq!(ToolCommand::manual_speed(v), Err(SpeedError::OutOfRange));
        assert_eq!(FanSpeed::new(v), Err(SpeedError::OutOfRange));
    }
}

#[test]
fn manual_speed_bounds_are_forwarded_verbatim() {
    let low = ToolCommand::manual_speed(0).unwrap();
    assert_eq!(low.arguments(), strings(&["set", "-s", "0"]));
    let high = ToolCommand::manual_speed(96).unwrap();
    assert_eq!(high.arguments(), strings(&["set", "-s", "96"]));
    let mid = ToolCommand::manual_speed(42).unwrap();
    assert_eq!(mid.arguments(), strings(&["set", "-s", "42"]));
}

#[test]
fn set_fan_speed_value_keeps_old_value_on_error() {
    let mut app = Veltrix::new(Vec::new(), "X".to_string(), &Vec::new());
    assert_eq!(app.set_fan_speed_value(55), Ok(()));
    assert_eq!(app.fan_speed_value(), 55);
    assert_eq!(app.set_fan_speed_value(97), Err(SpeedError::OutOfRange));
    assert_eq!(app.fan_speed_value(), 55);
    assert_eq!(app.apply_fan_speed().arguments(), strings(&["set", "-s", "55"]));
    assert_eq!(app.set_fan_speed_to_auto(), ToolCommand::SetAuto);
}

#[test]
fn command_lines() {
    assert_eq!(program(), "nbfc");
    assert_eq!(ToolCommand::ListConfigs.arguments(), strings(&["config", "--list"]));
    assert_eq!(ToolCommand::Status.arguments(), strings(&["status", "-a"]));
    assert_eq!(ToolCommand::SetAuto.arguments(), strings(&["set", "-a"]));
}

#[test]
fn outcomes_of_runs() {
    assert_eq!(CommandOutcome::from_run(Some(true)), CommandOutcome::Succeeded);
    assert_eq!(CommandOutcome::from_run(Some(false)), CommandOutcome::Failed);
    assert_eq!(CommandOutcome::from_run(None), CommandOutcome::NotLaunched);
    assert!(!CommandOutcome::Succeeded.is_warning());
    assert!(CommandOutcome::Failed.is_warning());
    assert!(CommandOutcome::NotLaunched.is_warning());
}

#[test]
fn application_name() {
    assert_eq!(Veltrix::name(), "Veltrix");
}
