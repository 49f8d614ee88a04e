use lightmixer::console::handle_user_input;
use lightmixer::controller::{
    discover_controllers, format_controllers, parse_file_contents, update_controller, Controller,
    DeviceEntry, LightError,
};
use lightmixer::dashboard::{App, GaugeColor};
use lightmixer::utils::{parse_u64, strip_trailing_newline, trim_whitespace, u64_to_string};

#[test]
fn test_strip_trailing_newline() {
    assert_eq!(strip_trailing_newline(""), "");
    assert_eq!(strip_trailing_newline("0"), "0");
    assert_eq!(strip_trailing_newline("0\n"), "0");
    assert_eq!(strip_trailing_newline("0\r\n"), "0");
    assert_eq!(strip_trailing_newline("0\n\n"), "0\n");
    assert_eq!(strip_trailing_newline("0\r\n\r\n"), "0\r\n");
}

#[test]
fn strip_is_noop_twice_without_newline() {
    let once = strip_trailing_newline("brightness");
    let twice = strip_trailing_newline(once);
    assert_eq!(once, "brightness");
    assert_eq!(twice, "brightness");
}

#[test]
fn trim_whitespace_both_ends() {
    assert_eq!(trim_whitespace("  0:5 \r\n"), "0:5");
    assert_eq!(trim_whitespace(""), "");
    assert_eq!(trim_whitespace(" \t\n"), "");
    assert_eq!(trim_whitespace("abc"), "abc");
}

#[test]
fn parse_u64_exact_values() {
    assert_eq!(parse_u64("0"), Some(0));
    assert_eq!(parse_u64("42"), Some(42));
    assert_eq!(parse_u64("18446744073709551615"), Some(u64::MAX));
    assert_eq!(parse_u64("18446744073709551616"), None);
    assert_eq!(parse_u64(""), None);
    assert_eq!(parse_u64("4a2"), None);
    assert_eq!(parse_u64("-3"), None);
}

#[test]
fn u64_to_string_exact_values() {
    assert_eq!(u64_to_string(0), "0");
    assert_eq!(u64_to_string(7), "7");
    assert_eq!(u64_to_string(2502), "2502");
    assert_eq!(u64_to_string(u64::MAX), "18446744073709551615");
}

#[test]
fn parse_file_contents_strips_then_parses() {
    assert_eq!(parse_file_contents("42\n"), Ok(42));
    assert_eq!(parse_file_contents("42\r\n"), Ok(42));
    assert_eq!(parse_file_contents("42"), Ok(42));
    assert_eq!(parse_file_contents("42\n\n"), Err(LightError::ParseError));
    assert_eq!(parse_file_contents("abc\n"), Err(LightError::ParseError));
    assert_eq!(parse_file_contents(""), Err(LightError::ParseError));
}

#[test]
fn written_values_read_back_unchanged() {
    for n in [0u64, 1, 9, 10, 100, 2502, u64::MAX] {
        let s = u64_to_string(n);
        assert_eq!(parse_file_contents(&s), Ok(n));
    }
}

#[test]
fn construction_mirrors_well_formed_files() {
    let c = Controller::new(
        String::from("/sys/class/backlight/panel"),
        true,
        Some(String::from("42\n")),
        Some(String::from("255\n")),
    )
    .unwrap();
    assert_eq!(c.path, "/sys/class/backlight/panel");
    assert_eq!(c.brightness, 42);
    assert_eq!(c.max_brightness, 255);
}

#[test]
fn construction_error_kinds() {
    let missing_dir = Controller::new(String::from("p"), false, None, None);
    assert_eq!(missing_dir.err(), Some(LightError::NotFound));

    let unreadable = Controller::new(String::from("p"), true, None, Some(String::from("10\n")));
    assert_eq!(unreadable.err(), Some(LightError::IOError));

    let unreadable_max =
        Controller::new(String::from("p"), true, Some(String::from("5\n")), None);
    assert_eq!(unreadable_max.err(), Some(LightError::IOError));

    let bad_content = Controller::new(
        String::from("p"),
        true,
        Some(String::from("five\n")),
        Some(String::from("10\n")),
    );
    assert_eq!(bad_content.err(), Some(LightError::ParseError));

    let bad_max = Controller::new(
        String::from("p"),
        true,
        Some(String::from("5\n")),
        Some(String::from("ten\n")),
    );
    assert_eq!(bad_max.err(), Some(LightError::ParseError));
}

fn entry(path: &str, brightness: Option<&str>, max: Option<&str>) -> DeviceEntry {
    DeviceEntry {
        path: String::from(path),
        exists: true,
        brightness_file: brightness.map(String::from),
        max_brightness_file: max.map(String::from),
    }
}

#[test]
fn discovery_skips_broken_entries_and_keeps_siblings() {
    let entries = vec![
        entry("a", Some("1\n"), Some("10\n")),
        entry("b", Some("2\n"), None),
        entry("c", Some("junk\n"), Some("10\n")),
        entry("d", Some("4\n"), Some("40\n")),
    ];
    let controllers = discover_controllers(entries);
    assert_eq!(controllers.len(), 2);
    assert_eq!(controllers[0].path, "a");
    assert_eq!(controllers[0].brightness, 1);
    assert_eq!(controllers[0].max_brightness, 10);
    assert_eq!(controllers[1].path, "d");
    assert_eq!(controllers[1].brightness, 4);
    assert_eq!(controllers[1].max_brightness, 40);
}

#[test]
fn discovery_of_nothing_is_empty() {
    let controllers = discover_controllers(Vec::new());
    assert!(controllers.is_empty());
}

#[test]
fn update_commits_only_after_a_successful_write() {
    let mut c = Controller { path: String::from("p"), brightness: 5, max_brightness: 10 };
    assert_eq!(update_controller(&mut c, 9, true), Ok(()));
    assert_eq!(c.brightness, 9);

    assert_eq!(update_controller(&mut c, 3, false), Err(LightError::IOError));
    assert_eq!(c.brightness, 9);
    assert_eq!(c.path, "p");
    assert_eq!(c.max_brightness, 10);
}

#[test]
fn console_clamps_to_max_brightness() {
    let controllers = vec![Controller {
        path: String::from("p"),
        brightness: 10,
        max_brightness: 100,
    }];
    let r = handle_user_input(&controllers, String::from("0:255"));
    assert_eq!(r, Ok((0, 100)));

    let below = handle_user_input(&controllers, String::from("0:55\n"));
    assert_eq!(below, Ok((0, 55)));
}

#[test]
fn console_rejects_malformed_lines_without_touching_state() {
    let controllers = vec![Controller {
        path: String::from("p"),
        brightness: 10,
        max_brightness: 100,
    }];
    assert_eq!(
        handle_user_input(&controllers, String::from("0 255")),
        Err(LightError::BadInputFormat)
    );
    assert_eq!(
        handle_user_input(&controllers, String::from("0:2:55")),
        Err(LightError::BadInputFormat)
    );
    assert_eq!(
        handle_user_input(&controllers, String::from("x:55")),
        Err(LightError::ParseError)
    );
    assert_eq!(
        handle_user_input(&controllers, String::from("0:x")),
        Err(LightError::ParseError)
    );
    assert_eq!(
        handle_user_input(&controllers, String::from("1:55")),
        Err(LightError::BadIndex)
    );
    assert_eq!(controllers[0].brightness, 10);
    assert_eq!(controllers[0].max_brightness, 100);
    assert_eq!(controllers[0].path, "p");
}

fn three_controllers() -> Vec<Controller> {
    vec![
        Controller { path: String::from("a"), brightness: 0, max_brightness: 10 },
        Controller { path: String::from("b"), brightness: 5, max_brightness: 10 },
        Controller { path: String::from("c"), brightness: 10, max_brightness: 10 },
    ]
}

#[test]
fn dashboard_cursor_wraps_both_ways() {
    let mut app = App::new(three_controllers()).unwrap();
    assert_eq!(app.cursor, 0);
    app.cursor = 2;
    app.down();
    assert_eq!(app.cursor, 0);
    app.up();
    assert_eq!(app.cursor, 2);
    app.up();
    assert_eq!(app.cursor, 1);
    app.down();
    assert_eq!(app.cursor, 2);
}

#[test]
fn dashboard_brightness_stays_within_bounds() {
    let mut app = App::new(three_controllers()).unwrap();
    // Cursor on a controller at brightness 0: no decrease, so no write.
    assert_eq!(app.left_target(), None);
    app.left(false);
    assert_eq!(app.controllers[0].brightness, 0);

    // Cursor on a controller at its ceiling: no increase, so no write.
    app.cursor = 2;
    assert_eq!(app.right_target(), None);
    app.right(false);
    assert_eq!(app.controllers[2].brightness, 10);

    // In between, both moves work and commit only on a successful write.
    app.cursor = 1;
    assert_eq!(app.left_target(), Some(4));
    app.left(true);
    assert_eq!(app.controllers[1].brightness, 4);
    assert_eq!(app.right_target(), Some(5));
    app.right(true);
    assert_eq!(app.controllers[1].brightness, 5);
    app.right(false);
    assert_eq!(app.controllers[1].brightness, 5);
}

#[test]
fn gauge_percentage_and_label() {
    let c = Controller { path: String::from("p"), brightness: 50, max_brightness: 200 };
    assert_eq!(App::percent_of(&c), 25);

    let zero_ceiling = Controller { path: String::from("z"), brightness: 3, max_brightness: 0 };
    assert_eq!(App::percent_of(&zero_ceiling), 0);

    let app = App::new(vec![c]).unwrap();
    let screen = app.render();
    assert_eq!(screen.main_block.title, "light mixer");
    assert_eq!(screen.gauges.len(), 1);
    assert_eq!(screen.gauges[0].label, "p (50 / 200 = 25 %)");
    assert_eq!(screen.gauges[0].percent, 25);
    assert_eq!(screen.gauges[0].fg, GaugeColor::Yellow);
    assert_eq!(screen.gauges[0].bg, GaugeColor::Black);
}

#[test]
fn gauge_rows_alternate_and_highlight_cursor() {
    let mut app = App::new(three_controllers()).unwrap();
    app.cursor = 1;
    let rows = app.render_gauges();
    assert_eq!(rows.len(), 3);
    assert_eq!(rows[0].fg, GaugeColor::Black);
    assert_eq!(rows[0].bg, GaugeColor::Yellow);
    assert_eq!(rows[1].fg, GaugeColor::LightYellow);
    assert_eq!(rows[1].bg, GaugeColor::Black);
    assert_eq!(rows[2].fg, GaugeColor::Black);
    assert_eq!(rows[2].bg, GaugeColor::Yellow);
}

#[test]
fn listing_lines_match_console_output() {
    let controllers = three_controllers();
    let lines = format_controllers(&controllers);
    assert_eq!(lines.len(), 3);
    assert_eq!(lines[0], "[00] a -> 0 / 10");
    assert_eq!(lines[1], "[01] b -> 5 / 10");
    assert_eq!(lines[2], "[02] c -> 10 / 10");

    let many: Vec<Controller> = (0u64..12)
        .map(|i| Controller { path: String::from("p"), brightness: i, max_brightness: 20 })
        .collect();
    let lines = format_controllers(&many);
    assert_eq!(lines[9], "[09] p -> 9 / 20");
    assert_eq!(lines[10], "[10] p -> 10 / 20");
    assert_eq!(lines[11], "[11] p -> 11 / 20");
}
