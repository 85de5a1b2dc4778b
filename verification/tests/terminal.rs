//! Colors and tables.

use frankclaw::cli::terminal::{
    check_badge, colored, is_color_enabled, pad_cell, render_table, severity_badge, strip_ansi,
    visible_width, Align, ERROR,
};

#[test]
fn strip_ansi_removes_sgr_sequences() {
    assert_eq!(strip_ansi("\x1b[31mhello\x1b[0m"), "hello");
    assert_eq!(strip_ansi("\x1b[1;33mwarn\x1b[0m text"), "warn text");
    assert_eq!(strip_ansi("no escapes"), "no escapes");
    assert_eq!(strip_ansi(""), "");
}

#[test]
fn visible_width_excludes_ansi() {
    assert_eq!(visible_width("\x1b[31mhello\x1b[0m"), 5);
    assert_eq!(visible_width("plain"), 5);
    assert_eq!(visible_width(""), 0);
}

#[test]
fn render_table_alignment_and_header() {
    let cols = vec![("NAME", Align::Left), ("COUNT", Align::Right)];
    let rows = vec![
        vec!["alpha".to_string(), "42".to_string()],
        vec!["beta".to_string(), "7".to_string()],
    ];
    let rendered = render_table(&cols, &rows, true);
    let plain = strip_ansi(&rendered);
    // Header and separator should be present
    assert!(plain.contains("NAME"));
    assert!(plain.contains("COUNT"));
    assert!(plain.contains("────"));
    // Data rows
    assert!(plain.contains("alpha"));
    assert!(plain.contains("42"));
    assert_eq!(
        plain,
        "NAME   COUNT\n────────────\nalpha     42\nbeta       7\n"
    );
}

#[test]
fn render_table_empty_returns_empty() {
    assert_eq!(render_table(&[], &[], true), "");
}

#[test]
fn no_color_env_disables_colors() {
    let plain = strip_ansi(&colored("test", ERROR, true));
    assert_eq!(plain, "test");
    assert_eq!(colored("test", ERROR, true), "\x1b[31mtest\x1b[0m");
    assert_eq!(colored("test", ERROR, false), "test");
    assert!(!is_color_enabled(true, None));
    assert!(!is_color_enabled(false, Some("dumb")));
    assert!(is_color_enabled(false, Some("xterm")));
}

#[test]
fn severity_badge_formats_correctly() {
    let crit = strip_ansi(&severity_badge("CRIT", true));
    assert_eq!(crit, "[CRIT]");

    let info = strip_ansi(&severity_badge("INFO", true));
    assert_eq!(info, "[INFO]");
    assert_eq!(severity_badge("???", true), "[???]");
}

#[test]
fn check_badge_formats_correctly() {
    let pass = strip_ansi(&check_badge("[PASS]", true));
    assert_eq!(pass, "[PASS]");

    let fail = strip_ansi(&check_badge("[FAIL]", true));
    assert_eq!(fail, "[FAIL]");
}

#[test]
fn pad_cell_handles_ansi_width() {
    let colored_text = "\x1b[31mhi\x1b[0m";
    let padded = pad_cell(colored_text, 10, Align::Left);
    assert_eq!(visible_width(&padded), 10);
    assert_eq!(pad_cell("7", 3, Align::Right), "  7");
}

#[test]
fn rows_line_up() {
    let cols = vec![("A", Align::Left), ("B", Align::Right)];
    let rows = vec![
        vec![colored("long cell", ERROR, true)],
        vec!["x".to_string(), "12345".to_string()],
    ];
    let plain = strip_ansi(&render_table(&cols, &rows, false));
    for line in plain.lines() {
        assert_eq!(line.chars().count(), 9 + 2 + 5);
    }
}
