use stop::{
    compose_line, error_line, error_line_env, fatal_line, fatal_line_env, paint_bold_red,
    render_line, EXIT_CODE,
};

#[test]
fn format_form_error() {
    let msg = format!("this is {}", "an error");
    assert_eq!(error_line(&msg, false), "error: this is an error\n");
}

#[test]
fn format_form_fatal() {
    let msg = format!("this is {}", "an error");
    assert_eq!(fatal_line(&msg, false), "fatal: this is an error\n");
}

#[test]
fn display_form_error() {
    assert_eq!(error_line(&format!("{}", 42), false), "error: 42\n");
}

#[test]
fn display_form_fatal() {
    assert_eq!(fatal_line(&format!("{}", 42), false), "fatal: 42\n");
}

#[test]
fn mapper_matches_direct() {
    let reporter = |x: &str| error_line(&format!("{x}"), false);
    let failed: Result<(), &str> = Err("boom");
    let mapped = match failed {
        Ok(()) => panic!("the operation was supposed to fail"),
        Err(e) => reporter(e),
    };
    assert_eq!(mapped, error_line("boom", false));
    assert_eq!(mapped, "error: boom\n");
}

#[test]
fn color_switch_on_wraps_prefix_only() {
    assert_eq!(error_line("msg", true), "\u{1b}[1;31merror\u{1b}[0m: msg\n");
    assert_eq!(fatal_line("msg", true), "\u{1b}[1;31mfatal\u{1b}[0m: msg\n");
}

#[test]
fn color_switch_off_no_escape_anywhere() {
    let line = error_line("a plain message", false);
    assert!(!line.contains('\u{1b}'));
    assert_eq!(line, "error: a plain message\n");
}

#[test]
fn env_path_forced_on() {
    colored::control::set_override(true);
    let line = error_line_env("msg");
    colored::control::unset_override();
    assert_eq!(line, "\u{1b}[1;31merror\u{1b}[0m: msg\n");
}

#[test]
fn env_path_forced_off() {
    colored::control::set_override(false);
    let line = fatal_line_env("msg");
    colored::control::unset_override();
    assert_eq!(line, "fatal: msg\n");
}

#[test]
fn building_block_takes_any_prefix() {
    assert_eq!(render_line("warn", "w", false), "warn: w\n");
    assert_eq!(render_line("warn", "w", true), "\u{1b}[1;31mwarn\u{1b}[0m: w\n");
    assert_eq!(compose_line("warn", "w"), "warn: w\n");
}

#[test]
fn paint_wraps_exactly() {
    assert_eq!(paint_bold_red("x"), "\u{1b}[1;31mx\u{1b}[0m");
    assert_eq!(paint_bold_red(""), "\u{1b}[1;31m\u{1b}[0m");
}

#[test]
fn empty_message() {
    assert_eq!(error_line("", false), "error: \n");
    assert_eq!(fatal_line("", false), "fatal: \n");
}

#[test]
fn exit_code_fixed() {
    assert_eq!(EXIT_CODE, -1);
}
