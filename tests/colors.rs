use data_gov::colors::{color_red, color_red_bold, ChainedStyle, ColorHelper, ColorMode, StyleBuilder};

#[test]
fn test_color_mode_parsing() {
    assert_eq!("auto".parse::<ColorMode>().unwrap(), ColorMode::Auto);
    assert_eq!("always".parse::<ColorMode>().unwrap(), ColorMode::Always);
    assert_eq!("never".parse::<ColorMode>().unwrap(), ColorMode::Never);
    assert!("invalid".parse::<ColorMode>().is_err());
}

#[test]
fn test_color_helper_never() {
    let helper = ColorHelper::new(ColorMode::Never);
    assert!(!helper.should_color_stdout());
    assert!(!helper.should_color_stderr());
}

#[test]
fn test_color_helper_always() {
    let helper = ColorHelper::new(ColorMode::Always);
    // Should be true unless NO_COLOR is set
    if !helper.no_color {
        assert!(helper.should_color_stdout());
        assert!(helper.should_color_stderr());
    }
}

#[test]
fn color_mode_parsing_ignores_case() {
    assert_eq!(ColorMode::parse("ALWAYS"), Ok(ColorMode::Always));
    assert_eq!(ColorMode::parse("Never"), Ok(ColorMode::Never));
}

#[test]
fn color_mode_error_names_the_input() {
    assert_eq!(
        ColorMode::parse("sometimes"),
        Err("Invalid color mode: 'sometimes'. Valid options: auto, always, never".to_string())
    );
}

#[test]
fn color_mode_defaults_to_auto() {
    assert_eq!(ColorMode::default(), ColorMode::Auto);
}

#[test]
fn no_color_turns_colors_off_even_when_always() {
    let helper = ColorHelper::new(ColorMode::Always).with_no_color(true);
    assert!(!helper.should_color_stdout());
    assert!(!helper.should_color_stderr());
}

#[test]
fn auto_follows_the_terminal() {
    let helper = ColorHelper {
        mode: ColorMode::Auto,
        stdout_is_terminal: true,
        stderr_is_terminal: false,
        no_color: false,
    };
    assert!(helper.should_color_stdout());
    assert!(!helper.should_color_stderr());
}

#[test]
fn uncolored_styles_leave_text_unchanged() {
    let styled = StyleBuilder::new(false).red("alert").bold();
    assert_eq!(styled.text(), "alert");
    let plain = ChainedStyle::new("x", false).dimmed().cyan();
    assert_eq!(plain.text(), "x");
}

#[test]
fn colored_styles_wrap_text_in_escape_codes() {
    colored::control::set_override(true);
    let styled = StyleBuilder::new(true).red("alert");
    assert_eq!(styled.text(), "\u{1b}[31malert\u{1b}[0m");
    let helper = ColorHelper {
        mode: ColorMode::Always,
        stdout_is_terminal: false,
        stderr_is_terminal: false,
        no_color: false,
    };
    assert_eq!(color_red(Some(helper), "x"), "\u{1b}[31mx\u{1b}[0m");
}

#[test]
fn color_functions_without_helper_return_text() {
    assert_eq!(color_red_bold(None, "Error:"), "Error:");
    let helper = ColorHelper::new(ColorMode::Never);
    assert_eq!(color_red(Some(helper), "plain"), "plain");
}
