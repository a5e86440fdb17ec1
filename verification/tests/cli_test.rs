use clap::builder::styling::{AnsiColor, Styles};
use git_loom::cli::{
    apply_styles, colors_enabled, early_theme, parse_theme, paused_state_message,
    patch_in_agent_mode, replace_text, resolve_theme_mode, spans_of, ThemeArg, ThemeMode, ABOUT,
    GROUPED_COMMANDS, HELP_TEMPLATE,
};

fn help_styles(mode: ThemeMode, color: bool) -> Styles {
    if !color {
        return Styles::plain();
    }
    let (header, literal, placeholder) = match mode {
        ThemeMode::Dark => (AnsiColor::Yellow, AnsiColor::Green, AnsiColor::Blue),
        ThemeMode::Light => (AnsiColor::Blue, AnsiColor::Green, AnsiColor::Magenta),
    };
    Styles::styled()
        .header(header.on_default().bold())
        .usage(header.on_default().bold())
        .literal(literal.on_default())
        .placeholder(placeholder.on_default())
}

fn render(template: &str, styles: &Styles) -> String {
    let header = styles.get_header();
    apply_styles(
        template,
        &header.to_string(),
        &styles.get_literal().to_string(),
        &styles.get_placeholder().to_string(),
        &format!("{header:#}"),
    )
}

fn assert_no_markers(rendered: &str) {
    for marker in ["{h}", "{l}", "{p}", "{r}"] {
        assert!(!rendered.contains(marker), "marker {marker} left in: {rendered}");
    }
}

#[test]
fn styles_are_substituted_in_help_templates() {
    let styles = help_styles(ThemeMode::Dark, true);
    for template in [ABOUT, HELP_TEMPLATE, GROUPED_COMMANDS] {
        let rendered = render(template, &styles);
        assert_no_markers(&rendered);
        assert!(rendered.contains('\u{1b}'), "expected colors: {rendered}");
    }
}

#[test]
fn no_color_leaves_no_escape_sequence() {
    for template in [ABOUT, HELP_TEMPLATE, GROUPED_COMMANDS] {
        let rendered = render(template, &help_styles(ThemeMode::Dark, false));
        assert_no_markers(&rendered);
        assert!(!rendered.contains('\u{1b}'), "expected plain text: {rendered}");
    }
}

#[test]
fn light_and_dark_help_use_different_colors() {
    let dark = render(GROUPED_COMMANDS, &help_styles(ThemeMode::Dark, true));
    let light = render(GROUPED_COMMANDS, &help_styles(ThemeMode::Light, true));
    assert_ne!(dark, light);
    assert!(dark.contains("\u{1b}[33m"));
    assert!(!light.contains("\u{1b}[33m"));
}

#[test]
fn help_text_layout_is_preserved() {
    let plain = render(GROUPED_COMMANDS, &help_styles(ThemeMode::Dark, false));
    assert!(plain.starts_with("Workflow:\n  init              Initialize"));
    assert!(plain.contains("\n\nCommits:\n"));
    assert!(plain.contains("  status            Show the branch-aware status (default command)\n"));
}

#[test]
fn early_theme_reads_the_raw_args() {
    let args = |extra: &[&str]| -> Vec<String> { extra.iter().map(|s| s.to_string()).collect() };
    assert_eq!(early_theme(&args(&[])), ThemeArg::Auto);
    assert_eq!(early_theme(&args(&["--theme", "light"])), ThemeArg::Light);
    assert_eq!(early_theme(&args(&["--theme=dark", "status"])), ThemeArg::Dark);
    assert_eq!(early_theme(&args(&["--theme=LIGHT"])), ThemeArg::Light);
    assert_eq!(early_theme(&args(&["--theme=nope"])), ThemeArg::Auto);
    assert_eq!(early_theme(&args(&["--theme"])), ThemeArg::Auto);
    assert_eq!(early_theme(&args(&["--themes=dark"])), ThemeArg::Auto);
    assert_eq!(early_theme(&args(&["--theme", "nope", "--theme=light"])), ThemeArg::Light);
}

#[test]
fn theme_values_ignore_case() {
    assert_eq!(parse_theme("Dark"), Some(ThemeArg::Dark));
    assert_eq!(parse_theme("AUTO"), Some(ThemeArg::Auto));
    assert_eq!(parse_theme("lite"), None);
    assert_eq!(resolve_theme_mode(ThemeArg::Auto, ThemeMode::Light), ThemeMode::Light);
    assert_eq!(resolve_theme_mode(ThemeArg::Dark, ThemeMode::Light), ThemeMode::Dark);
}

#[test]
fn colors_need_a_terminal_and_no_opt_out() {
    assert!(colors_enabled(false, false, false, true));
    assert!(!colors_enabled(true, false, false, true));
    assert!(!colors_enabled(false, true, false, true));
    assert!(!colors_enabled(false, false, true, true));
    assert!(!colors_enabled(false, false, false, false));
}

#[test]
fn a_paused_operation_blocks_with_a_hint() {
    assert_eq!(
        paused_state_message("fold", true),
        "A `loom fold` is paused due to conflicts.\nResolve them, then run `loom continue` to resume, or `loom abort` to cancel."
    );
    assert!(paused_state_message("fold", false).contains("no rebase is in progress"));
    assert!(patch_in_agent_mode(true, true).is_err());
    assert!(patch_in_agent_mode(true, false).is_ok());
    assert!(patch_in_agent_mode(false, true).is_ok());
}

#[test]
fn replace_matches_str_replace() {
    for (s, p, w) in [("a{h}b{h}", "{h}", "X"), ("{h{h}}", "{h}", ""), ("aaa", "aa", "b"), ("", "x", "y"), ("abc", "", "-"), ("", "", "-")] {
        assert_eq!(replace_text(s, p, w), s.replace(p, w), "{s:?} {p:?} {w:?}");
    }
}

#[test]
fn backticks_mark_the_highlighted_pieces() {
    let s = |v: &[(&str, bool)]| -> Vec<(String, bool)> {
        v.iter().map(|(t, h)| (t.to_string(), *h)).collect()
    };
    assert_eq!(spans_of("plain"), s(&[("plain", false)]));
    assert_eq!(
        spans_of("run `loom abort` now"),
        s(&[("run ", false), ("loom abort", true), (" now", false)])
    );
    assert_eq!(spans_of("`a``b`"), s(&[("", false), ("a", true), ("", false), ("b", true), ("", false)]));
    // An unclosed backtick prints the rest as it is, after the text before it.
    assert_eq!(spans_of("x `y"), s(&[("x ", false), ("x `y", false)]));
}
