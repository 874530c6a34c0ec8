use cc_switch::icons::{
    configured_icon_mode, is_emoji, locale_is_utf8, strip_icon, strip_leading_emoji, use_emoji,
    IconMode,
};

#[test]
fn icon_mode_parses_known_values() {
    assert_eq!(IconMode::parse("auto"), Some(IconMode::Auto));
    assert_eq!(IconMode::parse("emoji"), Some(IconMode::Emoji));
    assert_eq!(IconMode::parse(" Ascii "), Some(IconMode::Ascii));
    assert_eq!(IconMode::parse("text"), Some(IconMode::Ascii));
    assert_eq!(IconMode::parse("nerdfont"), None);
}

#[test]
fn icon_mode_parse_ignores_case_and_unicode_whitespace() {
    assert_eq!(IconMode::parse("\tEMOJI\n"), Some(IconMode::Emoji));
    assert_eq!(IconMode::parse("\u{3000}TeXt\u{00A0}"), Some(IconMode::Ascii));
    assert_eq!(IconMode::parse("AUTO"), Some(IconMode::Auto));
    assert_eq!(IconMode::parse(""), None);
    assert_eq!(IconMode::parse("emoj"), None);
    assert_eq!(IconMode::parse("a uto"), None);
}

// The environment reads happen in the caller; these exercise the same
// decisions on the values the environment would hold.
#[test]
fn env_override_forces_mode_regardless_of_locale() {
    let locale = locale_is_utf8(None, None, Some("en_US.UTF-8"));
    assert!(
        !use_emoji(configured_icon_mode(Some("ascii"), None), locale),
        "explicit ascii override should disable emoji"
    );
    assert!(
        use_emoji(configured_icon_mode(Some("emoji"), None), locale),
        "explicit emoji override should force emoji"
    );
}

#[test]
fn auto_downgrades_only_for_non_utf8_locales() {
    let mode = configured_icon_mode(Some("auto"), None);
    assert!(
        use_emoji(mode, locale_is_utf8(None, None, Some("en_US.UTF-8"))),
        "utf-8 locale keeps emoji under auto"
    );
    assert!(
        !use_emoji(mode, locale_is_utf8(None, None, Some("C"))),
        "non-utf-8 locale downgrades under auto"
    );
    assert!(
        !use_emoji(mode, locale_is_utf8(None, None, Some("POSIX"))),
        "POSIX locale downgrades under auto"
    );
}

#[test]
fn auto_keeps_emoji_when_locale_is_unset() {
    let mode = configured_icon_mode(Some("auto"), None);
    assert!(use_emoji(mode, locale_is_utf8(None, None, None)));
}

#[test]
fn first_non_empty_locale_variable_decides() {
    assert!(!locale_is_utf8(Some("C"), Some("en_US.UTF-8"), Some("en_US.UTF-8")));
    assert!(locale_is_utf8(Some(""), Some("zh_CN.utf8"), Some("C")));
    assert!(!locale_is_utf8(None, Some(""), Some("POSIX")));
    assert!(locale_is_utf8(Some("de_DE.Utf-8"), None, None));
}

#[test]
fn invalid_override_falls_back_to_setting_then_auto() {
    assert_eq!(configured_icon_mode(Some("nerdfont"), Some("ascii")), IconMode::Ascii);
    assert_eq!(configured_icon_mode(None, Some("Emoji")), IconMode::Emoji);
    assert_eq!(configured_icon_mode(Some("bogus"), Some("bogus")), IconMode::Auto);
    assert_eq!(configured_icon_mode(None, None), IconMode::Auto);
    assert_eq!(IconMode::default(), IconMode::Auto);
}

#[test]
fn strip_leading_emoji_handles_menu_labels() {
    assert_eq!(strip_leading_emoji("🏠 Home"), "Home");
    assert_eq!(strip_leading_emoji("🔑 供应商"), "供应商");
    assert_eq!(
        strip_leading_emoji("🛠️ MCP Server Management"),
        "MCP Server Management"
    );
    assert_eq!(strip_leading_emoji("供应商管理"), "供应商管理");
    assert_eq!(strip_leading_emoji("Custom Provider"), "Custom Provider");
}

#[test]
fn strip_leading_emoji_removes_only_the_marker() {
    assert_eq!(strip_leading_emoji("\u{2699}Settings Menu"), "Settings Menu");
    assert_eq!(strip_leading_emoji("\u{2699} Settings Menu"), "Settings Menu");
    assert_eq!(strip_leading_emoji("\u{1F3E0}"), "");
    assert_eq!(strip_leading_emoji(""), "");
    assert_eq!(strip_leading_emoji("\u{2699} a b"), "a b");
    assert_eq!(strip_leading_emoji("\u{2699}  two spaces"), " two spaces");
    assert_eq!(strip_leading_emoji(" \u{2699} x"), " \u{2699} x");
    assert_eq!(strip_leading_emoji("\u{1F3E0} \u{1F511} Keys"), "\u{1F511} Keys");
}

#[test]
fn strip_icon_follows_the_emoji_decision() {
    assert_eq!(strip_icon("🔑 Providers", true), "🔑 Providers");
    assert_eq!(strip_icon("🔑 Providers", false), "Providers");
    assert_eq!(strip_icon("Providers", false), "Providers");
}

#[test]
fn cjk_is_not_treated_as_an_emoji() {
    assert!(!is_emoji('供'));
    assert!(!is_emoji('设'));
    assert!(!is_emoji('A'));
    assert!(is_emoji('🔑'));
    assert!(is_emoji('⚙'));
}

#[test]
fn parse_agrees_with_trimmed_lowercase_form() {
    for v in ["  EMOJI\t", "Text", " aScIi ", "Auto", "nope", "", "  "] {
        let lowered = v.trim().to_ascii_lowercase();
        assert_eq!(IconMode::parse(v), IconMode::parse(&lowered));
    }
}
