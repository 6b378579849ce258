use duckypad_daemon::Config;
use duckypad_daemon::Rules;
use duckypad_daemon::WindowContext;
use duckypad_daemon::next_profile;
use duckypad_daemon::rules::rule_matches;

fn ctx(title: &str, process_name: &str, app_name: &str) -> WindowContext {
    WindowContext {
        title: title.to_string(),
        process_name: process_name.to_string(),
        app_name: app_name.to_string(),
    }
}

fn rule(app_name: &str, process_name: Option<&str>, title: &str, enabled: bool, switch_to: u32) -> Rules {
    Rules {
        app_name: app_name.to_string(),
        process_name: process_name.map(|s| s.to_string()),
        window_title: title.to_string(),
        enabled,
        switch_to,
    }
}

#[test]
fn no_matching_rule_yields_none() {
    let config = Config {
        autoswitch_enabled: Some(true),
        rules_list: vec![
            rule("firefox", None, "", true, 3),
            rule("", None, "Editor", true, 4),
        ],
    };
    let c = ctx("Terminal", "bash", "konsole");
    assert_eq!(next_profile(&config, &c), None);
}

#[test]
fn empty_rule_list_yields_none() {
    let config = Config { autoswitch_enabled: None, rules_list: vec![] };
    let c = ctx("anything", "anything", "anything");
    assert_eq!(next_profile(&config, &c), None);
}

#[test]
fn first_match_wins_over_later_match() {
    // Both rules match; the later one is "more specific" but the earlier
    // one wins on list position.
    let config = Config {
        autoswitch_enabled: Some(true),
        rules_list: vec![
            rule("", None, "Code", true, 7),
            rule("code", Some("code"), "Visual Studio Code", true, 9),
        ],
    };
    let c = ctx("Visual Studio Code", "code", "code");
    assert_eq!(next_profile(&config, &c), Some(7));
}

#[test]
fn all_empty_patterns_match_any_context() {
    let wildcard = rule("", None, "", true, 12);
    assert!(rule_matches(&wildcard, &ctx("", "", "")));
    assert!(rule_matches(&wildcard, &ctx("some title", "proc", "app")));

    let wildcard_empty_process = rule("", Some(""), "", true, 12);
    assert!(rule_matches(&wildcard_empty_process, &ctx("a", "b", "c")));
}

#[test]
fn disabled_rule_never_matches() {
    let r = rule("", None, "", false, 5);
    assert!(!rule_matches(&r, &ctx("any", "any", "any")));

    let config = Config { autoswitch_enabled: Some(true), rules_list: vec![r] };
    assert_eq!(next_profile(&config, &ctx("any", "any", "any")), None);
}

#[test]
fn example_editor_and_catch_all() {
    // rules: a "Code" title rule, then an enabled catch-all.
    let config = Config {
        autoswitch_enabled: Some(true),
        rules_list: vec![
            rule("", None, "Code", true, 2),
            rule("", None, "", true, 1),
        ],
    };
    let editor = ctx("Visual Studio Code", "", "");
    assert_eq!(next_profile(&config, &editor), Some(2));
    let terminal = ctx("Terminal", "", "");
    assert_eq!(next_profile(&config, &terminal), Some(1));
}

#[test]
fn matching_is_substring_containment_not_equality() {
    let r = rule("", None, "Studio", true, 6);
    assert!(rule_matches(&r, &ctx("Visual Studio Code", "", "")));
    assert!(!rule_matches(&r, &ctx("studio", "", "")));  // case-sensitive
    assert!(!rule_matches(&r, &ctx("Stud", "", "")));
}

#[test]
fn process_name_pattern_checks_process_field() {
    let r = rule("", Some("bash"), "", true, 8);
    assert!(rule_matches(&r, &ctx("", "/usr/bin/bash", "")));
    assert!(!rule_matches(&r, &ctx("bash", "zsh", "bash")));
}

#[test]
fn absent_process_name_pattern_is_wildcard() {
    let r = rule("term", None, "", true, 10);
    assert!(rule_matches(&r, &ctx("", "whatever", "xterm")));
}

#[test]
fn all_three_patterns_must_match() {
    let r = rule("code", Some("code"), "Code", true, 11);
    assert!(rule_matches(&r, &ctx("My Code", "vscode", "code-oss")));
    assert!(!rule_matches(&r, &ctx("My Editor", "vscode", "code-oss")));
    assert!(!rule_matches(&r, &ctx("My Code", "emacs", "code-oss")));
    assert!(!rule_matches(&r, &ctx("My Code", "vscode", "firefox")));
}
