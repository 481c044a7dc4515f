use dot_setup::windows::{
    kept_range, list_arguments, matches_app, property_matches, property_value, trim,
    window_arguments, window_ids, window_object_path, window_row,
};

#[test]
fn kept_range_cuts_the_flagged_ends() {
    assert_eq!(kept_range(&vec![true, true, false, true, false, true]), (2, 5));
    assert_eq!(kept_range(&vec![false, false]), (0, 2));
    assert_eq!(kept_range(&vec![false]), (0, 1));
    assert_eq!(kept_range(&vec![true, false]), (1, 2));
    assert_eq!(kept_range(&vec![false, true]), (0, 1));
}

#[test]
fn kept_range_of_all_flagged_is_empty() {
    assert_eq!(kept_range(&vec![true, true, true]), (3, 3));
    assert_eq!(kept_range(&Vec::new()), (0, 0));
}

#[test]
fn trim_removes_white_space_at_both_ends() {
    assert_eq!(trim("  firefox \t\n"), "firefox");
    assert_eq!(trim("a b"), "a b");
    assert_eq!(trim(" \u{a0}x\u{2003}"), "x");
    assert_eq!(trim("   "), "");
    assert_eq!(trim(""), "");
}

#[test]
fn trim_agrees_with_the_standard_library() {
    for sample in ["", " ", "x", " x", "x ", "\t x y \r\n", "\u{3000}日本\u{3000}", "a\u{200b} "] {
        assert_eq!(trim(sample), sample.trim(), "for {:?}", sample);
    }
}

#[test]
fn window_ids_are_the_non_empty_trimmed_lines() {
    let listing = "{a1}\n  {b2}  \n\n   \n{c3}";
    assert_eq!(window_ids(listing), vec!["{a1}", "{b2}", "{c3}"]);
    assert!(window_ids("").is_empty());
    assert!(window_ids("\n \n").is_empty());
}

#[test]
fn property_value_is_missing_when_blank() {
    assert_eq!(property_value(" org.kde.dolphin\n"), Some("org.kde.dolphin".to_string()));
    assert_eq!(property_value("\n"), None);
    assert_eq!(property_value(""), None);
}

#[test]
fn matches_app_ignores_case() {
    assert!(matches_app("org.mozilla.Firefox", "firefox"));
    assert!(matches_app("firefox", "FIREFOX"));
    assert!(matches_app("Mozilla Firefox — Start", "fire"));
    assert!(!matches_app("org.kde.dolphin", "firefox"));
    assert!(!matches_app("fire", "firefox"));
    assert!(matches_app("ÄPFEL", "äpfel"));
}

#[test]
fn missing_property_matches_nothing() {
    assert!(!property_matches(&None, "firefox"));
    assert!(!property_matches(&None, ""));
    assert!(property_matches(&Some("Firefox".to_string()), "firefox"));
    assert!(!property_matches(&Some("Dolphin".to_string()), "firefox"));
}

#[test]
fn window_manager_arguments() {
    assert_eq!(list_arguments(), vec!["org.kde.KWin", "/KWin", "org.kde.KWin.Windows"]);
    assert_eq!(window_object_path("{a1}"), "/KWin/Window/{a1}");
    assert_eq!(
        window_arguments("{a1}", "caption"),
        vec!["org.kde.KWin", "/KWin/Window/{a1}", "org.kde.KWin.Window", "caption"]
    );
}

#[test]
fn window_row_needs_a_class_or_a_title() {
    assert_eq!(
        window_row("{a1}", "firefox", "Start"),
        Some("  {a1} | class: 'firefox' | title: 'Start'".to_string())
    );
    assert_eq!(
        window_row("{a1}", "", "Start"),
        Some("  {a1} | class: '' | title: 'Start'".to_string())
    );
    assert_eq!(window_row("{a1}", "", ""), None);
}
