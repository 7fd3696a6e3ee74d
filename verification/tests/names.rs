use rrm::confirm::{confirmed, is_space};
use rrm::paths::{base_name, chars_of, join, resolve};

#[test]
fn chars_of_gives_each_character() {
    assert_eq!(chars_of("a/é"), vec!['a', '/', 'é']);
    assert_eq!(chars_of(""), Vec::<char>::new());
}

#[test]
fn base_name_is_the_last_component() {
    assert_eq!(base_name("a.txt"), Some("a.txt".to_string()));
    assert_eq!(base_name("/tmp/work/a.txt"), Some("a.txt".to_string()));
    assert_eq!(base_name("work/sub/link"), Some("link".to_string()));
}

#[test]
fn base_name_sets_trailing_separators_aside() {
    assert_eq!(base_name("d/"), Some("d".to_string()));
    assert_eq!(base_name("/tmp/work/d///"), Some("d".to_string()));
}

#[test]
fn base_name_keeps_other_characters() {
    assert_eq!(base_name("/tmp/señor año.txt"), Some("señor año.txt".to_string()));
    assert_eq!(base_name("/tmp/.hidden"), Some(".hidden".to_string()));
    assert_eq!(base_name("/tmp/..."), Some("...".to_string()));
}

#[test]
fn base_name_is_missing_where_no_component_names_an_entry() {
    assert_eq!(base_name(""), None);
    assert_eq!(base_name("/"), None);
    assert_eq!(base_name("///"), None);
    assert_eq!(base_name("."), None);
    assert_eq!(base_name(".."), None);
    assert_eq!(base_name("/tmp/work/.."), None);
    assert_eq!(base_name("/tmp/work/./"), None);
}

#[test]
fn join_puts_one_separator_between() {
    assert_eq!(join("/tmp/rrm/trash", "a.txt"), "/tmp/rrm/trash/a.txt");
    assert_eq!(join("", "x"), "/x");
}

#[test]
fn resolve_places_a_relative_operand_under_cwd() {
    assert_eq!(resolve("/tmp/work", "a.txt"), "/tmp/work/a.txt");
    assert_eq!(resolve("/tmp/work", "sub/d/"), "/tmp/work/sub/d/");
    assert_eq!(resolve("/tmp/work", ""), "/tmp/work/");
}

#[test]
fn resolve_keeps_an_absolute_operand() {
    assert_eq!(resolve("/tmp/work", "/etc/hosts"), "/etc/hosts");
}

#[test]
fn y_and_yes_confirm() {
    assert!(confirmed("y"));
    assert!(confirmed("yes"));
    assert!(confirmed("y\n"));
    assert!(confirmed("yes\n"));
}

#[test]
fn confirmation_ignores_case() {
    assert!(confirmed("Y\n"));
    assert!(confirmed("YES\n"));
    assert!(confirmed("yEs"));
    assert!(confirmed("Yes\r\n"));
}

#[test]
fn confirmation_ignores_white_space_around() {
    assert!(confirmed("  y  \n"));
    assert!(confirmed("\t yes\u{A0}\u{3000}\n"));
}

#[test]
fn anything_else_declines() {
    assert!(!confirmed(""));
    assert!(!confirmed("\n"));
    assert!(!confirmed("n\n"));
    assert!(!confirmed("no"));
    assert!(!confirmed("ye"));
    assert!(!confirmed("yess"));
    assert!(!confirmed("y e s"));
    assert!(!confirmed("yes please"));
    assert!(!confirmed("oui"));
    assert!(!confirmed("ÿ"));
}

#[test]
fn is_space_agrees_with_the_standard_library() {
    let mut code: u32 = 0;
    while code < 0x3100 {
        if let Some(c) = char::from_u32(code) {
            assert_eq!(is_space(c), c.is_whitespace());
        }
        code += 1;
    }
}
