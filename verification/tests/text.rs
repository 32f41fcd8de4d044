use fbi_proxy::text::{ends_with, find_char, find_dashes, rfind_char, same_text, to_chars};

fn chars(s: &str) -> Vec<char> {
    s.chars().collect()
}

#[test]
fn to_chars_keeps_every_character() {
    assert_eq!(to_chars("a.b"), vec!['a', '.', 'b']);
    assert_eq!(to_chars(""), Vec::<char>::new());
    assert_eq!(to_chars("é日"), vec!['é', '日']);
}

#[test]
fn find_char_gives_the_first_index() {
    assert_eq!(find_char(&chars("a:b:c"), ':'), Some(1));
    assert_eq!(find_char(&chars(":"), ':'), Some(0));
    assert_eq!(find_char(&chars("abc"), ':'), None);
    assert_eq!(find_char(&chars(""), ':'), None);
}

#[test]
fn rfind_char_gives_the_last_index() {
    assert_eq!(rfind_char(&chars("a.b.c"), '.'), Some(3));
    assert_eq!(rfind_char(&chars("."), '.'), Some(0));
    assert_eq!(rfind_char(&chars("abc."), '.'), Some(3));
    assert_eq!(rfind_char(&chars("abc"), '.'), None);
    assert_eq!(rfind_char(&chars(""), '.'), None);
}

#[test]
fn find_dashes_gives_the_leftmost_pair() {
    assert_eq!(find_dashes(&chars("api--8080")), Some(3));
    assert_eq!(find_dashes(&chars("a---b")), Some(1));
    assert_eq!(find_dashes(&chars("--")), Some(0));
    assert_eq!(find_dashes(&chars("a-b-c")), None);
    assert_eq!(find_dashes(&chars("-")), None);
    assert_eq!(find_dashes(&chars("")), None);
    assert_eq!(find_dashes(&chars("ab--")), Some(2));
}

#[test]
fn ends_with_compares_the_tail() {
    assert!(ends_with(&chars("3000.fbi.com"), &chars("fbi.com")));
    assert!(ends_with(&chars("fbi.com"), &chars("fbi.com")));
    assert!(ends_with(&chars("fbi.com"), &chars("")));
    assert!(ends_with(&chars(""), &chars("")));
    assert!(!ends_with(&chars("com"), &chars("fbi.com")));
    assert!(!ends_with(&chars("fbi.con"), &chars("fbi.com")));
    assert!(!ends_with(&chars("gbi.com"), &chars("fbi.com")));
}

#[test]
fn same_text_is_equality() {
    assert!(same_text("CONNECT", "CONNECT"));
    assert!(same_text("", ""));
    assert!(!same_text("CONNECT", "connect"));
    assert!(!same_text("CONNECT", "CONNEC"));
    assert!(!same_text("GET", "PUT"));
}
