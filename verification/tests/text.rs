use turbo_tracing::text::{chars_of, find_from, is_word, starts_with};

fn chars(s: &str) -> Vec<char> {
    s.chars().collect()
}

#[test]
fn chars_of_keeps_every_character() {
    assert_eq!(chars_of(""), Vec::<char>::new());
    assert_eq!(chars_of("a=b"), vec!['a', '=', 'b']);
    assert_eq!(chars_of("größe"), vec!['g', 'r', 'ö', 'ß', 'e']);
}

#[test]
fn find_from_stops_at_the_first_match() {
    let v = chars("a,b,,c");
    assert_eq!(find_from(&v, 0, ','), 1);
    assert_eq!(find_from(&v, 1, ','), 1);
    assert_eq!(find_from(&v, 2, ','), 3);
    assert_eq!(find_from(&v, 4, ','), 4);
    assert_eq!(find_from(&v, 5, ','), 6);
    assert_eq!(find_from(&v, 6, ','), 6);
    assert_eq!(find_from(&v, 0, '='), 6);
    assert_eq!(find_from(&chars(""), 0, ','), 0);
}

#[test]
fn starts_with_compares_characters() {
    assert!(starts_with(&chars("hyper::client"), &chars("hyper")));
    assert!(starts_with(&chars("hyper"), &chars("hyper")));
    assert!(starts_with(&chars("hyper"), &chars("")));
    assert!(starts_with(&chars(""), &chars("")));
    assert!(!starts_with(&chars("hype"), &chars("hyper")));
    assert!(!starts_with(&chars("xhyper"), &chars("hyper")));
    assert!(!starts_with(&chars(""), &chars("h")));
    assert!(!starts_with(&chars("grösse"), &chars("größe")));
}

#[test]
fn is_word_takes_either_case_letter_by_letter() {
    let v = chars("x=WaRn,");
    assert!(is_word(&v, 2, 6, "warn", "WARN"));
    assert!(!is_word(&v, 2, 7, "warn", "WARN"));
    assert!(!is_word(&v, 1, 6, "warn", "WARN"));
    assert!(!is_word(&v, 2, 6, "info", "INFO"));
    assert!(is_word(&v, 3, 3, "", ""));
    assert!(!is_word(&v, 2, 6, "", ""));
}
