use al1s::text::{chars_of, concat_str, eq_ignore_ascii_case, to_ascii_lower};

#[test]
fn ascii_case_match_ignores_ascii_case_only() {
    assert!(eq_ignore_ascii_case("Ferris", "FERRIS"));
    assert!(eq_ignore_ascii_case("Ferrös", "FERRöS"));
    assert!(!eq_ignore_ascii_case("Ferrös", "FERRÖS"));
    assert!(!eq_ignore_ascii_case("abc", "abcd"));
    assert!(!eq_ignore_ascii_case("abc", "abd"));
    assert!(eq_ignore_ascii_case("", ""));
}

#[test]
fn ascii_case_match_is_an_equivalence() {
    let (a, b, c) = ("VM-One", "vm-one", "Vm-OnE");
    assert!(eq_ignore_ascii_case(a, a));
    assert_eq!(eq_ignore_ascii_case(a, b), eq_ignore_ascii_case(b, a));
    assert!(eq_ignore_ascii_case(a, b) && eq_ignore_ascii_case(b, c) && eq_ignore_ascii_case(a, c));
    assert_eq!(eq_ignore_ascii_case("x", "Y"), eq_ignore_ascii_case("Y", "x"));
}

#[test]
fn ascii_lowercase_of_one_char() {
    assert_eq!(to_ascii_lower('A'), 'a');
    assert_eq!(to_ascii_lower('Z'), 'z');
    assert_eq!(to_ascii_lower('['), '[');
    assert_eq!(to_ascii_lower('@'), '@');
    assert_eq!(to_ascii_lower('a'), 'a');
    assert_eq!(to_ascii_lower('Ö'), 'Ö');
}

#[test]
fn chars_and_concatenation() {
    assert_eq!(chars_of("héllo"), vec!['h', 'é', 'l', 'l', 'o']);
    assert_eq!(chars_of(""), Vec::<char>::new());
    assert_eq!(concat_str("ab", "cd"), "abcd");
    assert_eq!(concat_str("", ""), "");
}
