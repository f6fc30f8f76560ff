use relay_tap::json::Json;
use relay_tap::text::{
    chars_of, contains, line_len, matches_at, starts_with, without_carriage_return,
};

fn chars(s: &str) -> Vec<char> {
    s.chars().collect()
}

fn text(s: &str) -> Json {
    Json::Str(s.to_string())
}

#[test]
fn a_lookup_takes_the_first_member_of_that_name() {
    let object = Json::Object(vec![
        ("a".to_string(), text("first")),
        ("b".to_string(), Json::Null),
        ("a".to_string(), text("second")),
        ("".to_string(), Json::Bool(true)),
    ]);
    assert_eq!(object.get("a"), Some(&text("first")));
    assert_eq!(object.get("b"), Some(&Json::Null));
    assert_eq!(object.get(""), Some(&Json::Bool(true)));
    assert_eq!(object.get("c"), None);
    assert_eq!(object.get("A"), None);
    assert_eq!(Json::Object(Vec::new()).get("a"), None);
}

#[test]
fn only_an_object_has_members() {
    assert_eq!(Json::Null.get("a"), None);
    assert_eq!(text("a").get("a"), None);
    assert_eq!(Json::Array(vec![text("a")]).get("a"), None);
    assert_eq!(Json::Bool(true).get("true"), None);
}

#[test]
fn each_reading_fits_one_kind_of_value() {
    let array = Json::Array(vec![Json::Null, Json::Bool(false)]);
    assert_eq!(array.as_array(), Some(&vec![Json::Null, Json::Bool(false)]));
    assert_eq!(array.as_str(), None);
    assert_eq!(array.as_bool(), None);
    assert_eq!(text("s").as_str(), Some("s"));
    assert_eq!(text("").as_str(), Some(""));
    assert_eq!(text("true").as_bool(), None);
    assert_eq!(text("[]").as_array(), None);
    assert_eq!(Json::Bool(true).as_bool(), Some(true));
    assert_eq!(Json::Bool(false).as_bool(), Some(false));
    assert_eq!(Json::Bool(true).as_str(), None);
    assert_eq!(Json::Null.as_bool(), None);
    assert_eq!(Json::Null.as_str(), None);
    assert_eq!(Json::Null.as_array(), None);
    let number = Json::Number(serde_json::Number::from(1u64));
    assert_eq!(number.as_bool(), None);
    assert_eq!(number.as_str(), None);
    assert_eq!(Json::Object(Vec::new()).as_array(), None);
}

#[test]
fn the_characters_of_a_text() {
    assert_eq!(chars_of(""), Vec::<char>::new());
    assert_eq!(chars_of("a\u{e9}\u{4f60}\u{1f600}\n"), vec!['a', '\u{e9}', '\u{4f60}', '\u{1f600}', '\n']);
}

#[test]
fn one_carriage_return_at_the_end_is_taken_off() {
    assert_eq!(without_carriage_return(&chars("abc\r")), &chars("abc")[..]);
    assert_eq!(without_carriage_return(&chars("abc\r\r")), &chars("abc\r")[..]);
    assert_eq!(without_carriage_return(&chars("\r")), &chars("")[..]);
    assert_eq!(without_carriage_return(&chars("\rabc")), &chars("\rabc")[..]);
    assert_eq!(without_carriage_return(&chars("abc ")), &chars("abc ")[..]);
    assert_eq!(without_carriage_return(&chars("abc")), &chars("abc")[..]);
    assert_eq!(without_carriage_return(&chars("")), &chars("")[..]);
}

#[test]
fn a_run_is_found_where_it_stands() {
    let hay = chars("abcabd");
    assert!(matches_at(&hay, &chars("abc"), 0));
    assert!(matches_at(&hay, &chars("abd"), 3));
    assert!(!matches_at(&hay, &chars("abd"), 0));
    assert!(!matches_at(&hay, &chars("abd"), 4));
    assert!(matches_at(&hay, &chars(""), 6));
    assert!(!matches_at(&hay, &chars(""), 7));
    assert!(!matches_at(&hay, &chars("abcabda"), 0));
    assert!(!matches_at(&hay, &chars("a"), usize::MAX));

    assert!(starts_with(&hay, &chars("")));
    assert!(starts_with(&hay, &chars("abca")));
    assert!(starts_with(&hay, &chars("abcabd")));
    assert!(!starts_with(&hay, &chars("bca")));
    assert!(!starts_with(&chars(""), &chars("a")));

    assert!(contains(&hay, &chars("")));
    assert!(contains(&chars(""), &chars("")));
    assert!(contains(&hay, &chars("abd")));
    assert!(contains(&hay, &chars("cab")));
    assert!(contains(&hay, &chars("d")));
    assert!(contains(&hay, &chars("abcabd")));
    assert!(!contains(&hay, &chars("abcabda")));
    assert!(!contains(&hay, &chars("ba")));
    assert!(!contains(&chars(""), &chars("a")));
    assert!(contains(&chars("aaab"), &chars("aab")));
}

#[test]
fn the_first_line_ends_at_the_first_line_feed() {
    assert_eq!(line_len(&chars("")), 0);
    assert_eq!(line_len(&chars("\n")), 0);
    assert_eq!(line_len(&chars("abc")), 3);
    assert_eq!(line_len(&chars("ab\ncd\n")), 2);
    assert_eq!(line_len(&chars("ab\r\ncd")), 3);
}
