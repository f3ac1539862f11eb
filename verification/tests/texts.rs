use spreadsheet::error::Error;
use spreadsheet::parse::{many0, many1, number_i16, number_i8, run_of, tag, take, take_until, Class};
use spreadsheet::paths::{build_path, can_be_extension, clone_opt_path};
use spreadsheet::record::{to_i16, to_i8, Field, FieldValue, Record};
use spreadsheet::text::{clone_opt, join, same};
use spreadsheet::utils::{deserialize_arcgis_data, read_char, read_num};

#[test]
fn same_and_join() {
    assert!(same("abc", "abc"));
    assert!(!same("abc", "abd"));
    assert!(!same("abc", "ab"));
    assert!(same("", ""));
    assert_eq!(join("ab", "cd"), "abcd");
    assert_eq!(clone_opt(&Some("x".to_string())), Some("x".to_string()));
    assert_eq!(clone_opt(&None), None);
}

#[test]
fn classes_of_characters() {
    assert!(Class::Space.has(' '));
    assert!(Class::Space.has('\t'));
    assert!(!Class::Space.has('\n'));
    assert!(Class::Digit.has('0') && Class::Digit.has('9') && !Class::Digit.has('a'));
    assert!(Class::Alpha.has('a') && Class::Alpha.has('Z') && !Class::Alpha.has('1'));
    assert!(!Class::Alpha.has('é'));
    assert!(Class::Alphanumeric.has('7') && Class::Alphanumeric.has('q'));
    assert!(!Class::Alphanumeric.has('_'));
}

#[test]
fn runs_of_characters() {
    assert_eq!(run_of("123abc", Class::Digit), 3);
    assert_eq!(run_of("abc", Class::Digit), 0);
    assert_eq!(run_of("", Class::Digit), 0);
    assert_eq!(many0("  \tx ", Class::Space), ("x ", "  \t"));
    assert_eq!(many0("x", Class::Space), ("x", ""));
    assert_eq!(many1("ab1", Class::Alpha), Some(("1", "ab")));
    assert_eq!(many1("1ab", Class::Alpha), None);
    assert_eq!(many1("é12", Class::Alphanumeric), None);
    assert_eq!(many1("12é", Class::Alphanumeric), Some(("é", "12")));
}

#[test]
fn words_and_counts() {
    assert_eq!(tag("ARCHIVE rest", "ARCHIVE"), Some(" rest"));
    assert_eq!(tag("ARCH", "ARCHIVE"), None);
    assert_eq!(tag("x", ""), Some("x"));
    assert_eq!(take("20240315", 4), Some(("0315", "2024")));
    assert_eq!(take("abc", 4), None);
    assert_eq!(take("äöü", 2), Some(("ü", "äö")));
    assert_eq!(take_until("abc)def", ")"), Some((")def", "abc")));
    assert_eq!(take_until(")def", ")"), Some((")def", "")));
    assert_eq!(take_until("abc", ")"), None);
    assert_eq!(take_until("abc", ""), Some(("abc", "")));
}

#[test]
fn numbers_at_the_front() {
    assert_eq!(number_i8("12/3"), Some(("/3", 12)));
    assert_eq!(number_i8("127"), Some(("", 127)));
    assert_eq!(number_i8("128"), None);
    assert_eq!(number_i8("007x"), Some(("x", 7)));
    assert_eq!(number_i8("-1"), None);
    assert_eq!(number_i8(""), None);
    assert_eq!(number_i16("32767."), Some((".", 32767)));
    assert_eq!(number_i16("32768"), None);
}

#[test]
fn arcgis_null_is_nothing() {
    assert_eq!(deserialize_arcgis_data(None), None);
    assert_eq!(deserialize_arcgis_data(Some("<Null>")), None);
    assert_eq!(deserialize_arcgis_data(Some("value")), Some("value".to_string()));
    assert_eq!(deserialize_arcgis_data(Some("")), Some("".to_string()));
    assert_eq!(deserialize_arcgis_data(Some("<null>")), Some("<null>".to_string()));
}

fn sample_record() -> Record {
    Record::new(vec![
        Field { name: "assetid".to_string(), value: FieldValue::Character(Some("MH1".to_string())) },
        Field { name: "historicid".to_string(), value: FieldValue::Character(None) },
        Field { name: "ASSETGROUP".to_string(), value: FieldValue::Numeric(Some(32)) },
        Field { name: "ASSETTYPE".to_string(), value: FieldValue::Numeric(None) },
        Field { name: "flag".to_string(), value: FieldValue::Other },
        Field { name: "assetid".to_string(), value: FieldValue::Character(Some("later".to_string())) },
    ])
}

#[test]
fn fields_of_a_record() {
    let record = sample_record();
    assert_eq!(record.get("ASSETGROUP"), Some(&FieldValue::Numeric(Some(32))));
    assert_eq!(record.get("missing"), None);
    assert_eq!(read_char(&record, "assetid"), Some("MH1".to_string()));
    assert_eq!(read_char(&record, "historicid"), None);
    assert_eq!(read_char(&record, "ASSETGROUP"), None);
    assert_eq!(read_char(&record, "missing"), None);
    assert_eq!(read_num(&record, "ASSETGROUP"), Some(32));
    assert_eq!(read_num(&record, "ASSETTYPE"), None);
    assert_eq!(read_num(&record, "assetid"), None);
    assert_eq!(read_num(&record, "flag"), None);
}

#[test]
fn numbers_are_held_within_the_range() {
    for number in [-1e30, -40000.9, -129.0, -128.0, -1.5, 0.0, 0.9, 127.0, 127.9, 128.0, 301.0, 4e4, 1e30, f64::NAN] {
        assert_eq!(to_i8(number as i64), number as i8, "{number}");
        assert_eq!(to_i16(number as i64), number as i16, "{number}");
    }
}

#[test]
fn errors_say_what_went_wrong() {
    assert_eq!(Error::ParseError.to_string(), "Parse error.");
    assert_eq!(Error::AuthError.to_string(), "Authorization failed.");
    assert_eq!(Error::UnknownError.to_string(), "Unexpected error.");
    assert_eq!(Error::RangeError.to_string(), "Out of range.");
    assert_eq!(Error::Hint("as said".to_string()).to_string(), "as said");
    assert_eq!(
        Error::UserBuildError { value: vec!["a".to_string(), "b".to_string()] }.to_string(),
        "Value not provided for [\"a\", \"b\"]."
    );
}

#[test]
fn paths_of_files() {
    let path = build_path("MH1", "jpg", std::path::PathBuf::from("cards"));
    assert_eq!(path, std::path::Path::new("cards").join("MH1.jpg"));
    let mut by_hand = std::path::PathBuf::from("cards");
    by_hand.push("A1.B2 3 15 2024");
    by_hand.set_extension("pdf");
    assert_eq!(build_path("A1.B2 3 15 2024", "pdf", std::path::PathBuf::from("cards")), by_hand);
    assert_eq!(by_hand, std::path::Path::new("cards").join("A1.pdf"));
    assert_eq!(build_path("card", "", std::path::PathBuf::new()), std::path::PathBuf::from("card"));
    assert!(can_be_extension("pdf"));
    assert!(can_be_extension(""));
    assert!(can_be_extension("tar.gz"));
    assert!(!can_be_extension("a/b"));
    assert!(!can_be_extension("a\\b"));
    assert!(!can_be_extension("/"));
    assert_eq!(clone_opt_path(&Some(path.clone())), Some(path));
    assert_eq!(clone_opt_path(&None), None);
}
