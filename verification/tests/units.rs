use validation_plan::checks::{credit_card_check, email_check, non_control_check, phone_check,
    url_check};
use validation_plan::lit::{lit_to_bool, lit_to_num, lit_to_string};
use validation_plan::intent::Literal;
use validation_plan::text::{chars_of, chars_eq, contains_chars, has_prefix};
use validation_plan::types::{TypeDesc, len_capable, range_capable, string_like};
use validation_plan::value::{FieldValue, Record, Value, value_eq};

fn cs(t: &str) -> Vec<char> {
    chars_of(t)
}

#[test]
fn literal_resolver_accepts_only_its_shape() {
    assert_eq!(lit_to_string(&Literal::Text("x".to_string())), Some("x".to_string()));
    assert_eq!(lit_to_string(&Literal::Num(3)), None);
    assert_eq!(lit_to_string(&Literal::Truth(true)), None);
    assert_eq!(lit_to_bool(&Literal::Truth(false)), Some(false));
    assert_eq!(lit_to_bool(&Literal::Text("true".to_string())), None);
    assert_eq!(lit_to_num(&Literal::Num(-7)), Some(-7));
    assert_eq!(lit_to_num(&Literal::Text("7".to_string())), None);
}

#[test]
fn email_shapes() {
    assert!(email_check(&cs("a@b")));
    assert!(email_check(&cs("someone@example.com")));
    assert!(!email_check(&cs("")));
    assert!(!email_check(&cs("plain")));
    assert!(!email_check(&cs("@host")));
    assert!(!email_check(&cs("user@")));
    assert!(!email_check(&cs("two@@signs")));
    assert!(!email_check(&cs("a@b@c")));
}

#[test]
fn url_shapes() {
    assert!(url_check(&cs("https://example.com")));
    assert!(url_check(&cs("ftp://x")));
    assert!(!url_check(&cs("://no-scheme")));
    assert!(!url_check(&cs("example.com")));
    assert!(!url_check(&cs("")));
}

#[test]
fn phone_shapes() {
    assert!(phone_check(&cs("+4915112345678")));
    assert!(phone_check(&cs("1234567")));
    assert!(!phone_check(&cs("123456")));
    assert!(!phone_check(&cs("12345678901234567")));
    assert!(!phone_check(&cs("12345a7")));
    assert!(!phone_check(&cs("+")));
}

#[test]
fn card_shapes() {
    assert!(credit_card_check(&cs("4111111111111111")));
    assert!(credit_card_check(&cs("5555555555554444")));
    assert!(!credit_card_check(&cs("4111111111111112")));
    assert!(!credit_card_check(&cs("41111111111")));
    assert!(!credit_card_check(&cs("4111-1111-1111-1111")));
}

#[test]
fn control_characters_are_caught() {
    assert!(non_control_check(&cs("plain text")));
    assert!(!non_control_check(&cs("line\nbreak")));
    assert!(!non_control_check(&cs("tab\there")));
}

#[test]
fn text_helpers() {
    assert!(chars_eq(&cs("abc"), &cs("abc")));
    assert!(!chars_eq(&cs("abc"), &cs("abd")));
    assert!(has_prefix(&cs("Vec<u8>"), &cs("Vec<")));
    assert!(!has_prefix(&cs("Ve"), &cs("Vec<")));
    assert!(contains_chars(&cs("hello world"), &cs("o w")));
    assert!(!contains_chars(&cs("hello"), &cs("world")));
    assert!(contains_chars(&cs("x"), &cs("")));
}

#[test]
fn capability_registry() {
    assert!(string_like(&TypeDesc::new("String")));
    assert!(string_like(&TypeDesc::new("&str")));
    assert!(string_like(&TypeDesc::new("Option<String>")));
    assert!(!string_like(&TypeDesc::new("bool")));
    assert!(!string_like(&TypeDesc::new("Vec<u8>")));
    assert!(len_capable(&TypeDesc::new("Vec<u8>")));
    assert!(len_capable(&TypeDesc::new("HashMap<String,i64>")));
    assert!(len_capable(&TypeDesc::new("String")));
    assert!(!len_capable(&TypeDesc::new("i64")));
    assert!(range_capable(&TypeDesc::new("i64")));
    assert!(range_capable(&TypeDesc::new("Option<u32>")));
    assert!(!range_capable(&TypeDesc::new("String")));
}

#[test]
fn type_normalization_strips_spaces() {
    let a = TypeDesc::new("Vec< u8 >");
    let b = TypeDesc::new("Vec<u8>");
    assert!(a.same_as(&b));
    let c = TypeDesc::new("Vec<u16>");
    assert!(!a.same_as(&c));
}

#[test]
fn deep_value_equality() {
    let a = Value::Sub(Record {
        fields: vec![
            FieldValue { name: "x".to_string(), value: Value::Num(1) },
            FieldValue { name: "y".to_string(), value: Value::Text("s".to_string()) },
        ],
    });
    let b = Value::Sub(Record {
        fields: vec![
            FieldValue { name: "x".to_string(), value: Value::Num(1) },
            FieldValue { name: "y".to_string(), value: Value::Text("s".to_string()) },
        ],
    });
    let c = Value::Sub(Record {
        fields: vec![
            FieldValue { name: "x".to_string(), value: Value::Num(2) },
            FieldValue { name: "y".to_string(), value: Value::Text("s".to_string()) },
        ],
    });
    assert!(value_eq(&a, &b));
    assert!(!value_eq(&a, &c));
    assert!(value_eq(&Value::Absent, &Value::Absent));
    assert!(!value_eq(&Value::Absent, &Value::Num(0)));
}
