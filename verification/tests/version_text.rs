use wash_lib::config::Version;
use wash_lib::text::clone_optional;
use wash_lib::text::clone_strings;
use wash_lib::text::push_decimal;

fn decimal_string(n: u64) -> String {
    let mut text = String::new();
    push_decimal(&mut text, n);
    text
}

#[test]
fn decimal_numerals() {
    assert_eq!(decimal_string(0), "0");
    assert_eq!(decimal_string(7), "7");
    assert_eq!(decimal_string(9), "9");
    assert_eq!(decimal_string(10), "10");
    assert_eq!(decimal_string(109), "109");
    assert_eq!(decimal_string(1234567890), "1234567890");
    assert_eq!(decimal_string(u64::MAX), "18446744073709551615");
}

#[test]
fn decimal_is_appended() {
    let mut text = "v".to_string();
    push_decimal(&mut text, 42);
    push_decimal(&mut text, 0);
    assert_eq!(text, "v420");
}

#[test]
fn release_versions() {
    assert_eq!(Version::new(0, 1, 0).to_string(), "0.1.0");
    assert_eq!(Version::new(1, 0, 0).to_string(), "1.0.0");
    assert_eq!(Version::new(10, 20, 30).to_string(), "10.20.30");
    assert_eq!(
        Version::new(u64::MAX, 0, u64::MAX).to_string(),
        "18446744073709551615.0.18446744073709551615"
    );
}

#[test]
fn tagged_versions() {
    let mut version = Version::new(1, 2, 3);
    version.pre = "alpha.1".to_string();
    assert_eq!(version.to_string(), "1.2.3-alpha.1");
    version.build = "20230601".to_string();
    assert_eq!(version.to_string(), "1.2.3-alpha.1+20230601");
    version.pre = String::new();
    assert_eq!(version.to_string(), "1.2.3+20230601");
}

#[test]
fn copies_keep_the_text() {
    let list = vec!["a".to_string(), String::new(), "wasmcloud:httpserver".to_string()];
    assert_eq!(clone_strings(&list), list);
    assert_eq!(clone_strings(&Vec::new()), Vec::<String>::new());
    assert_eq!(clone_optional(&Some("alias".to_string())), Some("alias".to_string()));
    assert_eq!(clone_optional(&None), None);
}
