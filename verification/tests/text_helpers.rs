use design_patterns::textutil::char_to_string;
use design_patterns::textutil::i32_to_string;
use design_patterns::textutil::str_contains;
use design_patterns::textutil::str_eq;
use design_patterns::textutil::u64_to_string;

#[test]
fn test_str_eq() {
    assert!(str_eq("", ""));
    assert!(str_eq("Arial", "Arial"));
    assert!(!str_eq("Arial", "Arian"));
    assert!(!str_eq("Arial", "Aria"));
    assert!(str_eq("базовый", "базовый"));
    assert!(!str_eq("базовый", "средний"));
}

#[test]
fn test_str_contains() {
    assert!(str_contains("базовый запрос", "базовый"));
    assert!(str_contains("запрос базовый", "базовый"));
    assert!(!str_contains("неизвестный запрос", "базовый"));
    assert!(str_contains("anything", ""));
    assert!(!str_contains("", "x"));
    assert!(str_contains("abc", "abc"));
}

#[test]
fn test_decimal_rendering() {
    assert_eq!(u64_to_string(0), "0");
    assert_eq!(u64_to_string(7), "7");
    assert_eq!(u64_to_string(1234567890), "1234567890");
    assert_eq!(i32_to_string(0), "0");
    assert_eq!(i32_to_string(-42), "-42");
    assert_eq!(i32_to_string(i32::MIN), "-2147483648");
    assert_eq!(i32_to_string(i32::MAX), "2147483647");
}

#[test]
fn test_char_to_string() {
    assert_eq!(char_to_string('A'), "A");
    assert_eq!(char_to_string(' '), " ");
    assert_eq!(char_to_string('~'), "~");
    assert_eq!(char_to_string('0'), "0");
}
