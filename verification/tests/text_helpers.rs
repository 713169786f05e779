use versioned_store::text::{append_decimal, split_name};

fn numeral(n: u64) -> String {
    let mut out = String::new();
    append_decimal(&mut out, n);
    out
}

#[test]
fn decimal_of_small_and_large_numbers() {
    assert_eq!(numeral(0), "0");
    assert_eq!(numeral(7), "7");
    assert_eq!(numeral(10), "10");
    assert_eq!(numeral(109), "109");
    assert_eq!(numeral(1234567890), "1234567890");
    assert_eq!(numeral(u64::MAX), "18446744073709551615");
}

#[test]
fn decimal_is_appended_behind_what_is_there() {
    let mut out = "n=".to_string();
    append_decimal(&mut out, 42);
    assert_eq!(out, "n=42");
}

#[test]
fn decimal_agrees_with_display() {
    for n in [0u64, 1, 9, 10, 11, 99, 100, 101, 189, 190, 379, 999_999, u64::MAX - 1] {
        assert_eq!(numeral(n), n.to_string());
    }
}

#[test]
fn split_name_at_the_first_space() {
    assert_eq!(split_name("Ada Lovelace"), ("Ada".to_string(), "Lovelace".to_string()));
}

#[test]
fn split_name_without_a_space() {
    assert_eq!(split_name("Ada"), ("Ada".to_string(), "".to_string()));
    assert_eq!(split_name(""), ("".to_string(), "".to_string()));
}

#[test]
fn split_name_with_more_spaces() {
    assert_eq!(split_name("Augusta Ada King"), ("Augusta".to_string(), "Ada King".to_string()));
    assert_eq!(split_name(" Ada"), ("".to_string(), "Ada".to_string()));
    assert_eq!(split_name("Ada "), ("Ada".to_string(), "".to_string()));
    assert_eq!(split_name("Ada  Lovelace"), ("Ada".to_string(), " Lovelace".to_string()));
}

#[test]
fn split_name_counts_characters_not_bytes() {
    assert_eq!(split_name("Zoë Müller"), ("Zoë".to_string(), "Müller".to_string()));
    assert_eq!(split_name("名 字"), ("名".to_string(), "字".to_string()));
}
