use font_binding::marshal::{
    c_string, c_string_array, checked_index, host_count, native_int, optional_name,
};
use font_binding::violation::Violation;

#[test]
fn c_string_appends_one_zero_byte() {
    assert_eq!(c_string("Noto Sans"), Some(b"Noto Sans\0".to_vec()));
    assert_eq!(c_string(""), Some(vec![0u8]));
}

#[test]
fn c_string_refuses_an_interior_zero_byte() {
    assert_eq!(c_string("Noto\0Sans"), None);
    assert_eq!(c_string("\0"), None);
}

#[test]
fn native_int_is_bounded_by_32_bits() {
    assert_eq!(native_int(0), Some(0));
    assert_eq!(native_int(0x7fff_ffff), Some(i32::MAX));
    assert_eq!(native_int(0x8000_0000), None);
}

#[test]
fn host_count_refuses_negative_counts() {
    assert_eq!(host_count(0), Some(0));
    assert_eq!(host_count(17), Some(17));
    assert_eq!(host_count(-1), None);
}

#[test]
fn checked_index_holds_the_index_against_the_count() {
    assert_eq!(checked_index(0, 1), Ok(0));
    assert_eq!(checked_index(2, 3), Ok(2));
    assert_eq!(checked_index(3, 3), Err(Violation::IndexOutOfBounds));
    assert_eq!(checked_index(0, 0), Err(Violation::IndexOutOfBounds));
    assert_eq!(checked_index(0, -1), Err(Violation::NegativeCount));
}

#[test]
fn c_string_keeps_the_utf8_bytes() {
    assert_eq!(c_string("é永"), Some(vec![0xc3, 0xa9, 0xe6, 0xb0, 0xb8, 0]));
}

#[test]
fn c_string_array_encodes_each_text_in_order() {
    assert_eq!(
        c_string_array(&["en-US", "", "ja"]),
        Some(vec![b"en-US\0".to_vec(), vec![0u8], b"ja\0".to_vec()])
    );
    assert_eq!(c_string_array(&[]), Some(vec![]));
}

#[test]
fn c_string_array_refuses_all_if_one_has_a_zero_byte() {
    assert_eq!(c_string_array(&["en-US", "j\0a"]), None);
    assert_eq!(c_string_array(&["\0", "ja"]), None);
}

#[test]
fn optional_name_is_none_for_the_empty_name() {
    assert_eq!(optional_name(String::new()), None);
    assert_eq!(optional_name("Bold".to_string()), Some("Bold".to_string()));
    assert_eq!(optional_name(" ".to_string()), Some(" ".to_string()));
}
