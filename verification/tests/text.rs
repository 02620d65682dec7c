use scrol::text::{append_byte_list, append_decimal};

#[test]
fn decimal_of_small_and_large_numbers() {
    for n in [0u32, 1, 9, 10, 11, 99, 100, 101, 255, 256, 1000, 65535, 1234567890, u32::MAX] {
        let mut out = String::new();
        append_decimal(&mut out, n);
        assert_eq!(out, format!("{}", n));
    }
}

#[test]
fn decimal_is_appended_to_what_is_there() {
    let mut out = String::from("v");
    append_decimal(&mut out, 407);
    assert_eq!(out, "v407");
}

#[test]
fn byte_list_of_no_bytes_is_a_pair_of_brackets() {
    let mut out = String::new();
    append_byte_list(&mut out, &[]);
    assert_eq!(out, "[]");
}

#[test]
fn byte_list_of_one_byte_has_no_separator() {
    let mut out = String::new();
    append_byte_list(&mut out, &[7]);
    assert_eq!(out, "[7]");
}

#[test]
fn byte_list_matches_the_debug_form_of_an_array() {
    let bytes = [0u8, 1, 9, 10, 99, 100, 199, 200, 255];
    let mut out = String::from("x = ");
    append_byte_list(&mut out, &bytes);
    assert_eq!(out, format!("x = {:?}", bytes));
    assert_eq!(out, "x = [0, 1, 9, 10, 99, 100, 199, 200, 255]");
}
