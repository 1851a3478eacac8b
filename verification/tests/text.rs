use gaslighter::text::{
    decimal_text, exact_value, gas_text, hex_text, list_text, prefixed_hex_text, same_bytes,
    same_text, small_value,
};

#[test]
fn decimal_numerals() {
    assert_eq!(decimal_text(0), "0");
    assert_eq!(decimal_text(7), "7");
    assert_eq!(decimal_text(10), "10");
    assert_eq!(decimal_text(109), "109");
    assert_eq!(decimal_text(12345), "12345");
    assert_eq!(decimal_text(u64::MAX), "18446744073709551615");
}

#[test]
fn decimal_agrees_with_std() {
    for n in [0u64, 1, 9, 10, 11, 99, 100, 101, 65535, 4294967296, u64::MAX - 1] {
        assert_eq!(decimal_text(n), format!("{}", n));
    }
}

#[test]
fn hexadecimal_numerals() {
    assert_eq!(hex_text(&vec![]), "");
    assert_eq!(hex_text(&vec![0]), "");
    assert_eq!(hex_text(&vec![0, 0, 0]), "");
    assert_eq!(hex_text(&vec![0x0a]), "a");
    assert_eq!(hex_text(&vec![0, 0x0a]), "a");
    assert_eq!(hex_text(&vec![0x10]), "10");
    assert_eq!(hex_text(&vec![0x01, 0x00]), "100");
    assert_eq!(hex_text(&vec![0xde, 0xad, 0xbe, 0xef]), "deadbeef");
    assert_eq!(hex_text(&vec![0x00, 0x0d, 0x00, 0x0f]), "d000f");
    assert_eq!(hex_text(&vec![0xff; 32]), "f".repeat(64));
}

#[test]
fn hexadecimal_agrees_with_the_interpreter() {
    for bytes in [
        vec![],
        vec![0u8; 32],
        vec![1],
        vec![0, 0x10, 0],
        vec![0x12, 0x34, 0x56, 0x78, 0x9a, 0xbc, 0xde, 0xf0, 0x01],
        vec![0xff; 32],
        (1..=32).collect::<Vec<u8>>(),
    ] {
        let word = bigint::M256::from(bytes.as_slice());
        assert_eq!(hex_text(&bytes), format!("{:x}", word));
        let gas = bigint::Gas::from(bytes.as_slice());
        assert_eq!(prefixed_hex_text(&bytes), format!("0x{:x}", gas));
    }
}

#[test]
fn lists_of_bytes() {
    assert_eq!(list_text(&vec![]), "[]");
    assert_eq!(list_text(&vec![0]), "[0]");
    assert_eq!(list_text(&vec![1, 2, 255]), "[1, 2, 255]");
    for bytes in [vec![], vec![7u8], vec![0, 10, 100, 200], vec![9; 40]] {
        assert_eq!(list_text(&bytes), format!("{:?}", bytes));
    }
}

#[test]
fn values_below_the_threshold() {
    assert_eq!(small_value(&vec![]), Some(0));
    assert_eq!(small_value(&vec![0]), Some(0));
    assert_eq!(small_value(&vec![1, 0]), Some(256));
    assert_eq!(small_value(&vec![0x01, 0x86, 0xa0]), Some(100000));
    let mut bytes = vec![0xff; 8];
    assert_eq!(small_value(&bytes), None);
    bytes[7] = 0xfe;
    assert_eq!(small_value(&bytes), Some(u64::MAX - 1));
    assert_eq!(small_value(&vec![1, 0, 0, 0, 0, 0, 0, 0, 0]), None);
    assert_eq!(small_value(&vec![0xff; 32]), None);
    let mut padded = vec![0u8; 32];
    padded[31] = 5;
    assert_eq!(small_value(&padded), Some(5));
    padded[0] = 1;
    assert_eq!(small_value(&padded), None);
}

#[test]
fn gas_is_decimal_below_the_threshold() {
    assert_eq!(gas_text(&vec![]), "0");
    assert_eq!(gas_text(&vec![0x01, 0x86, 0xa0]), "100000");
    assert_eq!(gas_text(&vec![0xff, 0xff, 0xff, 0xff, 0xff, 0xff, 0xff, 0xfe]), "18446744073709551614");
    assert_eq!(gas_text(&vec![0xff; 8]), "0xffffffffffffffff");
    assert_eq!(gas_text(&vec![1, 0, 0, 0, 0, 0, 0, 0, 0]), "0x10000000000000000");
    assert_eq!(gas_text(&vec![0xff; 32]), format!("0x{}", "f".repeat(64)));
}

#[test]
fn prefixed_hexadecimal() {
    assert_eq!(prefixed_hex_text(&vec![]), "0x");
    assert_eq!(prefixed_hex_text(&vec![0x01, 0x86, 0xa0]), "0x186a0");
}

#[test]
fn byte_strings_compare_by_content() {
    assert!(same_bytes(&vec![], &vec![]));
    assert!(same_bytes(&vec![1, 2, 3], &vec![1, 2, 3]));
    assert!(!same_bytes(&vec![1, 2, 3], &vec![1, 2]));
    assert!(!same_bytes(&vec![1, 2], &vec![1, 2, 3]));
    assert!(!same_bytes(&vec![1, 2, 3], &vec![1, 2, 4]));
    assert!(!same_bytes(&vec![0], &vec![]));
}

#[test]
fn texts_compare_by_content() {
    assert!(same_text("", ""));
    assert!(same_text("step", "step"));
    assert!(!same_text("step", "steps"));
    assert!(!same_text("step", "Step"));
}

#[test]
fn values_up_to_the_greatest() {
    assert_eq!(exact_value(&vec![]), Some(0));
    assert_eq!(exact_value(&vec![0x01, 0x86, 0xa0]), Some(100000));
    assert_eq!(exact_value(&vec![0xff; 8]), Some(u64::MAX));
    assert_eq!(exact_value(&vec![0, 0, 0xff, 0xff, 0xff, 0xff, 0xff, 0xff, 0xff, 0xff]), Some(u64::MAX));
    assert_eq!(exact_value(&vec![1, 0, 0, 0, 0, 0, 0, 0, 0]), None);
    assert_eq!(exact_value(&vec![0xff; 32]), None);
}
