use mir_json::json::{json_kind, json_str, put};
use mir_json::constant::{read_static_memory, sign_extend};
use mir_json::text::{dec_i128, dec_u128, push_dec, push_hex};

#[test]
fn hexadecimal_digits_are_padded_to_the_width() {
    let mut s = String::from("x");
    push_hex(&mut s, 0xab, 4);
    assert_eq!(s, "x00ab");
    let mut t = String::new();
    push_hex(&mut t, u64::MAX, 16);
    assert_eq!(t, "ffffffffffffffff");
    let mut u = String::new();
    push_hex(&mut u, 0x1234_5678_9abc_def0, 16);
    assert_eq!(u, format!("{:016x}", 0x1234_5678_9abc_def0u64));
    let mut v = String::new();
    push_hex(&mut v, 0x1234, 2);
    assert_eq!(v, "34");
    let mut w = String::new();
    push_hex(&mut w, 7, 0);
    assert_eq!(w, "");
}

#[test]
fn decimal_text_of_unsigned_numbers() {
    assert_eq!(dec_u128(0), "0");
    assert_eq!(dec_u128(9), "9");
    assert_eq!(dec_u128(10), "10");
    assert_eq!(dec_u128(255), "255");
    assert_eq!(dec_u128(u128::MAX), u128::MAX.to_string());
    let mut s = String::from("n=");
    push_dec(&mut s, 1203);
    assert_eq!(s, "n=1203");
}

#[test]
fn decimal_text_of_signed_numbers() {
    assert_eq!(dec_i128(0), "0");
    assert_eq!(dec_i128(-1), "-1");
    assert_eq!(dec_i128(42), "42");
    assert_eq!(dec_i128(i128::MIN), i128::MIN.to_string());
    assert_eq!(dec_i128(i128::MAX), i128::MAX.to_string());
    assert_eq!(dec_i128(-1000), "-1000");
}

#[test]
fn sign_extension_reads_the_low_bytes_in_twos_complement() {
    assert_eq!(sign_extend(1, 0xff), -1);
    assert_eq!(sign_extend(1, 0x7f), 127);
    assert_eq!(sign_extend(1, 0x80), -128);
    assert_eq!(sign_extend(2, 0xffff), -1);
    assert_eq!(sign_extend(2, 0x8000), -32768);
    assert_eq!(sign_extend(4, 0xffff_fffe), -2);
    assert_eq!(sign_extend(8, 0x8000_0000_0000_0000), i64::MIN as i128);
    assert_eq!(sign_extend(15, 1u128 << 119), -(1i128 << 119));
    assert_eq!(sign_extend(15, (1u128 << 119) - 1), (1i128 << 119) - 1);
}

#[test]
fn sign_extension_of_the_full_width_is_a_reinterpretation() {
    assert_eq!(sign_extend(16, u128::MAX), -1);
    assert_eq!(sign_extend(16, 1u128 << 127), i128::MIN);
    assert_eq!(sign_extend(16, 5), 5);
    assert_eq!(sign_extend(0, 0xff), 0xff);
    assert_eq!(sign_extend(0, u128::MAX), -1);
    assert_eq!(sign_extend(200, 0x80), 0x80);
}

#[test]
fn static_memory_is_read_by_range() {
    let bytes = vec![10u8, 20, 30, 40];
    assert_eq!(read_static_memory(&bytes, 0, 1, 3), vec![20, 30]);
    assert_eq!(read_static_memory(&bytes, 0, 0, 4), bytes);
    assert_eq!(read_static_memory(&bytes, 0, 2, 2), Vec::<u8>::new());
}

#[test]
fn json_values_hold_what_they_were_made_from() {
    assert_eq!(json_str("abc"), serde_json::Value::String("abc".to_string()));
    assert_eq!(json_kind("Bool"), serde_json::from_str::<serde_json::Value>(r#"{"kind":"Bool"}"#).unwrap());
    let mut m = serde_json::Map::new();
    put(&mut m, "a", json_str("x"));
    put(&mut m, "b", json_str("y"));
    put(&mut m, "a", json_str("z"));
    let expected: serde_json::Value = serde_json::from_str(r#"{"a":"z","b":"y"}"#).unwrap();
    assert_eq!(serde_json::Value::Object(m), expected);
}
