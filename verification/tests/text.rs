use liquidity_deployment_tool::address::{generate_salt, predict_contract_address};
use liquidity_deployment_tool::text::{str_eq_ignore_ascii_case, to_hex, u64_to_hex, u64_to_string};
use liquidity_deployment_tool::wasm::get_code_hash;

#[test]
fn numbers_in_decimal() {
    assert_eq!(u64_to_string(0), "0");
    assert_eq!(u64_to_string(7), "7");
    assert_eq!(u64_to_string(10), "10");
    assert_eq!(u64_to_string(1234567890), "1234567890");
    assert_eq!(u64_to_string(u64::MAX), "18446744073709551615");
}

#[test]
fn numbers_in_hexadecimal() {
    assert_eq!(u64_to_hex(0), "0");
    assert_eq!(u64_to_hex(15), "f");
    assert_eq!(u64_to_hex(16), "10");
    assert_eq!(u64_to_hex(0xdead_beef), "deadbeef");
    assert_eq!(u64_to_hex(u64::MAX), "ffffffffffffffff");
}

#[test]
fn bytes_in_hexadecimal() {
    assert_eq!(to_hex(&[]), "");
    assert_eq!(to_hex(&[0]), "00");
    assert_eq!(to_hex(&[0x0f, 0xf0, 0xa9, 0x10, 0xff]), "0ff0a910ff");
}

#[test]
fn comparison_without_regard_to_case() {
    assert!(str_eq_ignore_ascii_case("neutron", "NEUTRON"));
    assert!(str_eq_ignore_ascii_case("NeUtRoN", "neutron"));
    assert!(str_eq_ignore_ascii_case("", ""));
    assert!(str_eq_ignore_ascii_case("a1[", "A1["));
    assert!(!str_eq_ignore_ascii_case("neutron", "neutro"));
    assert!(!str_eq_ignore_ascii_case("neutron", "neutrom"));
    assert!(!str_eq_ignore_ascii_case("@", "`"));
    assert!(!str_eq_ignore_ascii_case("[", "{"));
    assert!(!str_eq_ignore_ascii_case("é", "É"));
    assert!(str_eq_ignore_ascii_case("é", "é"));
}

#[test]
fn the_salt_is_the_time_in_hexadecimal() {
    assert_eq!(generate_salt(0), "0");
    assert_eq!(generate_salt(1_700_000_000), "6553f100");
    assert_eq!(generate_salt(0x1000_0000), "10000000");
    assert_eq!(generate_salt(0xffff_ffff), "ffffffff");
    assert_eq!(generate_salt(i64::MAX), "7fffffffffffffff");
    assert_eq!(generate_salt(-1), "ffffffffffffffff");
    assert_eq!(generate_salt(i64::MIN), "8000000000000000");
    assert_eq!(generate_salt(-255), format!("{:x}", -255i64));
}

#[test]
fn a_salt_of_today_and_a_code_hash_predict_an_address() {
    let salt = generate_salt(1_700_000_000);
    let code_hash = get_code_hash(b"some code");
    let predicted = predict_contract_address(
        "neutron1nxvenxve42424242hwamhwamenxvenxva7za3j",
        &salt,
        &code_hash,
    );
    let address = predicted.unwrap();
    assert!(address.starts_with("neutron1"));
    assert_eq!(address.len(), "neutron1".len() + 52 + 6);
}
