use liquidity_deployment_tool::address::{
    accept_payload, addr_canonicalize, addr_humanize, predict_contract_address, validate_length,
};
use liquidity_deployment_tool::error::Error;

const CREATOR_HEX: [u8; 20] = [
    0x99, 0x99, 0x99, 0x99, 0x99, 0xaa, 0xaa, 0xaa, 0xaa, 0xaa, 0xbb, 0xbb, 0xbb, 0xbb, 0xbb, 0xcc,
    0xcc, 0xcc, 0xcc, 0xcc,
];
const CREATOR: &str = "neutron1nxvenxve42424242hwamhwamenxvenxva7za3j";
const CODE_HASH: &str = "13a1fc994cc6d1c81b746ee0c0ff6f90043875e0bf1d9be6b7d779fc978dc2a5";

#[test]
fn canonicalize_reads_the_data_bytes() {
    assert_eq!(addr_canonicalize(CREATOR), Ok(CREATOR_HEX.to_vec()));
}

#[test]
fn canonicalize_accepts_an_all_capitals_address() {
    assert_eq!(
        addr_canonicalize("NEUTRON1NXVENXVE42424242HWAMHWAMENXVENXVA7ZA3J"),
        Ok(CREATOR_HEX.to_vec())
    );
}

#[test]
fn canonicalize_rejects_a_foreign_prefix() {
    assert_eq!(
        addr_canonicalize("cosmos1nxvenxve42424242hwamhwamenxvenxveptlt4"),
        Err(Error::WrongNetwork)
    );
}

#[test]
fn canonicalize_rejects_a_broken_checksum() {
    assert_eq!(
        addr_canonicalize("neutron1nxvenxve42424242hwamhwamenxvenxva7za3k"),
        Err(Error::InvalidEncoding)
    );
    assert_eq!(addr_canonicalize(""), Err(Error::InvalidEncoding));
    assert_eq!(addr_canonicalize("neutron"), Err(Error::InvalidEncoding));
}

#[test]
fn canonicalize_rejects_the_other_checksum_variant() {
    assert_eq!(
        addr_canonicalize("neutron1nxvenxve42424242hwamhwamenxvenxvgzj35s"),
        Err(Error::InvalidEncoding)
    );
}

#[test]
fn canonicalize_rejects_an_empty_payload() {
    assert_eq!(addr_canonicalize("neutron17q8z90"), Err(Error::InvalidLength));
}

#[test]
fn humanize_writes_the_network_prefix() {
    assert_eq!(addr_humanize(&CREATOR_HEX), Ok(CREATOR.to_string()));
    assert_eq!(addr_humanize(&[7]), Ok("neutron1qud29rfr".to_string()));
}

#[test]
fn humanize_rejects_bad_lengths() {
    assert_eq!(addr_humanize(&[]), Err(Error::InvalidLength));
    let too_long: Vec<u8> = (0..=255).collect();
    assert_eq!(too_long.len(), 256);
    assert_eq!(addr_humanize(&too_long), Err(Error::InvalidLength));
}

#[test]
fn canonicalize_rejects_an_overlong_payload() {
    let too_long: Vec<u8> = (0..=255).collect();
    let text = "neutron1qqqsyqcyq5rqwzqfpg9scrgwpugpzysnzs23v9ccrydpk8qarc0jqgfzyvjz2f389q5j52ev95hz7vp3xgengdfkxuurjw3m8s7nu06qg9pyx3z9ger5sj22fdxy6nj02pg4y56524t9wkzetfd4ch27tasxzcnrv3jkvemgd94xkmrddehhqutjwd682anh0puh57mu04l8lqyps2pcfpvxs7ygnz5t3jxcarusjxff89y4j6te3xv6nwwfm85l5zs69gay5kn2029f4246etdw47ctrv4nkj6mddachxath09ah6lupswzc0zvt3k8eryu4j7veh8vl5x36tfaf4wk6lvdnkkmmnwaahlqu83w8e89umn73602a0kwmmh07rcl9ul57hm0078eltalel07lu40kyya";
    assert_eq!(addr_canonicalize(text), Err(Error::InvalidLength));
    assert_eq!(validate_length(&too_long), Err(Error::InvalidLength));
}

#[test]
fn round_trip_at_both_ends_of_the_length_range() {
    let one: Vec<u8> = vec![0xff];
    let text = addr_humanize(&one).unwrap();
    assert_eq!(addr_canonicalize(&text), Ok(one));
    let longest: Vec<u8> = (0..255).collect();
    assert_eq!(longest.len(), 255);
    let text = addr_humanize(&longest).unwrap();
    assert_eq!(
        text,
        "neutron1qqqsyqcyq5rqwzqfpg9scrgwpugpzysnzs23v9ccrydpk8qarc0jqgfzyvjz2f389q5j52ev95hz7vp3xgengdfkxuurjw3m8s7nu06qg9pyx3z9ger5sj22fdxy6nj02pg4y56524t9wkzetfd4ch27tasxzcnrv3jkvemgd94xkmrddehhqutjwd682anh0puh57mu04l8lqyps2pcfpvxs7ygnz5t3jxcarusjxff89y4j6te3xv6nwwfm85l5zs69gay5kn2029f4246etdw47ctrv4nkj6mddachxath09ah6lupswzc0zvt3k8eryu4j7veh8vl5x36tfaf4wk6lvdnkkmmnwaahlqu83w8e89umn73602a0kwmmh07rcl9ul57hm0078eltalel077c4cme"
    );
    assert_eq!(addr_canonicalize(&text), Ok(longest));
}

#[test]
fn validate_length_accepts_one_to_255_bytes() {
    assert_eq!(validate_length(&[]), Err(Error::InvalidLength));
    assert_eq!(validate_length(&[0]), Ok(()));
    assert_eq!(validate_length(&[0; 255]), Ok(()));
    assert_eq!(validate_length(&[0; 256]), Err(Error::InvalidLength));
}

#[test]
fn predict_gives_the_derived_address() {
    assert_eq!(
        predict_contract_address(CREATOR, "61", CODE_HASH),
        Ok("neutron1t6r960j945lfv8mhl4mage2rg97w63xeynwrupum2s2l7em4lprs2cepsd".to_string())
    );
    let long_salt = "aabbccddeeffffeeddbbccddaa66551155aaaabbcc787878789900aabbccddeeffffeeddbbccddaa66551155aaaabbcc787878789900aabbbbcc221100acadae";
    assert_eq!(
        predict_contract_address(CREATOR, long_salt, CODE_HASH),
        Ok("neutron1jwzvvfyvpwchrccxl476pxf7c83qawsqv3f2820q0zyrav6eg4jqzcqt0r".to_string())
    );
}

#[test]
fn predict_reads_hex_of_either_case() {
    assert_eq!(
        predict_contract_address(
            CREATOR,
            "61",
            "13A1FC994CC6D1C81B746EE0C0FF6F90043875E0BF1D9BE6B7D779FC978DC2A5"
        ),
        Ok("neutron1t6r960j945lfv8mhl4mage2rg97w63xeynwrupum2s2l7em4lprs2cepsd".to_string())
    );
}

#[test]
fn predict_is_repeatable() {
    let first = predict_contract_address(CREATOR, "6553f100", CODE_HASH);
    let second = predict_contract_address(CREATOR, "6553f100", CODE_HASH);
    assert!(first.is_ok());
    assert_eq!(first, second);
}

#[test]
fn predict_rejects_malformed_hex() {
    assert_eq!(predict_contract_address(CREATOR, "6", CODE_HASH), Err(Error::InvalidEncoding));
    assert_eq!(predict_contract_address(CREATOR, "zz", CODE_HASH), Err(Error::InvalidEncoding));
    assert_eq!(predict_contract_address(CREATOR, "61", "0x13"), Err(Error::InvalidEncoding));
    assert_eq!(predict_contract_address(CREATOR, "61", "13a"), Err(Error::InvalidEncoding));
}

#[test]
fn predict_rejects_bad_hash_and_salt_lengths() {
    assert_eq!(
        predict_contract_address(CREATOR, "61", "13a1fc"),
        Err(Error::InvalidChecksumLength)
    );
    assert_eq!(predict_contract_address(CREATOR, "", CODE_HASH), Err(Error::InvalidSaltLength));
    let salt_65 = "11".repeat(65);
    assert_eq!(
        predict_contract_address(CREATOR, &salt_65, CODE_HASH),
        Err(Error::InvalidSaltLength)
    );
    assert_eq!(
        predict_contract_address(CREATOR, "", "13a1fc"),
        Err(Error::InvalidChecksumLength)
    );
}

#[test]
fn predict_passes_on_a_failure_of_the_creator_address() {
    assert_eq!(
        predict_contract_address("cosmos1nxvenxve42424242hwamhwamenxvenxveptlt4", "61", CODE_HASH),
        Err(Error::WrongNetwork)
    );
    assert_eq!(
        predict_contract_address("not an address", "zz", CODE_HASH),
        Err(Error::InvalidEncoding)
    );
}

#[test]
fn a_payload_is_accepted_under_the_network_prefix_in_either_case() {
    assert_eq!(accept_payload("neutron", vec![1, 2, 3]), Ok(vec![1, 2, 3]));
    assert_eq!(accept_payload("NEUTRON", vec![1]), Ok(vec![1]));
    assert_eq!(accept_payload("Neutron", vec![0; 255]), Ok(vec![0; 255]));
    assert_eq!(accept_payload("neutro", vec![1]), Err(Error::WrongNetwork));
    assert_eq!(accept_payload("neutron1", vec![1]), Err(Error::WrongNetwork));
    assert_eq!(accept_payload("", vec![1]), Err(Error::WrongNetwork));
    assert_eq!(accept_payload("cosmos", vec![]), Err(Error::WrongNetwork));
    assert_eq!(accept_payload("neutron", vec![]), Err(Error::InvalidLength));
    assert_eq!(accept_payload("neutron", vec![0; 256]), Err(Error::InvalidLength));
}
