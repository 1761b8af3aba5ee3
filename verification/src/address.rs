use crate::error::Error;
use crate::text::{
    eq_ignoring_ascii_case, hex_bytes, hex_number_text, is_hex, lemma_hex_number_digits,
    str_eq_ignore_ascii_case, u64_to_hex,
};
use vstd::prelude::*;
use vstd::string::*;

verus! {

/// The human-readable part under which every address of the chain is written.
pub open spec fn network_prefix() -> Seq<char> {
    "neutron"@
}

/// A canonical address holds between 1 and 255 bytes.
pub open spec fn valid_length(len: nat) -> bool {
    1 <= len <= 255
}

/// What decoding a bech32 string gives: the human-readable part, in the case
/// in which it was written, and the bytes of the data part; `None` when the
/// string is malformed or its checksum does not hold.
pub uninterp spec fn bech32_decoding(text: Seq<char>) -> Option<(Seq<char>, Seq<u8>)>;

/// The bech32 string that stands for `data` under the human-readable part `hrp`.
pub uninterp spec fn bech32_encoding(hrp: Seq<char>, data: Seq<u8>) -> Seq<char>;

/// The characters of a parsed human-readable part.
pub uninterp spec fn hrp_text(hrp: bech32::Hrp) -> Seq<char>;

/// The address that the chain gives to a contract instantiated from the code
/// with this checksum, by this creator, under this salt.
pub uninterp spec fn instantiate2_address_bytes(
    checksum: Seq<u8>,
    creator: Seq<u8>,
    salt: Seq<u8>,
) -> Seq<u8>;

/// A capital letter of ASCII.
pub open spec fn is_ascii_upper(c: char) -> bool {
    'A' as u32 <= c as u32 && c as u32 <= 'Z' as u32
}

/// A small letter of ASCII.
pub open spec fn is_ascii_lower(c: char) -> bool {
    'a' as u32 <= c as u32 && c as u32 <= 'z' as u32
}

/// A text without capital letters.
pub open spec fn no_capitals(text: Seq<char>) -> bool {
    forall|i: int| 0 <= i < text.len() ==> !is_ascii_upper(#[trigger] text[i])
}

/// A human-readable part holds 1 to 83 printable ASCII characters and does
/// not mix capital and small letters.
pub open spec fn valid_hrp(text: Seq<char>) -> bool {
    &&& 1 <= text.len() <= 83
    &&& forall|i: int| 0 <= i < text.len() ==> 33 <= #[trigger] text[i] as u32 <= 126
    &&& !((exists|i: int| 0 <= i < text.len() && is_ascii_upper(#[trigger] text[i]))
        && (exists|j: int| 0 <= j < text.len() && is_ascii_lower(#[trigger] text[j])))
}

/// The length of the bech32 string for `data_len` bytes under a
/// human-readable part of `hrp_len` characters: the part, the separator,
/// one character for every five bits, and six characters of checksum.
pub open spec fn bech32_encoded_len(hrp_len: nat, data_len: nat) -> nat {
    hrp_len + 1 + (data_len * 8 + 4) / 5 + 6
}

/// Declares `bech32::Hrp`, a parsed human-readable part.
#[verifier::external_type_specification]
#[verifier::external_body]
pub struct ExHrp(bech32::Hrp);

/// Wraps `bech32::primitives::decode::CheckedHrpstring::new` with the
/// `Bech32` checksum, and hands out the human-readable part and the data
/// bytes of what it parsed. The result is the decoding of `input`.
#[verifier::external_body]
fn bech32_decode(input: &str) -> (res: Option<(String, Vec<u8>)>)
    ensures
        match res {
            Some((hrp, data)) => bech32_decoding(input@) == Some((hrp@, data@)),
            None => bech32_decoding(input@) is None,
        },
{
    match bech32::primitives::decode::CheckedHrpstring::new::<bech32::Bech32>(input) {
        Ok(parsed) => Some((parsed.hrp().as_str().to_string(), parsed.byte_iter().collect())),
        Err(_) => None,
    }
}

/// Wraps `bech32::Hrp::parse`, which accepts exactly the valid
/// human-readable parts and keeps their characters as they are.
#[verifier::external_body]
fn parse_hrp(prefix: &str) -> (res: Option<bech32::Hrp>)
    ensures
        res is Some <==> valid_hrp(prefix@),
        res matches Some(hrp) ==> hrp_text(hrp) == prefix@,
{
    match bech32::Hrp::parse(prefix) {
        Ok(hrp) => Some(hrp),
        Err(_) => None,
    }
}

/// Wraps `bech32::encode` with the `Bech32` checksum. It fails only when
/// the encoded string would be longer than the 1023 characters that the
/// checksum covers. A string that it gives, under a human-readable part
/// without capital letters, decodes to that part and to `data`.
#[verifier::external_body]
fn bech32_encode(hrp: bech32::Hrp, data: &[u8]) -> (res: Option<String>)
    ensures
        res is Some <==> bech32_encoded_len(hrp_text(hrp).len(), data@.len()) <= 1023,
        res matches Some(text) ==> {
            &&& text@ == bech32_encoding(hrp_text(hrp), data@)
            &&& no_capitals(hrp_text(hrp)) ==> bech32_decoding(text@) == Some(
                (hrp_text(hrp), data@),
            )
        },
{
    match bech32::encode::<bech32::Bech32>(hrp, data) {
        Ok(text) => Some(text),
        Err(_) => None,
    }
}

/// Wraps `cosmwasm_std::HexBinary::from_hex`, which reads two hexadecimal
/// digits of either case for each byte and fails on an odd number of
/// digits or on any other character.
#[verifier::external_body]
fn hex_decode(text: &str) -> (res: Option<Vec<u8>>)
    ensures
        res is Some <==> is_hex(text@),
        res matches Some(bytes) ==> bytes@ == hex_bytes(text@),
{
    match cosmwasm_std::HexBinary::from_hex(text) {
        Ok(bytes) => Some(bytes.to_vec()),
        Err(_) => None,
    }
}

/// Wraps `cosmwasm_std::instantiate2_address`. It refuses a checksum that
/// does not hold 32 bytes, then a salt that does not hold 1 to 64 bytes;
/// otherwise it gives the 32 bytes of the derived address.
#[verifier::external_body]
fn derive_instantiate2(checksum: &[u8], creator: &[u8], salt: &[u8]) -> (res: Result<
    Vec<u8>,
    Error,
>)
    ensures
        match res {
            Ok(address) => {
                &&& checksum@.len() == 32
                &&& 1 <= salt@.len() <= 64
                &&& address@ == instantiate2_address_bytes(checksum@, creator@, salt@)
                &&& address@.len() == 32
            },
            Err(e) => if checksum@.len() != 32 {
                e == Error::InvalidChecksumLength
            } else {
                e == Error::InvalidSaltLength && !(1 <= salt@.len() <= 64)
            },
        },
{
    let creator = cosmwasm_std::CanonicalAddr::from(creator);
    match cosmwasm_std::instantiate2_address(checksum, &creator, salt) {
        Ok(address) => Ok(address.to_vec()),
        Err(cosmwasm_std::Instantiate2AddressError::InvalidChecksumLength) => Err(
            Error::InvalidChecksumLength,
        ),
        Err(cosmwasm_std::Instantiate2AddressError::InvalidSaltLength) => Err(
            Error::InvalidSaltLength,
        ),
    }
}

/// What a decoded address is taken for on this network: its data, where
/// its human-readable part is the network's, in either case, and the
/// data has the length of a canonical address.
pub open spec fn accepted_payload(hrp: Seq<char>, data: Seq<u8>) -> Result<Seq<u8>, Error> {
    if !eq_ignoring_ascii_case(hrp, network_prefix()) {
        Err(Error::WrongNetwork)
    } else if !valid_length(data.len()) {
        Err(Error::InvalidLength)
    } else {
        Ok(data)
    }
}

/// The canonical bytes that an address string stands for on this network.
pub open spec fn canonical_form(text: Seq<char>) -> Result<Seq<u8>, Error> {
    match bech32_decoding(text) {
        None => Err(Error::InvalidEncoding),
        Some((hrp, data)) => accepted_payload(hrp, data),
    }
}

/// The address string of a contract before it exists.
pub open spec fn predicted_address(creator: Seq<char>, salt: Seq<char>, code_hash: Seq<char>)
    -> Result<Seq<char>, Error> {
    match canonical_form(creator) {
        Err(e) => Err(e),
        Ok(creator_bytes) => if !is_hex(code_hash) || !is_hex(salt) {
            Err(Error::InvalidEncoding)
        } else if hex_bytes(code_hash).len() != 32 {
            Err(Error::InvalidChecksumLength)
        } else if !(1 <= hex_bytes(salt).len() <= 64) {
            Err(Error::InvalidSaltLength)
        } else {
            Ok(
                bech32_encoding(
                    network_prefix(),
                    instantiate2_address_bytes(
                        hex_bytes(code_hash),
                        creator_bytes,
                        hex_bytes(salt),
                    ),
                ),
            )
        },
    }
}

proof fn network_prefix_is_valid()
    ensures
        valid_hrp(network_prefix()),
        network_prefix().len() == 7,
        no_capitals(network_prefix()),
{
    reveal_strlit("neutron");
    let p = network_prefix();
    assert(p.len() == 7);
    assert(p[0] == 'n' && p[1] == 'e' && p[2] == 'u' && p[3] == 't' && p[4] == 'r' && p[5] == 'o'
        && p[6] == 'n');
    assert(forall|i: int| 0 <= i < p.len() ==> is_ascii_lower(#[trigger] p[i]));
}

/// Checks the number of bytes of a canonical address.
pub fn validate_length(bytes: &[u8]) -> (res: Result<(), Error>)
    ensures
        res is Ok <==> valid_length(bytes@.len()),
        res matches Err(e) ==> e == Error::InvalidLength,
{
    if 1 <= bytes.len() && bytes.len() <= 255 {
        Ok(())
    } else {
        Err(Error::InvalidLength)
    }
}

/// Checks what an address string decoded to: the human-readable part
/// must be the network's, in either case, and the data must have the
/// length of a canonical address.
pub fn accept_payload(hrp: &str, data: Vec<u8>) -> (res: Result<Vec<u8>, Error>)
    ensures
        match res {
            Ok(bytes) => accepted_payload(hrp@, data@) == Ok::<Seq<u8>, Error>(bytes@),
            Err(e) => accepted_payload(hrp@, data@) == Err::<Seq<u8>, Error>(e),
        },
{
    if !str_eq_ignore_ascii_case(hrp, "neutron") {
        return Err(Error::WrongNetwork);
    }
    match validate_length(data.as_slice()) {
        Err(e) => Err(e),
        Ok(()) => Ok(data),
    }
}

/// Turns an address string into its canonical bytes.
pub fn addr_canonicalize(input: &str) -> (res: Result<Vec<u8>, Error>)
    ensures
        match res {
            Ok(bytes) => canonical_form(input@) == Ok::<Seq<u8>, Error>(bytes@),
            Err(e) => canonical_form(input@) == Err::<Seq<u8>, Error>(e),
        },
{
    match bech32_decode(input) {
        None => Err(Error::InvalidEncoding),
        Some((hrp, data)) => accept_payload(hrp.as_str(), data),
    }
}

/// Turns canonical bytes into the address string of this network. The
/// string reads back as the same bytes.
pub fn addr_humanize(canonical: &[u8]) -> (res: Result<String, Error>)
    ensures
        res is Ok <==> valid_length(canonical@.len()),
        res matches Err(e) ==> e == Error::InvalidLength,
        res matches Ok(text) ==> {
            &&& text@ == bech32_encoding(network_prefix(), canonical@)
            &&& canonical_form(text@) == Ok::<Seq<u8>, Error>(canonical@)
        },
{
    match validate_length(canonical) {
        Err(e) => { return Err(e); },
        Ok(()) => {},
    }
    proof {
        network_prefix_is_valid();
    }
    let prefix = match parse_hrp("neutron") {
        Some(prefix) => prefix,
        None => { return Err(Error::EncodingError); },
    };
    match bech32_encode(prefix, canonical) {
        Some(text) => Ok(text),
        None => Err(Error::EncodingError),
    }
}

/// Computes the address that a contract will get when `creator`
/// instantiates the code with hash `code_hash` under `salt`; the hash and
/// the salt are written in hexadecimal. The result depends on the three
/// arguments alone.
pub fn predict_contract_address(creator: &str, salt: &str, code_hash: &str) -> (res: Result<
    String,
    Error,
>)
    ensures
        match res {
            Ok(text) => predicted_address(creator@, salt@, code_hash@) == Ok::<Seq<char>, Error>(
                text@,
            ),
            Err(e) => predicted_address(creator@, salt@, code_hash@) == Err::<Seq<char>, Error>(e),
        },
{
    let creator_canonical = match addr_canonicalize(creator) {
        Ok(bytes) => bytes,
        Err(e) => { return Err(e); },
    };
    let code_hash_bytes = match hex_decode(code_hash) {
        Some(bytes) => bytes,
        None => { return Err(Error::InvalidEncoding); },
    };
    let salt_bytes = match hex_decode(salt) {
        Some(bytes) => bytes,
        None => { return Err(Error::InvalidEncoding); },
    };
    let predicted = match derive_instantiate2(
        code_hash_bytes.as_slice(),
        creator_canonical.as_slice(),
        salt_bytes.as_slice(),
    ) {
        Ok(bytes) => bytes,
        Err(e) => { return Err(e); },
    };
    addr_humanize(predicted.as_slice())
}

/// The number that a signed 64-bit number is read as when its bits are
/// taken as unsigned.
pub open spec fn as_unsigned(n: int) -> nat {
    if n >= 0 {
        n as nat
    } else {
        (n + 0x1_0000_0000_0000_0000) as nat
    }
}

/// The salt for a point in time: the seconds since the epoch in
/// hexadecimal, without leading zeros.
pub open spec fn salt_text(timestamp: int) -> Seq<char> {
    hex_number_text(as_unsigned(timestamp))
}

/// Gives the salt for a point in time. From 1978 to 2106 it has eight
/// digits, and so spells four bytes.
pub fn generate_salt(timestamp: i64) -> (salt: String)
    ensures
        salt@ == salt_text(timestamp as int),
        0x1000_0000 <= timestamp < 0x1_0000_0000 ==> is_hex(salt@) && hex_bytes(salt@).len() == 4,
{
    let bits: u64 = if timestamp >= 0 {
        timestamp as u64
    } else {
        (timestamp - i64::MIN) as u64 + 0x8000_0000_0000_0000u64
    };
    proof {
        lemma_hex_number_digits(bits as nat);
        if 0x1000_0000 <= timestamp < 0x1_0000_0000 {
            reveal_with_fuel(hex_number_text, 9);
            assert(hex_number_text(bits as nat).len() == 8);
        }
    }
    u64_to_hex(bits)
}

} // verus!
