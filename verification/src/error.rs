use vstd::prelude::*;
use vstd::string::*;

verus! {

/// The ways in which a function of this library can fail.
#[derive(Debug, Clone, Copy, PartialEq, Eq, Structural)]
pub enum Error {
    /// The input is not a checksummed bech32 string, or not hexadecimal.
    InvalidEncoding,
    /// The address decodes, but under another network prefix.
    WrongNetwork,
    /// A canonical address must hold between 1 and 255 bytes.
    InvalidLength,
    /// The network prefix is not a valid human-readable part, or the
    /// encoded string would exceed the length the checksum covers.
    EncodingError,
    /// A code hash must hold exactly 32 bytes.
    InvalidChecksumLength,
    /// A salt must hold between 1 and 64 bytes.
    InvalidSaltLength,
    /// The broadcast response carries no transaction hash.
    MissingTxHash,
    /// The transaction carries no list of events.
    MissingEvents,
    /// No event of the transaction names the address of a new contract.
    AddressNotFound,
    /// The answer of the authorization contract is not a list of
    /// authorizations.
    MalformedAuthorizationData,
}

impl Error {
    /// The text shown for each failure.
    pub open spec fn spec_message(self) -> Seq<char> {
        match self {
            Error::InvalidEncoding => "Error decoding bech32 or hex"@,
            Error::WrongNetwork => "Wrong bech32 prefix"@,
            Error::InvalidLength => "Invalid canonical address length"@,
            Error::EncodingError => "Bech32 encoding error"@,
            Error::InvalidChecksumLength => "invalid checksum length"@,
            Error::InvalidSaltLength => "invalid salt length"@,
            Error::MissingTxHash => "Failed to extract txhash"@,
            Error::MissingEvents => "Failed to parse transaction events"@,
            Error::AddressNotFound => "Contract address not found in transaction events"@,
            Error::MalformedAuthorizationData => "Malformed authorization data"@,
        }
    }

    pub fn message(&self) -> (text: String)
        ensures
            text@ == self.spec_message(),
    {
        match self {
            Error::InvalidEncoding => String::from_str("Error decoding bech32 or hex"),
            Error::WrongNetwork => String::from_str("Wrong bech32 prefix"),
            Error::InvalidLength => String::from_str("Invalid canonical address length"),
            Error::EncodingError => String::from_str("Bech32 encoding error"),
            Error::InvalidChecksumLength => String::from_str("invalid checksum length"),
            Error::InvalidSaltLength => String::from_str("invalid salt length"),
            Error::MissingTxHash => String::from_str("Failed to extract txhash"),
            Error::MissingEvents => String::from_str("Failed to parse transaction events"),
            Error::AddressNotFound => String::from_str(
                "Contract address not found in transaction events",
            ),
            Error::MalformedAuthorizationData => String::from_str("Malformed authorization data"),
        }
    }
}

} // verus!
