use vstd::prelude::*;
use vstd::string::StringExecFns;

verus! {

/// Why a byte sequence is not a signature container.
#[derive(Debug, Clone, Copy, PartialEq, Eq, Structural)]
pub enum FormatError {
    /// The input does not start with the format's magic marker.
    BadMagic,
    /// The version byte is not the one this library writes; it is carried along.
    UnsupportedVersion(u8),
    /// The hash algorithm id names no known algorithm; the raw id is carried along.
    UnknownHashAlgorithm(u8),
    /// A slot's algorithm id names no known algorithm; the raw id is carried along.
    UnknownSignatureAlgorithm(u8),
    /// The input ends before the announced content does.
    Truncated,
    /// Bytes are left over after the last announced slot.
    TrailingBytes,
}

impl FormatError {
    /// The text shown to a user for this error.
    pub open spec fn spec_message(self) -> Seq<char> {
        match self {
            FormatError::BadMagic => "not a signature container: wrong magic marker"@,
            FormatError::UnsupportedVersion(_) => "unsupported container version"@,
            FormatError::UnknownHashAlgorithm(_) => "unknown hash algorithm id"@,
            FormatError::UnknownSignatureAlgorithm(_) => "unknown signature algorithm id"@,
            FormatError::Truncated => "container is truncated"@,
            FormatError::TrailingBytes => "container is followed by trailing bytes"@,
        }
    }

    pub fn message(&self) -> (text: String)
        ensures
            text@ == self.spec_message(),
    {
        match self {
            FormatError::BadMagic => String::from_str(
                "not a signature container: wrong magic marker",
            ),
            FormatError::UnsupportedVersion(_) => String::from_str("unsupported container version"),
            FormatError::UnknownHashAlgorithm(_) => String::from_str("unknown hash algorithm id"),
            FormatError::UnknownSignatureAlgorithm(_) => String::from_str(
                "unknown signature algorithm id",
            ),
            FormatError::Truncated => String::from_str("container is truncated"),
            FormatError::TrailingBytes => String::from_str(
                "container is followed by trailing bytes",
            ),
        }
    }
}

/// Everything that can go wrong in this library.
#[derive(Debug, Clone)]
pub enum Error {
    /// Key bytes do not have the shape that the algorithm expects.
    InvalidKey(String),
    /// Signature bytes are not a well-formed encoding for the algorithm. A
    /// well-formed signature that does not match is no error.
    InvalidSignature(String),
    /// Signing was asked of a key that holds no private half.
    NoPrivateKey,
    /// A byte sequence is not a signature container.
    Format(FormatError),
    /// More slots were asked for than the one-byte slot count can announce.
    Capacity,
}

impl Error {
    /// The text shown to a user for this error.
    pub open spec fn spec_message(self) -> Seq<char> {
        match self {
            Error::InvalidKey(detail) => "invalid key: "@ + detail@,
            Error::InvalidSignature(detail) => "invalid signature: "@ + detail@,
            Error::NoPrivateKey => "keypair does not contain private key"@,
            Error::Format(inner) => "invalid container: "@ + inner.spec_message(),
            Error::Capacity => "a container holds at most 255 signatures"@,
        }
    }

    pub fn message(&self) -> (text: String)
        ensures
            text@ == self.spec_message(),
    {
        match self {
            Error::InvalidKey(detail) => String::from_str("invalid key: ").concat(detail.as_str()),
            Error::InvalidSignature(detail) => String::from_str("invalid signature: ").concat(
                detail.as_str(),
            ),
            Error::NoPrivateKey => String::from_str("keypair does not contain private key"),
            Error::Format(inner) => {
                let detail = inner.message();
                String::from_str("invalid container: ").concat(detail.as_str())
            },
            Error::Capacity => String::from_str("a container holds at most 255 signatures"),
        }
    }
}

impl From<FormatError> for Error {
    fn from(inner: FormatError) -> (e: Error) {
        Error::Format(inner)
    }
}

impl vstd::std_specs::convert::FromSpecImpl<FormatError> for Error {
    open spec fn obeys_from_spec() -> bool {
        true
    }

    open spec fn from_spec(inner: FormatError) -> Error {
        Error::Format(inner)
    }
}

} // verus!
