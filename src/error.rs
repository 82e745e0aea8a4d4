//! Why building an acceptor failed.

use vstd::prelude::*;

verus! {

/// The kind of a failure, for callers that branch on it.
#[derive(Clone, Copy, Debug, PartialEq, Eq, Structural)]
pub enum TlsErrorKind {
    Io,
    PemParse,
    NoKeyData,
    UnsupportedKeyKind,
    TlsConfig,
}

/// A failure to build an acceptor, with its cause where there is one.
#[derive(Debug)]
pub enum TlsError {
    /// A file could not be opened or read.
    IoError(std::io::Error),
    /// A PEM section of the certificate input is malformed.
    PemParseError(std::io::Error),
    /// No PEM section can be read from the key input: it holds none, or the
    /// first one is malformed.
    NoKeyDataError,
    /// The first section of the key input is not a private key.
    UnsupportedKeyKindError,
    /// The TLS engine refused the certificate chain and key.
    TlsConfigError(tokio_rustls::rustls::Error),
}

impl TlsError {
    pub open spec fn spec_kind(&self) -> TlsErrorKind {
        match self {
            TlsError::IoError(_) => TlsErrorKind::Io,
            TlsError::PemParseError(_) => TlsErrorKind::PemParse,
            TlsError::NoKeyDataError => TlsErrorKind::NoKeyData,
            TlsError::UnsupportedKeyKindError => TlsErrorKind::UnsupportedKeyKind,
            TlsError::TlsConfigError(_) => TlsErrorKind::TlsConfig,
        }
    }

    /// The kind of this failure.
    #[verifier::when_used_as_spec(spec_kind)]
    pub fn kind(&self) -> (r: TlsErrorKind)
        ensures
            r == self.spec_kind(),
    {
        match self {
            TlsError::IoError(_) => TlsErrorKind::Io,
            TlsError::PemParseError(_) => TlsErrorKind::PemParse,
            TlsError::NoKeyDataError => TlsErrorKind::NoKeyData,
            TlsError::UnsupportedKeyKindError => TlsErrorKind::UnsupportedKeyKind,
            TlsError::TlsConfigError(_) => TlsErrorKind::TlsConfig,
        }
    }
}

} // verus!
