//! Scanning PEM text for certificate sections and for the first section.

use crate::protocol::byte_lists;
use rustls_pemfile::Item;
use vstd::prelude::*;

verus! {

#[verifier::external_type_specification]
#[verifier::external_body]
pub struct ExIoError(std::io::Error);

/// The kind of a decoded PEM section, as told by its label.
#[derive(Clone, Copy, Debug, PartialEq, Eq, Structural)]
pub enum PemKind {
    /// `CERTIFICATE`
    Certificate,
    /// `RSA PRIVATE KEY`
    RsaKey,
    /// `PRIVATE KEY`
    Pkcs8Key,
    /// `EC PRIVATE KEY`
    EcKey,
    /// Any other recognised section, such as a revocation list.
    Other,
}

/// Whether a section of this kind holds a private key that a server can use.
pub open spec fn is_private_key_kind(kind: PemKind) -> bool {
    kind == PemKind::RsaKey || kind == PemKind::Pkcs8Key || kind == PemKind::EcKey
}

impl PemKind {
    /// Whether a section of this kind holds a private key that a server can use.
    pub fn is_private_key(&self) -> (r: bool)
        ensures
            r == is_private_key_kind(*self),
    {
        match self {
            PemKind::RsaKey | PemKind::Pkcs8Key | PemKind::EcKey => true,
            _ => false,
        }
    }
}

/// The bytes `-----BEGIN ` that open every PEM section line.
pub open spec fn section_start_marker() -> Seq<u8> {
    seq![0x2du8, 0x2du8, 0x2du8, 0x2du8, 0x2du8, 0x42u8, 0x45u8, 0x47u8, 0x49u8, 0x4eu8, 0x20u8]
}

/// Whether a line of `data` starts at index `i`: lines end at `\n` or `\r`.
pub open spec fn starts_line_at(data: Seq<u8>, i: int) -> bool {
    i == 0 || data[i - 1] == 0x0au8 || data[i - 1] == 0x0du8
}

/// Whether some line of `data` begins with the section start marker.
pub open spec fn has_section_start(data: Seq<u8>) -> bool {
    exists|i: int|
        #![trigger data.subrange(i, i + 11)]
        0 <= i && i + 11 <= data.len() && starts_line_at(data, i) && data.subrange(i, i + 11)
            == section_start_marker()
}

/// The DER contents of every `CERTIFICATE` section of `data`, in order, or
/// `None` where `data` holds a malformed section.
pub uninterp spec fn pem_certificates(data: Seq<u8>) -> Option<Seq<Seq<u8>>>;

/// The first recognised section of `data` with its DER contents (`Some(None)`
/// where there is none), or `None` where `data` holds a malformed section
/// before it.
pub uninterp spec fn pem_first_item(data: Seq<u8>) -> Option<Option<(PemKind, Seq<u8>)>>;

/// Relies on `rustls_pemfile::certs`: it collects the DER contents of every
/// `CERTIFICATE` section in the order found, skips other sections, and returns
/// an empty list when no line opens a section.
#[verifier::external_body]
pub(crate) fn read_certificates(data: &[u8]) -> (r: Result<Vec<Vec<u8>>, std::io::Error>)
    ensures
        match r {
            Ok(certs) => pem_certificates(data@) == Some(byte_lists(certs@)),
            Err(_) => pem_certificates(data@) is None,
        },
        !has_section_start(data@) ==> r is Ok && r->Ok_0@.len() == 0,
{
    let mut reader = data;
    rustls_pemfile::certs(&mut reader)
}

/// Relies on `rustls_pemfile::read_one`: it decodes the first recognised
/// section, and returns `Ok(None)` when no line opens a section.
#[verifier::external_body]
pub(crate) fn read_first_item(data: &[u8]) -> (r: Result<Option<(PemKind, Vec<u8>)>, std::io::Error>)
    ensures
        match r {
            Ok(Some(item)) => pem_first_item(data@) == Some(Some((item.0, item.1@))),
            Ok(None) => pem_first_item(data@) == Some(None::<(PemKind, Seq<u8>)>),
            Err(_) => pem_first_item(data@) is None,
        },
        !has_section_start(data@) ==> r matches Ok(None),
{
    let mut reader = data;
    rustls_pemfile::read_one(&mut reader).map(|item| item.map(|item| match item {
        Item::X509Certificate(der) => (PemKind::Certificate, der),
        Item::RSAKey(der) => (PemKind::RsaKey, der),
        Item::PKCS8Key(der) => (PemKind::Pkcs8Key, der),
        Item::ECKey(der) => (PemKind::EcKey, der),
        _ => (PemKind::Other, Vec::new()),
    }))
}

} // verus!
