//! The pipeline from PEM material to a TLS acceptor: decode the certificate
//! chain, decode one private key, choose the ALPN list, and hand all of it to
//! the TLS engine.

use crate::engine::{
    acceptor_config, acceptor_from_config, config_alpn, config_chain, config_key,
    set_alpn_protocols, single_cert_config,
};
use crate::error::{TlsError, TlsErrorKind};
use crate::pem::{
    has_section_start, is_private_key_kind, pem_certificates, pem_first_item, read_certificates,
    read_first_item, PemKind,
};
use crate::protocol::{alpn_list, byte_lists, HttpProtocol};
use tokio_rustls::rustls::{Error, ServerConfig};
use tokio_rustls::TlsAcceptor;
use vstd::prelude::*;
use vstd::string::StringSliceAdditionalSpecFns;

verus! {

/// What the engine is given: the certificate chain, the private key and the
/// ALPN list, each as DER or identifier bytes.
pub struct ServerSettings {
    pub certs: Vec<Vec<u8>>,
    pub key: Vec<u8>,
    pub alpn_protocols: Vec<Vec<u8>>,
}

impl View for ServerSettings {
    type V = (Seq<Seq<u8>>, Seq<u8>, Seq<Seq<u8>>);

    open spec fn view(&self) -> Self::V {
        (byte_lists(self.certs@), self.key@, byte_lists(self.alpn_protocols@))
    }
}

/// The certificate chain and private key that the two PEM inputs decode to,
/// or the kind of failure. Certificates are decoded first; of the key input
/// only the first section is read, and a key input that yields no section,
/// malformed or absent, holds no key data.
pub open spec fn decoded_pem(cert_pem: Seq<u8>, key_pem: Seq<u8>) -> Result<
    (Seq<Seq<u8>>, Seq<u8>),
    TlsErrorKind,
> {
    match pem_certificates(cert_pem) {
        None => Err(TlsErrorKind::PemParse),
        Some(certs) => match pem_first_item(key_pem) {
            None => Err(TlsErrorKind::NoKeyData),
            Some(None) => Err(TlsErrorKind::NoKeyData),
            Some(Some(item)) => if is_private_key_kind(item.0) {
                Ok((certs, item.1))
            } else {
                Err(TlsErrorKind::UnsupportedKeyKind)
            },
        },
    }
}

/// The settings built from the two PEM inputs and a protocol selector, or the
/// kind of failure.
pub open spec fn expected_settings(
    cert_pem: Seq<u8>,
    key_pem: Seq<u8>,
    protocol: HttpProtocol,
) -> Result<(Seq<Seq<u8>>, Seq<u8>, Seq<Seq<u8>>), TlsErrorKind> {
    match decoded_pem(cert_pem, key_pem) {
        Ok(pair) => Ok((pair.0, pair.1, alpn_list(protocol))),
        Err(kind) => Err(kind),
    }
}

/// Whether a configuration holds exactly the given chain, key and ALPN list.
pub open spec fn holds_settings(
    config: ServerConfig,
    settings: (Seq<Seq<u8>>, Seq<u8>, Seq<Seq<u8>>),
) -> bool {
    config_chain(config) == settings.0 && config_key(config) == settings.1 && config_alpn(config)
        == settings.2
}

/// A built configuration, or the kind of failure.
pub open spec fn config_outcome(r: Result<ServerConfig, TlsError>) -> Result<
    ServerConfig,
    TlsErrorKind,
> {
    match r {
        Ok(config) => Ok(config),
        Err(e) => Err(e.kind()),
    }
}

/// The configuration of a built acceptor, or the kind of failure.
pub open spec fn acceptor_outcome(r: Result<TlsAcceptor, TlsError>) -> Result<
    ServerConfig,
    TlsErrorKind,
> {
    match r {
        Ok(acceptor) => Ok(acceptor_config(acceptor)),
        Err(e) => Err(e.kind()),
    }
}

/// Whether `built` is what building from the two PEM inputs may give: each
/// decoding failure as itself; after decoding, either a configuration that
/// holds the decoded chain, the key and the selector's ALPN list, or the
/// engine's refusal.
pub open spec fn built_from_pem(
    built: Result<ServerConfig, TlsErrorKind>,
    cert_pem: Seq<u8>,
    key_pem: Seq<u8>,
    protocol: HttpProtocol,
) -> bool {
    match expected_settings(cert_pem, key_pem, protocol) {
        Err(kind) => built == Err::<ServerConfig, _>(kind),
        Ok(settings) => match built {
            Ok(config) => holds_settings(config, settings),
            Err(kind) => kind == TlsErrorKind::TlsConfig,
        },
    }
}

/// Decodes the certificate chain and the private key and chooses the ALPN
/// list, without involving the engine.
pub fn server_settings_from_pem(cert_pem: &[u8], key_pem: &[u8], protocol: &HttpProtocol) -> (r:
    Result<ServerSettings, TlsError>)
    ensures
        match r {
            Ok(settings) => expected_settings(cert_pem@, key_pem@, *protocol) == Ok::<
                _,
                TlsErrorKind,
            >(settings@),
            Err(e) => expected_settings(cert_pem@, key_pem@, *protocol) == Err::<
                (Seq<Seq<u8>>, Seq<u8>, Seq<Seq<u8>>),
                _,
            >(e.kind()),
        },
        !has_section_start(cert_pem@) ==> pem_certificates(cert_pem@) == Some(
            Seq::<Seq<u8>>::empty(),
        ),
        pem_certificates(cert_pem@) is Some && !has_section_start(key_pem@) ==> r is Err
            && r->Err_0.kind() == TlsErrorKind::NoKeyData,
{
    let certs = match read_certificates(cert_pem) {
        Ok(certs) => certs,
        Err(e) => return Err(TlsError::PemParseError(e)),
    };
    let key = match read_first_item(key_pem) {
        Ok(Some(item)) => {
            if item.0.is_private_key() {
                item.1
            } else {
                return Err(TlsError::UnsupportedKeyKindError);
            }
        },
        Ok(None) => return Err(TlsError::NoKeyDataError),
        Err(_) => return Err(TlsError::NoKeyDataError),
    };
    let alpn_protocols = protocol.alpn_protocols();
    Ok(ServerSettings { certs, key, alpn_protocols })
}

/// Completes what the engine built from a chain and a key: a configuration
/// gets the ALPN list `alpn_protocols`, a refusal becomes a configuration
/// error.
pub fn finish_config(built: Result<ServerConfig, Error>, alpn_protocols: Vec<Vec<u8>>) -> (r:
    Result<ServerConfig, TlsError>)
    ensures
        match built {
            Ok(config) => r matches Ok(done) && config_chain(done) == config_chain(config)
                && config_key(done) == config_key(config) && config_alpn(done) == byte_lists(
                alpn_protocols@,
            ),
            Err(_) => r matches Err(TlsError::TlsConfigError(_)),
        },
{
    match built {
        Ok(config) => {
            let mut config = config;
            set_alpn_protocols(&mut config, alpn_protocols);
            Ok(config)
        },
        Err(e) => Err(TlsError::TlsConfigError(e)),
    }
}

/// Builds the engine's server configuration: the decoded chain and key, no
/// client authentication, the engine's safe defaults, and the ALPN list of
/// `protocol`.
pub fn server_config_from_pem(cert_pem: &[u8], key_pem: &[u8], protocol: &HttpProtocol) -> (r:
    Result<ServerConfig, TlsError>)
    ensures
        built_from_pem(config_outcome(r), cert_pem@, key_pem@, *protocol),
        !has_section_start(cert_pem@) ==> pem_certificates(cert_pem@) == Some(
            Seq::<Seq<u8>>::empty(),
        ),
{
    let settings = server_settings_from_pem(cert_pem, key_pem, protocol)?;
    let ServerSettings { certs, key, alpn_protocols } = settings;
    let built = single_cert_config(certs, key);
    finish_config(built, alpn_protocols)
}

/// Builds an acceptor from PEM certificate and key bytes.
pub fn get_tlsacceptor_from_pem_bytes(
    cert_pem: &[u8],
    key_pem: &[u8],
    protocol: &HttpProtocol,
) -> (r: Result<TlsAcceptor, TlsError>)
    ensures
        built_from_pem(acceptor_outcome(r), cert_pem@, key_pem@, *protocol),
        !has_section_start(cert_pem@) ==> pem_certificates(cert_pem@) == Some(
            Seq::<Seq<u8>>::empty(),
        ),
{
    let config = server_config_from_pem(cert_pem, key_pem, protocol)?;
    Ok(acceptor_from_config(config))
}

/// Builds an acceptor from PEM certificate and key text.
pub fn get_tlsacceptor_from_pem_data(cert_data: &str, key_data: &str, protocol: &HttpProtocol) -> (r:
    Result<TlsAcceptor, TlsError>)
    ensures
        built_from_pem(
            acceptor_outcome(r),
            cert_data.spec_bytes(),
            key_data.spec_bytes(),
            *protocol,
        ),
        !has_section_start(cert_data.spec_bytes()) ==> pem_certificates(cert_data.spec_bytes())
            == Some(Seq::<Seq<u8>>::empty()),
{
    get_tlsacceptor_from_pem_bytes(cert_data.as_bytes(), key_data.as_bytes(), protocol)
}

/// A certificate input that decodes and a key input whose first section is a
/// private key: decoding succeeds, and the engine is handed the decoded chain,
/// that key and exactly the ALPN list of the selector.
pub proof fn lemma_valid_pair_settings(cert_pem: Seq<u8>, key_pem: Seq<u8>, protocol: HttpProtocol)
    requires
        pem_certificates(cert_pem) is Some,
        pem_first_item(key_pem) matches Some(Some(item)) && is_private_key_kind(item.0),
    ensures
        expected_settings(cert_pem, key_pem, protocol) == Ok::<_, TlsErrorKind>(
            (
                pem_certificates(cert_pem)->Some_0,
                pem_first_item(key_pem)->Some_0->Some_0.1,
                alpn_list(protocol),
            ),
        ),
{
}

/// A key input from which no section can be read, because it holds none or
/// its first one is malformed, gives no key data.
pub proof fn lemma_no_key_section_is_no_key_data(cert_pem: Seq<u8>, key_pem: Seq<u8>)
    requires
        pem_certificates(cert_pem) is Some,
        pem_first_item(key_pem) is None || pem_first_item(key_pem) == Some(
            None::<(PemKind, Seq<u8>)>,
        ),
    ensures
        decoded_pem(cert_pem, key_pem) == Err::<(Seq<Seq<u8>>, Seq<u8>), _>(
            TlsErrorKind::NoKeyData,
        ),
{
}

/// A key input whose first section is a certificate is refused as an
/// unsupported key kind, whatever follows it.
pub proof fn lemma_certificate_as_key_is_unsupported(cert_pem: Seq<u8>, key_pem: Seq<u8>)
    requires
        pem_certificates(cert_pem) is Some,
        pem_first_item(key_pem) matches Some(Some(item)) && item.0 == PemKind::Certificate,
    ensures
        decoded_pem(cert_pem, key_pem) == Err::<(Seq<Seq<u8>>, Seq<u8>), _>(
            TlsErrorKind::UnsupportedKeyKind,
        ),
{
}

/// A certificate input with no certificate section does not fail at decoding:
/// the empty chain goes to the engine with the key.
pub proof fn lemma_empty_chain_reaches_engine(
    cert_pem: Seq<u8>,
    key_pem: Seq<u8>,
    protocol: HttpProtocol,
)
    requires
        pem_certificates(cert_pem) == Some(Seq::<Seq<u8>>::empty()),
        pem_first_item(key_pem) matches Some(Some(item)) && is_private_key_kind(item.0),
    ensures
        expected_settings(cert_pem, key_pem, protocol) == Ok::<_, TlsErrorKind>(
            (
                Seq::<Seq<u8>>::empty(),
                pem_first_item(key_pem)->Some_0->Some_0.1,
                alpn_list(protocol),
            ),
        ),
{
}

/// The ALPN list depends on the selector alone, and the chain and the key on
/// the PEM inputs alone.
pub proof fn lemma_settings_depend_on_their_own_inputs(
    cert_pem: Seq<u8>,
    key_pem: Seq<u8>,
    protocol: HttpProtocol,
    other_cert_pem: Seq<u8>,
    other_key_pem: Seq<u8>,
    other_protocol: HttpProtocol,
)
    requires
        expected_settings(cert_pem, key_pem, protocol) is Ok,
        expected_settings(other_cert_pem, other_key_pem, other_protocol) is Ok,
    ensures
        protocol == other_protocol ==> expected_settings(cert_pem, key_pem, protocol)->Ok_0.2
            == expected_settings(other_cert_pem, other_key_pem, other_protocol)->Ok_0.2,
        expected_settings(cert_pem, key_pem, other_protocol) is Ok,
        expected_settings(cert_pem, key_pem, other_protocol)->Ok_0.0 == expected_settings(
            cert_pem,
            key_pem,
            protocol,
        )->Ok_0.0,
        expected_settings(cert_pem, key_pem, other_protocol)->Ok_0.1 == expected_settings(
            cert_pem,
            key_pem,
            protocol,
        )->Ok_0.1,
{
}

/// Of the key input only what its first section decodes to matters: two key
/// inputs that agree on it give the same outcome.
pub proof fn lemma_only_first_key_section_matters(
    cert_pem: Seq<u8>,
    key_pem: Seq<u8>,
    other_key_pem: Seq<u8>,
    protocol: HttpProtocol,
)
    requires
        pem_first_item(key_pem) == pem_first_item(other_key_pem),
    ensures
        expected_settings(cert_pem, key_pem, protocol) == expected_settings(
            cert_pem,
            other_key_pem,
            protocol,
        ),
{
}

} // verus!
