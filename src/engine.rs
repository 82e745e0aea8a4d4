//! The TLS engine's server configuration and acceptor.

use tokio_rustls::rustls::{Certificate, Error, PrivateKey, ServerConfig};
use tokio_rustls::TlsAcceptor;
use crate::protocol::byte_lists;
use vstd::prelude::*;

verus! {

#[verifier::external_type_specification]
#[verifier::external_body]
pub struct ExServerConfig(ServerConfig);

#[verifier::external_type_specification]
#[verifier::external_body]
pub struct ExTlsAcceptor(TlsAcceptor);

#[verifier::external_type_specification]
#[verifier::external_body]
pub struct ExError(Error);

/// The certificate chain that a configuration presents, as DER.
pub uninterp spec fn config_chain(config: ServerConfig) -> Seq<Seq<u8>>;

/// The DER private key from which a configuration's signing key was loaded.
pub uninterp spec fn config_key(config: ServerConfig) -> Seq<u8>;

/// The ALPN protocol identifiers that a configuration offers, in order.
pub uninterp spec fn config_alpn(config: ServerConfig) -> Seq<Seq<u8>>;

/// The configuration that an acceptor uses for every connection.
pub uninterp spec fn acceptor_config(acceptor: TlsAcceptor) -> ServerConfig;

/// Relies on rustls's `ServerConfig` builder with safe defaults, no client
/// authentication and `with_single_cert`: on success the configuration holds
/// the chain as given, a signing key loaded from `key`, and no ALPN protocol.
/// Whether it succeeds is left open: loading a key may fail for reasons other
/// than its bytes.
#[verifier::external_body]
pub(crate) fn single_cert_config(certs: Vec<Vec<u8>>, key: Vec<u8>) -> (r: Result<ServerConfig, Error>)
    ensures
        r matches Ok(c) ==> config_chain(c) == byte_lists(certs@) && config_key(c) == key@
            && config_alpn(c) == Seq::<Seq<u8>>::empty(),
{
    ServerConfig::builder()
        .with_safe_defaults()
        .with_no_client_auth()
        .with_single_cert(certs.into_iter().map(Certificate).collect(), PrivateKey(key))
}

/// Relies on the public field `ServerConfig::alpn_protocols`, which it sets,
/// leaving the certificate chain and the key as they were.
#[verifier::external_body]
pub(crate) fn set_alpn_protocols(config: &mut ServerConfig, protocols: Vec<Vec<u8>>)
    ensures
        config_alpn(*final(config)) == byte_lists(protocols@),
        config_chain(*final(config)) == config_chain(*old(config)),
        config_key(*final(config)) == config_key(*old(config)),
{
    config.alpn_protocols = protocols;
}

/// Relies on `TlsAcceptor::from`, which keeps the configuration as given and
/// shares it with every connection it accepts.
#[verifier::external_body]
pub(crate) fn acceptor_from_config(config: ServerConfig) -> (r: TlsAcceptor)
    ensures
        acceptor_config(r) == config,
{
    TlsAcceptor::from(std::sync::Arc::new(config))
}

} // verus!
