//! The HTTP protocol selector and the ALPN identifiers it advertises.

use vstd::prelude::*;

verus! {

/// The HTTP protocol to use when clients are connecting.
///
/// This should match the version(s) of HTTP used to serve the application.
/// `Both` prefers HTTP/2 over HTTP/1.1.
#[derive(Clone, Copy, Debug, PartialEq, Eq, Structural)]
pub enum HttpProtocol {
    Http1,
    Http2,
    Both,
}

/// The contents of a sequence of byte vectors.
pub open spec fn byte_lists(v: Seq<Vec<u8>>) -> Seq<Seq<u8>> {
    v.map_values(|b: Vec<u8>| b@)
}

/// The ALPN identifier `h2`.
pub open spec fn h2_id() -> Seq<u8> {
    seq![0x68u8, 0x32u8]
}

/// The ALPN identifier `http/1.1`.
pub open spec fn http11_id() -> Seq<u8> {
    seq![0x68u8, 0x74u8, 0x74u8, 0x70u8, 0x2fu8, 0x31u8, 0x2eu8, 0x31u8]
}

/// The ALPN identifier `http/1.0`.
pub open spec fn http10_id() -> Seq<u8> {
    seq![0x68u8, 0x74u8, 0x74u8, 0x70u8, 0x2fu8, 0x31u8, 0x2eu8, 0x30u8]
}

/// The ALPN list advertised for a selector, highest preference first.
pub open spec fn alpn_list(protocol: HttpProtocol) -> Seq<Seq<u8>> {
    match protocol {
        HttpProtocol::Http1 => seq![http11_id(), http10_id()],
        HttpProtocol::Http2 => seq![h2_id()],
        HttpProtocol::Both => seq![h2_id(), http11_id(), http10_id()],
    }
}

fn h2() -> (r: Vec<u8>)
    ensures
        r@ == h2_id(),
{
    let r = vec![0x68u8, 0x32u8];
    assert(r@ =~= h2_id());
    r
}

fn http11() -> (r: Vec<u8>)
    ensures
        r@ == http11_id(),
{
    let r = vec![0x68u8, 0x74u8, 0x74u8, 0x70u8, 0x2fu8, 0x31u8, 0x2eu8, 0x31u8];
    assert(r@ =~= http11_id());
    r
}

fn http10() -> (r: Vec<u8>)
    ensures
        r@ == http10_id(),
{
    let r = vec![0x68u8, 0x74u8, 0x74u8, 0x70u8, 0x2fu8, 0x31u8, 0x2eu8, 0x30u8];
    assert(r@ =~= http10_id());
    r
}

impl HttpProtocol {
    /// The ALPN protocol identifiers to offer for this selector, highest
    /// preference first.
    pub fn alpn_protocols(&self) -> (r: Vec<Vec<u8>>)
        ensures
            byte_lists(r@) == alpn_list(*self),
    {
        let mut r: Vec<Vec<u8>> = Vec::new();
        match self {
            HttpProtocol::Http1 => {
                r.push(http11());
                r.push(http10());
            },
            HttpProtocol::Http2 => {
                r.push(h2());
            },
            HttpProtocol::Both => {
                r.push(h2());
                r.push(http11());
                r.push(http10());
            },
        }
        assert(byte_lists(r@) =~= alpn_list(*self));
        r
    }
}

} // verus!
