//! Trust in the certificates of peers.
use std::sync::Arc;
use vstd::prelude::*;

verus! {

/// How many unidirectional streams a peer may open to the server at a time.
pub const MAX_CONCURRENT_UNI_STREAMS: u8 = 1;

/// The signature schemes that can be checked, by their TLS code points, from the one that
/// is preferred most to the one that is preferred least.
pub open spec fn schemes() -> Seq<u16> {
    seq![
        0x0503u16,  // ECDSA with P-384 and SHA-384
        0x0403u16,  // ECDSA with P-256 and SHA-256
        0x0807u16,  // Ed25519
        0x0806u16,  // RSA-PSS with SHA-512
        0x0805u16,  // RSA-PSS with SHA-384
        0x0804u16,  // RSA-PSS with SHA-256
        0x0601u16,  // RSA with SHA-512
        0x0501u16,  // RSA with SHA-384
        0x0401u16,  // RSA with SHA-256
    ]
}

/// Calls `rustls::crypto::WebPkiSupportedAlgorithms::supported_schemes` on the algorithms
/// of `rustls::crypto::ring::default_provider`. The result is that fixed list, in order,
/// each scheme as its code point.
#[verifier::external_body]
fn supported_schemes() -> (r: Vec<u16>)
    ensures
        r@ == schemes(),
{
    let algorithms = rustls::crypto::ring::default_provider().signature_verification_algorithms;
    algorithms.supported_schemes().into_iter().map(u16::from).collect()
}

/// Certificate verifier that treats any certificate as valid.
/// A connection made with it is open to whoever sits in between, but needs no
/// certificate authority.
#[derive(Debug)]
pub struct SkipServerVerification;

impl SkipServerVerification {
    /// A shared verifier.
    pub fn new() -> (r: Arc<SkipServerVerification>)
        ensures
            *r == SkipServerVerification,
    {
        Arc::new(SkipServerVerification)
    }

    /// Whether the certificate of a peer is valid: always, whatever it holds, whoever
    /// signed it, and whatever name the peer goes by.
    pub fn verify_server_cert(
        &self,
        _end_entity: &[u8],
        _intermediates: &Vec<Vec<u8>>,
        _server_name: &str,
    ) -> (r: bool)
        ensures
            r,
    {
        true
    }

    /// The signature schemes that a peer may use, by their TLS code points.
    pub fn supported_verify_schemes(&self) -> (r: Vec<u16>)
        ensures
            r@ == schemes(),
    {
        supported_schemes()
    }
}

} // verus!
