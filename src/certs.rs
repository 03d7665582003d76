//! Custom root certificates: the DER blobs of a PEM file, which must hold at
//! least one certificate. Reading the file and filling the trust store are
//! left to the caller, who falls back to the built-in roots on any failure.

use vstd::prelude::*;
use crate::error::TreblleError;

verus! {

/// The DER blobs of the certificate sections `rustls_pemfile::certs` finds
/// in these bytes, or `None` when it reports a malformed section.
pub uninterp spec fn pem_certs(pem: Seq<u8>) -> Option<Seq<Seq<u8>>>;

/// The views of a sequence of byte vectors.
pub open spec fn blobs_view(v: Seq<Vec<u8>>) -> Seq<Seq<u8>> {
    v.map_values(|b: Vec<u8>| b@)
}

/// Relies on `rustls_pemfile::certs`: the certificate sections of the PEM
/// text, in order, other sections skipped; an error on a malformed section.
/// The outcome depends on the bytes alone.
#[verifier::external_body]
fn pem_certificates(pem: &[u8]) -> (r: Option<Vec<Vec<u8>>>)
    ensures
        match r {
            Some(v) => pem_certs(pem@) == Some(blobs_view(v@)),
            None => pem_certs(pem@) is None,
        },
{
    let mut reader = pem;
    rustls_pemfile::certs(&mut reader)
        .collect::<Result<Vec<_>, _>>()
        .ok()
        .map(|certs| certs.into_iter().map(|c| c.to_vec()).collect())
}

/// The certificates of a custom root CA file: fails when the file does not
/// parse or holds no certificate.
pub fn load_custom_certificates(pem: &[u8]) -> (r: Result<Vec<Vec<u8>>, TreblleError>)
    ensures
        match r {
            Ok(v) => pem_certs(pem@) == Some(blobs_view(v@)) && v@.len() > 0,
            Err(e) => e is Certificate && match pem_certs(pem@) {
                Some(c) => c.len() == 0,
                None => true,
            },
        },
{
    match pem_certificates(pem) {
        Some(certs) => {
            if certs.len() == 0 {
                Err(
                    TreblleError::Certificate(
                        String::from_str("No certificates found in the custom root CA file"),
                    ),
                )
            } else {
                Ok(certs)
            }
        },
        None => Err(
            TreblleError::Certificate(String::from_str("Failed to parse custom root CA file")),
        ),
    }
}

} // verus!
