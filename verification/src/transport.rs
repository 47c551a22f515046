//! HTTP transport construction.
//!
//! Resolves the TLS trust posture once, at client construction, into an HTTP
//! client value: platform trust by default, optionally one extra root
//! certificate (supplied as PEM bytes, already read from disk by the caller),
//! and — as an explicit, deliberately unsafe opt-in — acceptance of invalid
//! certificates. A malformed certificate or a failed client build is fatal
//! here, so a client that cannot deliver is never constructed.

use vstd::prelude::*;

verus! {

#[verifier::external_type_specification]
#[verifier::external_body]
pub struct ExClient(reqwest::Client);

#[verifier::external_type_specification]
#[verifier::external_body]
pub struct ExClientBuilder(reqwest::ClientBuilder);

#[verifier::external_type_specification]
#[verifier::external_body]
pub struct ExCertificate(reqwest::Certificate);

#[verifier::external_type_specification]
#[verifier::external_body]
pub struct ExReqwestError(reqwest::Error);

/// Relies on reqwest::ClientBuilder::new: a builder with default settings.
pub assume_specification[ reqwest::ClientBuilder::new ]() -> reqwest::ClientBuilder
;

/// Relies on reqwest::ClientBuilder::danger_accept_invalid_certs: returns the
/// builder reconfigured to skip certificate verification when the flag is true.
pub assume_specification[ reqwest::ClientBuilder::danger_accept_invalid_certs ](
    builder: reqwest::ClientBuilder,
    accept_invalid_certs: bool,
) -> reqwest::ClientBuilder
;

/// Relies on reqwest::ClientBuilder::add_root_certificate: returns the builder
/// with the certificate added to its trust store.
pub assume_specification[ reqwest::ClientBuilder::add_root_certificate ](
    builder: reqwest::ClientBuilder,
    cert: reqwest::Certificate,
) -> reqwest::ClientBuilder
;

/// Relies on reqwest::ClientBuilder::build: the configured client, or the
/// build failure.
pub assume_specification[ reqwest::ClientBuilder::build ](
    builder: reqwest::ClientBuilder,
) -> Result<reqwest::Client, reqwest::Error>
;

/// Relies on reqwest::Certificate::from_pem: the certificate, or a parse
/// failure. Depending on the TLS backend the parse may be deferred: the
/// rustls backend stores the bytes here and rejects malformed ones when the
/// client is built.
pub assume_specification[ reqwest::Certificate::from_pem ](pem: &[u8]) -> Result<
    reqwest::Certificate,
    reqwest::Error,
>
;

/// Why client construction failed.
pub enum BuildError {
    /// The supplied root certificate bytes were rejected as soon as they
    /// were parsed.
    InvalidCertificate(reqwest::Error),
    /// The HTTP client itself could not be built. A TLS backend that defers
    /// certificate parsing reports malformed certificate bytes here.
    ClientBuild(reqwest::Error),
}

/// Builds the HTTP client for the configured trust posture. An
/// `InvalidCertificate` error can only arise when root-certificate bytes were
/// supplied; whether the underlying build succeeds is the transport's own
/// decision, and its error is passed through.
pub fn build_transport(allow_invalid_certs: bool, root_cert_pem: Option<&[u8]>) -> (r: Result<
    reqwest::Client,
    BuildError,
>)
    ensures
        root_cert_pem is None ==> !(r matches Err(BuildError::InvalidCertificate(_))),
{
    let mut builder = reqwest::ClientBuilder::new();
    if allow_invalid_certs {
        builder = builder.danger_accept_invalid_certs(true);
    }
    if let Some(pem) = root_cert_pem {
        match reqwest::Certificate::from_pem(pem) {
            Ok(cert) => {
                builder = builder.add_root_certificate(cert);
            },
            Err(e) => {
                return Err(BuildError::InvalidCertificate(e));
            },
        }
    }
    match builder.build() {
        Ok(client) => Ok(client),
        Err(e) => Err(BuildError::ClientBuild(e)),
    }
}

} // verus!
