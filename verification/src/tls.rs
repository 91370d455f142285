use vstd::prelude::*;

verus! {

#[verifier::external_type_specification]
#[verifier::external_body]
pub struct ExServerConfig(rustls::ServerConfig);

/// The DER contents of the CERTIFICATE sections of a PEM input, a function of
/// the bytes alone; `None` when a section is malformed.
pub uninterp spec fn pem_certs_of(pem: Seq<u8>) -> Option<Seq<Seq<u8>>>;

/// The DER contents of the PKCS8 private-key sections of a PEM input, a
/// function of the bytes alone; `None` when a section is malformed.
pub uninterp spec fn pem_keys_of(pem: Seq<u8>) -> Option<Seq<Seq<u8>>>;

/// Whether the TLS backend accepts this certificate chain and private key as
/// server material, a function of the DER bytes alone.
pub uninterp spec fn tls_accepts(certs: Seq<Seq<u8>>, key: Seq<u8>) -> bool;

/// Relies on rustls_pemfile::certs: reads every CERTIFICATE section of the
/// input and returns its DER bytes, in order; an input with no such section
/// yields the empty list rather than an error.
#[verifier::external_body]
fn parse_pem_certs(pem: &Vec<u8>) -> (r: Option<Vec<Vec<u8>>>)
    ensures
        r.deep_view() == pem_certs_of(pem@),
{
    rustls_pemfile::certs(&mut pem.as_slice()).ok()
}

/// Relies on rustls_pemfile::pkcs8_private_keys: reads every PRIVATE KEY
/// section of the input and returns its DER bytes, in order; an input with no
/// such section yields the empty list rather than an error.
#[verifier::external_body]
fn parse_pem_pkcs8_keys(pem: &Vec<u8>) -> (r: Option<Vec<Vec<u8>>>)
    ensures
        r.deep_view() == pem_keys_of(pem@),
{
    rustls_pemfile::pkcs8_private_keys(&mut pem.as_slice()).ok()
}

/// Relies on rustls's ServerConfig builder with safe protocol defaults, no
/// client authentication and a single certificate chain: it returns a config
/// exactly when it can parse the key and match it to the chain, a check on
/// the DER bytes alone.
#[verifier::external_body]
fn make_server_config(certs: Vec<Vec<u8>>, key: Vec<u8>) -> (r: Option<rustls::ServerConfig>)
    ensures
        r is Some <==> tls_accepts(certs.deep_view(), key@),
{
    let chain = certs.into_iter().map(rustls::Certificate).collect();
    rustls::ServerConfig::builder()
        .with_safe_defaults()
        .with_no_client_auth()
        .with_single_cert(chain, rustls::PrivateKey(key))
        .ok()
}

/// Why TLS material could not be turned into a server configuration.
#[derive(Clone, Copy, PartialEq, Eq, Structural, Debug)]
pub enum TlsError {
    /// A certificate section of the PEM input is malformed.
    UnreadableCertificates,
    /// A private-key section of the PEM input is malformed.
    UnreadableKey,
    /// The key input holds no PKCS8 private key at all.
    NoKeyFound,
    /// The backend rejected the chain and key as server material.
    Rejected,
}

/// The failure, if any, that loading this TLS material runs into, checked in
/// the order the loader checks it.
pub open spec fn tls_failure_of(cert: Seq<u8>, key: Seq<u8>) -> Option<TlsError> {
    if pem_certs_of(cert) is None {
        Some(TlsError::UnreadableCertificates)
    } else if pem_keys_of(key) is None {
        Some(TlsError::UnreadableKey)
    } else if pem_keys_of(key)->Some_0.len() == 0 {
        Some(TlsError::NoKeyFound)
    } else if !tls_accepts(pem_certs_of(cert)->Some_0, pem_keys_of(key)->Some_0[0]) {
        Some(TlsError::Rejected)
    } else {
        None
    }
}

/// Build the server's TLS configuration from PEM-encoded certificate and key
/// material: the certificate chain and the first PKCS8 private key. Every
/// failure is reported, never panicked on, so the caller can degrade to
/// plaintext-only serving.
pub fn build_tls_config(cert_pem: &Vec<u8>, key_pem: &Vec<u8>) -> (r: Result<
    rustls::ServerConfig,
    TlsError,
>)
    ensures
        r is Ok <==> tls_failure_of(cert_pem@, key_pem@) is None,
        r matches Err(e) ==> Some(e) == tls_failure_of(cert_pem@, key_pem@),
{
    let certs = match parse_pem_certs(cert_pem) {
        Some(c) => c,
        None => {
            return Err(TlsError::UnreadableCertificates);
        },
    };
    let mut keys = match parse_pem_pkcs8_keys(key_pem) {
        Some(k) => k,
        None => {
            return Err(TlsError::UnreadableKey);
        },
    };
    if keys.len() == 0 {
        return Err(TlsError::NoKeyFound);
    }
    let key = keys.remove(0);
    proof {
        assert(certs.deep_view() == pem_certs_of(cert_pem@)->Some_0);
        assert(key@ == pem_keys_of(key_pem@)->Some_0[0]);
    }
    match make_server_config(certs, key) {
        Some(cfg) => Ok(cfg),
        None => Err(TlsError::Rejected),
    }
}

/// The certificate path to load: the explicit one if given, else the default.
pub fn cert_path_or_default(cert: Option<String>) -> (r: String)
    ensures
        r@ == match cert {
            Some(c) => c@,
            None => "certs/localhost.pem"@,
        },
{
    match cert {
        Some(c) => c,
        None => String::from_str("certs/localhost.pem"),
    }
}

/// The private-key path to load: the explicit one if given, else the default.
pub fn key_path_or_default(key: Option<String>) -> (r: String)
    ensures
        r@ == match key {
            Some(k) => k@,
            None => "certs/localhost-key.pem"@,
        },
{
    match key {
        Some(k) => k,
        None => String::from_str("certs/localhost-key.pem"),
    }
}

/// Which listeners the bootstrap binds against the shared pipeline.
#[derive(Clone, Copy, PartialEq, Eq, Structural, Debug)]
pub enum ListenPlan {
    /// Only the plaintext listener, on this port.
    HttpOnly(u16),
    /// The plaintext and the encrypted listener, concurrently.
    HttpAndHttps(u16, u16),
}

/// The bootstrap's listener decision: the encrypted listener is bound exactly
/// when TLS was requested and its material loaded; the plaintext listener is
/// always bound.
pub open spec fn listener_plan(
    http_port: u16,
    ssl_requested: bool,
    tls_loaded: bool,
    https_port: u16,
) -> ListenPlan {
    if ssl_requested && tls_loaded {
        ListenPlan::HttpAndHttps(http_port, https_port)
    } else {
        ListenPlan::HttpOnly(http_port)
    }
}

pub fn plan_listeners(http_port: u16, ssl_requested: bool, tls_loaded: bool, https_port: u16) -> (p:
    ListenPlan)
    ensures
        p == listener_plan(http_port, ssl_requested, tls_loaded, https_port),
{
    if ssl_requested && tls_loaded {
        ListenPlan::HttpAndHttps(http_port, https_port)
    } else {
        ListenPlan::HttpOnly(http_port)
    }
}

/// Law (graceful degradation): when TLS was requested but its material could
/// not be loaded, the plan still binds the plaintext listener on its port and
/// binds no encrypted listener.
pub proof fn lemma_tls_degrades_to_http(http_port: u16, https_port: u16)
    ensures
        listener_plan(http_port, true, false, https_port) == ListenPlan::HttpOnly(http_port),
{
}

} // verus!
