use vstd::prelude::*;

verus! {

/// Why the TLS credentials could not be put together at startup.
#[derive(Debug, Clone, Copy, PartialEq, Eq, Structural)]
pub enum StartupError {
    /// The certificate file is not well-formed PEM.
    MalformedCertificates,
    /// The key file is not well-formed PEM.
    MalformedKeys,
    /// The key file held no PKCS#8 private key.
    NoPrivateKey,
    /// The certificate file held no certificate.
    EmptyChain,
}

impl StartupError {
    /// The exit code of the process that stops on this error.
    pub fn exit_code(&self) -> (r: i32)
        ensures
            r == 1,
    {
        1
    }
}

/// The credentials of the TLS listener: a certificate chain, in the order in
/// which the file lists it, and the one private key bound to its first entry.
pub struct Credentials {
    pub chain: Vec<Vec<u8>>,
    pub key: Vec<u8>,
}

/// The mathematical model of the credentials.
pub struct CredentialsView {
    pub chain: Seq<Seq<u8>>,
    pub key: Seq<u8>,
}

/// The byte contents of a list of DER entries.
pub open spec fn der_entries(v: Seq<Vec<u8>>) -> Seq<Seq<u8>> {
    v.map_values(|e: Vec<u8>| e@)
}

/// The byte contents of the entries of a parse that succeeded.
pub open spec fn entries_of(r: Option<Vec<Vec<u8>>>) -> Option<Seq<Seq<u8>>> {
    match r {
        Some(v) => Some(der_entries(v@)),
        None => None,
    }
}

impl View for Credentials {
    type V = CredentialsView;

    open spec fn view(&self) -> CredentialsView {
        CredentialsView { chain: der_entries(self.chain@), key: self.key@ }
    }
}

/// The view of a result of credential loading.
pub open spec fn outcome_view(r: Result<Credentials, StartupError>) -> Result<
    CredentialsView,
    StartupError,
> {
    match r {
        Ok(c) => Ok(c@),
        Err(e) => Err(e),
    }
}

/// The credentials made of the certificates `chain` and the private keys
/// `keys`: the whole chain and the first key. No key is checked first.
pub open spec fn credentials_of(chain: Seq<Seq<u8>>, keys: Seq<Seq<u8>>) -> Result<
    CredentialsView,
    StartupError,
> {
    if keys.len() == 0 {
        Err(StartupError::NoPrivateKey)
    } else if chain.len() == 0 {
        Err(StartupError::EmptyChain)
    } else {
        Ok(CredentialsView { chain, key: keys[0] })
    }
}

/// The DER certificates that a PEM text holds, in order, or `None` where the
/// text is not well-formed PEM.
pub uninterp spec fn pem_certificates(pem: Seq<u8>) -> Option<Seq<Seq<u8>>>;

/// The DER PKCS#8 private keys that a PEM text holds, in order, or `None`
/// where the text is not well-formed PEM.
pub uninterp spec fn pem_pkcs8_keys(pem: Seq<u8>) -> Option<Seq<Seq<u8>>>;

/// The credentials loaded from the text of the certificate file and of the
/// key file.
pub open spec fn loaded_credentials(cert_pem: Seq<u8>, key_pem: Seq<u8>) -> Result<
    CredentialsView,
    StartupError,
> {
    match pem_certificates(cert_pem) {
        None => Err(StartupError::MalformedCertificates),
        Some(chain) => match pem_pkcs8_keys(key_pem) {
            None => Err(StartupError::MalformedKeys),
            Some(keys) => credentials_of(chain, keys),
        },
    }
}

/// Relies on rustls_pemfile::certs: read from a byte slice, which cannot fail
/// to read, it returns the contents of every CERTIFICATE section in order, or
/// an error where the PEM is malformed; empty input holds no section.
#[verifier::external_body]
fn parse_certificates(pem: &[u8]) -> (r: Option<Vec<Vec<u8>>>)
    ensures
        entries_of(r) == pem_certificates(pem@),
        pem@.len() == 0 ==> entries_of(r) == Some(Seq::<Seq<u8>>::empty()),
{
    let mut rd: &[u8] = pem;
    rustls_pemfile::certs(&mut rd).ok()
}

/// Relies on rustls_pemfile::pkcs8_private_keys: read from a byte slice, it
/// returns the contents of every PRIVATE KEY section in order, or an error
/// where the PEM is malformed; empty input holds no section.
#[verifier::external_body]
fn parse_pkcs8_keys(pem: &[u8]) -> (r: Option<Vec<Vec<u8>>>)
    ensures
        entries_of(r) == pem_pkcs8_keys(pem@),
        pem@.len() == 0 ==> entries_of(r) == Some(Seq::<Seq<u8>>::empty()),
{
    let mut rd: &[u8] = pem;
    rustls_pemfile::pkcs8_private_keys(&mut rd).ok()
}

/// Puts together the credentials from the DER entries parsed out of the
/// certificate file (`chain`) and out of the key file (`keys`).
///
/// The first key is taken and any others are dropped. With no key at all the
/// result is `NoPrivateKey`; with keys but no certificate, `EmptyChain`.
pub fn select_credentials(chain: Vec<Vec<u8>>, keys: Vec<Vec<u8>>) -> (r: Result<
    Credentials,
    StartupError,
>)
    ensures
        outcome_view(r) == credentials_of(der_entries(chain@), der_entries(keys@)),
        r matches Ok(c) ==> c.chain@ == chain@,
{
    if keys.len() == 0 {
        return Err(StartupError::NoPrivateKey);
    }
    if chain.len() == 0 {
        return Err(StartupError::EmptyChain);
    }
    let mut keys = keys;
    let key = keys.remove(0);
    Ok(Credentials { chain, key })
}

/// Loads the credentials from the text of the certificate file and of the
/// key file.
pub fn load_credentials(cert_pem: &[u8], key_pem: &[u8]) -> (r: Result<
    Credentials,
    StartupError,
>)
    ensures
        outcome_view(r) == loaded_credentials(cert_pem@, key_pem@),
{
    let chain = match parse_certificates(cert_pem) {
        Some(c) => c,
        None => return Err(StartupError::MalformedCertificates),
    };
    let keys = match parse_pkcs8_keys(key_pem) {
        Some(k) => k,
        None => return Err(StartupError::MalformedKeys),
    };
    select_credentials(chain, keys)
}

/// A key file with no key stops the startup, with exit code 1, whatever the
/// certificate file holds.
pub proof fn lemma_no_key_is_fatal(cert_pem: Seq<u8>, key_pem: Seq<u8>)
    requires
        pem_certificates(cert_pem) is Some,
        pem_pkcs8_keys(key_pem) == Some(Seq::<Seq<u8>>::empty()),
    ensures
        loaded_credentials(cert_pem, key_pem) == Err::<CredentialsView, StartupError>(
            StartupError::NoPrivateKey,
        ),
{
}

} // verus!
