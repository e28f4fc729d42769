//! What the TLS listeners need: a certificate chain and a private key, from PEM files.

use vstd::prelude::*;

verus! {

/// The contents of the certificates in a PEM file, or the error on the way to them.
pub uninterp spec fn pem_certificates(pem: Seq<u8>) -> Result<Seq<Seq<u8>>, Seq<char>>;

/// The first PKCS#8 private key in a PEM file, or the error on the way to it.
pub uninterp spec fn pem_pkcs8_key(pem: Seq<u8>) -> Option<Result<Seq<u8>, Seq<char>>>;

/// The first RSA (PKCS#1) private key in a PEM file, or the error on the way to it.
pub uninterp spec fn pem_rsa_key(pem: Seq<u8>) -> Option<Result<Seq<u8>, Seq<char>>>;

/// The contents of a list of byte vectors.
pub open spec fn contents(v: Seq<Vec<u8>>) -> Seq<Seq<u8>> {
    v.map_values(|b: Vec<u8>| b@)
}

/// What a list of certificates, or an error, says.
pub open spec fn certs_view(r: Result<Vec<Vec<u8>>, String>) -> Result<Seq<Seq<u8>>, Seq<char>> {
    match r {
        Ok(v) => Ok(contents(v@)),
        Err(e) => Err(e@),
    }
}

/// What a key, or an error, says.
pub open spec fn key_view(r: Option<Result<Vec<u8>, String>>) -> Option<
    Result<Seq<u8>, Seq<char>>,
> {
    match r {
        Some(Ok(k)) => Some(Ok(k@)),
        Some(Err(e)) => Some(Err(e@)),
        None => None,
    }
}

/// `rustls_pemfile::certs`, collected up to the first error: the certificates and the text of
/// the error depend on the bytes alone.
#[verifier::external_body]
fn read_certs(pem: &[u8]) -> (r: Result<Vec<Vec<u8>>, String>)
    ensures
        certs_view(r) == pem_certificates(pem@),
{
    let mut rest = pem;
    rustls_pemfile::certs(&mut rest)
        .map(|c| c.map(|der| der.to_vec()).map_err(|e| e.to_string()))
        .collect()
}

/// The first item of `rustls_pemfile::pkcs8_private_keys`: the key or the text of the error
/// depends on the bytes alone.
#[verifier::external_body]
fn read_pkcs8_key(pem: &[u8]) -> (r: Option<Result<Vec<u8>, String>>)
    ensures
        key_view(r) == pem_pkcs8_key(pem@),
{
    let mut rest = pem;
    let first = rustls_pemfile::pkcs8_private_keys(&mut rest).next();
    first.map(|k| k.map(|der| der.secret_pkcs8_der().to_vec()).map_err(|e| e.to_string()))
}

/// The first item of `rustls_pemfile::rsa_private_keys`: the key or the text of the error
/// depends on the bytes alone.
#[verifier::external_body]
fn read_rsa_key(pem: &[u8]) -> (r: Option<Result<Vec<u8>, String>>)
    ensures
        key_view(r) == pem_rsa_key(pem@),
{
    let mut rest = pem;
    let first = rustls_pemfile::rsa_private_keys(&mut rest).next();
    first.map(|k| k.map(|der| der.secret_pkcs1_der().to_vec()).map_err(|e| e.to_string()))
}

/// A private key in one of the formats that are understood.
pub enum PrivateKey {
    Pkcs8(Vec<u8>),
    Pkcs1(Vec<u8>),
}

/// What a `PrivateKey` says.
pub enum PrivateKeyView {
    Pkcs8(Seq<u8>),
    Pkcs1(Seq<u8>),
}

impl View for PrivateKey {
    type V = PrivateKeyView;

    open spec fn view(&self) -> PrivateKeyView {
        match self {
            PrivateKey::Pkcs8(k) => PrivateKeyView::Pkcs8(k@),
            PrivateKey::Pkcs1(k) => PrivateKeyView::Pkcs1(k@),
        }
    }
}

/// A certificate chain (server certificate first) and its private key.
pub struct Identity {
    pub cert_chain: Vec<Vec<u8>>,
    pub private_key: PrivateKey,
}

/// Why TLS cannot be configured.
pub enum TlsError {
    /// The certificate file cannot be opened.
    CertFile,
    /// The certificates cannot be parsed.
    BadCerts(String),
    /// There are no certificates.
    NoCertificates,
    /// The key file cannot be opened.
    KeyFile,
    /// The first PKCS#8 key cannot be parsed.
    BadPkcs8Key(String),
    /// The first RSA key cannot be parsed.
    BadRsaKey(String),
    /// There is no private key.
    NoPrivateKey,
}

/// What a `TlsError` says.
pub enum TlsErrorView {
    CertFile,
    BadCerts(Seq<char>),
    NoCertificates,
    KeyFile,
    BadPkcs8Key(Seq<char>),
    BadRsaKey(Seq<char>),
    NoPrivateKey,
}

impl View for TlsError {
    type V = TlsErrorView;

    open spec fn view(&self) -> TlsErrorView {
        match self {
            TlsError::CertFile => TlsErrorView::CertFile,
            TlsError::BadCerts(e) => TlsErrorView::BadCerts(e@),
            TlsError::NoCertificates => TlsErrorView::NoCertificates,
            TlsError::KeyFile => TlsErrorView::KeyFile,
            TlsError::BadPkcs8Key(e) => TlsErrorView::BadPkcs8Key(e@),
            TlsError::BadRsaKey(e) => TlsErrorView::BadRsaKey(e@),
            TlsError::NoPrivateKey => TlsErrorView::NoPrivateKey,
        }
    }
}

/// The certificate chain to use.
pub open spec fn chain_of(certs: Result<Seq<Seq<u8>>, Seq<char>>) -> Result<
    Seq<Seq<u8>>,
    TlsErrorView,
> {
    match certs {
        Ok(chain) => if chain.len() == 0 {
            Err(TlsErrorView::NoCertificates)
        } else {
            Ok(chain)
        },
        Err(e) => Err(TlsErrorView::BadCerts(e)),
    }
}

/// The private key to use: the PKCS#8 key if there is one, else the RSA key.
pub open spec fn key_of(
    pkcs8: Option<Result<Seq<u8>, Seq<char>>>,
    rsa: Option<Result<Seq<u8>, Seq<char>>>,
) -> Result<PrivateKeyView, TlsErrorView> {
    match pkcs8 {
        Some(Ok(k)) => Ok(PrivateKeyView::Pkcs8(k)),
        Some(Err(e)) => Err(TlsErrorView::BadPkcs8Key(e)),
        None => match rsa {
            Some(Ok(k)) => Ok(PrivateKeyView::Pkcs1(k)),
            Some(Err(e)) => Err(TlsErrorView::BadRsaKey(e)),
            None => Err(TlsErrorView::NoPrivateKey),
        },
    }
}

/// The identity in a certificate file and a key file, or what is wrong with them: first what
/// is wrong with the certificates, then what is wrong with the key.
pub open spec fn identity_in(cert_pem: Option<Seq<u8>>, key_pem: Option<Seq<u8>>) -> Result<
    (Seq<Seq<u8>>, PrivateKeyView),
    TlsErrorView,
> {
    match cert_pem {
        Some(pem) => match chain_of(pem_certificates(pem)) {
            Ok(chain) => match key_pem {
                Some(pem) => match key_of(pem_pkcs8_key(pem), pem_rsa_key(pem)) {
                    Ok(key) => Ok((chain, key)),
                    Err(e) => Err(e),
                },
                None => Err(TlsErrorView::KeyFile),
            },
            Err(e) => Err(e),
        },
        None => Err(TlsErrorView::CertFile),
    }
}

/// Takes the certificate chain from the certificates found.
pub fn take_chain(certs: Result<Vec<Vec<u8>>, String>) -> (r: Result<Vec<Vec<u8>>, TlsError>)
    ensures
        match r {
            Ok(chain) => chain_of(certs_view(certs)) == Ok::<Seq<Seq<u8>>, TlsErrorView>(
                contents(chain@),
            ),
            Err(e) => chain_of(certs_view(certs)) == Err::<Seq<Seq<u8>>, TlsErrorView>(e@),
        },
{
    match certs {
        Ok(chain) => if chain.len() == 0 {
            Err(TlsError::NoCertificates)
        } else {
            Ok(chain)
        },
        Err(e) => Err(TlsError::BadCerts(e)),
    }
}

/// Takes the private key from the keys found: tries PKCS#8 first, then RSA (PKCS#1).
pub fn take_key(pkcs8: Option<Result<Vec<u8>, String>>, rsa: Option<Result<Vec<u8>, String>>)
    -> (r: Result<PrivateKey, TlsError>)
    ensures
        match r {
            Ok(k) => key_of(key_view(pkcs8), key_view(rsa)) == Ok::<PrivateKeyView, TlsErrorView>(
                k@,
            ),
            Err(e) => key_of(key_view(pkcs8), key_view(rsa)) == Err::<
                PrivateKeyView,
                TlsErrorView,
            >(e@),
        },
{
    match pkcs8 {
        Some(Ok(k)) => Ok(PrivateKey::Pkcs8(k)),
        Some(Err(e)) => Err(TlsError::BadPkcs8Key(e)),
        None => match rsa {
            Some(Ok(k)) => Ok(PrivateKey::Pkcs1(k)),
            Some(Err(e)) => Err(TlsError::BadRsaKey(e)),
            None => Err(TlsError::NoPrivateKey),
        },
    }
}

/// Loads the identity of a TLS server from the contents of a certificate file and a key file;
/// `None` stands for a file that cannot be opened. The certificate file may contain a chain
/// (server certificate first, then intermediates).
pub fn build_tls_config(cert_pem: Option<&[u8]>, key_pem: Option<&[u8]>) -> (r: Result<
    Identity,
    TlsError,
>)
    ensures
        ({
            let cert = match cert_pem {
                Some(b) => Some(b@),
                None => None,
            };
            let key = match key_pem {
                Some(b) => Some(b@),
                None => None,
            };
            match r {
                Ok(id) => identity_in(cert, key) == Ok::<
                    (Seq<Seq<u8>>, PrivateKeyView),
                    TlsErrorView,
                >((contents(id.cert_chain@), id.private_key@)),
                Err(e) => identity_in(cert, key) == Err::<
                    (Seq<Seq<u8>>, PrivateKeyView),
                    TlsErrorView,
                >(e@),
            }
        }),
{
    let cert_chain = match cert_pem {
        Some(pem) => match take_chain(read_certs(pem)) {
            Ok(chain) => chain,
            Err(e) => return Err(e),
        },
        None => return Err(TlsError::CertFile),
    };
    match key_pem {
        Some(pem) => match take_key(read_pkcs8_key(pem), read_rsa_key(pem)) {
            Ok(private_key) => Ok(Identity { cert_chain, private_key }),
            Err(e) => Err(e),
        },
        None => Err(TlsError::KeyFile),
    }
}

/// A PKCS#8 key takes precedence over an RSA key, and there is always a certificate in a
/// chain.
pub proof fn law_identity_is_usable(cert_pem: Seq<u8>, key_pem: Seq<u8>)
    ensures
        identity_in(Some(cert_pem), Some(key_pem)) matches Ok((chain, key)) ==> {
            &&& chain.len() > 0
            &&& key is Pkcs8 <==> pem_pkcs8_key(key_pem) is Some
        },
{
}

/// The identity of a server is the whole chain of the certificate file, in its order, and the
/// first key of the key file, byte by byte.
pub proof fn law_identity_is_that_of_the_files(cert_pem: Seq<u8>, key_pem: Seq<u8>)
    ensures
        identity_in(Some(cert_pem), Some(key_pem)) matches Ok((chain, key)) ==> {
            &&& pem_certificates(cert_pem) == Ok::<Seq<Seq<u8>>, Seq<char>>(chain)
            &&& key matches PrivateKeyView::Pkcs8(k) ==> pem_pkcs8_key(key_pem) == Some(
                Ok::<Seq<u8>, Seq<char>>(k),
            )
            &&& key matches PrivateKeyView::Pkcs1(k) ==> pem_pkcs8_key(key_pem) is None
                && pem_rsa_key(key_pem) == Some(Ok::<Seq<u8>, Seq<char>>(k))
        },
{
}

/// Two files that hold a certificate and a readable key make an identity.
pub proof fn law_readable_files_make_an_identity(
    cert_pem: Seq<u8>,
    key_pem: Seq<u8>,
    chain: Seq<Seq<u8>>,
    k: Seq<u8>,
)
    requires
        pem_certificates(cert_pem) == Ok::<Seq<Seq<u8>>, Seq<char>>(chain),
        chain.len() > 0,
    ensures
        pem_pkcs8_key(key_pem) == Some(Ok::<Seq<u8>, Seq<char>>(k)) ==> identity_in(
            Some(cert_pem),
            Some(key_pem),
        ) == Ok::<(Seq<Seq<u8>>, PrivateKeyView), TlsErrorView>((chain, PrivateKeyView::Pkcs8(k))),
        pem_pkcs8_key(key_pem) is None && pem_rsa_key(key_pem) == Some(
            Ok::<Seq<u8>, Seq<char>>(k),
        ) ==> identity_in(Some(cert_pem), Some(key_pem)) == Ok::<
            (Seq<Seq<u8>>, PrivateKeyView),
            TlsErrorView,
        >((chain, PrivateKeyView::Pkcs1(k))),
{
}

/// What is wrong with the files is told with the first fault: of the certificates before the
/// key, and with the parser's own words.
pub proof fn law_faults_are_told(cert_pem: Seq<u8>, key_pem: Option<Seq<u8>>, e: Seq<char>)
    ensures
        identity_in(None, key_pem) == Err::<(Seq<Seq<u8>>, PrivateKeyView), TlsErrorView>(
            TlsErrorView::CertFile,
        ),
        pem_certificates(cert_pem) == Err::<Seq<Seq<u8>>, Seq<char>>(e) ==> identity_in(
            Some(cert_pem),
            key_pem,
        ) == Err::<(Seq<Seq<u8>>, PrivateKeyView), TlsErrorView>(TlsErrorView::BadCerts(e)),
        pem_certificates(cert_pem) matches Ok(chain) ==> {
            &&& chain.len() == 0 ==> identity_in(Some(cert_pem), key_pem) == Err::<
                (Seq<Seq<u8>>, PrivateKeyView),
                TlsErrorView,
            >(TlsErrorView::NoCertificates)
            &&& chain.len() > 0 && key_pem is None ==> identity_in(Some(cert_pem), key_pem) == Err::<
                (Seq<Seq<u8>>, PrivateKeyView),
                TlsErrorView,
            >(TlsErrorView::KeyFile)
            &&& key_pem matches Some(k) ==> chain.len() > 0 ==> {
                &&& pem_pkcs8_key(k) == Some(Err::<Seq<u8>, Seq<char>>(e)) ==> identity_in(
                    Some(cert_pem),
                    key_pem,
                ) == Err::<(Seq<Seq<u8>>, PrivateKeyView), TlsErrorView>(
                    TlsErrorView::BadPkcs8Key(e),
                )
                &&& pem_pkcs8_key(k) is None && pem_rsa_key(k) == Some(
                    Err::<Seq<u8>, Seq<char>>(e),
                ) ==> identity_in(Some(cert_pem), key_pem) == Err::<
                    (Seq<Seq<u8>>, PrivateKeyView),
                    TlsErrorView,
                >(TlsErrorView::BadRsaKey(e))
                &&& pem_pkcs8_key(k) is None && pem_rsa_key(k) is None ==> identity_in(
                    Some(cert_pem),
                    key_pem,
                ) == Err::<(Seq<Seq<u8>>, PrivateKeyView), TlsErrorView>(
                    TlsErrorView::NoPrivateKey,
                )
            }
        },
{
}

} // verus!
