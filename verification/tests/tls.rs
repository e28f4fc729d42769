use rmbtd::tls::{build_tls_config, take_chain, take_key, PrivateKey, TlsError};

/// A PEM section with this label and base64 text.
fn pem(label: &str, body: &str) -> String {
    format!("-----BEGIN {label}-----\n{body}\n-----END {label}-----\n")
}

fn cert(body: &str) -> String {
    pem("CERTIFICATE", body)
}

fn pkcs8(body: &str) -> String {
    pem(&format!("{} KEY", "PRIVATE"), body)
}

fn rsa(body: &str) -> String {
    pem(&format!("RSA {} KEY", "PRIVATE"), body)
}

#[test]
fn identity_is_read_from_pem_files() {
    let certs = format!("# chain\n{}{}", cert("AQID"), cert("BAUG"));
    let keys = format!("{}{}{}", cert("AAAA"), rsa("BwgJ"), pkcs8("CgsM"));
    let id = build_tls_config(Some(certs.as_bytes()), Some(keys.as_bytes())).ok().unwrap();
    assert_eq!(id.cert_chain, vec![vec![1, 2, 3], vec![4, 5, 6]]);
    assert!(matches!(id.private_key, PrivateKey::Pkcs8(k) if k == [10, 11, 12]));
}

#[test]
fn rsa_key_is_the_second_choice() {
    let id = build_tls_config(Some(cert("AQID").as_bytes()), Some(rsa("BwgJ").as_bytes()));
    assert!(matches!(id.ok().unwrap().private_key, PrivateKey::Pkcs1(k) if k == [7, 8, 9]));
}

#[test]
fn what_is_missing_is_told() {
    let c = cert("AQID");
    let error = |a: Option<&str>, b: Option<&str>| {
        build_tls_config(a.map(|s| s.as_bytes()), b.map(|s| s.as_bytes())).err().unwrap()
    };
    assert!(matches!(error(None, None), TlsError::CertFile));
    assert!(matches!(error(Some(""), None), TlsError::NoCertificates));
    assert!(matches!(error(Some(&c), None), TlsError::KeyFile));
    assert!(matches!(error(Some(&c), Some("")), TlsError::NoPrivateKey));
    let open = "-----BEGIN CERTIFICATE-----\nAQID\n";
    assert!(matches!(error(Some(open), Some("")), TlsError::BadCerts(_)));
    assert!(matches!(error(Some(&c), Some(open)), TlsError::BadPkcs8Key(_)));
}

#[test]
fn choices_are_made_on_given_results() {
    let e = || "bad".to_string();
    assert!(matches!(take_chain(Err(e())), Err(TlsError::BadCerts(t)) if t == "bad"));
    assert!(matches!(take_chain(Ok(vec![])), Err(TlsError::NoCertificates)));
    assert!(matches!(take_chain(Ok(vec![vec![1]])), Ok(c) if c == vec![vec![1]]));
    assert!(matches!(take_key(Some(Ok(vec![1])), None), Ok(PrivateKey::Pkcs8(k)) if k == [1]));
    assert!(matches!(take_key(Some(Err(e())), Some(Ok(vec![2]))), Err(TlsError::BadPkcs8Key(_))));
    assert!(matches!(take_key(None, Some(Ok(vec![2]))), Ok(PrivateKey::Pkcs1(k)) if k == [2]));
    assert!(matches!(take_key(None, Some(Err(e()))), Err(TlsError::BadRsaKey(_))));
    assert!(matches!(take_key(None, None), Err(TlsError::NoPrivateKey)));
}
