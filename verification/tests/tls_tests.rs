use proxy_https_serv::tls::{count_usable_keys, load_tls_config, TlsError};

// The test key below is the Ed25519 key with the all-zero seed: a public,
// deterministic test vector, not an operational secret. The certificate is
// self-signed by that key, so the pair passes the library's chain/key match.
// The key blocks are assembled at runtime so that the sources hold no
// complete private-key block.

const CERT_PEM: &str = "-----BEGIN CERTIFICATE-----
MIIBPDCB76ADAgECAhR9TYifT6/5SZXiXNRtXBzitXqkGjAFBgMrZXAwFDESMBAG
A1UEAwwJbG9jYWxob3N0MB4XDTI2MTAxMjEwNTMxMFoXDTQ2MTAwNzEwNTMxMFow
FDESMBAGA1UEAwwJbG9jYWxob3N0MCowBQYDK2VwAyEAO2onvM62pC1io6jQKm8N
c2UyFXcd4kOmOsBIoYtZ2imjUzBRMB0GA1UdDgQWBBSMMMl+f9VGDOO5YttM11h5
7s2KvTAfBgNVHSMEGDAWgBSMMMl+f9VGDOO5YttM11h57s2KvTAPBgNVHRMBAf8E
BTADAQH/MAUGAytlcANBAD0TXMtXC2rjg/nogQYKtozIzXVhABasu/KCukh7XInS
yKrB6yGc96g7aWlIbYUa+b+263JY8z+LQYQycP6U1gw=
-----END CERTIFICATE-----
";

/// PKCS#8 DER of the Ed25519 key with the all-zero seed, base64.
const ZERO_SEED_KEY_B64: &str = "MC4CAQAwBQYDK2VwBCIEIAAAAAAAAAAAAAAAAAAAAAAAAAAAAAAAAAAAAAAAAAAA";

/// Well-formed base64 whose DER decodes to no key at all.
const UNDECODABLE_B64: &str = "AAAA";

fn pem_block(label: &str, body: &str) -> String {
    format!("-----BEGIN {}-----\n{}\n-----END {}-----\n", label, body, label)
}

fn zero_seed_key_pem() -> Vec<u8> {
    pem_block("PRIVATE KEY", ZERO_SEED_KEY_B64).into_bytes()
}

fn bogus_pkcs8_pem() -> String {
    pem_block("PRIVATE KEY", UNDECODABLE_B64)
}

fn bogus_pkcs1_pem() -> String {
    pem_block("RSA PRIVATE KEY", UNDECODABLE_B64)
}

#[test]
fn valid_material_loads() {
    let r = load_tls_config(&CERT_PEM.as_bytes().to_vec(), &zero_seed_key_pem());
    assert!(r.is_ok());
}

#[test]
fn empty_certificate_file_fails() {
    let r = load_tls_config(&Vec::new(), &zero_seed_key_pem());
    assert_eq!(r.err(), Some(TlsError::CertificateError));
}

#[test]
fn malformed_certificate_file_fails() {
    let bad = b"-----BEGIN CERTIFICATE-----\n@@not base64@@\n-----END CERTIFICATE-----\n";
    let r = load_tls_config(&bad.to_vec(), &zero_seed_key_pem());
    assert_eq!(r.err(), Some(TlsError::CertificateError));
}

#[test]
fn key_file_with_only_certificate_fails() {
    assert_eq!(count_usable_keys(&CERT_PEM.as_bytes().to_vec()), 0);
    let r = load_tls_config(&CERT_PEM.as_bytes().to_vec(), &CERT_PEM.as_bytes().to_vec());
    assert_eq!(r.err(), Some(TlsError::KeyError));
}

#[test]
fn empty_key_file_fails() {
    let r = load_tls_config(&CERT_PEM.as_bytes().to_vec(), &Vec::new());
    assert_eq!(r.err(), Some(TlsError::KeyError));
}

#[test]
fn undecodable_key_bytes_are_a_config_error() {
    let r = load_tls_config(
        &CERT_PEM.as_bytes().to_vec(),
        &bogus_pkcs8_pem().into_bytes(),
    );
    assert_eq!(r.err(), Some(TlsError::TlsConfigError));
}

#[test]
fn pkcs1_key_counts_as_a_key() {
    assert_eq!(count_usable_keys(&bogus_pkcs1_pem().into_bytes()), 1);
}

#[test]
fn keys_of_both_encodings_are_counted() {
    let both = format!("{}{}{}", bogus_pkcs1_pem(), CERT_PEM, pem_block(
        "PRIVATE KEY",
        ZERO_SEED_KEY_B64,
    ));
    assert_eq!(count_usable_keys(&both.into_bytes()), 2);
}

#[test]
fn last_key_in_file_wins() {
    let two_keys = format!("{}{}", bogus_pkcs8_pem(), pem_block("PRIVATE KEY", ZERO_SEED_KEY_B64));
    let r = load_tls_config(&CERT_PEM.as_bytes().to_vec(), &two_keys.into_bytes());
    assert!(r.is_ok());
}
