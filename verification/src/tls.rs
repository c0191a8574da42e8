//! Loading of TLS server material: a PEM certificate chain and one PKCS#1 or
//! PKCS#8 private key, combined into a reusable server-side context.
//!
//! The PEM decoding and the context construction are done by `rustls_pemfile`
//! and `rustls`; the selection of the key among the decoded items, and the
//! decision which error each input earns, are verified here.

use vstd::prelude::*;

verus! {

/// Why loading the TLS material failed.
#[derive(Clone, Copy, Debug, PartialEq, Eq, Structural)]
pub enum TlsError {
    /// The certificate file was malformed or held no certificate.
    CertificateError,
    /// The key file held no PKCS#1 or PKCS#8 private key.
    KeyError,
    /// The TLS library rejected the chain/key pairing.
    TlsConfigError,
}

/// One item decoded from a PEM file, with its DER bytes.
pub enum PemEntry {
    CertificateEntry(Vec<u8>),
    Pkcs1KeyEntry(Vec<u8>),
    Pkcs8KeyEntry(Vec<u8>),
    /// Any other item kind, or a malformed section: never usable as a key.
    OtherEntry,
}

/// The mathematical model of a decoded PEM item.
pub enum PemItemModel {
    CertificateItem(Seq<u8>),
    Pkcs1KeyItem(Seq<u8>),
    Pkcs8KeyItem(Seq<u8>),
    OtherItem,
}

pub open spec fn entry_model(e: PemEntry) -> PemItemModel {
    match e {
        PemEntry::CertificateEntry(der) => PemItemModel::CertificateItem(der@),
        PemEntry::Pkcs1KeyEntry(der) => PemItemModel::Pkcs1KeyItem(der@),
        PemEntry::Pkcs8KeyEntry(der) => PemItemModel::Pkcs8KeyItem(der@),
        PemEntry::OtherEntry => PemItemModel::OtherItem,
    }
}

pub open spec fn entry_models(s: Seq<PemEntry>) -> Seq<PemItemModel> {
    s.map_values(|e: PemEntry| entry_model(e))
}

/// An item that counts as a usable private key: PKCS#1 or PKCS#8.
pub open spec fn is_key_item(m: PemItemModel) -> bool {
    m is Pkcs1KeyItem || m is Pkcs8KeyItem
}

/// The usable private keys among a sequence of decoded items, in file order.
pub open spec fn keys_of(items: Seq<PemItemModel>) -> Seq<PemItemModel>
    decreases items.len(),
{
    if items.len() == 0 {
        Seq::empty()
    } else if is_key_item(items.last()) {
        keys_of(items.drop_last()).push(items.last())
    } else {
        keys_of(items.drop_last())
    }
}

/// The certificate chain that PEM decoding yields for these bytes: the DER
/// bytes of each certificate section in order, or nothing when a section is
/// malformed.
pub uninterp spec fn pem_certificates(pem: Seq<u8>) -> Option<Seq<Seq<u8>>>;

/// The sequence of items that PEM decoding yields for these bytes.
pub uninterp spec fn pem_items(pem: Seq<u8>) -> Seq<PemItemModel>;

/// Loading fails with `CertificateError` exactly when the certificate bytes
/// decode to no usable chain.
pub open spec fn cert_load_failed(pem: Seq<u8>) -> bool {
    pem_certificates(pem) is None || pem_certificates(pem).unwrap().len() == 0
}

/// The usable keys decoded from the key file bytes.
pub open spec fn usable_keys(pem: Seq<u8>) -> Seq<PemItemModel> {
    keys_of(pem_items(pem))
}

/// Relies on `rustls_pemfile::certs`: decodes every certificate section of
/// the input, in order, failing if a section is malformed; empty input holds
/// no section and decodes to an empty chain.
#[verifier::external_body]
fn parse_certificates(pem: &Vec<u8>) -> (r: Option<Vec<Vec<u8>>>)
    ensures
        r matches Some(v) ==> pem_certificates(pem@) == Some(v.deep_view()),
        r matches None ==> pem_certificates(pem@) is None,
        pem@.len() == 0 ==> r is Some,
        r matches Some(v) ==> pem@.len() == 0 ==> v@.len() == 0,
{
    let mut reader = &pem[..];
    let parsed: Result<Vec<rustls::pki_types::CertificateDer<'static>>, std::io::Error> =
        rustls_pemfile::certs(&mut reader).collect();
    match parsed {
        Ok(certs) => Some(certs.into_iter().map(|c| c.as_ref().to_vec()).collect()),
        Err(_) => None,
    }
}

/// Relies on `rustls_pemfile::read_all`: yields every PEM section of the
/// input in order; a section that is no certificate and no PKCS#1/PKCS#8 key,
/// or that is malformed, comes back as some other item; empty input yields
/// nothing.
#[verifier::external_body]
fn parse_pem_items(pem: &Vec<u8>) -> (r: Vec<PemEntry>)
    ensures
        entry_models(r@) == pem_items(pem@),
        pem@.len() == 0 ==> r@.len() == 0,
{
    let mut reader = &pem[..];
    rustls_pemfile::read_all(&mut reader).map(|item| match item {
        Ok(rustls_pemfile::Item::X509Certificate(c)) => PemEntry::CertificateEntry(
            c.as_ref().to_vec(),
        ),
        Ok(rustls_pemfile::Item::Pkcs1Key(k)) => PemEntry::Pkcs1KeyEntry(
            k.secret_pkcs1_der().to_vec(),
        ),
        Ok(rustls_pemfile::Item::Pkcs8Key(k)) => PemEntry::Pkcs8KeyEntry(
            k.secret_pkcs8_der().to_vec(),
        ),
        Ok(_) => PemEntry::OtherEntry,
        Err(_) => PemEntry::OtherEntry,
    }).collect()
}

#[verifier::external_type_specification]
#[verifier::external_body]
pub struct ExServerConfig(rustls::ServerConfig);

/// Relies on `rustls::ServerConfig::builder` with `with_no_client_auth` and
/// `with_single_cert`: builds a server context from the chain and the key, or
/// reports that the library rejected the pairing; which of the two happens
/// depends on the cryptographic validation alone, so nothing more is claimed.
#[verifier::external_body]
fn build_server_config(certs: &Vec<Vec<u8>>, key: &PemEntry) -> (r: Result<
    rustls::ServerConfig,
    (),
>)
    requires
        is_key_item(entry_model(*key)),
{
    let chain: Vec<rustls::pki_types::CertificateDer<'static>> =
        certs.iter().map(|c| rustls::pki_types::CertificateDer::from(c.clone())).collect();
    let key_der: rustls::pki_types::PrivateKeyDer<'static> = match key {
        PemEntry::Pkcs1KeyEntry(der) => rustls::pki_types::PrivateKeyDer::Pkcs1(
            rustls::pki_types::PrivatePkcs1KeyDer::from(der.clone()),
        ),
        PemEntry::Pkcs8KeyEntry(der) => rustls::pki_types::PrivateKeyDer::Pkcs8(
            rustls::pki_types::PrivatePkcs8KeyDer::from(der.clone()),
        ),
        _ => return Err(()),
    };
    match rustls::ServerConfig::builder().with_no_client_auth().with_single_cert(chain, key_der) {
        Ok(config) => Ok(config),
        Err(_) => Err(()),
    }
}

/// A reusable server-side TLS acceptance context, holding the material it
/// was built from.
pub struct TlsServerContext {
    config: rustls::ServerConfig,
    certificates_model: Ghost<Seq<Seq<u8>>>,
    key_model: Ghost<PemItemModel>,
}

impl TlsServerContext {
    /// The DER bytes of the certificate chain this context was built from.
    pub closed spec fn certificates(&self) -> Seq<Seq<u8>> {
        self.certificates_model@
    }

    /// The private key this context was built from.
    pub closed spec fn key(&self) -> PemItemModel {
        self.key_model@
    }

    /// Hands the underlying library context out, for wrapping into an
    /// acceptor.
    pub fn into_server_config(self) -> rustls::ServerConfig {
        self.config
    }
}

proof fn lemma_keys_of_take_step(items: Seq<PemItemModel>, i: int)
    requires
        0 <= i < items.len(),
    ensures
        keys_of(items.take(i + 1)) == if is_key_item(items[i]) {
            keys_of(items.take(i)).push(items[i])
        } else {
            keys_of(items.take(i))
        },
{
    let t = items.take(i + 1);
    assert(t.drop_last() =~= items.take(i));
    assert(t.last() == items[i]);
}

/// Picks the usable private key among the decoded items: the last PKCS#1 or
/// PKCS#8 key of the file wins, and every other item kind is ignored.
/// Returns the index of the chosen entry, or nothing when the file holds no
/// usable key.
pub fn select_private_key(entries: &Vec<PemEntry>) -> (r: Option<usize>)
    ensures
        (r is None) <==> keys_of(entry_models(entries@)).len() == 0,
        r matches Some(i) ==> i < entries.len() && is_key_item(entry_model(entries@[i as int]))
            && entry_model(entries@[i as int]) == keys_of(entry_models(entries@)).last(),
{
    let models = Ghost(entry_models(entries@));
    let mut best: Option<usize> = None;
    let mut idx: usize = 0;
    proof {
        assert(models@.take(0) =~= Seq::<PemItemModel>::empty());
    }
    while idx < entries.len()
        invariant
            idx <= entries.len(),
            models@ == entry_models(entries@),
            models@.len() == entries@.len(),
            (best is None) <==> keys_of(models@.take(idx as int)).len() == 0,
            best matches Some(b) ==> b < idx && is_key_item(entry_model(entries@[b as int]))
                && entry_model(entries@[b as int]) == keys_of(models@.take(idx as int)).last(),
        decreases entries.len() - idx,
    {
        proof {
            lemma_keys_of_take_step(models@, idx as int);
            assert(models@[idx as int] == entry_model(entries@[idx as int]));
        }
        let e = &entries[idx];
        match e {
            PemEntry::Pkcs1KeyEntry(_) => {
                best = Some(idx);
            },
            PemEntry::Pkcs8KeyEntry(_) => {
                best = Some(idx);
            },
            _ => {},
        }
        idx = idx + 1;
    }
    proof {
        assert(models@.take(entries@.len() as int) =~= models@);
    }
    best
}

/// How many usable private keys — PKCS#1 or PKCS#8 — the bytes of a PEM key
/// file hold. Lets a caller check key material early, before any context is
/// built from it.
pub fn count_usable_keys(key_pem: &Vec<u8>) -> (r: usize)
    ensures
        r == usable_keys(key_pem@).len(),
{
    let entries = parse_pem_items(key_pem);
    let models = Ghost(entry_models(entries@));
    let mut count: usize = 0;
    let mut idx: usize = 0;
    proof {
        assert(models@.take(0) =~= Seq::<PemItemModel>::empty());
    }
    while idx < entries.len()
        invariant
            idx <= entries.len(),
            models@ == entry_models(entries@),
            models@.len() == entries@.len(),
            count <= idx,
            count == keys_of(models@.take(idx as int)).len(),
        decreases entries.len() - idx,
    {
        proof {
            lemma_keys_of_take_step(models@, idx as int);
            assert(models@[idx as int] == entry_model(entries@[idx as int]));
        }
        let e = &entries[idx];
        match e {
            PemEntry::Pkcs1KeyEntry(_) => {
                count = count + 1;
            },
            PemEntry::Pkcs8KeyEntry(_) => {
                count = count + 1;
            },
            _ => {},
        }
        idx = idx + 1;
    }
    proof {
        assert(models@.take(entries@.len() as int) =~= models@);
    }
    count
}

/// Builds the server-side TLS context from the bytes of a PEM certificate
/// file and a PEM key file.
///
/// Fails with `CertificateError` when the certificate bytes are malformed or
/// hold no certificate; otherwise with `KeyError` when the key bytes hold no
/// PKCS#1 or PKCS#8 private key; otherwise the library validates the pairing
/// of the chain with the last usable key of the key file, and a context built
/// from exactly that material comes back, or `TlsConfigError` when the
/// library rejects the pairing.
pub fn load_tls_config(cert_pem: &Vec<u8>, key_pem: &Vec<u8>) -> (r: Result<
    TlsServerContext,
    TlsError,
>)
    ensures
        cert_pem@.len() == 0 ==> r matches Err(TlsError::CertificateError),
        cert_pem@.len() > 0 && key_pem@.len() == 0 && !cert_load_failed(cert_pem@) ==> r matches Err(
            TlsError::KeyError,
        ),
        (r matches Err(TlsError::CertificateError)) <==> cert_load_failed(cert_pem@),
        (r matches Err(TlsError::KeyError)) <==> (!cert_load_failed(cert_pem@) && usable_keys(
            key_pem@,
        ).len() == 0),
        (r matches Err(TlsError::TlsConfigError)) ==> (!cert_load_failed(cert_pem@)
            && usable_keys(key_pem@).len() > 0),
        r matches Ok(ctx) ==> (!cert_load_failed(cert_pem@) && usable_keys(key_pem@).len() > 0
            && Some(ctx.certificates()) == pem_certificates(cert_pem@) && ctx.key()
            == usable_keys(key_pem@).last()),
{
    let certs = match parse_certificates(cert_pem) {
        Some(v) => v,
        None => {
            return Err(TlsError::CertificateError);
        },
    };
    if certs.len() == 0 {
        return Err(TlsError::CertificateError);
    }
    let entries = parse_pem_items(key_pem);
    let key_index = match select_private_key(&entries) {
        Some(i) => i,
        None => {
            return Err(TlsError::KeyError);
        },
    };
    match build_server_config(&certs, &entries[key_index]) {
        Ok(config) => Ok(
            TlsServerContext {
                config,
                certificates_model: Ghost(certs.deep_view()),
                key_model: Ghost(entry_model(entries@[key_index as int])),
            },
        ),
        Err(_) => Err(TlsError::TlsConfigError),
    }
}

} // verus!
