use vstd::prelude::*;
use rustls_pemfile::Item;

verus! {

/// One section of a PEM file, with its DER contents.
#[derive(Debug, PartialEq, Eq)]
pub enum PemSection {
    Certificate(Vec<u8>),
    RsaKey(Vec<u8>),
    Pkcs8Key(Vec<u8>),
    EcKey(Vec<u8>),
    Crl(Vec<u8>),
    /// A kind of section that this library does not know.
    Other,
}

/// Kind tags of the sections, in the order of `PemSection`'s variants.
pub const CERTIFICATE: u8 = 0;
pub const RSA_KEY: u8 = 1;
pub const PKCS8_KEY: u8 = 2;
pub const EC_KEY: u8 = 3;
pub const CRL: u8 = 4;
pub const OTHER: u8 = 5;

impl View for PemSection {
    type V = (u8, Seq<u8>);

    open spec fn view(&self) -> (u8, Seq<u8>) {
        match self {
            PemSection::Certificate(d) => (CERTIFICATE, d@),
            PemSection::RsaKey(d) => (RSA_KEY, d@),
            PemSection::Pkcs8Key(d) => (PKCS8_KEY, d@),
            PemSection::EcKey(d) => (EC_KEY, d@),
            PemSection::Crl(d) => (CRL, d@),
            PemSection::Other => (OTHER, Seq::empty()),
        }
    }
}

/// Why key material could not be had from a PEM file.
#[derive(Debug, Clone, Copy, PartialEq, Eq, Structural)]
pub enum ConfigError {
    /// The PEM text does not parse.
    InvalidPem,
    /// The file holds no unencrypted RSA or PKCS#8 private key.
    MissingKey,
}

/// What `rustls_pemfile::read_all` finds in `pem`: each section as its kind
/// tag and DER contents, in file order; `None` where it reports an error.
pub uninterp spec fn pem_sections_of(pem: Seq<u8>) -> Option<Seq<(u8, Seq<u8>)>>;

/// Relies on `rustls_pemfile::read_all`: the sections of the PEM text in file
/// order, or an error.
#[verifier::external_body]
fn read_pem_sections(pem: &[u8]) -> (r: Option<Vec<PemSection>>)
    ensures
        match pem_sections_of(pem@) {
            None => r is None,
            Some(s) => r matches Some(v) && v@.map_values(|x: PemSection| x@) == s,
        },
{
    let items = rustls_pemfile::read_all(&mut &pem[..]).ok()?;
    Some(items.into_iter().map(|item| match item {
        Item::X509Certificate(d) => PemSection::Certificate(d),
        Item::RSAKey(d) => PemSection::RsaKey(d),
        Item::PKCS8Key(d) => PemSection::Pkcs8Key(d),
        Item::ECKey(d) => PemSection::EcKey(d),
        Item::Crl(d) => PemSection::Crl(d),
        _ => PemSection::Other,
    }).collect())
}

/// The certificates among `s`, in order.
pub open spec fn certs_in(s: Seq<(u8, Seq<u8>)>) -> Seq<Seq<u8>>
    decreases s.len(),
{
    if s.len() == 0 {
        Seq::empty()
    } else if s.last().0 == CERTIFICATE {
        certs_in(s.drop_last()).push(s.last().1)
    } else {
        certs_in(s.drop_last())
    }
}

/// Whether a section of kind `kind` is a private key the proxy can use.
pub open spec fn is_usable_key(kind: u8) -> bool {
    kind == RSA_KEY || kind == PKCS8_KEY
}

/// The first usable private key in `s` at or after `from`.
pub open spec fn first_key_from(s: Seq<(u8, Seq<u8>)>, from: int) -> Option<Seq<u8>>
    decreases s.len() - from,
{
    if from < 0 || from >= s.len() {
        None
    } else if is_usable_key(s[from].0) {
        Some(s[from].1)
    } else {
        first_key_from(s, from + 1)
    }
}

/// The DER contents of the certificates among `sections`, in order.
pub fn collect_certificates(sections: Vec<PemSection>) -> (r: Vec<Vec<u8>>)
    ensures
        r@.map_values(|d: Vec<u8>| d@) == certs_in(sections@.map_values(|x: PemSection| x@)),
{
    let ghost all = sections@.map_values(|x: PemSection| x@);
    let mut certs: Vec<Vec<u8>> = Vec::new();
    for section in it: sections
        invariant
            it.seq() == sections@,
            all == sections@.map_values(|x: PemSection| x@),
            certs@.map_values(|d: Vec<u8>| d@) == certs_in(all.take(it.index() as int)),
    {
        let ghost i = it.index() as int;
        assert(all.take(i + 1).drop_last() =~= all.take(i));
        assert(all.take(i + 1).last() == section@);
        if let PemSection::Certificate(der) = section {
            certs.push(der);
            assert(certs@.map_values(|d: Vec<u8>| d@) =~= certs_in(all.take(i)).push(section@.1));
        }
    }
    assert(all.take(all.len() as int) =~= all);
    certs
}

/// The DER contents of the first RSA or PKCS#8 private key among `sections`.
pub fn select_private_key(sections: Vec<PemSection>) -> (r: Option<Vec<u8>>)
    ensures
        match first_key_from(sections@.map_values(|x: PemSection| x@), 0) {
            None => r is None,
            Some(k) => r matches Some(v) && v@ == k,
        },
{
    let ghost all = sections@.map_values(|x: PemSection| x@);
    for section in it: sections
        invariant
            it.seq() == sections@,
            all == sections@.map_values(|x: PemSection| x@),
            first_key_from(all, 0) == first_key_from(all, it.index() as int),
    {
        let ghost i = it.index() as int;
        assert(all[i] == section@);
        match section {
            PemSection::RsaKey(der) => return Some(der),
            PemSection::Pkcs8Key(der) => return Some(der),
            _ => {},
        }
    }
    None
}

/// The certificate chain of a PEM file: its certificates in file order.
pub fn load_certs(pem: &[u8]) -> (r: Result<Vec<Vec<u8>>, ConfigError>)
    ensures
        match pem_sections_of(pem@) {
            None => r == Err::<Vec<Vec<u8>>, ConfigError>(ConfigError::InvalidPem),
            Some(s) => r matches Ok(v) && v@.map_values(|d: Vec<u8>| d@) == certs_in(s),
        },
{
    match read_pem_sections(pem) {
        None => Err(ConfigError::InvalidPem),
        Some(sections) => Ok(collect_certificates(sections)),
    }
}

/// The private key of a PEM file: its first RSA or PKCS#8 key.
pub fn load_private_key(pem: &[u8]) -> (r: Result<Vec<u8>, ConfigError>)
    ensures
        match pem_sections_of(pem@) {
            None => r == Err::<Vec<u8>, ConfigError>(ConfigError::InvalidPem),
            Some(s) => match first_key_from(s, 0) {
                None => r == Err::<Vec<u8>, ConfigError>(ConfigError::MissingKey),
                Some(k) => r matches Ok(v) && v@ == k,
            },
        },
{
    match read_pem_sections(pem) {
        None => Err(ConfigError::InvalidPem),
        Some(sections) => match select_private_key(sections) {
            None => Err(ConfigError::MissingKey),
            Some(key) => Ok(key),
        },
    }
}

} // verus!
