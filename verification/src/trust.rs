//! The set of certificate authorities that TLS connections to the database
//! are verified against, built once from a PEM bundle.

use crate::failure::StartupError;
use vstd::prelude::*;

verus! {

#[verifier::external_type_specification]
#[verifier::external_body]
pub struct ExRootCertStore(rustls::RootCertStore);

#[verifier::external_type_specification]
#[verifier::external_body]
pub struct ExTlsError(rustls::Error);

/// The trust anchors that a `rustls::RootCertStore` holds, oldest first: of
/// each its subject, its public-key info and its name constraints, as the DER
/// bytes that the store keeps. Nothing else of a certificate is kept.
pub uninterp spec fn trusted_roots(store: rustls::RootCertStore) -> Seq<
    (Seq<u8>, Seq<u8>, Option<Seq<u8>>),
>;

/// The trust anchor that `rustls::RootCertStore::add` takes from a
/// certificate with these DER bytes (subject, public-key info, name
/// constraints), or `None` where it refuses the bytes. The parse depends on
/// the bytes alone.
pub uninterp spec fn anchor_of(der: Seq<u8>) -> Option<(Seq<u8>, Seq<u8>, Option<Seq<u8>>)>;

/// What `rustls_pemfile::certs` yields when it reads these bytes to their
/// end: for each certificate section in turn its decoded bytes, or `None`
/// where the reader reported a fault.
pub uninterp spec fn pem_certificates(bundle: Seq<u8>) -> Seq<Option<Seq<u8>>>;

/// `rustls::RootCertStore::empty`: a store without roots.
pub assume_specification[ rustls::RootCertStore::empty ]() -> (store: rustls::RootCertStore)
    ensures
        trusted_roots(store) == Seq::<(Seq<u8>, Seq<u8>, Option<Seq<u8>>)>::empty(),
;

/// `rustls::RootCertStore::len`: the number of roots in the store.
pub assume_specification[ rustls::RootCertStore::len ](store: &rustls::RootCertStore) -> (n: usize)
    ensures
        n == trusted_roots(*store).len(),
;

/// `rustls::RootCertStore::add`: the certificate is parsed as a trust anchor;
/// if that succeeds the anchor becomes the newest root, and if it fails the
/// store is left as it was.
#[verifier::external_body]
fn add_root(store: &mut rustls::RootCertStore, der: &Vec<u8>) -> (res: Result<(), rustls::Error>)
    ensures
        res is Ok <==> anchor_of(der@) is Some,
        res is Ok ==> trusted_roots(*final(store)) == trusted_roots(*old(store)).push(
            anchor_of(der@).unwrap(),
        ),
        res is Err ==> trusted_roots(*final(store)) == trusted_roots(*old(store)),
{
    store.add(rustls::pki_types::CertificateDer::from(der.as_slice()))
}

/// `rustls_pemfile::certs` over an in-memory bundle, read to its end. Sections
/// that are no certificates are passed over by the reader itself.
#[verifier::external_body]
fn read_certificates(bundle: &[u8]) -> (entries: Vec<Option<Vec<u8>>>)
    ensures
        entries_view(entries@) == pem_certificates(bundle@),
{
    let mut reader = bundle;
    rustls_pemfile::certs(&mut reader).map(|item| item.ok().map(|der| der.to_vec())).collect()
}

pub open spec fn entry_view(entry: Option<Vec<u8>>) -> Option<Seq<u8>> {
    match entry {
        Some(der) => Some(der@),
        None => None,
    }
}

pub open spec fn entries_view(entries: Seq<Option<Vec<u8>>>) -> Seq<Option<Seq<u8>>> {
    Seq::new(entries.len(), |i: int| entry_view(entries[i]))
}

/// An entry that was decoded and that the store takes as a root.
pub open spec fn entry_is_root(entry: Option<Seq<u8>>) -> bool {
    entry matches Some(der) && anchor_of(der) is Some
}

pub open spec fn all_roots(entries: Seq<Option<Seq<u8>>>) -> bool {
    forall|i: int| 0 <= i < entries.len() ==> entry_is_root(#[trigger] entries[i])
}

/// `at` is the position of the first entry that is no root.
pub open spec fn first_rejected(entries: Seq<Option<Seq<u8>>>, at: int) -> bool {
    &&& 0 <= at < entries.len()
    &&& !entry_is_root(entries[at])
    &&& forall|j: int| 0 <= j < at ==> entry_is_root(#[trigger] entries[j])
}

/// The trust anchors of a bundle's certificates, in order.
pub open spec fn roots_of(entries: Seq<Option<Seq<u8>>>) -> Seq<
    (Seq<u8>, Seq<u8>, Option<Seq<u8>>),
> {
    Seq::new(entries.len(), |i: int| anchor_of(entries[i].unwrap()).unwrap())
}

/// A set of trusted roots. It is built once and only read afterwards: nothing
/// outside this module can change it.
pub struct TrustStore {
    roots: rustls::RootCertStore,
}

impl View for TrustStore {
    type V = Seq<(Seq<u8>, Seq<u8>, Option<Seq<u8>>)>;

    closed spec fn view(&self) -> Seq<(Seq<u8>, Seq<u8>, Option<Seq<u8>>)> {
        trusted_roots(self.roots)
    }
}

impl TrustStore {
    /// Builds the store from the entries of a bundle. Every entry must be a
    /// root: the first one that is not aborts the build, and nothing of the
    /// store that was under construction is handed out.
    pub fn from_entries(entries: &Vec<Option<Vec<u8>>>) -> (res: Result<TrustStore, StartupError>)
        ensures
            match res {
                Ok(store) => all_roots(entries_view(entries@)) && store@ == roots_of(
                    entries_view(entries@),
                ),
                Err(StartupError::CertificateParse { entry }) => first_rejected(
                    entries_view(entries@),
                    entry as int,
                ),
                Err(_) => false,
            },
    {
        let ghost model = entries_view(entries@);
        let mut roots = rustls::RootCertStore::empty();
        let mut i: usize = 0;
        while i < entries.len()
            invariant
                i <= entries.len(),
                model == entries_view(entries@),
                forall|j: int| 0 <= j < i ==> entry_is_root(#[trigger] model[j]),
                trusted_roots(roots) == roots_of(model).take(i as int),
            decreases entries.len() - i,
        {
            match &entries[i] {
                None => {
                    return Err(StartupError::CertificateParse { entry: i });
                },
                Some(der) => {
                    match add_root(&mut roots, der) {
                        Err(_) => {
                            return Err(StartupError::CertificateParse { entry: i });
                        },
                        Ok(()) => {
                            assert(model[i as int] == Some(der@));
                            assert(roots_of(model).take(i as int).push(anchor_of(der@).unwrap())
                                =~= roots_of(model).take(i + 1));
                        },
                    }
                },
            }
            i += 1;
        }
        Ok(TrustStore { roots })
    }

    /// Builds the store from a PEM bundle: it holds exactly the trust anchors
    /// of the bundle's certificates, in their order, if every entry is
    /// well-formed and acceptable as a root, and fails at the first entry
    /// that is not.
    pub fn build(bundle: &[u8]) -> (res: Result<TrustStore, StartupError>)
        ensures
            match res {
                Ok(store) => all_roots(pem_certificates(bundle@)) && store@ == roots_of(
                    pem_certificates(bundle@),
                ),
                Err(StartupError::CertificateParse { entry }) => first_rejected(
                    pem_certificates(bundle@),
                    entry as int,
                ),
                Err(_) => false,
            },
    {
        let entries = read_certificates(bundle);
        TrustStore::from_entries(&entries)
    }

    /// The number of trusted roots.
    pub fn len(&self) -> (n: usize)
        ensures
            n == self@.len(),
    {
        self.roots.len()
    }

    /// The roots, to read.
    pub fn roots(&self) -> (roots: &rustls::RootCertStore)
        ensures
            trusted_roots(*roots) == self@,
    {
        &self.roots
    }

    /// Gives the roots away, to whoever verifies certificates against them.
    pub fn into_roots(self) -> (roots: rustls::RootCertStore)
        ensures
            trusted_roots(roots) == self@,
    {
        self.roots
    }
}

} // verus!
