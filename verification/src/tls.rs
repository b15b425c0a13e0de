use crate::device::DeviceError;
use crate::device_server::DeviceServerError;
use crate::device_server::TransportError;
use crate::host::HostError;
use crate::host::Material;
use crate::layer::Layer;
use crate::layer::Service;
use crate::layer::Stage;
use rustls_pemfile::Item;
use vstd::prelude::*;

verus! {

/// The error type of rustls, carried through unread.
#[verifier::external_type_specification]
#[verifier::external_body]
pub struct ExRustlsError(tokio_rustls::rustls::Error);

/// The error type of std's I/O, carried through unread.
#[verifier::external_type_specification]
#[verifier::external_body]
pub struct ExIoError(std::io::Error);

/// The server-side TLS context of rustls.
#[verifier::external_type_specification]
#[verifier::external_body]
pub struct ExServerConfig(tokio_rustls::rustls::ServerConfig);

/// The client-side TLS context of rustls.
#[verifier::external_type_specification]
#[verifier::external_body]
pub struct ExClientConfig(tokio_rustls::rustls::ClientConfig);

/// The store of trust roots of rustls.
#[verifier::external_type_specification]
#[verifier::external_body]
pub struct ExRootCertStore(tokio_rustls::rustls::RootCertStore);

/// The shareable handle on a server-side TLS context.
#[verifier::external_type_specification]
#[verifier::external_body]
pub struct ExTlsAcceptor(tokio_rustls::TlsAcceptor);

/// The choice of TLS for an outbound connection.
#[verifier::external_type_specification]
#[verifier::external_body]
pub struct ExConnector(tokio_tungstenite::Connector);

/// The kinds of section that a PEM file can hold.
#[derive(Debug, Clone, Copy, PartialEq, Eq, Structural)]
pub enum PemKind {
    /// A DER-encoded X.509 certificate.
    X509Certificate,
    /// A DER-encoded RSA private key (PKCS#1).
    RsaKey,
    /// A DER-encoded private key (PKCS#8).
    Pkcs8Key,
    /// A SEC1-encoded private key.
    EcKey,
    /// A certificate revocation list.
    Crl,
    /// A section of a kind that this library does not know.
    Unknown,
}

/// One decoded section of a PEM file: its kind and its DER bytes.
#[derive(Debug, Clone, PartialEq, Eq)]
pub struct PemItem {
    pub kind: PemKind,
    pub der: Vec<u8>,
}

/// A section of a PEM file as a mathematical value.
pub struct PemSection {
    pub kind: PemKind,
    pub der: Seq<u8>,
}

impl View for PemItem {
    type V = PemSection;

    open spec fn view(&self) -> PemSection {
        PemSection { kind: self.kind, der: self.der@ }
    }
}

/// The sections of a list of items, in order.
pub open spec fn sections(items: Seq<PemItem>) -> Seq<PemSection> {
    items.map_values(|item: PemItem| item@)
}

/// What the PEM reader makes of the start of `pem`: `None` where the text is
/// malformed, `Some(None)` where it holds no section, and else the first
/// section.
pub uninterp spec fn pem_first(pem: Seq<u8>) -> Option<Option<PemSection>>;

/// What the PEM reader makes of the whole of `pem`: `None` where the text is
/// malformed, else all its sections in order.
pub uninterp spec fn pem_all(pem: Seq<u8>) -> Option<Seq<PemSection>>;

/// A trust root as a store of rustls holds it: the subject, the public key
/// info and the name constraints of a certificate, each in DER.
pub struct TrustRoot {
    pub subject: Seq<u8>,
    pub spki: Seq<u8>,
    pub name_constraints: Option<Seq<u8>>,
}

/// What a client-side TLS context holds: the roots that it trusts, in the
/// order in which they were added, and whether it shows a certificate of its
/// own to the server.
pub struct ClientContext {
    pub roots: Seq<TrustRoot>,
    pub client_auth: bool,
}

/// What a server-side TLS context holds: the certificate chain that it
/// presents to every peer, the DER bytes that its signing key was read from,
/// and whether it asks the peer for a certificate.
pub struct ServerContext {
    pub chain: Seq<Seq<u8>>,
    pub key: Seq<u8>,
    pub client_auth: bool,
}

/// What rustls reads from the DER bytes of a certificate: nothing where it
/// cannot read them, else the certificate's trust anchor.
pub uninterp spec fn anchor_of(der: Seq<u8>) -> Option<TrustRoot>;

/// Whether the bytes are a private key that rustls takes for a server: a
/// DER-encoded RSA, ECDSA or Ed25519 key.
pub uninterp spec fn valid_private_key(der: Seq<u8>) -> bool;

/// The roots that a store holds, in the order in which they were added.
pub uninterp spec fn roots_of(store: tokio_rustls::rustls::RootCertStore) -> Seq<TrustRoot>;

/// The roots of a store after the default roots were added to one that held
/// `roots`.
pub uninterp spec fn with_default_roots(roots: Seq<TrustRoot>) -> Seq<TrustRoot>;

/// What a client-side TLS context holds.
pub uninterp spec fn client_context(config: tokio_rustls::rustls::ClientConfig) -> ClientContext;

/// What the TLS context of a connector holds; nothing for a connector
/// without TLS.
pub uninterp spec fn connector_context(connector: tokio_tungstenite::Connector) -> Option<
    ClientContext,
>;

/// What a server-side TLS context holds.
pub uninterp spec fn server_context(config: tokio_rustls::rustls::ServerConfig) -> ServerContext;

/// What the TLS context behind an acceptor holds.
pub uninterp spec fn acceptor_context(acceptor: tokio_rustls::TlsAcceptor) -> ServerContext;

/// Whether rustls can read the DER bytes as a certificate.
pub open spec fn parses_as_trust_anchor(der: Seq<u8>) -> bool {
    anchor_of(der) is Some
}

/// The default trust roots: what a store holds that was empty before they
/// were added.
pub open spec fn default_roots() -> Seq<TrustRoot> {
    with_default_roots(Seq::empty())
}

/// The roots of a store after a certificate was offered to it: its anchor
/// comes last where rustls can read it, else nothing changes.
pub open spec fn added(roots: Seq<TrustRoot>, der: Seq<u8>) -> Seq<TrustRoot> {
    match anchor_of(der) {
        Some(anchor) => roots.push(anchor),
        None => roots,
    }
}

/// The context of a server that presents the one certificate, signs with
/// the one key and asks no certificate of its peers.
pub open spec fn single_cert_context(cert: Seq<u8>, privkey: Seq<u8>) -> ServerContext {
    ServerContext { chain: seq![cert], key: privkey, client_auth: false }
}

/// The context of a client that trusts `roots` and shows no certificate.
pub open spec fn trusting(roots: Seq<TrustRoot>) -> ClientContext {
    ClientContext { roots, client_auth: false }
}

/// Calls `rustls_pemfile::read_one` on the bytes, and moves the DER bytes of
/// the section that it finds into a `PemItem` of the same kind. The result is
/// a function of the bytes alone, named `pem_first`: an error for malformed
/// text, nothing for text without a section, else the first section.
#[verifier::external_body]
fn read_one_item(pem: &[u8]) -> (res: Result<Option<PemItem>, std::io::Error>)
    ensures
        res is Err <==> pem_first(pem@) is None,
        res matches Ok(None) ==> pem_first(pem@) == Some(None::<PemSection>),
        res matches Ok(Some(item)) ==> pem_first(pem@) == Some(Some(item@)),
{
    let mut reader = pem;
    let found = rustls_pemfile::read_one(&mut reader)?;
    Ok(found.map(|item| match item {
        Item::X509Certificate(der) => PemItem { kind: PemKind::X509Certificate, der },
        Item::RSAKey(der) => PemItem { kind: PemKind::RsaKey, der },
        Item::PKCS8Key(der) => PemItem { kind: PemKind::Pkcs8Key, der },
        Item::ECKey(der) => PemItem { kind: PemKind::EcKey, der },
        Item::Crl(der) => PemItem { kind: PemKind::Crl, der },
        _ => PemItem { kind: PemKind::Unknown, der: Vec::new() },
    }))
}

/// Calls `rustls_pemfile::read_all` on the bytes, and moves the DER bytes of
/// each section into a `PemItem` of the same kind. The result is a function
/// of the bytes alone, named `pem_all`: an error for malformed text, else
/// every section in the order of the text.
#[verifier::external_body]
fn read_all_items(pem: &[u8]) -> (res: Result<Vec<PemItem>, std::io::Error>)
    ensures
        res is Err <==> pem_all(pem@) is None,
        res matches Ok(items) ==> pem_all(pem@) == Some(sections(items@)),
{
    let mut reader = pem;
    let items = rustls_pemfile::read_all(&mut reader)?.into_iter();
    Ok(items.map(|item| match item {
        Item::X509Certificate(der) => PemItem { kind: PemKind::X509Certificate, der },
        Item::RSAKey(der) => PemItem { kind: PemKind::RsaKey, der },
        Item::PKCS8Key(der) => PemItem { kind: PemKind::Pkcs8Key, der },
        Item::ECKey(der) => PemItem { kind: PemKind::EcKey, der },
        Item::Crl(der) => PemItem { kind: PemKind::Crl, der },
        _ => PemItem { kind: PemKind::Unknown, der: Vec::new() },
    }).collect())
}

/// Calls `ServerConfig::builder` of rustls with `with_safe_defaults`,
/// `with_no_client_auth` and `with_single_cert`, on the one certificate and
/// its private key. `with_single_cert` fails if the key is invalid, and
/// whether a key is valid is a function of its bytes alone. Success is not
/// promised for a valid key: to read an ECDSA key rustls draws on the
/// system's random source, and refuses the key where that fails. The
/// certificate is not looked into. A context that is built presents the
/// chain of that one certificate, signs with the key that was read, and asks
/// no certificate of its peers.
#[verifier::external_body]
pub(crate) fn single_cert_config(cert: Vec<u8>, privkey: Vec<u8>) -> (res: Result<
    tokio_rustls::rustls::ServerConfig,
    tokio_rustls::rustls::Error,
>)
    ensures
        res is Ok ==> valid_private_key(privkey@),
        res matches Ok(config) ==> server_context(config) == single_cert_context(cert@, privkey@),
{
    tokio_rustls::rustls::ServerConfig::builder()
        .with_safe_defaults()
        .with_no_client_auth()
        .with_single_cert(
            vec![tokio_rustls::rustls::Certificate(cert)],
            tokio_rustls::rustls::PrivateKey(privkey),
        )
}

/// Calls `TlsAcceptor::from` on the shared context. The acceptor holds the
/// context as it is.
#[verifier::external_body]
pub(crate) fn acceptor_of(config: tokio_rustls::rustls::ServerConfig) -> (acceptor:
    tokio_rustls::TlsAcceptor)
    ensures
        acceptor_context(acceptor) == server_context(config),
{
    tokio_rustls::TlsAcceptor::from(std::sync::Arc::new(config))
}

/// Calls `RootCertStore::empty`: a store without roots.
#[verifier::external_body]
pub(crate) fn empty_root_store() -> (store: tokio_rustls::rustls::RootCertStore)
    ensures
        roots_of(store) == Seq::<TrustRoot>::empty(),
{
    tokio_rustls::rustls::RootCertStore::empty()
}

/// Calls `RootCertStore::add` with the certificate. Where rustls can read
/// the certificate, which is a function of the bytes alone, the call succeeds
/// and the certificate's anchor is put last in the store; where it cannot,
/// the call fails and the store is as it was.
#[verifier::external_body]
pub(crate) fn add_root(store: &mut tokio_rustls::rustls::RootCertStore, der: &Vec<u8>) -> (res: Result<
    (),
    tokio_rustls::rustls::Error,
>)
    ensures
        res is Ok <==> anchor_of(der@) is Some,
        roots_of(*final(store)) == added(roots_of(*old(store)), der@),
{
    store.add(&tokio_rustls::rustls::Certificate(der.clone()))
}

/// Adds the trust roots of `webpki_roots::TLS_SERVER_ROOTS` to the store, with
/// `RootCertStore::add_trust_anchors`, which does not fail. What the store
/// holds afterwards is a function of what it held before.
#[verifier::external_body]
fn add_default_roots(store: &mut tokio_rustls::rustls::RootCertStore)
    ensures
        roots_of(*final(store)) == with_default_roots(roots_of(*old(store))),
{
    store.add_trust_anchors(
        webpki_roots::TLS_SERVER_ROOTS.0.iter().map(
            |ta| {
                tokio_rustls::rustls::OwnedTrustAnchor::from_subject_spki_name_constraints(
                    ta.subject,
                    ta.spki,
                    ta.name_constraints,
                )
            },
        ),
    );
}

/// Calls `ClientConfig::builder` of rustls with `with_safe_defaults`,
/// `with_root_certificates` on the given trust roots, and
/// `with_no_client_auth`. The context trusts the roots of the store and shows
/// no certificate of its own.
#[verifier::external_body]
pub(crate) fn client_config_of(roots: tokio_rustls::rustls::RootCertStore) -> (config:
    tokio_rustls::rustls::ClientConfig)
    ensures
        client_context(config) == trusting(roots_of(roots)),
{
    tokio_rustls::rustls::ClientConfig::builder()
        .with_safe_defaults()
        .with_root_certificates(roots)
        .with_no_client_auth()
}

/// Wraps the shared client context as `Connector::Rustls`. The connector
/// holds the context as it is.
#[verifier::external_body]
fn connector_of(config: tokio_rustls::rustls::ClientConfig) -> (connector:
    tokio_tungstenite::Connector)
    ensures
        connector_context(connector) == Some(client_context(config)),
{
    tokio_tungstenite::Connector::Rustls(std::sync::Arc::new(config))
}

/// Calls `TlsAcceptor::clone`, which makes another handle on the same
/// shared context.
#[verifier::external_body]
fn clone_acceptor(acceptor: &tokio_rustls::TlsAcceptor) -> (cloned: tokio_rustls::TlsAcceptor)
    ensures
        cloned == *acceptor,
{
    acceptor.clone()
}

/// What the first section of a PEM text is to be, and what comes of it: the
/// text may be malformed, its first section may be missing or of another
/// kind, or it is the DER bytes that are asked for.
pub open spec fn first_of_kind(
    pem: Seq<u8>,
    kind: PemKind,
    input: Material,
    res: Result<Vec<u8>, HostError>,
) -> bool {
    match pem_first(pem) {
        None => res matches Err(HostError::ReadFile { err: _, input: which }) && which == input,
        Some(Some(section)) => if section.kind == kind {
            res matches Ok(der) && der@ == section.der
        } else {
            res matches Err(HostError::WrongItem)
        },
        Some(None) => res matches Err(HostError::WrongItem),
    }
}

/// Takes the DER bytes out of the first section of `pem`, which must be of
/// the given kind.
fn first_item_of_kind(pem: &[u8], kind: PemKind, input: Material) -> (res: Result<Vec<u8>, HostError>)
    ensures
        first_of_kind(pem@, kind, input, res),
{
    match read_one_item(pem) {
        Err(err) => Err(HostError::ReadFile { err, input }),
        Ok(None) => Err(HostError::WrongItem),
        Ok(Some(item)) => {
            if item.kind == kind {
                Ok(item.der)
            } else {
                Err(HostError::WrongItem)
            }
        },
    }
}

/// The host's certificate: the first section of `pem`, which must be an
/// X.509 certificate.
pub fn certificate_der(pem: &[u8]) -> (res: Result<Vec<u8>, HostError>)
    ensures
        first_of_kind(pem@, PemKind::X509Certificate, Material::Certificate, res),
{
    first_item_of_kind(pem, PemKind::X509Certificate, Material::Certificate)
}

/// The host's private key: the first section of `pem`, which must be a
/// PKCS#8 key.
pub fn private_key_der(pem: &[u8]) -> (res: Result<Vec<u8>, HostError>)
    ensures
        first_of_kind(pem@, PemKind::Pkcs8Key, Material::PrivateKey, res),
{
    first_item_of_kind(pem, PemKind::Pkcs8Key, Material::PrivateKey)
}

/// What the host makes of rustls's answer: the context as it is, or the
/// configuration error that holds rustls's own.
pub fn server_config_result(
    built: Result<tokio_rustls::rustls::ServerConfig, tokio_rustls::rustls::Error>,
) -> (res: Result<tokio_rustls::rustls::ServerConfig, HostError>)
    ensures
        built matches Ok(config) ==> (res matches Ok(same) && same == config),
        built matches Err(cause) ==> (res matches Err(HostError::RustTls(err)) && err == cause),
{
    match built {
        Ok(config) => Ok(config),
        Err(cause) => Err(HostError::RustTls(cause)),
    }
}

/// What is owed of a server-side context built from a certificate and its
/// key. A certificate that rustls cannot read and a key that is not valid are
/// always refused, and every refusal is a configuration error that holds
/// rustls's own. A context that is built presents the chain of that one
/// certificate, signs with that key and asks no certificate of its peers.
/// Success is not promised: rustls may refuse a valid key where the system's
/// random source fails.
pub open spec fn server_verdict(
    cert: Seq<u8>,
    privkey: Seq<u8>,
    res: Result<tokio_rustls::rustls::ServerConfig, HostError>,
) -> bool {
    &&& res is Err ==> (res matches Err(HostError::RustTls(_)))
    &&& !parses_as_trust_anchor(cert) ==> res is Err
    &&& !valid_private_key(privkey) ==> res is Err
    &&& res matches Ok(config) ==> server_context(config) == single_cert_context(cert, privkey)
}

/// Builds the server-side TLS context from one DER-encoded certificate and
/// its DER-encoded private key. No client certificate is asked for. The
/// certificate is read before anything is built, so malformed material is
/// refused whichever part of it is malformed.
pub fn server_tls_config(cert: Vec<u8>, privkey: Vec<u8>) -> (res: Result<
    tokio_rustls::rustls::ServerConfig,
    HostError,
>)
    ensures
        server_verdict(cert@, privkey@, res),
{
    let mut probe = empty_root_store();
    match add_root(&mut probe, &cert) {
        Ok(()) => server_config_result(single_cert_config(cert, privkey)),
        Err(err) => Err(HostError::RustTls(err)),
    }
}

/// What is owed of an acceptor built from a certificate and its key: what is
/// owed of the context, said of the context behind the acceptor.
pub open spec fn acceptor_built(
    cert: Seq<u8>,
    privkey: Seq<u8>,
    res: Result<tokio_rustls::TlsAcceptor, HostError>,
) -> bool {
    &&& res is Err ==> (res matches Err(HostError::RustTls(_)))
    &&& !parses_as_trust_anchor(cert) ==> res is Err
    &&& !valid_private_key(privkey) ==> res is Err
    &&& res matches Ok(acceptor) ==> acceptor_context(acceptor) == single_cert_context(
        cert,
        privkey,
    )
}

/// What is owed of the acceptor built from two PEM texts: the certificate
/// text is judged first, then the key text; where both hold what they
/// should, the acceptor is built from the certificate and the key of the
/// texts.
pub open spec fn acceptor_verdict(
    cert_pem: Seq<u8>,
    key_pem: Seq<u8>,
    res: Result<tokio_rustls::TlsAcceptor, HostError>,
) -> bool {
    match pem_first(cert_pem) {
        None => res matches Err(HostError::ReadFile { err: _, input: Material::Certificate }),
        Some(Some(cert)) => if cert.kind == PemKind::X509Certificate {
            match pem_first(key_pem) {
                None => res matches Err(HostError::ReadFile { err: _, input: Material::PrivateKey }),
                Some(Some(key)) => if key.kind == PemKind::Pkcs8Key {
                    acceptor_built(cert.der, key.der, res)
                } else {
                    res matches Err(HostError::WrongItem)
                },
                Some(None) => res matches Err(HostError::WrongItem),
            }
        } else {
            res matches Err(HostError::WrongItem)
        },
        Some(None) => res matches Err(HostError::WrongItem),
    }
}

/// Builds the acceptor of the host from the PEM text of its certificate and
/// of its private key.
pub fn acceptor(cert_pem: &[u8], key_pem: &[u8]) -> (res: Result<
    tokio_rustls::TlsAcceptor,
    HostError,
>)
    ensures
        acceptor_verdict(cert_pem@, key_pem@, res),
{
    let cert = match certificate_der(cert_pem) {
        Ok(cert) => cert,
        Err(err) => {
            return Err(err);
        },
    };
    let privkey = match private_key_der(key_pem) {
        Ok(privkey) => privkey,
        Err(err) => {
            return Err(err);
        },
    };
    match server_tls_config(cert, privkey) {
        Ok(config) => Ok(acceptor_of(config)),
        Err(err) => Err(err),
    }
}

/// What is wrong with a CA bundle.
#[derive(Debug, Clone, Copy, PartialEq, Eq, Structural)]
pub enum BundleFault {
    /// A section is no certificate.
    WrongItem,
    /// A certificate does not parse as a trust anchor.
    BadCertificate,
}

/// The first fault of a CA bundle, going through its sections in order: a
/// section that is no certificate, or a certificate that is no trust anchor.
pub open spec fn bundle_fault(bundle: Seq<PemSection>) -> Option<BundleFault>
    decreases bundle.len(),
{
    if bundle.len() == 0 {
        None
    } else if bundle[0].kind != PemKind::X509Certificate {
        Some(BundleFault::WrongItem)
    } else if !parses_as_trust_anchor(bundle[0].der) {
        Some(BundleFault::BadCertificate)
    } else {
        bundle_fault(bundle.drop_first())
    }
}

/// The trust anchors of the certificates of a bundle, in order, up to its
/// first fault: those of all its certificates where it has none.
pub open spec fn bundle_anchors(bundle: Seq<PemSection>) -> Seq<TrustRoot>
    decreases bundle.len(),
{
    if bundle.len() == 0 {
        Seq::empty()
    } else if bundle[0].kind != PemKind::X509Certificate {
        Seq::empty()
    } else {
        match anchor_of(bundle[0].der) {
            Some(anchor) => seq![anchor] + bundle_anchors(bundle.drop_first()),
            None => Seq::empty(),
        }
    }
}

/// What comes of a bundle: it is taken whole, or refused for its first fault.
pub open spec fn bundle_verdict(bundle: Seq<PemSection>, res: Result<(), DeviceError>) -> bool {
    match bundle_fault(bundle) {
        None => res is Ok,
        Some(BundleFault::WrongItem) => res matches Err(DeviceError::WrongItem),
        Some(BundleFault::BadCertificate) => res matches Err(DeviceError::RustTls(_)),
    }
}

/// Puts every certificate of the bundle into the store, in order, and stops
/// at the first fault. Behind what the store held come the anchors of the
/// certificates before the fault: of all of them where there is none.
fn add_bundle(store: &mut tokio_rustls::rustls::RootCertStore, items: &Vec<PemItem>) -> (res: Result<
    (),
    DeviceError,
>)
    ensures
        bundle_verdict(sections(items@), res),
        roots_of(*final(store)) == roots_of(*old(store)) + bundle_anchors(sections(items@)),
{
    let ghost bundle = sections(items@);
    let ghost before = roots_of(*store);
    let ghost mut done = Seq::<TrustRoot>::empty();
    let mut i: usize = 0;
    proof {
        assert(bundle.skip(0) =~= bundle);
        assert(before + done =~= before);
        assert(done + bundle_anchors(bundle) =~= bundle_anchors(bundle));
    }
    while i < items.len()
        invariant
            i <= items.len(),
            bundle == sections(items@),
            bundle_fault(bundle) == bundle_fault(bundle.skip(i as int)),
            bundle_anchors(bundle) == done + bundle_anchors(bundle.skip(i as int)),
            before == roots_of(*old(store)),
            roots_of(*store) == before + done,
        decreases items.len() - i,
    {
        let item = &items[i];
        let ghost rest = bundle.skip(i as int);
        proof {
            assert(rest[0] == item@);
            assert(rest.drop_first() =~= bundle.skip(i + 1));
        }
        if item.kind != PemKind::X509Certificate {
            proof {
                assert(bundle_anchors(rest) =~= Seq::<TrustRoot>::empty());
                assert(bundle_anchors(bundle) =~= done);
            }
            return Err(DeviceError::WrongItem);
        }
        match add_root(store, &item.der) {
            Ok(()) => {
                proof {
                    let anchor = anchor_of(item.der@)->Some_0;
                    assert(done.push(anchor) + bundle_anchors(bundle.skip(i + 1)) =~= done + (
                    seq![anchor] + bundle_anchors(bundle.skip(i + 1))));
                    assert((before + done).push(anchor) =~= before + done.push(anchor));
                    done = done.push(anchor);
                }
            },
            Err(err) => {
                proof {
                    assert(anchor_of(rest[0].der) is None);
                    assert(bundle_anchors(rest) =~= Seq::<TrustRoot>::empty());
                    assert(bundle_anchors(bundle) =~= done);
                }
                return Err(DeviceError::RustTls(err));
            },
        }
        i += 1;
    }
    proof {
        assert(done + bundle_anchors(bundle.skip(i as int)) =~= done);
    }
    Ok(())
}

/// What is owed of the client-side context. Without a CA bundle the context
/// trusts the default roots and nothing else. With one it trusts the
/// certificates of the bundle and nothing else, each of them, in the order
/// of the text; a malformed text, a section that is no certificate and a
/// certificate that rustls cannot read are configuration errors. In either
/// case the client shows no certificate of its own.
pub open spec fn client_verdict(ca_pem: Option<Vec<u8>>, res: Result<
    tokio_tungstenite::Connector,
    DeviceError,
>) -> bool {
    match ca_pem {
        None => res matches Ok(connector) && connector_context(connector) == Some(
            trusting(default_roots()),
        ),
        Some(pem) => match pem_all(pem@) {
            None => res matches Err(DeviceError::ReadFile(_)),
            Some(bundle) => match bundle_fault(bundle) {
                None => res matches Ok(connector) && connector_context(connector) == Some(
                    trusting(bundle_anchors(bundle)),
                ),
                Some(BundleFault::WrongItem) => res matches Err(DeviceError::WrongItem),
                Some(BundleFault::BadCertificate) => res matches Err(DeviceError::RustTls(_)),
            },
        },
    }
}

/// Builds the client-side TLS context from the PEM text of a CA bundle, or
/// from the default trust roots where none is given. The client verifies the
/// server and shows no certificate itself.
pub fn client_tls_config(ca_pem: Option<Vec<u8>>) -> (res: Result<
    tokio_tungstenite::Connector,
    DeviceError,
>)
    ensures
        client_verdict(ca_pem, res),
{
    let mut roots = empty_root_store();
    match &ca_pem {
        Some(pem) => {
            let items = match read_all_items(pem.as_slice()) {
                Ok(items) => items,
                Err(err) => {
                    return Err(DeviceError::ReadFile(err));
                },
            };
            match add_bundle(&mut roots, &items) {
                Ok(()) => {},
                Err(err) => {
                    return Err(err);
                },
            }
            proof {
                assert(Seq::<TrustRoot>::empty() + bundle_anchors(sections(items@))
                    =~= bundle_anchors(sections(items@)));
            }
        },
        None => {
            add_default_roots(&mut roots);
        },
    }
    Ok(connector_of(client_config_of(roots)))
}

/// What the device makes of an attempt to reach the host: the connection
/// stands, or the failure of the transport is the device's error.
pub fn connect(attempt: Result<(), TransportError>) -> (res: Result<(), DeviceError>)
    ensures
        attempt is Ok ==> res is Ok,
        attempt matches Err(cause) ==> (res matches Err(DeviceError::WebSocketConnect(err)) && err
            == cause),
{
    match attempt {
        Ok(()) => Ok(()),
        Err(cause) => Err(DeviceError::WebSocketConnect(cause)),
    }
}

/// A handler behind the TLS handshake: a stream reaches the handler inside
/// only once it is secured.
pub struct TlsService<S> {
    service: S,
    acceptor: tokio_rustls::TlsAcceptor,
}

impl<S> TlsService<S> {
    /// The handler inside.
    pub closed spec fn inner(&self) -> S {
        self.service
    }

    /// The handler inside.
    pub fn service(&self) -> (service: &S)
        ensures
            *service == self.inner(),
    {
        &self.service
    }

    /// The acceptor that performs the handshake.
    pub closed spec fn handle(&self) -> tokio_rustls::TlsAcceptor {
        self.acceptor
    }

    /// The acceptor that performs the handshake.
    pub fn acceptor(&self) -> (acceptor: &tokio_rustls::TlsAcceptor)
        ensures
            *acceptor == self.handle(),
    {
        &self.acceptor
    }

    /// The layer's part in a connection, once the handshake has ended. A
    /// secured stream goes to the handler inside; a failed handshake is the
    /// error of this connection, and the handler inside does not see it.
    pub fn call(&self, handshake: Result<(), std::io::Error>) -> (res: Result<&S, HostError>)
        ensures
            handshake is Ok ==> (res matches Ok(service) && *service == self.inner()),
            handshake matches Err(cause) ==> (res matches Err(HostError::AcceptTls(err)) && err
                == cause),
    {
        match handshake {
            Ok(()) => Ok(&self.service),
            Err(cause) => Err(HostError::AcceptTls(cause)),
        }
    }
}

impl<S> TlsService<S> {
    /// What the layer hands on of the result of the handler inside: a
    /// success as it is, a failure as the host's error that holds it.
    pub fn respond(&self, inner: Result<(), DeviceServerError>) -> (res: Result<(), HostError>)
        ensures
            inner is Ok ==> res is Ok,
            inner matches Err(cause) ==> res == Err::<(), HostError>(HostError::Connection(cause)),
    {
        match inner {
            Ok(()) => Ok(()),
            Err(cause) => Err(HostError::connection(cause)),
        }
    }
}

impl<S: Service> Service for TlsService<S> {
    closed spec fn stages(&self) -> Seq<Stage> {
        seq![Stage::Tls] + self.service.stages()
    }

    fn stage_list(&self) -> (list: Vec<Stage>) {
        let mut list = vec![Stage::Tls];
        let mut rest = self.service.stage_list();
        list.append(&mut rest);
        list
    }
}

/// The layer that secures a stream with TLS.
pub struct TlsLayer {
    acceptor: tokio_rustls::TlsAcceptor,
}

impl TlsLayer {
    /// The acceptor that the layer hands to the handlers it makes.
    pub closed spec fn handle(&self) -> tokio_rustls::TlsAcceptor {
        self.acceptor
    }

    /// The TLS layer that performs its handshakes with `acceptor`.
    pub fn new(acceptor: tokio_rustls::TlsAcceptor) -> (layer: Self)
        ensures
            layer.handle() == acceptor,
    {
        Self { acceptor }
    }
}

impl<S: Service> Layer<S> for TlsLayer {
    type Service = TlsService<S>;

    open spec fn adds(&self) -> Seq<Stage> {
        seq![Stage::Tls]
    }

    open spec fn wraps(&self, inner: S, outer: TlsService<S>) -> bool {
        outer.inner() == inner && outer.handle() == self.handle()
    }

    fn layer(&self, inner: S) -> (outer: TlsService<S>) {
        TlsService { service: inner, acceptor: clone_acceptor(&self.acceptor) }
    }
}

} // verus!
