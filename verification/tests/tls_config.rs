use rust_remote_shell::device::DeviceError;
use rust_remote_shell::device_server::tls_config_result;
use rust_remote_shell::device_server::DeviceServerError;
use rust_remote_shell::device_server::TransportError;
use rust_remote_shell::host::HostBuilder;
use rust_remote_shell::host::HostError;
use rust_remote_shell::host::Material;
use rust_remote_shell::layer::HostService;
use rust_remote_shell::layer::Identity;
use rust_remote_shell::layer::Layer;
use rust_remote_shell::layer::Service;
use rust_remote_shell::layer::Stack;
use rust_remote_shell::layer::Stage;
use rust_remote_shell::layer::WebSocketLayer;
use rust_remote_shell::tls::acceptor;
use rust_remote_shell::tls::certificate_der;
use rust_remote_shell::tls::client_tls_config;
use rust_remote_shell::tls::connect;
use rust_remote_shell::tls::private_key_der;
use rust_remote_shell::tls::server_config_result;
use rust_remote_shell::tls::server_tls_config;
use rust_remote_shell::tls::TlsLayer;

/// The certificate of the test server: self-signed, for `localhost`, with
/// the public key of the test key below.
const CERT_PEM: &str = "-----BEGIN CERTIFICATE-----
MIH+MIGxoAMCAQICAQEwBQYDK2VwMBQxEjAQBgNVBAMMCWxvY2FsaG9zdDAgFw0y
NDAxMDEwMDAwMDBaGA8yMTI0MDEwMTAwMDAwMFowFDESMBAGA1UEAwwJbG9jYWxo
b3N0MCowBQYDK2VwAyEAebVWLo/mVPlAeLES6KmLp5AfhTrmlb7X4OORC60ElmSj
JjAkMBQGA1UdEQQNMAuCCWxvY2FsaG9zdDAMBgNVHRMBAf8EAjAAMAUGAytlcANB
AMfgyeOUYqfxV61uuRiZrlW/CnhVb1ceM3FL7itVOicvmhcAI61p2xG0MCABEGMb
qjAzUCRCG/uFhpjqXqnfogw=
-----END CERTIFICATE-----
";

/// The certificate of a public certification authority.
const CA_PEM: &str = "-----BEGIN CERTIFICATE-----
MIICGzCCAaGgAwIBAgIQQdKd0XLq7qeAwSxs6S+HUjAKBggqhkjOPQQDAzBPMQsw
CQYDVQQGEwJVUzEpMCcGA1UEChMgSW50ZXJuZXQgU2VjdXJpdHkgUmVzZWFyY2gg
R3JvdXAxFTATBgNVBAMTDElTUkcgUm9vdCBYMjAeFw0yMDA5MDQwMDAwMDBaFw00
MDA5MTcxNjAwMDBaME8xCzAJBgNVBAYTAlVTMSkwJwYDVQQKEyBJbnRlcm5ldCBT
ZWN1cml0eSBSZXNlYXJjaCBHcm91cDEVMBMGA1UEAxMMSVNSRyBSb290IFgyMHYw
EAYHKoZIzj0CAQYFK4EEACIDYgAEzZvVn4CDCuwJSvMWSj5cz3es3mcFDR0HttwW
+1qLFNvicWDEukWVEYmO6gbf9yoWHKS5xcUy4APgHoIYOIvXRdgKam7mAHf7AlF9
ItgKbppbd9/w+kHsOdx1ymgHDB/qo0IwQDAOBgNVHQ8BAf8EBAMCAQYwDwYDVR0T
AQH/BAUwAwEB/zAdBgNVHQ4EFgQUfEKWrt5LSDv6kviejM9ti6lyN5UwCgYIKoZI
zj0EAwMDaAAwZQIwe3lORlCEwkSHRhtFcP9Ymd70/aTSVaYgLXTWNLxBo1BfASdW
tL4ndQavEi51mI38AjEAi/V3bNTIZargCyzuFJ0nN6T5U6VR5CmD1/iQMVtCnwr1
/q4AaOeMSQ+2b1tbFfLn
-----END CERTIFICATE-----
";

/// A section that says it is a certificate and holds other bytes.
const FAKE_CERT_PEM: &str = "-----BEGIN CERTIFICATE-----
bm90IGEgY2VydGlmaWNhdGU=
-----END CERTIFICATE-----
";

/// A section that is opened and never closed.
const BROKEN_PEM: &str = "-----BEGIN CERTIFICATE-----
MIICGzCCAaGgAwIBAgIQQdKd0XLq7qeAwSxs6S+HUjAKBggqhkjOPQQDAzBPMQsw
";

/// The DER bytes of an Ed25519 key in PKCS#8, made for these tests: the
/// fixed header of such a key and the seed 1, 2, .., 32.
fn key_der() -> Vec<u8> {
    let mut der: Vec<u8> = vec![48, 46, 2, 1, 0, 48, 5, 6, 3, 43, 101, 112, 4, 34, 4, 32];
    der.extend(1u8..=32u8);
    der
}

/// The base64 digit that stands for a value below 64.
fn base64_digit(value: u8) -> char {
    match value {
        0..=25 => (b'A' + value) as char,
        26..=51 => (b'a' + (value - 26)) as char,
        52..=61 => (b'0' + (value - 52)) as char,
        62 => '+',
        _ => '/',
    }
}

/// The base64 text of `bytes`, with padding.
fn base64(bytes: &[u8]) -> String {
    let mut text = String::new();
    for group in bytes.chunks(3) {
        let b0: u8 = group[0];
        let b1: u8 = if group.len() > 1 { group[1] } else { 0 };
        let b2: u8 = if group.len() > 2 { group[2] } else { 0 };
        text.push(base64_digit(b0 >> 2));
        text.push(base64_digit(((b0 & 0x03) << 4) | (b1 >> 4)));
        text.push(if group.len() > 1 { base64_digit(((b1 & 0x0f) << 2) | (b2 >> 6)) } else { '=' });
        text.push(if group.len() > 2 { base64_digit(b2 & 0x3f) } else { '=' });
    }
    text
}

/// The PEM section with the given words in its label and `der` as its
/// content.
fn pem_section(label: &[&str], der: &[u8]) -> String {
    let label = label.join(" ");
    format!("-----BEGIN {}-----\n{}\n-----END {}-----\n", label, base64(der), label)
}

/// The test key as a PKCS#8 section.
fn key_pem() -> String {
    pem_section(&["PRIVATE", "KEY"], &key_der())
}

#[test]
fn test_material_is_encoded_as_expected() {
    assert_eq!(base64(b""), "");
    assert_eq!(base64(b"f"), "Zg==");
    assert_eq!(base64(b"fo"), "Zm8=");
    assert_eq!(base64(b"foo"), "Zm9v");
    assert_eq!(base64(b"foobar"), "Zm9vYmFy");
    assert_eq!(base64(&[0xfb, 0xff, 0xbf]), "+/+/");
    assert_eq!(base64(&[0x00, 0x10, 0x83]), "ABCD");
    assert_eq!(base64(b"not a certificate"), "bm90IGEgY2VydGlmaWNhdGU=");
    assert_eq!(
        pem_section(&["CERTIFICATE"], b"not a certificate"),
        FAKE_CERT_PEM
    );
    assert_eq!(key_der().len(), 48);
    assert_eq!(key_pem().lines().count(), 3);
}

#[test]
fn certificate_der_decodes_the_first_certificate() {
    let der = certificate_der(CA_PEM.as_bytes()).expect("the text holds a certificate");
    assert_eq!(der.len(), 543);
    assert_eq!(&der[..4], &[0x30, 0x82, 0x02, 0x1b]);
    let der = certificate_der(CERT_PEM.as_bytes()).expect("the text holds a certificate");
    assert_eq!(der.len(), 257);
    assert_eq!(&der[..3], &[0x30, 0x81, 0xfe]);
    let der = certificate_der(FAKE_CERT_PEM.as_bytes()).expect("the section is a certificate");
    assert_eq!(der, b"not a certificate".to_vec());
    // Only the first section counts.
    let both = format!("{}{}", CA_PEM, key_pem());
    assert_eq!(certificate_der(both.as_bytes()).expect("a certificate comes first").len(), 543);
}

#[test]
fn private_key_der_decodes_the_first_key() {
    let der = private_key_der(key_pem().as_bytes()).expect("the text holds a key");
    assert_eq!(der, key_der());
    // Only the first section counts.
    let both = format!("{}{}", key_pem(), CERT_PEM);
    assert_eq!(private_key_der(both.as_bytes()).expect("a key comes first"), key_der());
}

#[test]
fn first_section_of_the_wrong_kind_is_refused() {
    // The key text does hold a section: it is refused for its kind.
    assert!(private_key_der(key_pem().as_bytes()).is_ok());
    assert!(matches!(certificate_der(key_pem().as_bytes()), Err(HostError::WrongItem)));
    assert!(matches!(private_key_der(CERT_PEM.as_bytes()), Err(HostError::WrongItem)));
    let both = format!("{}{}", key_pem(), CERT_PEM);
    assert!(matches!(certificate_der(both.as_bytes()), Err(HostError::WrongItem)));
    // A key of another encoding is no PKCS#8 key.
    let rsa = pem_section(&["RSA", "PRIVATE", "KEY"], &[0, 0, 0]);
    assert!(matches!(private_key_der(rsa.as_bytes()), Err(HostError::WrongItem)));
    let ec = pem_section(&["EC", "PRIVATE", "KEY"], &[0, 0, 0]);
    assert!(matches!(private_key_der(ec.as_bytes()), Err(HostError::WrongItem)));
}

#[test]
fn text_without_a_section_is_refused() {
    assert!(matches!(certificate_der(b""), Err(HostError::WrongItem)));
    assert!(matches!(private_key_der(b"just some text\n"), Err(HostError::WrongItem)));
}

#[test]
fn malformed_text_is_a_read_error() {
    assert!(matches!(
        certificate_der(BROKEN_PEM.as_bytes()),
        Err(HostError::ReadFile { input: Material::Certificate, .. })
    ));
    assert!(matches!(
        private_key_der(BROKEN_PEM.as_bytes()),
        Err(HostError::ReadFile { input: Material::PrivateKey, .. })
    ));
}

#[test]
fn test_certificate_belongs_to_the_test_key() {
    // The public key of the test key, as the certificate holds it: the 32
    // bytes behind the header of an Ed25519 key info.
    let der = certificate_der(CERT_PEM.as_bytes()).expect("the text holds a certificate");
    let header: [u8; 12] = [0x30, 0x2a, 0x30, 0x05, 0x06, 0x03, 0x2b, 0x65, 0x70, 0x03, 0x21, 0x00];
    let at = der
        .windows(header.len())
        .position(|window| window == header)
        .expect("the certificate holds an Ed25519 key");
    let public_key = &der[at + header.len()..at + header.len() + 32];
    assert_eq!(
        public_key,
        &[
            0x79, 0xb5, 0x56, 0x2e, 0x8f, 0xe6, 0x54, 0xf9, 0x40, 0x78, 0xb1, 0x12, 0xe8, 0xa9,
            0x8b, 0xa7, 0x90, 0x1f, 0x85, 0x3a, 0xe6, 0x95, 0xbe, 0xd7, 0xe0, 0xe3, 0x91, 0x0b,
            0xad, 0x04, 0x96, 0x64
        ]
    );
}

#[test]
fn server_config_is_built_from_a_valid_key() {
    let cert = certificate_der(CERT_PEM.as_bytes()).expect("the text holds a certificate");
    assert!(server_tls_config(cert, key_der()).is_ok());
}

#[test]
fn server_config_refuses_a_malformed_certificate() {
    let res = server_tls_config(b"not a certificate".to_vec(), key_der());
    assert!(matches!(res, Err(HostError::RustTls(_))));
    let res = server_tls_config(Vec::new(), key_der());
    assert!(matches!(res, Err(HostError::RustTls(_))));
    let mut truncated = certificate_der(CERT_PEM.as_bytes()).expect("the text holds a certificate");
    truncated.truncate(100);
    let res = server_tls_config(truncated, key_der());
    assert!(matches!(res, Err(HostError::RustTls(_))));
    let res = rust_remote_shell::device_server::server_tls_config(b"not a certificate".to_vec(), key_der());
    assert!(matches!(res, Err(DeviceServerError::RustTls(_))));
    // A sound certificate does not make up for a key that is not valid.
    let cert = certificate_der(CERT_PEM.as_bytes()).expect("the text holds a certificate");
    let mut short_key = key_der();
    short_key.truncate(20);
    assert!(matches!(server_tls_config(cert, short_key), Err(HostError::RustTls(_))));
}

#[test]
fn acceptor_refuses_a_certificate_that_rustls_cannot_read() {
    let res = acceptor(FAKE_CERT_PEM.as_bytes(), key_pem().as_bytes());
    assert!(matches!(res, Err(HostError::RustTls(_))));
}

#[test]
fn server_config_refuses_an_invalid_key() {
    let cert = certificate_der(CERT_PEM.as_bytes()).expect("the text holds a certificate");
    let res = server_tls_config(cert.clone(), b"not a key".to_vec());
    assert!(matches!(res, Err(HostError::RustTls(_))));
    let res = server_tls_config(cert, Vec::new());
    assert!(matches!(res, Err(HostError::RustTls(_))));
}

#[test]
fn device_server_config_maps_the_error_of_rustls() {
    let cert = certificate_der(CERT_PEM.as_bytes()).expect("the text holds a certificate");
    let res = rust_remote_shell::device_server::server_tls_config(cert.clone(), key_der());
    assert!(res.is_ok());
    let res = rust_remote_shell::device_server::server_tls_config(cert, b"not a key".to_vec());
    assert!(matches!(res, Err(DeviceServerError::RustTls(_))));
    let cause = tokio_rustls::rustls::Error::General("invalid private key".to_string());
    let res = tls_config_result(Err(cause.clone()));
    assert!(matches!(res, Err(DeviceServerError::RustTls(ref err)) if *err == cause));
}

#[test]
fn server_config_result_keeps_the_cause() {
    let cause = tokio_rustls::rustls::Error::General("invalid private key".to_string());
    let res = server_config_result(Err(cause.clone()));
    assert!(matches!(res, Err(HostError::RustTls(ref err)) if *err == cause));
}

#[test]
fn acceptor_is_built_from_certificate_and_key() {
    assert!(acceptor(CERT_PEM.as_bytes(), key_pem().as_bytes()).is_ok());
}

#[test]
fn acceptor_judges_the_certificate_first() {
    let key = key_pem();
    assert!(private_key_der(key.as_bytes()).is_ok());
    assert!(matches!(acceptor(key.as_bytes(), key.as_bytes()), Err(HostError::WrongItem)));
    assert!(matches!(acceptor(CERT_PEM.as_bytes(), CERT_PEM.as_bytes()), Err(HostError::WrongItem)));
    assert!(matches!(
        acceptor(BROKEN_PEM.as_bytes(), CERT_PEM.as_bytes()),
        Err(HostError::ReadFile { input: Material::Certificate, .. })
    ));
    assert!(matches!(acceptor(key.as_bytes(), BROKEN_PEM.as_bytes()), Err(HostError::WrongItem)));
    assert!(matches!(
        acceptor(CERT_PEM.as_bytes(), BROKEN_PEM.as_bytes()),
        Err(HostError::ReadFile { input: Material::PrivateKey, .. })
    ));
    assert!(matches!(acceptor(b"", key.as_bytes()), Err(HostError::WrongItem)));
}

#[test]
fn acceptor_refuses_a_key_that_rustls_cannot_read() {
    let bad_key = pem_section(&["PRIVATE", "KEY"], b"not a key");
    assert_eq!(private_key_der(bad_key.as_bytes()).expect("the section is a key"), b"not a key".to_vec());
    assert!(matches!(acceptor(CERT_PEM.as_bytes(), bad_key.as_bytes()), Err(HostError::RustTls(_))));
}

#[test]
fn client_config_without_bundle_uses_default_roots() {
    assert!(client_tls_config(None).is_ok());
}

#[test]
fn client_config_takes_a_bundle_of_certificates() {
    assert!(client_tls_config(Some(CA_PEM.as_bytes().to_vec())).is_ok());
    let two = format!("{}{}", CA_PEM, CERT_PEM);
    assert!(client_tls_config(Some(two.into_bytes())).is_ok());
    // A bundle without a section adds nothing, and is no error.
    assert!(client_tls_config(Some(Vec::new())).is_ok());
}

#[test]
fn client_config_refuses_a_section_that_is_no_certificate() {
    let res = client_tls_config(Some(key_pem().into_bytes()));
    assert!(matches!(res, Err(DeviceError::WrongItem)));
    let mixed = format!("{}{}", CA_PEM, key_pem());
    let res = client_tls_config(Some(mixed.into_bytes()));
    assert!(matches!(res, Err(DeviceError::WrongItem)));
}

#[test]
fn client_config_refuses_a_certificate_that_does_not_parse() {
    let res = client_tls_config(Some(FAKE_CERT_PEM.as_bytes().to_vec()));
    assert!(matches!(res, Err(DeviceError::RustTls(_))));
    // The first fault decides.
    let mixed = format!("{}{}", FAKE_CERT_PEM, key_pem());
    let res = client_tls_config(Some(mixed.into_bytes()));
    assert!(matches!(res, Err(DeviceError::RustTls(_))));
    let mixed = format!("{}{}", key_pem(), FAKE_CERT_PEM);
    let res = client_tls_config(Some(mixed.into_bytes()));
    assert!(matches!(res, Err(DeviceError::WrongItem)));
}

#[test]
fn client_config_refuses_malformed_text() {
    let res = client_tls_config(Some(BROKEN_PEM.as_bytes().to_vec()));
    assert!(matches!(res, Err(DeviceError::ReadFile(_))));
    // All of the text is read before any section is judged.
    let mixed = format!("{}{}", key_pem(), BROKEN_PEM);
    let res = client_tls_config(Some(mixed.into_bytes()));
    assert!(matches!(res, Err(DeviceError::ReadFile(_))));
}

#[test]
fn connect_maps_the_failure_of_the_transport() {
    assert!(connect(Ok(())).is_ok());
    let res = connect(Err(TransportError::Other("connection refused".to_string())));
    assert!(matches!(
        res,
        Err(DeviceError::WebSocketConnect(TransportError::Other(ref text))) if text == "connection refused"
    ));
}

#[test]
fn config_errors_describe_themselves() {
    assert_eq!(HostError::WrongItem.message(), "Wrong item in a certificate or key file");
    assert_eq!(DeviceError::WrongItem.message(), "Wrong item in the CA bundle");
    assert_eq!(
        DeviceError::WebSocketConnect(TransportError::ResetWithoutClosingHandshake).message(),
        "Error while trying to connect with server"
    );
}

#[test]
fn layers_put_their_stages_in_front() {
    assert_eq!(HostService.stage_list(), Vec::<Stage>::new());
    let framed = WebSocketLayer.layer(HostService);
    assert_eq!(framed.stage_list(), vec![Stage::Framing]);
    let same = Identity.layer(WebSocketLayer.layer(HostService));
    assert_eq!(same.stage_list(), vec![Stage::Framing]);
    let tls = TlsLayer::new(acceptor(CERT_PEM.as_bytes(), key_pem().as_bytes()).expect("the material is sound"));
    let secured = tls.layer(WebSocketLayer.layer(HostService));
    assert_eq!(secured.stage_list(), vec![Stage::Tls, Stage::Framing]);
    // The layer can be used for any number of handlers.
    let again = tls.layer(HostService);
    assert_eq!(again.stage_list(), vec![Stage::Tls]);
}

#[test]
fn stack_applies_the_inner_layer_first() {
    let tls = TlsLayer::new(acceptor(CERT_PEM.as_bytes(), key_pem().as_bytes()).expect("the material is sound"));
    let stack = Stack::new(WebSocketLayer, Stack::new(tls, Identity));
    let service = stack.layer(HostService);
    assert_eq!(service.stage_list(), vec![Stage::Tls, Stage::Framing]);
    let plain = Stack::new(WebSocketLayer, Identity).layer(HostService);
    assert_eq!(plain.stage_list(), vec![Stage::Framing]);
}

#[test]
fn tls_service_hands_only_secured_streams_inward() {
    let tls = TlsLayer::new(acceptor(CERT_PEM.as_bytes(), key_pem().as_bytes()).expect("the material is sound"));
    let service = tls.layer(WebSocketLayer.layer(HostService));
    let inner = service.call(Ok(())).expect("a secured stream goes inward");
    assert_eq!(inner.stage_list(), vec![Stage::Framing]);
    assert_eq!(service.service().stage_list(), vec![Stage::Framing]);
    let cause = std::io::Error::new(std::io::ErrorKind::InvalidData, "bad handshake");
    let res = service.call(Err(cause));
    assert!(matches!(
        res,
        Err(HostError::AcceptTls(ref err)) if err.kind() == std::io::ErrorKind::InvalidData
    ));
    // The failure of the handler inside comes out as the host's error.
    assert!(service.respond(Ok(())).is_ok());
    let res = service.respond(Err(DeviceServerError::ReadCommand));
    assert!(matches!(res, Err(HostError::Connection(DeviceServerError::ReadCommand))));
    let err = HostError::connection(DeviceServerError::Utf8Error(vec![0xff]));
    assert!(matches!(
        err,
        HostError::Connection(DeviceServerError::Utf8Error(ref bytes)) if bytes == &vec![0xff]
    ));
    assert_eq!(err.message(), "Error on a connection");
}

#[test]
fn host_builder_serves_with_and_without_tls() {
    let server = rust_remote_shell::device_server::DeviceServer::new("127.0.0.1:8080".to_string());
    let (server, service) = HostBuilder::new(server).serve();
    assert_eq!(server.addr(), "127.0.0.1:8080");
    assert_eq!(service.stage_list(), vec![Stage::Framing]);

    let cert = certificate_der(CERT_PEM.as_bytes()).expect("the text holds a certificate");
    let builder = HostBuilder::new(server).with_tls(cert, key_der()).expect("the material is sound");
    let (server, service) = builder.serve();
    assert_eq!(server.addr(), "127.0.0.1:8080");
    assert_eq!(service.stage_list(), vec![Stage::Tls, Stage::Framing]);
    // Behind the TLS layer stands the same stack as without it.
    assert_eq!(service.service().stage_list(), vec![Stage::Framing]);
}

#[test]
fn host_builder_refuses_a_bad_key() {
    let server = rust_remote_shell::device_server::DeviceServer::new("127.0.0.1:8080".to_string());
    let res = HostBuilder::new(server).with_tls(b"cert".to_vec(), b"key".to_vec());
    assert!(matches!(res, Err(HostError::RustTls(_))));
    // A malformed certificate is refused as well, before anything is served.
    let server = rust_remote_shell::device_server::DeviceServer::new("127.0.0.1:8080".to_string());
    let res = HostBuilder::new(server).with_tls(b"cert".to_vec(), key_der());
    assert!(matches!(res, Err(HostError::RustTls(_))));
    let server = rust_remote_shell::device_server::DeviceServer::new("127.0.0.1:8080".to_string());
    let cert = certificate_der(CERT_PEM.as_bytes()).expect("the text holds a certificate");
    let res = HostBuilder::new(server).with_tls(cert, b"key".to_vec());
    assert!(matches!(res, Err(HostError::RustTls(_))));
}
