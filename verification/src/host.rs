use crate::device_server::DeviceServer;
use crate::device_server::DeviceServerError;
use crate::layer::HostService;
use crate::layer::Identity;
use crate::layer::Layer;
use crate::layer::Service;
use crate::layer::Stack;
use crate::layer::Stage;
use crate::layer::WebSocketLayer;
use crate::layer::WebSocketService;
use crate::tls::acceptor_context;
use crate::tls::acceptor_of;
use crate::tls::server_tls_config;
use crate::tls::parses_as_trust_anchor;
use crate::tls::single_cert_context;
use crate::tls::valid_private_key;
use crate::tls::TlsLayer;
use crate::tls::TlsService;
use vstd::prelude::*;
use vstd::string::*;

verus! {

/// The two inputs that the host's TLS material comes from.
#[derive(Debug, Clone, Copy, PartialEq, Eq, Structural)]
pub enum Material {
    /// The text that holds the certificate.
    Certificate,
    /// The text that holds the private key.
    PrivateKey,
}

/// Why the host role failed.
#[derive(Debug)]
pub enum HostError {
    /// The text of the certificate or of the key is malformed; `input` says
    /// which of the two.
    ReadFile { err: std::io::Error, input: Material },
    /// The first section of a file is not of the kind that is asked for.
    WrongItem,
    /// rustls refused the certificate or the key.
    RustTls(tokio_rustls::rustls::Error),
    /// The TLS handshake with a peer failed.
    AcceptTls(std::io::Error),
    /// A connection failed behind the TLS layer.
    Connection(DeviceServerError),
}

impl HostError {
    /// The line that describes the error to the operator.
    pub open spec fn description(self) -> Seq<char> {
        match self {
            HostError::ReadFile { .. } => "Error while reading a certificate or key file"@,
            HostError::WrongItem => "Wrong item in a certificate or key file"@,
            HostError::RustTls(_) => "Error while establishing a TLS connection"@,
            HostError::AcceptTls(_) => "Error while accepting a TLS connection"@,
            HostError::Connection(_) => "Error on a connection"@,
        }
    }

    /// The failure of a connection behind the layers, as the host's error.
    pub fn connection(cause: DeviceServerError) -> (err: HostError)
        ensures
            err == HostError::Connection(cause),
    {
        HostError::Connection(cause)
    }

    /// The error's description, as text.
    pub fn message(&self) -> (text: String)
        ensures
            text@ == self.description(),
    {
        match self {
            HostError::ReadFile { .. } => String::from_str(
                "Error while reading a certificate or key file",
            ),
            HostError::WrongItem => String::from_str("Wrong item in a certificate or key file"),
            HostError::RustTls(_) => String::from_str("Error while establishing a TLS connection"),
            HostError::AcceptTls(_) => String::from_str("Error while accepting a TLS connection"),
            HostError::Connection(_) => String::from_str("Error on a connection"),
        }
    }
}

/// A listener together with the layers that its connections go through.
/// The stack is built once, before the first connection is accepted.
pub struct HostBuilder<L> {
    server: DeviceServer,
    builder: L,
}

impl<L> HostBuilder<L> {
    /// The listener of the builder.
    pub closed spec fn listener(&self) -> DeviceServer {
        self.server
    }

    /// The layers of the builder.
    pub closed spec fn layers(&self) -> L {
        self.builder
    }

    /// Takes the builder apart.
    pub fn fields(self) -> (res: (DeviceServer, L))
        ensures
            res.0 == self.listener(),
            res.1 == self.layers(),
    {
        (self.server, self.builder)
    }
}

impl HostBuilder<Identity> {
    /// A builder for `server` without any layer yet.
    pub fn new(server: DeviceServer) -> (builder: Self)
        ensures
            builder.listener() == server,
    {
        HostBuilder { server, builder: Identity }
    }

    /// Adds the TLS layer, made from one DER-encoded certificate and its
    /// DER-encoded private key. A certificate that rustls cannot read and a
    /// key that is not valid are always refused, and whatever rustls refuses
    /// is a configuration error. The layer that is added holds the acceptor
    /// of the context that presents that certificate and signs with that key.
    pub fn with_tls(self, cert: Vec<u8>, privkey: Vec<u8>) -> (res: Result<
        HostBuilder<Stack<TlsLayer, Identity>>,
        HostError,
    >)
        ensures
            res is Err ==> res matches Err(HostError::RustTls(_)),
            !parses_as_trust_anchor(cert@) ==> res is Err,
            !valid_private_key(privkey@) ==> res is Err,
            res matches Ok(builder) ==> builder.listener() == self.listener() && acceptor_context(
                builder.layers().inner.handle(),
            ) == single_cert_context(cert@, privkey@),
    {
        match server_tls_config(cert, privkey) {
            Ok(config) => {
                let layer = TlsLayer::new(acceptor_of(config));
                Ok(HostBuilder { server: self.server, builder: Stack::new(layer, self.builder) })
            },
            Err(err) => Err(err),
        }
    }

    /// Builds the stack without TLS: connections are upgraded to the framed
    /// protocol and handed to the application.
    pub fn serve(self) -> (res: (DeviceServer, WebSocketService<HostService>))
        ensures
            res.0 == self.listener(),
            res.1.stages() == seq![Stage::Framing],
            res.1.service == HostService,
    {
        let (server, builder) = self.fields();
        let stack = Stack::new(WebSocketLayer, builder);
        let service = stack.layer(HostService);
        assert(service.stages() =~= seq![Stage::Framing]);
        (server, service)
    }
}

impl HostBuilder<Stack<TlsLayer, Identity>> {
    /// Builds the stack with TLS: connections are secured, then upgraded to
    /// the framed protocol, then handed to the application. The application
    /// is the same as without TLS.
    pub fn serve(self) -> (res: (DeviceServer, TlsService<WebSocketService<HostService>>))
        ensures
            res.0 == self.listener(),
            res.1.stages() == seq![Stage::Tls, Stage::Framing],
            res.1.inner().service == HostService,
            res.1.handle() == self.layers().inner.handle(),
    {
        let (server, builder) = self.fields();
        let stack = Stack::new(WebSocketLayer, builder);
        let service = stack.layer(HostService);
        assert(service.stages() =~= seq![Stage::Tls, Stage::Framing]);
        (server, service)
    }
}

} // verus!
