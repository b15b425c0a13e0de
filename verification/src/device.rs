use crate::device_server::TransportError;
use vstd::prelude::*;
use vstd::string::*;

verus! {

/// Why the device role failed.
#[derive(Debug)]
pub enum DeviceError {
    /// The text of the CA bundle is malformed.
    ReadFile(std::io::Error),
    /// The CA bundle holds a section that is no certificate.
    WrongItem,
    /// rustls refused a certificate of the CA bundle.
    RustTls(tokio_rustls::rustls::Error),
    /// The connection to the host could not be made.
    WebSocketConnect(TransportError),
}

impl DeviceError {
    /// The line that describes the error to the operator.
    pub open spec fn description(self) -> Seq<char> {
        match self {
            DeviceError::ReadFile(_) => "Error while reading the CA bundle"@,
            DeviceError::WrongItem => "Wrong item in the CA bundle"@,
            DeviceError::RustTls(_) => "Error while loading a CA certificate"@,
            DeviceError::WebSocketConnect(_) => "Error while trying to connect with server"@,
        }
    }

    /// The error's description, as text.
    pub fn message(&self) -> (text: String)
        ensures
            text@ == self.description(),
    {
        match self {
            DeviceError::ReadFile(_) => String::from_str("Error while reading the CA bundle"),
            DeviceError::WrongItem => String::from_str("Wrong item in the CA bundle"),
            DeviceError::RustTls(_) => String::from_str("Error while loading a CA certificate"),
            DeviceError::WebSocketConnect(_) => String::from_str(
                "Error while trying to connect with server",
            ),
        }
    }
}

} // verus!
