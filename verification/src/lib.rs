//! A remote command-execution protocol between an interactive host and a
//! device that runs the commands, over a message-framed channel that may be
//! secured with TLS.
//!
//! The library holds the rules of the protocol: how frames are read as
//! commands and answered, which failures end a connection quietly and which
//! are fatal, how a supervisor shuts its tasks down on the first fatal error,
//! how the host keeps every frame it has received until it is displayed, and
//! how the TLS material is checked. The network and terminal I/O that drives
//! these rules lives outside of it.

pub mod frame;
pub mod shell;
pub mod device;
pub mod device_server;
pub mod host;
pub mod layer;
pub mod sender_client;
pub mod supervisor;
pub mod tls;
