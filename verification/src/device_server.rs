use crate::frame::string_from_utf8;
use crate::frame::Frame;
use crate::shell::render;
use crate::shell::rendered;
use crate::shell::CommandOutcome;
use crate::shell::ShellError;
use crate::supervisor::ErrorChannel;
use crate::tls::add_root;
use crate::tls::empty_root_store;
use crate::tls::parses_as_trust_anchor;
use crate::tls::server_context;
use crate::tls::single_cert_config;
use crate::tls::single_cert_context;
use crate::tls::valid_private_key;
use vstd::prelude::*;
use vstd::string::*;
use vstd::utf8::*;

verus! {

/// A failure of the framed transport, as far as the protocol tells failures
/// apart.
#[derive(Debug, Clone, PartialEq, Eq)]
pub enum TransportError {
    /// The peer reset the connection before the closing handshake was done.
    ResetWithoutClosingHandshake,
    /// Any other failure, with its description.
    Other(String),
}

/// Why a connection of the device server ended.
#[derive(Debug)]
pub enum DeviceServerError {
    /// The listening endpoint could not be bound.
    Bind(String),
    /// An accepted stream had no peer address.
    PeerAddr,
    /// The upgrade to the framed protocol failed.
    WebSocketHandshake,
    /// A frame arrived that is neither a command nor a close.
    ReadCommand,
    /// A payload was not valid UTF-8; the bytes are those that were rejected.
    Utf8Error(Vec<u8>),
    /// The transport failed.
    Transport(TransportError),
    /// The shell failed.
    ShellError(ShellError),
    /// The peer closed the connection.
    CloseWebsocket,
    /// The TLS material was refused.
    RustTls(tokio_rustls::rustls::Error),
    /// The TLS handshake with the peer failed.
    AcceptTls(std::io::Error),
}

impl DeviceServerError {
    /// A benign end is the peer's close frame, or a reset that arrives in
    /// place of the closing handshake. Every other error is fatal.
    pub open spec fn is_benign(self) -> bool {
        self is CloseWebsocket || self matches DeviceServerError::Transport(
            TransportError::ResetWithoutClosingHandshake,
        )
    }

    /// The line that describes the error to the operator.
    pub open spec fn description(self) -> Seq<char> {
        match self {
            DeviceServerError::Bind(_) => "Failed to bind"@,
            DeviceServerError::PeerAddr => "Connected streams should have a peer address"@,
            DeviceServerError::WebSocketHandshake => "Error during the websocket handshake occurred"@,
            DeviceServerError::ReadCommand => "Error while reading the shell command from websocket"@,
            DeviceServerError::Utf8Error(_) => "Error marshaling to UTF8"@,
            DeviceServerError::Transport(_) => "Transport error from Tungstenite"@,
            DeviceServerError::ShellError(_) => "Error while processing the shell command"@,
            DeviceServerError::CloseWebsocket => "Close websocket connection"@,
            DeviceServerError::RustTls(_) => "Error while establishing a TLS connection"@,
            DeviceServerError::AcceptTls(_) => "Error while accepting a TLS connection"@,
        }
    }

    /// Whether the connection ended without anything to report.
    pub fn benign(&self) -> (res: bool)
        ensures
            res == self.is_benign(),
    {
        match self {
            DeviceServerError::CloseWebsocket => true,
            DeviceServerError::Transport(TransportError::ResetWithoutClosingHandshake) => true,
            _ => false,
        }
    }

    /// The error's description, as text.
    pub fn message(&self) -> (text: String)
        ensures
            text@ == self.description(),
    {
        match self {
            DeviceServerError::Bind(_) => String::from_str("Failed to bind"),
            DeviceServerError::PeerAddr => String::from_str(
                "Connected streams should have a peer address",
            ),
            DeviceServerError::WebSocketHandshake => String::from_str(
                "Error during the websocket handshake occurred",
            ),
            DeviceServerError::ReadCommand => String::from_str(
                "Error while reading the shell command from websocket",
            ),
            DeviceServerError::Utf8Error(_) => String::from_str("Error marshaling to UTF8"),
            DeviceServerError::Transport(_) => String::from_str("Transport error from Tungstenite"),
            DeviceServerError::ShellError(_) => String::from_str(
                "Error while processing the shell command",
            ),
            DeviceServerError::CloseWebsocket => String::from_str("Close websocket connection"),
            DeviceServerError::RustTls(_) => String::from_str(
                "Error while establishing a TLS connection",
            ),
            DeviceServerError::AcceptTls(_) => String::from_str(
                "Error while accepting a TLS connection",
            ),
        }
    }
}

/// How an inbound frame reads as a command: a binary payload of valid UTF-8
/// is the command that it encodes, one that is not valid is rejected with its
/// bytes, a close frame ends the connection, and any other frame is a
/// protocol error.
pub open spec fn reads_as(frame: Frame, res: Result<String, DeviceServerError>) -> bool {
    match frame {
        Frame::Binary(bytes) => if valid_utf8(bytes@) {
            res matches Ok(command) && command@ == decode_utf8(bytes@)
        } else {
            res matches Err(DeviceServerError::Utf8Error(rejected)) && rejected@ == bytes@
        },
        Frame::Close(_) => res matches Err(DeviceServerError::CloseWebsocket),
        Frame::Other(_) => res matches Err(DeviceServerError::ReadCommand),
    }
}

/// Reads an inbound frame as a command string.
pub fn decode_command(frame: Frame) -> (res: Result<String, DeviceServerError>)
    ensures
        reads_as(frame, res),
{
    match frame {
        Frame::Binary(bytes) => match string_from_utf8(bytes) {
            Ok(command) => Ok(command),
            Err(rejected) => Err(DeviceServerError::Utf8Error(rejected)),
        },
        Frame::Close(_) => Err(DeviceServerError::CloseWebsocket),
        Frame::Other(_) => Err(DeviceServerError::ReadCommand),
    }
}

/// Whether `frame` answers a command that had this outcome: it is a binary
/// frame whose payload encodes the rendered outcome.
pub open spec fn answers(outcome: CommandOutcome, frame: Frame) -> bool {
    frame matches Frame::Binary(bytes) && bytes@ == encode_utf8(rendered(outcome))
}

/// The frame that answers a command. A failure of the shell is answered like
/// any output.
pub fn command_response(outcome: CommandOutcome) -> (frame: Frame)
    ensures
        answers(outcome, frame),
{
    let text = render(outcome);
    Frame::from_text(text.as_str())
}

/// Where a connection stands between its acceptance and its end.
#[derive(Debug, Clone, Copy, PartialEq, Eq, Structural)]
pub enum ConnectionState {
    /// The TLS handshake is under way.
    Securing,
    /// Accepted; the peer's address is not known yet.
    Accepted,
    /// The upgrade to the framed protocol is under way.
    Upgrading,
    /// Waiting for the next inbound frame.
    Receiving,
    /// A command is running in the shell.
    Executing,
    /// The answer to a command is being written.
    Sending,
    /// The connection has ended.
    Finished,
}

/// What happened on a connection since the last step.
#[derive(Debug)]
pub enum ConnectionEvent {
    /// The TLS handshake ended, well or not.
    Secured(Result<(), std::io::Error>),
    /// The stream was asked for its peer's address.
    PeerAddr(Option<String>),
    /// The upgrade to the framed protocol ended, well or not.
    Upgraded(bool),
    /// The inbound half gave a frame.
    Inbound(Frame),
    /// The inbound half failed.
    ReadFailed(TransportError),
    /// The inbound half has no more frames.
    EndOfStream,
    /// The shell returned.
    Executed(CommandOutcome),
    /// The outbound half took the frame.
    Sent,
    /// The outbound half failed.
    SendFailed(TransportError),
}

/// What is to be done on a connection after a step.
#[derive(Debug)]
pub enum ConnectionAction {
    /// Ask the stream for its peer's address.
    Inspect,
    /// Upgrade the stream to the framed protocol.
    Upgrade,
    /// Wait for the next inbound frame.
    Receive,
    /// Run this command in the shell.
    Execute(String),
    /// Write this frame to the outbound half.
    Send(Frame),
    /// End the connection with this result.
    Finish(Result<(), DeviceServerError>),
}

impl ConnectionState {
    /// The events that can follow in each state.
    pub open spec fn expects(self, event: ConnectionEvent) -> bool {
        match self {
            ConnectionState::Securing => event is Secured,
            ConnectionState::Accepted => event is PeerAddr,
            ConnectionState::Upgrading => event is Upgraded,
            ConnectionState::Receiving => event is Inbound || event is ReadFailed
                || event is EndOfStream,
            ConnectionState::Executing => event is Executed,
            ConnectionState::Sending => event is Sent || event is SendFailed,
            ConnectionState::Finished => false,
        }
    }

    /// The state after `event`. A connection ends on a failed handshake, a
    /// missing peer address, a frame that is no command, a failure of either
    /// half, and the end of the inbound stream. One command is in flight at
    /// a time: the next frame is read once the answer has been written.
    pub open spec fn next(self, event: ConnectionEvent) -> ConnectionState {
        match event {
            ConnectionEvent::Secured(Ok(_)) => ConnectionState::Accepted,
            ConnectionEvent::PeerAddr(Some(_)) => ConnectionState::Upgrading,
            ConnectionEvent::Upgraded(true) => ConnectionState::Receiving,
            ConnectionEvent::Inbound(Frame::Binary(bytes)) => if valid_utf8(bytes@) {
                ConnectionState::Executing
            } else {
                ConnectionState::Finished
            },
            ConnectionEvent::Executed(_) => ConnectionState::Sending,
            ConnectionEvent::Sent => ConnectionState::Receiving,
            _ => ConnectionState::Finished,
        }
    }

    /// Whether a run of events can follow from this state, each event being
    /// one that the state before it expects.
    pub open spec fn admits(self, events: Seq<ConnectionEvent>) -> bool
        decreases events.len(),
    {
        events.len() == 0 || (self.expects(events[0]) && self.next(events[0]).admits(
            events.drop_first(),
        ))
    }

    /// The state after a run of events.
    pub open spec fn run(self, events: Seq<ConnectionEvent>) -> ConnectionState
        decreases events.len(),
    {
        if events.len() == 0 {
            self
        } else {
            self.next(events[0]).run(events.drop_first())
        }
    }

    /// Whether `action` is what `event` asks for. The state has no say in it.
    pub open spec fn asks(event: ConnectionEvent, action: ConnectionAction) -> bool {
        match event {
            ConnectionEvent::Secured(Ok(_)) => action is Inspect,
            ConnectionEvent::Secured(Err(cause)) => action matches ConnectionAction::Finish(
                Err(DeviceServerError::AcceptTls(err)),
            ) && err == cause,
            ConnectionEvent::PeerAddr(Some(_)) => action is Upgrade,
            ConnectionEvent::PeerAddr(None) => action matches ConnectionAction::Finish(
                Err(DeviceServerError::PeerAddr),
            ),
            ConnectionEvent::Upgraded(true) => action is Receive,
            ConnectionEvent::Upgraded(false) => action matches ConnectionAction::Finish(
                Err(DeviceServerError::WebSocketHandshake),
            ),
            ConnectionEvent::Inbound(frame) => match action {
                ConnectionAction::Execute(command) => reads_as(frame, Ok(command)),
                ConnectionAction::Finish(Err(err)) => reads_as(frame, Err(err)),
                _ => false,
            },
            ConnectionEvent::ReadFailed(cause) => action matches ConnectionAction::Finish(
                Err(DeviceServerError::Transport(err)),
            ) && err == cause,
            ConnectionEvent::EndOfStream => action matches ConnectionAction::Finish(Ok(_)),
            ConnectionEvent::Executed(outcome) => action matches ConnectionAction::Send(frame)
                && answers(outcome, frame),
            ConnectionEvent::Sent => action is Receive,
            ConnectionEvent::SendFailed(cause) => action matches ConnectionAction::Finish(
                Err(DeviceServerError::Transport(err)),
            ) && err == cause,
        }
    }

    /// Where a connection starts: with the TLS handshake where the stream is
    /// to be secured, else as an accepted stream.
    pub open spec fn start(secured: bool) -> ConnectionState {
        if secured {
            ConnectionState::Securing
        } else {
            ConnectionState::Accepted
        }
    }

    /// A connection that was just accepted, with TLS or without.
    pub fn new(secured: bool) -> (state: ConnectionState)
        ensures
            state == Self::start(secured),
    {
        if secured {
            ConnectionState::Securing
        } else {
            ConnectionState::Accepted
        }
    }

    /// Whether `event` can follow in this state.
    pub fn accepts(&self, event: &ConnectionEvent) -> (res: bool)
        ensures
            res == self.expects(*event),
    {
        match (self, event) {
            (ConnectionState::Securing, ConnectionEvent::Secured(_)) => true,
            (ConnectionState::Accepted, ConnectionEvent::PeerAddr(_)) => true,
            (ConnectionState::Upgrading, ConnectionEvent::Upgraded(_)) => true,
            (ConnectionState::Receiving, ConnectionEvent::Inbound(_)) => true,
            (ConnectionState::Receiving, ConnectionEvent::ReadFailed(_)) => true,
            (ConnectionState::Receiving, ConnectionEvent::EndOfStream) => true,
            (ConnectionState::Executing, ConnectionEvent::Executed(_)) => true,
            (ConnectionState::Sending, ConnectionEvent::Sent) => true,
            (ConnectionState::Sending, ConnectionEvent::SendFailed(_)) => true,
            _ => false,
        }
    }

    /// Whether the connection has ended.
    pub fn is_finished(&self) -> (res: bool)
        ensures
            res == (*self == ConnectionState::Finished),
    {
        match self {
            ConnectionState::Finished => true,
            _ => false,
        }
    }

    /// Takes the connection one step on: moves to the next state and says
    /// what is to be done.
    pub fn step(&mut self, event: ConnectionEvent) -> (action: ConnectionAction)
        requires
            old(self).expects(event),
        ensures
            *final(self) == old(self).next(event),
            Self::asks(event, action),
            (action is Finish) == (*final(self) == ConnectionState::Finished),
    {
        match event {
            ConnectionEvent::Secured(Ok(_)) => {
                *self = ConnectionState::Accepted;
                ConnectionAction::Inspect
            },
            ConnectionEvent::Secured(Err(cause)) => {
                *self = ConnectionState::Finished;
                ConnectionAction::Finish(Err(DeviceServerError::AcceptTls(cause)))
            },
            ConnectionEvent::PeerAddr(Some(_)) => {
                *self = ConnectionState::Upgrading;
                ConnectionAction::Upgrade
            },
            ConnectionEvent::PeerAddr(None) => {
                *self = ConnectionState::Finished;
                ConnectionAction::Finish(Err(DeviceServerError::PeerAddr))
            },
            ConnectionEvent::Upgraded(true) => {
                *self = ConnectionState::Receiving;
                ConnectionAction::Receive
            },
            ConnectionEvent::Upgraded(false) => {
                *self = ConnectionState::Finished;
                ConnectionAction::Finish(Err(DeviceServerError::WebSocketHandshake))
            },
            ConnectionEvent::Inbound(frame) => match decode_command(frame) {
                Ok(command) => {
                    *self = ConnectionState::Executing;
                    ConnectionAction::Execute(command)
                },
                Err(err) => {
                    *self = ConnectionState::Finished;
                    ConnectionAction::Finish(Err(err))
                },
            },
            ConnectionEvent::ReadFailed(cause) => {
                *self = ConnectionState::Finished;
                ConnectionAction::Finish(Err(DeviceServerError::Transport(cause)))
            },
            ConnectionEvent::EndOfStream => {
                *self = ConnectionState::Finished;
                ConnectionAction::Finish(Ok(()))
            },
            ConnectionEvent::Executed(outcome) => {
                *self = ConnectionState::Sending;
                ConnectionAction::Send(command_response(outcome))
            },
            ConnectionEvent::Sent => {
                *self = ConnectionState::Receiving;
                ConnectionAction::Receive
            },
            ConnectionEvent::SendFailed(cause) => {
                *self = ConnectionState::Finished;
                ConnectionAction::Finish(Err(DeviceServerError::Transport(cause)))
            },
        }
    }
}

/// What the device server makes of rustls's answer: the context as it is, or
/// the error that holds rustls's own.
pub fn tls_config_result(
    built: Result<tokio_rustls::rustls::ServerConfig, tokio_rustls::rustls::Error>,
) -> (res: Result<tokio_rustls::rustls::ServerConfig, DeviceServerError>)
    ensures
        built matches Ok(config) ==> (res matches Ok(same) && same == config),
        built matches Err(cause) ==> (res matches Err(DeviceServerError::RustTls(err)) && err
            == cause),
{
    match built {
        Ok(config) => Ok(config),
        Err(cause) => Err(DeviceServerError::RustTls(cause)),
    }
}

/// Builds the server-side TLS context of the device server from one
/// DER-encoded certificate and its DER-encoded private key. A certificate
/// that rustls cannot read and a key that is not valid are always refused,
/// and whatever rustls refuses is an error that holds rustls's own. A
/// context that is built presents the chain of that one certificate, signs
/// with that key and asks no certificate of its peers. Success is not
/// promised: rustls may refuse a valid key where the system's random source
/// fails.
pub fn server_tls_config(cert: Vec<u8>, privkey: Vec<u8>) -> (res: Result<
    tokio_rustls::rustls::ServerConfig,
    DeviceServerError,
>)
    ensures
        res is Err ==> res matches Err(DeviceServerError::RustTls(_)),
        !parses_as_trust_anchor(cert@) ==> res is Err,
        !valid_private_key(privkey@) ==> res is Err,
        res matches Ok(config) ==> server_context(config) == single_cert_context(cert@, privkey@),
{
    let mut probe = empty_root_store();
    match add_root(&mut probe, &cert) {
        Ok(()) => tls_config_result(single_cert_config(cert, privkey)),
        Err(err) => Err(DeviceServerError::RustTls(err)),
    }
}

/// How many fatal errors can wait for the supervisor at a time.
pub const MAX_ERRORS_TO_HANDLE: usize = 10;

/// One step of the shutdown of the listener.
#[derive(Debug, Clone, Copy, PartialEq, Eq, Structural)]
pub enum TerminationStep {
    /// Abort the task that accepts connections.
    AbortAcceptLoop,
    /// Wait for that task to end, so that no connection is registered any
    /// more. That it was cancelled is what was asked for; another failure of
    /// the join is logged.
    JoinAcceptLoop,
    /// Abort the task of this connection. It is not waited for.
    AbortConnection(u64),
}

/// The steps that shut the listener down, in order: the accept loop is
/// aborted and joined first, then the task of every registered connection is
/// aborted, oldest first, none left out.
pub open spec fn termination_plan(handles: Seq<u64>) -> Seq<TerminationStep> {
    seq![TerminationStep::AbortAcceptLoop, TerminationStep::JoinAcceptLoop] + handles.map_values(
        |task: u64| TerminationStep::AbortConnection(task),
    )
}

/// What the supervisor orders when it shuts the listener down.
#[derive(Debug)]
pub struct Shutdown {
    /// The error that set the shutdown off: the listener's result.
    pub error: DeviceServerError,
    /// What is to be done, step by step.
    pub steps: Vec<TerminationStep>,
}

/// What a device server is, seen from outside.
pub struct DeviceServerView {
    /// The address it listens at.
    pub addr: Seq<char>,
    /// The registered connection tasks, oldest first.
    pub handles: Seq<u64>,
    /// The fatal errors that wait for the supervisor, oldest first.
    pub pending: Seq<DeviceServerError>,
    /// Whether connections are still accepted.
    pub listening: bool,
}

impl DeviceServerView {
    /// The server after the task of a new connection was offered to it: it
    /// is recorded while the server listens.
    pub open spec fn register(self, task: u64) -> DeviceServerView {
        if self.listening {
            DeviceServerView { handles: self.handles.push(task), ..self }
        } else {
            self
        }
    }

    /// Whether the result of a connection reaches the supervisor: it is a
    /// fatal error, the server still listens, and the mailbox has room.
    pub open spec fn escalates(self, result: Result<(), DeviceServerError>) -> bool {
        result matches Err(err) && !err.is_benign() && self.listening && self.pending.len()
            < MAX_ERRORS_TO_HANDLE
    }

    /// The server after a connection has ended with `result`. Only the
    /// mailbox can change: the sibling connections are not touched.
    pub open spec fn report(self, result: Result<(), DeviceServerError>) -> DeviceServerView {
        if self.escalates(result) {
            DeviceServerView { pending: self.pending.push(result->Err_0), ..self }
        } else {
            self
        }
    }

    /// What the supervisor finds on its turn: nothing while no error waits,
    /// else the first error together with the steps that stop the accept
    /// loop and every registered task.
    pub open spec fn verdict(self) -> Option<(DeviceServerError, Seq<TerminationStep>)> {
        if self.pending.len() == 0 {
            None
        } else {
            Some((self.pending[0], termination_plan(self.handles)))
        }
    }

    /// The server after it was stopped: it listens no more and its registry
    /// is handed out.
    pub open spec fn terminate(self) -> DeviceServerView {
        DeviceServerView { handles: Seq::empty(), listening: false, ..self }
    }

    /// The server after the supervisor's turn: unchanged while no error
    /// waits; else it listens no more, its registry is handed out, and the
    /// first error has left the mailbox.
    pub open spec fn supervise(self) -> DeviceServerView {
        if self.pending.len() == 0 {
            self
        } else {
            DeviceServerView {
                handles: Seq::empty(),
                pending: self.pending.drop_first(),
                listening: false,
                ..self
            }
        }
    }
}

/// The supervisor of the device server: it keeps the registry of connection
/// tasks and the mailbox of fatal errors, and on the first fatal error shuts
/// everything down.
#[derive(Debug)]
pub struct DeviceServer {
    addr: String,
    handles: Vec<u64>,
    errors: ErrorChannel<DeviceServerError>,
}

impl View for DeviceServer {
    type V = DeviceServerView;

    closed spec fn view(&self) -> DeviceServerView {
        DeviceServerView {
            addr: self.addr@,
            handles: self.handles@,
            pending: self.errors@.pending,
            listening: self.errors@.open,
        }
    }
}

impl DeviceServer {
    /// The mailbox is sound and has room for `MAX_ERRORS_TO_HANDLE` errors.
    pub closed spec fn wf(&self) -> bool {
        self.errors.wf() && self.errors@.capacity == MAX_ERRORS_TO_HANDLE
    }

    /// While the server is sound, no more errors wait than the mailbox holds.
    pub proof fn pending_is_bounded(&self)
        requires
            self.wf(),
        ensures
            self@.pending.len() <= MAX_ERRORS_TO_HANDLE,
    {
    }

    /// A server for `addr`: it listens, has no connection yet and no error.
    pub fn new(addr: String) -> (server: Self)
        ensures
            server.wf(),
            server@.addr == addr@,
            server@.handles.len() == 0,
            server@.pending.len() == 0,
            server@.listening,
    {
        DeviceServer {
            addr,
            handles: Vec::new(),
            errors: ErrorChannel::new(MAX_ERRORS_TO_HANDLE),
        }
    }

    /// The address that the server listens at.
    pub fn addr(&self) -> (addr: &String)
        ensures
            addr@ == self@.addr,
    {
        &self.addr
    }

    /// Whether the server still accepts connections.
    pub fn is_listening(&self) -> (res: bool)
        ensures
            res == self@.listening,
    {
        self.errors.is_open()
    }

    /// How many connection tasks are registered.
    pub fn connections(&self) -> (n: usize)
        ensures
            n == self@.handles.len(),
    {
        self.handles.len()
    }

    /// Records the task of a newly accepted connection. After the shutdown
    /// nothing is recorded any more: the answer is `false`, and the task is
    /// the caller's to abort.
    pub fn register(&mut self, task: u64) -> (registered: bool)
        requires
            old(self).wf(),
        ensures
            final(self).wf(),
            registered == old(self)@.listening,
            final(self)@ == old(self)@.register(task),
    {
        if self.errors.is_open() {
            self.handles.push(task);
            true
        } else {
            false
        }
    }

    /// Takes the result of a connection that has ended. A fatal error is put
    /// into the mailbox of the supervisor; a clean end or a benign disconnect
    /// is not reported. The sibling connections are not touched.
    pub fn handle_connection(&mut self, result: Result<(), DeviceServerError>) -> (reported: bool)
        requires
            old(self).wf(),
        ensures
            final(self).wf(),
            reported == old(self)@.escalates(result),
            final(self)@ == old(self)@.report(result),
    {
        match result {
            Ok(()) => false,
            Err(err) => {
                if err.benign() {
                    false
                } else {
                    match self.errors.try_send(err) {
                        Ok(()) => true,
                        Err(_) => false,
                    }
                }
            },
        }
    }

    /// Stops the server: the mailbox is closed, the registry is emptied, and
    /// the steps of the shutdown are handed out in their order.
    pub fn terminate(&mut self) -> (steps: Vec<TerminationStep>)
        requires
            old(self).wf(),
        ensures
            final(self).wf(),
            steps@ == termination_plan(old(self)@.handles),
            final(self)@ == old(self)@.terminate(),
    {
        self.errors.close();
        let mut handles: Vec<u64> = Vec::new();
        std::mem::swap(&mut handles, &mut self.handles);
        let mut steps: Vec<TerminationStep> = Vec::new();
        steps.push(TerminationStep::AbortAcceptLoop);
        steps.push(TerminationStep::JoinAcceptLoop);
        let mut i: usize = 0;
        assert(steps@ =~= termination_plan(handles@.take(0)));
        while i < handles.len()
            invariant
                i <= handles.len(),
                steps@ == termination_plan(handles@.take(i as int)),
            decreases handles.len() - i,
        {
            steps.push(TerminationStep::AbortConnection(handles[i]));
            i += 1;
            assert(steps@ =~= termination_plan(handles@.take(i as int)));
        }
        assert(handles@.take(i as int) =~= handles@);
        steps
    }

    /// The supervisor's turn. While no fatal error waits, nothing changes
    /// and the answer is `None`. The first fatal error shuts the listener
    /// down: it becomes the listener's result, the accept loop and every
    /// registered connection task are to be aborted, and later errors are no
    /// longer delivered.
    pub fn listen(&mut self) -> (res: Option<Shutdown>)
        requires
            old(self).wf(),
        ensures
            final(self).wf(),
            final(self)@ == old(self)@.supervise(),
            res is Some == old(self)@.verdict() is Some,
            res matches Some(shutdown) ==> old(self)@.verdict() == Some(
                (shutdown.error, shutdown.steps@),
            ),
    {
        match self.errors.recv() {
            None => None,
            Some(error) => {
                let steps = self.terminate();
                Some(Shutdown { error, steps })
            },
        }
    }
}

/// A command that the host frames arrives at the device as the text that
/// was framed: the relay does not alter it.
pub proof fn command_arrives_unaltered(
    line: Seq<char>,
    sent: Frame,
    read: Result<String, DeviceServerError>,
)
    requires
        sent matches Frame::Binary(bytes) && bytes@ == encode_utf8(line),
        reads_as(sent, read),
    ensures
        read matches Ok(command) && command@ == line,
{
    encode_utf8_valid_utf8(line);
    encode_utf8_decode_utf8(line);
}

/// The answer to a command carries the shell's output for it, byte for
/// byte: what the host displays decodes to the output that the shell gave.
pub proof fn output_arrives_unaltered(output: String, answer: Frame)
    requires
        answers(Ok(output), answer),
    ensures
        answer.payload() == encode_utf8(output@),
        valid_utf8(answer.payload()),
        decode_utf8(answer.payload()) == output@,
{
    encode_utf8_valid_utf8(output@);
    encode_utf8_decode_utf8(output@);
}

/// A binary payload that is not valid UTF-8 ends the connection with a
/// protocol error that holds the rejected bytes. No command is run and no
/// frame is sent for it.
pub proof fn invalid_payload_ends_connection(
    state: ConnectionState,
    bytes: Vec<u8>,
    action: ConnectionAction,
)
    requires
        !valid_utf8(bytes@),
        ConnectionState::asks(ConnectionEvent::Inbound(Frame::Binary(bytes)), action),
    ensures
        state.next(ConnectionEvent::Inbound(Frame::Binary(bytes))) == ConnectionState::Finished,
        action matches ConnectionAction::Finish(Err(DeviceServerError::Utf8Error(rejected)))
            && rejected@ == bytes@,
        !(action is Send),
        !(action is Execute),
{
}

/// A close frame ends the connection, and the end is benign: the supervisor
/// is not told, whatever state the server is in.
pub proof fn close_frame_is_not_fatal(
    state: ConnectionState,
    reason: Vec<u8>,
    action: ConnectionAction,
    server: DeviceServerView,
)
    requires
        ConnectionState::asks(ConnectionEvent::Inbound(Frame::Close(reason)), action),
    ensures
        state.next(ConnectionEvent::Inbound(Frame::Close(reason))) == ConnectionState::Finished,
        action matches ConnectionAction::Finish(Err(err)) && err.is_benign()
            && !server.escalates(Err(err)) && server.report(Err(err)) == server,
{
}

/// A command that the shell fails to run is answered with one frame whose
/// text starts with `Shell error: `, and the connection stays open: once the
/// frame is written, the next command is awaited.
pub proof fn shell_failure_is_answered(err: ShellError, action: ConnectionAction)
    requires
        ConnectionState::asks(ConnectionEvent::Executed(Err(err)), action),
    ensures
        action matches ConnectionAction::Send(Frame::Binary(bytes)) && bytes@ == encode_utf8(
            rendered(Err(err)),
        ),
        rendered(Err(err)).len() >= 13,
        rendered(Err(err)).subrange(0, 13) == "Shell error: "@,
        ConnectionState::Executing.next(ConnectionEvent::Executed(Err(err)))
            == ConnectionState::Sending,
        ConnectionState::Sending.next(ConnectionEvent::Sent) == ConnectionState::Receiving,
{
    reveal_strlit("Shell error: ");
    assert(rendered(Err(err)).subrange(0, 13) =~= "Shell error: "@);
}

/// The first fatal error of a connection shuts the whole listener down.
/// On its next turn the supervisor finds that same error, to be the
/// listener's result, and with it the steps of the shutdown: the accept loop
/// is aborted and joined first, so that the registry cannot grow, and then
/// the task of each registered connection is aborted, none left out. After
/// the turn nothing is registered and nothing is accepted.
pub proof fn fatal_error_cascades(server: DeviceServerView, err: DeviceServerError)
    requires
        server.listening,
        server.pending.len() == 0,
        !err.is_benign(),
    ensures
        server.report(Err(err)).verdict() == Some((err, termination_plan(server.handles))),
        termination_plan(server.handles).len() == server.handles.len() + 2,
        termination_plan(server.handles)[0] == TerminationStep::AbortAcceptLoop,
        termination_plan(server.handles)[1] == TerminationStep::JoinAcceptLoop,
        forall|i: int|
            0 <= i < server.handles.len() ==> #[trigger] termination_plan(server.handles)[i + 2]
                == TerminationStep::AbortConnection(server.handles[i]),
        !server.report(Err(err)).supervise().listening,
        server.report(Err(err)).supervise().handles.len() == 0,
{
    let after = server.report(Err(err));
    assert(server.escalates(Err(err)));
    assert(after.pending[0] == err);
}

/// TLS is transparent to the application. Once its TLS handshake has
/// succeeded, a secured connection admits exactly the runs of events that a
/// connection without TLS admits, and each run leaves both in the same state.
/// What an event asks for does not depend on the state, so the frames that
/// are sent are the same as well.
pub proof fn tls_is_transparent(handshake: Result<(), std::io::Error>, events: Seq<ConnectionEvent>)
    requires
        handshake is Ok,
    ensures
        ConnectionState::start(true).admits(seq![ConnectionEvent::Secured(handshake)] + events)
            == ConnectionState::start(false).admits(events),
        ConnectionState::start(true).run(seq![ConnectionEvent::Secured(handshake)] + events)
            == ConnectionState::start(false).run(events),
{
    let all = seq![ConnectionEvent::Secured(handshake)] + events;
    assert(all[0] == ConnectionEvent::Secured(handshake));
    assert(all.drop_first() =~= events);
    assert(ConnectionState::start(true).next(all[0]) == ConnectionState::start(false));
}

} // verus!
