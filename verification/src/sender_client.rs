use crate::device_server::TransportError;
use crate::frame::Frame;
use crate::supervisor::ErrorChannel;
use crate::tls::add_root;
use crate::tls::anchor_of;
use crate::tls::client_config_of;
use crate::tls::client_context;
use crate::tls::empty_root_store;
use crate::tls::trusting;
use crate::tls::ClientContext;
use std::collections::VecDeque;
use std::sync::Arc;
use vstd::prelude::*;
use vstd::string::*;
use vstd::utf8::*;

verus! {

/// The address of the listener, carried through unread.
#[verifier::external_type_specification]
#[verifier::external_body]
pub struct ExUrl(url::Url);

/// Why the host's relay ended.
#[allow(inconsistent_fields)]
#[derive(Debug)]
pub enum SenderClientError {
    /// The connection to the listener could not be made.
    WebSocketConnect(TransportError),
    /// Reading the local input failed.
    IORead(std::io::Error),
    /// Writing the local output failed.
    IOWrite { err: std::io::Error },
    /// A frame could not be queued for display: the queue's reader is gone.
    /// The frame is the one that was turned away.
    Channel(Frame),
    /// Receiving from the connection failed.
    TungsteniteReadData { err: TransportError },
    /// The listener went away.
    Disconnected,
    /// rustls refused the CA certificate.
    RustTls(tokio_rustls::rustls::Error),
}

impl SenderClientError {
    /// The line that describes the error to the operator.
    pub open spec fn description(self) -> Seq<char> {
        match self {
            SenderClientError::WebSocketConnect(_) => "Error while trying to connect with server"@,
            SenderClientError::IORead(_) => "IO error occurred while reading from stdin"@,
            SenderClientError::IOWrite { .. } => "IO error occurred while writing to stdout"@,
            SenderClientError::Channel(_) => "Error while trying to send the output of a command to the main task"@,
            SenderClientError::TungsteniteReadData { .. } => "Error from Tungstenite while reading command"@,
            SenderClientError::Disconnected => "Server disconnected"@,
            SenderClientError::RustTls(_) => "Error while loading the CA certificate"@,
        }
    }

    /// The error's description, as text.
    pub fn message(&self) -> (text: String)
        ensures
            text@ == self.description(),
    {
        match self {
            SenderClientError::WebSocketConnect(_) => String::from_str(
                "Error while trying to connect with server",
            ),
            SenderClientError::IORead(_) => String::from_str(
                "IO error occurred while reading from stdin",
            ),
            SenderClientError::IOWrite { .. } => String::from_str(
                "IO error occurred while writing to stdout",
            ),
            SenderClientError::Channel(_) => String::from_str(
                "Error while trying to send the output of a command to the main task",
            ),
            SenderClientError::TungsteniteReadData { .. } => String::from_str(
                "Error from Tungstenite while reading command",
            ),
            SenderClientError::Disconnected => String::from_str("Server disconnected"),
            SenderClientError::RustTls(_) => String::from_str(
                "Error while loading the CA certificate",
            ),
        }
    }
}

/// What is owed of the context that trusts one CA certificate: it is built
/// exactly where rustls can read the certificate, and then trusts the
/// certificate's anchor and nothing else, and shows no certificate of its
/// own; a certificate that rustls cannot read is refused with rustls's error.
pub open spec fn ca_verdict(ca_der: Seq<u8>, res: Result<
    tokio_rustls::rustls::ClientConfig,
    SenderClientError,
>) -> bool {
    match anchor_of(ca_der) {
        Some(anchor) => res matches Ok(config) && client_context(config) == trusting(seq![anchor]),
        None => res matches Err(SenderClientError::RustTls(_)),
    }
}

/// Builds the client-side TLS context that trusts the one DER-encoded CA
/// certificate and nothing else. The client shows no certificate itself.
pub fn tls_client_config(ca_der: Vec<u8>) -> (res: Result<
    tokio_rustls::rustls::ClientConfig,
    SenderClientError,
>)
    ensures
        ca_verdict(ca_der@, res),
{
    let mut roots = empty_root_store();
    match add_root(&mut roots, &ca_der) {
        Ok(()) => {
            proof {
                let anchor = anchor_of(ca_der@)->Some_0;
                assert(Seq::<crate::tls::TrustRoot>::empty().push(anchor) =~= seq![anchor]);
            }
            Ok(client_config_of(roots))
        },
        Err(err) => Err(SenderClientError::RustTls(err)),
    }
}

/// The payloads of a run of frames, in order.
pub open spec fn payloads(frames: Seq<Frame>) -> Seq<Seq<u8>> {
    frames.map_values(|frame: Frame| frame.payload())
}

/// The bytes of a run of chunks, in order.
pub open spec fn chunks(output: Seq<Vec<u8>>) -> Seq<Seq<u8>> {
    output.map_values(|chunk: Vec<u8>| chunk@)
}

/// The frames that the host has received and not yet displayed, oldest
/// first. Nothing that was put in is dropped: a frame leaves the queue only
/// to be displayed.
#[derive(Debug)]
pub struct OutputQueue {
    frames: VecDeque<Frame>,
}

impl View for OutputQueue {
    type V = Seq<Frame>;

    closed spec fn view(&self) -> Seq<Frame> {
        self.frames@
    }
}

impl OutputQueue {
    /// An empty queue.
    pub fn new() -> (queue: Self)
        ensures
            queue@.len() == 0,
    {
        OutputQueue { frames: VecDeque::new() }
    }

    /// How many frames wait to be displayed.
    pub fn len(&self) -> (n: usize)
        ensures
            n == self@.len(),
    {
        self.frames.len()
    }

    /// Puts a frame at the end of the queue.
    pub fn push(&mut self, frame: Frame)
        ensures
            final(self)@ == old(self)@.push(frame),
    {
        self.frames.push_back(frame);
    }

    /// Takes the oldest frame out, if there is one.
    pub fn pop(&mut self) -> (res: Option<Frame>)
        ensures
            old(self)@.len() == 0 ==> res is None && final(self)@ == old(self)@,
            old(self)@.len() > 0 ==> res == Some(old(self)@[0]) && final(self)@ == old(
                self,
            )@.drop_first(),
    {
        let res = self.frames.pop_front();
        assert(old(self)@.len() > 0 ==> self.frames@ =~= old(self)@.drop_first());
        res
    }

    /// A copy of the payload of the oldest frame, which stays in the queue.
    pub fn front(&self) -> (res: Option<Vec<u8>>)
        ensures
            self@.len() == 0 ==> res is None,
            self@.len() > 0 ==> (res matches Some(data) && data@ == self@[0].payload()),
    {
        if self.frames.len() == 0 {
            None
        } else {
            Some(self.frames[0].data())
        }
    }

    /// Empties the queue for display: the payload of every frame that
    /// waited, in the order in which the frames came.
    pub fn drain(&mut self) -> (output: Vec<Vec<u8>>)
        ensures
            chunks(output@) == payloads(old(self)@),
            final(self)@.len() == 0,
    {
        let mut output: Vec<Vec<u8>> = Vec::new();
        assert(chunks(output@) + payloads(self.frames@) =~= payloads(old(self)@));
        while self.frames.len() > 0
            invariant
                chunks(output@) + payloads(self.frames@) == payloads(old(self)@),
            decreases self.frames@.len(),
        {
            let ghost waiting = self.frames@;
            let ghost shown = output@;
            match self.frames.pop_front() {
                Some(frame) => {
                    let data = frame.into_data();
                    output.push(data);
                    assert(chunks(output@) =~= chunks(shown).push(frame.payload()));
                    assert(payloads(waiting) =~= seq![frame.payload()] + payloads(self.frames@));
                    assert(chunks(output@) + payloads(self.frames@) =~= chunks(shown) + payloads(
                        waiting,
                    ));
                },
                None => {},
            }
        }
        assert(payloads(self.frames@) =~= Seq::<Seq<u8>>::empty());
        assert(chunks(output@) =~= chunks(output@) + payloads(self.frames@));
        output
    }
}

/// How many terminal outcomes can wait for the relay's supervisor: the first
/// one ends the relay, so one is enough.
pub const RELAY_OUTCOMES: usize = 1;

/// What the relay orders when it closes.
#[derive(Debug)]
pub struct Closing {
    /// The outcome that ended the relay: a normal closure, or the first
    /// fatal error.
    pub result: Result<(), SenderClientError>,
    /// What is still to be written to the local output once the duties are
    /// aborted and joined: the payload of every frame that waited.
    pub output: Vec<Vec<u8>>,
}

/// What the relay is, seen from outside.
pub struct SenderClientView {
    /// The address of the listener.
    pub listener: url::Url,
    /// What the relay's TLS context holds; nothing where the connection is
    /// not secured.
    pub tls: Option<ClientContext>,
    /// The frames received and not yet displayed, oldest first.
    pub queue: Seq<Frame>,
    /// The terminal outcomes that wait for the supervisor, oldest first.
    pub pending: Seq<Result<(), SenderClientError>>,
    /// Whether the duties still run.
    pub running: bool,
}

impl SenderClientView {
    /// The relay after the intake duty was given a frame: while the relay
    /// runs the frame is queued behind those that wait.
    pub open spec fn intake(self, frame: Frame) -> SenderClientView {
        if self.running {
            SenderClientView { queue: self.queue.push(frame), ..self }
        } else {
            self
        }
    }

    /// The relay after the intake duty was given a run of frames, one by one.
    pub open spec fn intake_all(self, frames: Seq<Frame>) -> SenderClientView
        decreases frames.len(),
    {
        if frames.len() == 0 {
            self
        } else {
            self.intake_all(frames.drop_last()).intake(frames.last())
        }
    }

    /// Whether a terminal outcome reaches the supervisor: the relay runs and
    /// no other outcome waits.
    pub open spec fn delivers(self) -> bool {
        self.running && self.pending.len() < RELAY_OUTCOMES
    }

    /// The relay after a duty has reported its terminal outcome.
    pub open spec fn report(self, outcome: Result<(), SenderClientError>) -> SenderClientView {
        if self.delivers() {
            SenderClientView { pending: self.pending.push(outcome), ..self }
        } else {
            self
        }
    }

    /// The relay after the write of the oldest frame to the local output
    /// was confirmed: the frame has left the queue.
    pub open spec fn shown(self) -> SenderClientView {
        if self.queue.len() == 0 {
            self
        } else {
            SenderClientView { queue: self.queue.drop_first(), ..self }
        }
    }

    /// What the supervisor finds on its turn: nothing while no duty has
    /// ended; else the first outcome, together with the payload of every
    /// frame that waits in the queue, oldest first.
    pub open spec fn verdict(self) -> Option<(Result<(), SenderClientError>, Seq<Seq<u8>>)> {
        if self.pending.len() == 0 {
            None
        } else {
            Some((self.pending[0], payloads(self.queue)))
        }
    }

    /// The relay after the supervisor's turn: unchanged while no duty has
    /// ended; else closed, with an empty queue.
    pub open spec fn supervise(self) -> SenderClientView {
        if self.pending.len() == 0 {
            self
        } else {
            SenderClientView {
                queue: Seq::empty(),
                pending: self.pending.drop_first(),
                running: false,
                ..self
            }
        }
    }

    /// The same relay without TLS.
    pub open spec fn plain(self) -> SenderClientView {
        SenderClientView { tls: None, ..self }
    }
}

/// The host's relay: it frames the local input for the device, queues what
/// the device answers, and displays the queue in the order of arrival. A
/// frame leaves the queue only when its write to the local output is
/// confirmed. The first terminal outcome of a duty closes the relay, and what
/// still waits in the queue is displayed before the relay ends.
#[derive(Debug)]
pub struct SenderClient {
    listener_url: url::Url,
    tls_config: Option<Arc<tokio_rustls::rustls::ClientConfig>>,
    queue: OutputQueue,
    outcomes: ErrorChannel<Result<(), SenderClientError>>,
}

impl View for SenderClient {
    type V = SenderClientView;

    closed spec fn view(&self) -> SenderClientView {
        SenderClientView {
            listener: self.listener_url,
            tls: match self.tls_config {
                Some(config) => Some(client_context(*config)),
                None => None,
            },
            queue: self.queue@,
            pending: self.outcomes@.pending,
            running: self.outcomes@.open,
        }
    }
}

impl SenderClient {
    /// The mailbox of outcomes is sound and holds `RELAY_OUTCOMES` of them.
    pub closed spec fn wf(&self) -> bool {
        self.outcomes.wf() && self.outcomes@.capacity == RELAY_OUTCOMES
    }

    /// What is owed of a new relay. With a DER-encoded CA certificate the
    /// connection is secured with TLS: the relay is made exactly where rustls
    /// can read the certificate, and its context then trusts that certificate
    /// and nothing else. Without one the connection is not secured, and the
    /// relay is made in any case. A new relay runs, and nothing waits in it.
    pub open spec fn made(
        listener_url: url::Url,
        ca_der: Option<Vec<u8>>,
        res: Result<SenderClient, SenderClientError>,
    ) -> bool {
        let tls = match ca_der {
            Some(der) => match anchor_of(der@) {
                Some(anchor) => Some(Some(trusting(seq![anchor]))),
                None => None,
            },
            None => Some(None::<ClientContext>),
        };
        match tls {
            Some(tls) => res matches Ok(client) && client.wf() && client@ == (SenderClientView {
                listener: listener_url,
                tls,
                queue: Seq::empty(),
                pending: Seq::empty(),
                running: true,
            }),
            None => res matches Err(SenderClientError::RustTls(_)),
        }
    }

    /// A relay for the listener at `listener_url`, secured with TLS where a
    /// CA certificate is given.
    pub fn new(listener_url: url::Url, ca_der: Option<Vec<u8>>) -> (res: Result<
        Self,
        SenderClientError,
    >)
        ensures
            Self::made(listener_url, ca_der, res),
    {
        let tls_config = match ca_der {
            Some(der) => match tls_client_config(der) {
                Ok(config) => Some(Arc::new(config)),
                Err(err) => {
                    return Err(err);
                },
            },
            None => None,
        };
        let client = SenderClient {
            listener_url,
            tls_config,
            queue: OutputQueue::new(),
            outcomes: ErrorChannel::new(RELAY_OUTCOMES),
        };
        proof {
            assert(client@.queue =~= Seq::<Frame>::empty());
            assert(client@.pending =~= Seq::<Result<(), SenderClientError>>::empty());
        }
        Ok(client)
    }

    /// The address of the listener.
    pub fn listener_url(&self) -> (listener_url: &url::Url)
        ensures
            *listener_url == self@.listener,
    {
        &self.listener_url
    }

    /// The shared client-side TLS context, where the relay has one.
    pub fn tls_config(&self) -> (config: &Option<Arc<tokio_rustls::rustls::ClientConfig>>)
        ensures
            match *config {
                Some(shared) => self@.tls == Some(client_context(*shared)),
                None => self@.tls is None,
            },
    {
        &self.tls_config
    }

    /// Whether the duties still run.
    pub fn is_running(&self) -> (res: bool)
        ensures
            res == self@.running,
    {
        self.outcomes.is_open()
    }

    /// How many frames wait to be displayed.
    pub fn queued(&self) -> (n: usize)
        ensures
            n == self@.queue.len(),
    {
        self.queue.len()
    }

    /// What the input duty makes of a read of the local input: a failed read
    /// is fatal; a line that was read goes out as a binary frame that holds
    /// its bytes.
    pub open spec fn frames_input(
        read: Result<String, std::io::Error>,
        res: Result<Frame, SenderClientError>,
    ) -> bool {
        match read {
            Ok(line) => res matches Ok(Frame::Binary(bytes)) && bytes@ == encode_utf8(line@),
            Err(cause) => res matches Err(SenderClientError::IORead(err)) && err == cause,
        }
    }

    /// The first part of a turn of the input duty, on what the read of the
    /// local input gave: the frame to send. The queue is not touched: what
    /// waits in it is displayed frame by frame with `front` and `displayed`,
    /// once the frame is sent.
    pub fn read_write(&self, read: Result<String, std::io::Error>) -> (res: Result<
        Frame,
        SenderClientError,
    >)
        ensures
            Self::frames_input(read, res),
    {
        match read {
            Ok(line) => Ok(Frame::from_text(line.as_str())),
            Err(cause) => Err(SenderClientError::IORead(cause)),
        }
    }

    /// What the input duty makes of the write of a frame to the connection:
    /// a failure of the transport is fatal.
    pub fn sent(outcome: Result<(), TransportError>) -> (res: Result<(), SenderClientError>)
        ensures
            outcome is Ok ==> res is Ok,
            outcome matches Err(cause) ==> (res matches Err(SenderClientError::WebSocketConnect(err))
                && err == cause),
    {
        match outcome {
            Ok(()) => Ok(()),
            Err(cause) => Err(SenderClientError::WebSocketConnect(cause)),
        }
    }

    /// What is to be written to the local output next: the payload of the
    /// oldest frame that waits. The frame stays in the queue until its write
    /// is confirmed with `displayed`.
    pub fn front(&self) -> (res: Option<Vec<u8>>)
        ensures
            self@.queue.len() == 0 ==> res is None,
            self@.queue.len() > 0 ==> (res matches Some(data) && data@ == self@.queue[0].payload()),
    {
        self.queue.front()
    }

    /// What the drain duty makes of a write to the local output: a failure
    /// is fatal.
    pub fn written(outcome: Result<(), std::io::Error>) -> (res: Result<(), SenderClientError>)
        ensures
            outcome is Ok ==> res is Ok,
            outcome matches Err(cause) ==> (res matches Err(SenderClientError::IOWrite { err }) && err
                == cause),
    {
        match outcome {
            Ok(()) => Ok(()),
            Err(cause) => Err(SenderClientError::IOWrite { err: cause }),
        }
    }

    /// Takes the outcome of the write of the oldest frame to the local
    /// output. A write that went well takes the frame out of the queue; a
    /// write that failed is fatal, and the frame stays.
    pub fn displayed(&mut self, outcome: Result<(), std::io::Error>) -> (res: Result<
        (),
        SenderClientError,
    >)
        requires
            old(self).wf(),
        ensures
            final(self).wf(),
            outcome is Ok ==> res is Ok && final(self)@ == old(self)@.shown(),
            outcome matches Err(cause) ==> (res matches Err(SenderClientError::IOWrite { err }) && err
                == cause),
            outcome is Err ==> final(self)@ == old(self)@,
    {
        match Self::written(outcome) {
            Ok(()) => {
                let _ = self.queue.pop();
                Ok(())
            },
            Err(err) => Err(err),
        }
    }

    /// What the intake duty answers to what the connection gave: a frame is
    /// taken while the relay runs, and turned away once it has closed; a
    /// failure of the connection is fatal.
    pub open spec fn takes_in(
        running: bool,
        received: Result<Frame, TransportError>,
        res: Result<(), SenderClientError>,
    ) -> bool {
        match received {
            Ok(frame) => if running {
                res is Ok
            } else {
                res matches Err(SenderClientError::Channel(refused)) && refused == frame
            },
            Err(cause) => res matches Err(SenderClientError::TungsteniteReadData { err }) && err
                == cause,
        }
    }

    /// The intake duty: takes what the connection gave and queues it for
    /// display.
    pub fn intake(&mut self, received: Result<Frame, TransportError>) -> (res: Result<
        (),
        SenderClientError,
    >)
        requires
            old(self).wf(),
        ensures
            final(self).wf(),
            Self::takes_in(old(self)@.running, received, res),
            final(self)@ == match received {
                Ok(frame) => old(self)@.intake(frame),
                Err(_) => old(self)@,
            },
    {
        match received {
            Ok(frame) => {
                if self.outcomes.is_open() {
                    self.queue.push(frame);
                    Ok(())
                } else {
                    Err(SenderClientError::Channel(frame))
                }
            },
            Err(cause) => Err(SenderClientError::TungsteniteReadData { err: cause }),
        }
    }

    /// Hands the terminal outcome of a duty to the supervisor. It is
    /// delivered while the relay runs and no other outcome waits.
    pub fn report(&mut self, outcome: Result<(), SenderClientError>) -> (delivered: bool)
        requires
            old(self).wf(),
        ensures
            final(self).wf(),
            delivered == old(self)@.delivers(),
            final(self)@ == old(self)@.report(outcome),
    {
        match self.outcomes.try_send(outcome) {
            Ok(()) => true,
            Err(_) => false,
        }
    }

    /// Closes the relay: the duties run no more, and every frame that still
    /// waits in the queue is handed out for display, oldest first.
    fn close(&mut self) -> (output: Vec<Vec<u8>>)
        requires
            old(self).wf(),
        ensures
            final(self).wf(),
            chunks(output@) == payloads(old(self)@.queue),
            final(self)@ == (SenderClientView {
                queue: Seq::empty(),
                running: false,
                ..old(self)@
            }),
    {
        self.outcomes.close();
        let output = self.queue.drain();
        assert(self.queue@ =~= Seq::<Frame>::empty());
        output
    }

    /// The supervisor's turn. While no duty has ended, nothing changes and
    /// the answer is `None`. The first terminal outcome, a normal closure or
    /// a fatal error, closes the relay: the duties are to be aborted and
    /// joined, and then everything that waits in the queue is to be written
    /// out, so that no output that was received is lost.
    pub fn connect(&mut self) -> (res: Option<Closing>)
        requires
            old(self).wf(),
        ensures
            final(self).wf(),
            final(self)@ == old(self)@.supervise(),
            res is Some == old(self)@.verdict() is Some,
            res matches Some(closing) ==> old(self)@.verdict() == Some(
                (closing.result, chunks(closing.output@)),
            ),
    {
        match self.outcomes.recv() {
            None => None,
            Some(result) => {
                let output = self.close();
                Some(Closing { result, output })
            },
        }
    }

    /// The relay's exit status: a failure to write the remaining output is
    /// the error; else the outcome that ended the relay stands.
    pub fn finish(result: Result<(), SenderClientError>, written: Result<(), std::io::Error>) -> (res:
        Result<(), SenderClientError>)
        ensures
            written matches Err(cause) ==> (res matches Err(SenderClientError::IOWrite { err })
                && err == cause),
            written is Ok ==> res == result,
    {
        match Self::written(written) {
            Ok(()) => result,
            Err(err) => Err(err),
        }
    }
}

/// While the relay runs, a run of frames that the intake duty takes goes to
/// the end of the queue, in its order; nothing else changes.
pub proof fn intake_appends(relay: SenderClientView, frames: Seq<Frame>)
    requires
        relay.running,
    ensures
        relay.intake_all(frames) == (SenderClientView { queue: relay.queue + frames, ..relay }),
    decreases frames.len(),
{
    if frames.len() == 0 {
        assert(relay.queue + frames =~= relay.queue);
    } else {
        intake_appends(relay, frames.drop_last());
        assert((relay.queue + frames.drop_last()).push(frames.last()) =~= relay.queue + frames);
    }
}

/// No output is lost on a fatal error. Whatever frames were queued before a
/// duty fails, on its next turn the supervisor finds the error, to be the
/// relay's result, and with it the payload of each of those frames, in the
/// order in which they came, to be written out before the relay ends.
pub proof fn queued_output_survives_failure(
    relay: SenderClientView,
    frames: Seq<Frame>,
    err: SenderClientError,
)
    requires
        relay.running,
        relay.pending.len() == 0,
    ensures
        relay.intake_all(frames).report(Err(err)).verdict() == Some(
            (Err::<(), SenderClientError>(err), payloads(relay.queue) + payloads(frames)),
        ),
        relay.intake_all(frames).report(Err(err)).verdict()->Some_0.1.len() == relay.queue.len()
            + frames.len(),
{
    intake_appends(relay, frames);
    let after = relay.intake_all(frames).report(Err(err));
    assert(after.pending[0] == Err::<(), SenderClientError>(err));
    assert(payloads(relay.queue + frames) =~= payloads(relay.queue) + payloads(frames));
}

/// A close frame that reaches the host is no error: while the relay runs,
/// the intake duty takes it like any other frame.
pub proof fn close_frame_is_taken(reason: Vec<u8>, res: Result<(), SenderClientError>)
    requires
        SenderClient::takes_in(true, Ok(Frame::Close(reason)), res),
    ensures
        res is Ok,
{
}

/// Taking a run of frames in does to a relay without TLS what it does to
/// the same relay with TLS.
pub proof fn intake_ignores_tls(relay: SenderClientView, frames: Seq<Frame>)
    ensures
        relay.plain().intake_all(frames) == relay.intake_all(frames).plain(),
    decreases frames.len(),
{
    if frames.len() > 0 {
        intake_ignores_tls(relay, frames.drop_last());
    }
}

/// TLS is transparent to the relay. Whatever frames arrive and whatever
/// outcome a duty reports, a relay with TLS and the same relay without it
/// go through the same states but for the TLS context itself, display the
/// same payloads in the same order, and end with the same result. The frame
/// that is sent for a line depends on the line alone.
pub proof fn relay_tls_is_transparent(
    relay: SenderClientView,
    frames: Seq<Frame>,
    outcome: Result<(), SenderClientError>,
)
    ensures
        relay.plain().intake_all(frames) == relay.intake_all(frames).plain(),
        relay.plain().shown() == relay.shown().plain(),
        relay.plain().report(outcome) == relay.report(outcome).plain(),
        relay.plain().supervise() == relay.supervise().plain(),
        relay.plain().intake_all(frames).report(outcome).verdict() == relay.intake_all(
            frames,
        ).report(outcome).verdict(),
        relay.plain().intake_all(frames).report(outcome).supervise() == relay.intake_all(
            frames,
        ).report(outcome).supervise().plain(),
{
    intake_ignores_tls(relay, frames);
}

} // verus!
