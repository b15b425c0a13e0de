use vstd::prelude::*;

verus! {

/// A handshake that a raw stream goes through before the application sees
/// frames.
#[derive(Debug, Clone, Copy, PartialEq, Eq, Structural)]
pub enum Stage {
    /// The TLS handshake, after which the stream is secured.
    Tls,
    /// The upgrade to the framed protocol, after which the stream carries
    /// frames and is split into its inbound and its outbound half.
    Framing,
}

/// A handler of connections, possibly wrapped in layers.
pub trait Service {
    /// The handshakes that a stream goes through on its way to the
    /// application, outermost first.
    spec fn stages(&self) -> Seq<Stage>;

    /// The handshakes to perform on an accepted stream, in order.
    fn stage_list(&self) -> (list: Vec<Stage>)
        ensures
            list@ == self.stages(),
    ;
}

/// A layer turns a handler into one that does something more first. The
/// handler inside is not changed by it.
pub trait Layer<S: Service> {
    /// The handler that the layer makes.
    type Service: Service;

    /// The handshakes that the layer puts in front of the inner handler's.
    spec fn adds(&self) -> Seq<Stage>;

    /// Whether `outer` is `inner` wrapped in this layer: what the layer keeps
    /// of the handler and of itself.
    spec fn wraps(&self, inner: S, outer: Self::Service) -> bool;

    /// Wraps `inner` in this layer.
    fn layer(&self, inner: S) -> (outer: Self::Service)
        ensures
            outer.stages() == self.adds() + inner.stages(),
            self.wraps(inner, outer),
    ;
}

/// The application itself: it takes framed connections as they are.
#[derive(Debug, Clone, Copy)]
pub struct HostService;

impl Service for HostService {
    open spec fn stages(&self) -> Seq<Stage> {
        Seq::empty()
    }

    fn stage_list(&self) -> (list: Vec<Stage>) {
        Vec::new()
    }
}

/// A handler behind the upgrade to the framed protocol.
#[derive(Debug, Clone)]
pub struct WebSocketService<S> {
    pub service: S,
}

impl<S: Service> Service for WebSocketService<S> {
    open spec fn stages(&self) -> Seq<Stage> {
        seq![Stage::Framing] + self.service.stages()
    }

    fn stage_list(&self) -> (list: Vec<Stage>) {
        let mut list = vec![Stage::Framing];
        let mut rest = self.service.stage_list();
        list.append(&mut rest);
        list
    }
}

/// The layer that upgrades a stream to the framed protocol.
#[derive(Debug, Clone, Copy)]
pub struct WebSocketLayer;

impl<S: Service> Layer<S> for WebSocketLayer {
    type Service = WebSocketService<S>;

    open spec fn adds(&self) -> Seq<Stage> {
        seq![Stage::Framing]
    }

    open spec fn wraps(&self, inner: S, outer: WebSocketService<S>) -> bool {
        outer.service == inner
    }

    fn layer(&self, inner: S) -> (outer: WebSocketService<S>) {
        WebSocketService { service: inner }
    }
}

/// The layer that adds nothing.
#[derive(Debug, Clone, Copy)]
pub struct Identity;

impl<S: Service> Layer<S> for Identity {
    type Service = S;

    open spec fn adds(&self) -> Seq<Stage> {
        Seq::empty()
    }

    open spec fn wraps(&self, inner: S, outer: S) -> bool {
        outer == inner
    }

    fn layer(&self, inner: S) -> (outer: S) {
        assert(Seq::<Stage>::empty() + inner.stages() =~= inner.stages());
        inner
    }
}

/// Two layers as one: `inner` wraps the handler first, `outer` wraps what
/// comes of it.
#[derive(Debug, Clone)]
pub struct Stack<Inner, Outer> {
    pub inner: Inner,
    pub outer: Outer,
}

impl<Inner, Outer> Stack<Inner, Outer> {
    /// The stack of `inner` below `outer`.
    pub fn new(inner: Inner, outer: Outer) -> (stack: Self)
        ensures
            stack.inner == inner,
            stack.outer == outer,
    {
        Stack { inner, outer }
    }
}

impl<S: Service, Inner: Layer<S>, Outer: Layer<Inner::Service>> Layer<S> for Stack<Inner, Outer> {
    type Service = Outer::Service;

    open spec fn adds(&self) -> Seq<Stage> {
        self.outer.adds() + self.inner.adds()
    }

    open spec fn wraps(&self, inner: S, outer: Outer::Service) -> bool {
        exists|middle: Inner::Service| #[trigger]
            self.inner.wraps(inner, middle) && self.outer.wraps(middle, outer)
    }

    fn layer(&self, inner: S) -> (outer: Outer::Service) {
        let middle = self.inner.layer(inner);
        let outer = self.outer.layer(middle);
        assert(outer.stages() =~= (self.outer.adds() + self.inner.adds()) + inner.stages());
        assert(self.inner.wraps(inner, middle) && self.outer.wraps(middle, outer));
        outer
    }
}

} // verus!
