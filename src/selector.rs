use vstd::prelude::*;

use crate::error::{Expected, MqttError, ProtocolError};
use crate::packet::{Connect, Packet};
use crate::shared::{Codec, MemoryPool, MqttShared};
use crate::time::{deadline_of, Seconds};

verus! {

/// A server that picks, for each connection, one of several protocol variants
/// by the CONNECT packet that opens it. Each variant is a predicate `C` over
/// the handshake and a server `S` that runs the handshake and the session.
pub struct Selector<C, S> {
    /// The variants, in the order they are tried.
    pub servers: Vec<(C, S)>,
    /// Largest frame accepted before a variant takes the connection; zero means unlimited.
    pub max_size: u32,
    /// Bound on the handshake, handed to the variants; zero disables it.
    pub handshake_timeout: Seconds,
    pub pool: MemoryPool,
}

/// A selector made ready to serve connections: what each connection needs of it.
#[derive(Clone, Copy, Debug, PartialEq, Eq, Structural)]
pub struct SelectorService {
    /// How many variants there are.
    pub variants: usize,
    pub max_size: u32,
    pub handshake_timeout: Seconds,
    pub pool: MemoryPool,
}

/// What a variant is offered: the CONNECT packet, the connection's shared
/// record, and the handshake deadline, if any.
#[derive(Clone, Debug, PartialEq, Eq)]
pub struct Handshake {
    pub packet: Connect,
    pub shared: MqttShared,
    pub deadline: Option<Seconds>,
}

/// Where a server connection stands.
#[derive(Clone, Debug, PartialEq, Eq)]
pub enum SelectorStage {
    /// Waiting for the first packet.
    ReadingFirst { shared: MqttShared, deadline: Option<Seconds> },
    /// Variant `k` is deciding on the handshake.
    Trying { item: Handshake, k: usize },
    /// Variant `k` took the connection and runs it.
    Delegated { k: usize },
    /// The connection has its outcome.
    Closed,
}

/// What happened on the outside since the last action.
#[derive(Debug, PartialEq, Eq)]
pub enum SelectorEvent<E> {
    /// A packet arrived.
    Received(Packet),
    /// The peer closed the stream.
    Closed,
    /// The bytes that arrived do not decode.
    DecodeFailed,
    /// Reading the stream failed.
    IoFailed,
    /// The variant offered the handshake does not take it.
    Declined,
    /// The variant offered the handshake takes it.
    Chosen,
    /// The variant offered the handshake failed while deciding.
    Failed(E),
    /// The variant that took the connection is done with it.
    Completed(Result<(), E>),
}

/// What the connection asks of the outside next.
#[derive(Debug, PartialEq, Eq)]
pub enum SelectorAction<E> {
    /// Read the first packet.
    ReadFirst,
    /// Ask variant `k` whether it takes the handshake (see `SelectorStage::Trying`).
    Offer(usize),
    /// Hand the handshake to variant `k`, which runs the connection from here.
    Delegate(usize, Handshake),
    /// The connection is over, with this outcome.
    Finish(Result<(), MqttError<E>>),
    /// Nothing to do: the event does not apply at this stage.
    Ignore,
}

/// Whether one variant is ready to take work.
#[derive(Clone, Copy, Debug, PartialEq, Eq, Structural)]
pub enum Readiness {
    Ready,
    Pending,
    Failed,
}

/// The outcome of a variant that took the connection, as the connection's.
pub open spec fn delegated_outcome<E>(res: Result<(), E>) -> Result<(), MqttError<E>> {
    match res {
        Ok(()) => Ok(()),
        Err(e) => Err(MqttError::Service(e)),
    }
}

/// `n` declines in a row.
pub open spec fn declines<E>(n: nat) -> Seq<SelectorEvent<E>> {
    Seq::new(n, |i: int| SelectorEvent::<E>::Declined)
}

impl<C, S> Selector<C, S> {
    /// A selector with no variants, no size limit, no handshake timeout and
    /// the default pool.
    pub fn new() -> (r: Self)
        ensures
            r.servers@.len() == 0,
            r.max_size == 0,
            r.handshake_timeout == Seconds(0),
            r.pool == MemoryPool::default_pool_spec(),
    {
        Selector {
            servers: Vec::new(),
            max_size: 0,
            handshake_timeout: Seconds(0),
            pool: MemoryPool::default_pool(),
        }
    }

    /// Sets the handshake bound handed to the variants; zero disables it.
    pub fn handshake_timeout(self, timeout: Seconds) -> (r: Self)
        ensures
            r.servers == self.servers,
            r.max_size == self.max_size,
            r.handshake_timeout == timeout,
            r.pool == self.pool,
    {
        let mut s = self;
        s.handshake_timeout = timeout;
        s
    }

    /// Sets the largest frame accepted before a variant takes over; zero means unlimited.
    pub fn max_size(self, size: u32) -> (r: Self)
        ensures
            r.servers == self.servers,
            r.max_size == size,
            r.handshake_timeout == self.handshake_timeout,
            r.pool == self.pool,
    {
        let mut s = self;
        s.max_size = size;
        s
    }

    /// Sets the memory pool of every connection, whichever variant takes it.
    pub fn memory_pool(self, id: MemoryPool) -> (r: Self)
        ensures
            r.servers == self.servers,
            r.max_size == self.max_size,
            r.handshake_timeout == self.handshake_timeout,
            r.pool == id,
    {
        let mut s = self;
        s.pool = id;
        s
    }

    /// Adds a variant after those already there.
    pub fn variant(self, check: C, server: S) -> (r: Self)
        ensures
            r.servers@ == self.servers@.push((check, server)),
            r.max_size == self.max_size,
            r.handshake_timeout == self.handshake_timeout,
            r.pool == self.pool,
    {
        let mut s = self;
        s.servers.push((check, server));
        s
    }

    /// The service that serves connections with this selector's variants.
    pub fn new_service(&self) -> (r: SelectorService)
        ensures
            r.variants == self.servers@.len(),
            r.max_size == self.max_size,
            r.handshake_timeout == self.handshake_timeout,
            r.pool == self.pool,
    {
        SelectorService {
            variants: self.servers.len(),
            max_size: self.max_size,
            handshake_timeout: self.handshake_timeout,
            pool: self.pool,
        }
    }

    /// The service for connections whose handshake deadline is armed by the
    /// caller, and comes with each connection (see `SelectorService::accept`).
    pub fn finish_server(&self) -> (r: SelectorService)
        ensures
            r.variants == self.servers@.len(),
            r.max_size == self.max_size,
            r.handshake_timeout == Seconds(0),
            r.pool == self.pool,
    {
        SelectorService {
            variants: self.servers.len(),
            max_size: self.max_size,
            handshake_timeout: Seconds(0),
            pool: self.pool,
        }
    }
}

impl SelectorStage {
    /// The variant index of a stage is within the service's variants, and the
    /// shared record is fresh until a variant takes it.
    pub open spec fn wf(&self, svc: SelectorService) -> bool {
        match self {
            SelectorStage::ReadingFirst { shared, .. } => shared.is_fresh(),
            SelectorStage::Trying { item, k } => *k < svc.variants && item.shared.is_fresh(),
            SelectorStage::Delegated { k } => *k < svc.variants,
            SelectorStage::Closed => true,
        }
    }

    /// A variant took the connection, or it is over: no variant is offered it again.
    pub open spec fn is_settled(&self) -> bool {
        self is Delegated || self is Closed
    }
}

impl SelectorService {
    /// A connection just accepted, with the given handshake deadline.
    pub open spec fn start(&self, deadline: Option<Seconds>) -> SelectorStage {
        SelectorStage::ReadingFirst {
            shared: MqttShared {
                codec: Codec { max_inbound: self.max_size, max_outbound: None },
                cap: 0,
                cap_set: false,
                pool: self.pool,
            },
            deadline,
        }
    }

    /// One step of a connection: the next stage and action for an event.
    pub open spec fn next<E>(&self, st: SelectorStage, ev: SelectorEvent<E>) -> (SelectorStage, SelectorAction<E>) {
        match (st, ev) {
            (SelectorStage::ReadingFirst { shared, deadline }, SelectorEvent::Received(p)) => match p {
                Packet::Connect(packet) => if self.variants == 0 {
                    (SelectorStage::Closed, SelectorAction::Finish(Err(MqttError::ServerError)))
                } else {
                    (
                        SelectorStage::Trying { item: Handshake { packet, shared, deadline }, k: 0 },
                        SelectorAction::Offer(0),
                    )
                },
                _ => (
                    SelectorStage::Closed,
                    SelectorAction::Finish(
                        Err(MqttError::Protocol(ProtocolError::Unexpected(p.kind(), Expected::ConnectFirst))),
                    ),
                ),
            },
            (SelectorStage::ReadingFirst { .. }, SelectorEvent::Closed) => (
                SelectorStage::Closed,
                SelectorAction::Finish(Err(MqttError::Disconnected)),
            ),
            (SelectorStage::ReadingFirst { .. }, SelectorEvent::DecodeFailed) => (
                SelectorStage::Closed,
                SelectorAction::Finish(Err(MqttError::Protocol(ProtocolError::Decode))),
            ),
            (SelectorStage::ReadingFirst { .. }, SelectorEvent::IoFailed) => (
                SelectorStage::Closed,
                SelectorAction::Finish(Err(MqttError::Io)),
            ),
            (SelectorStage::Trying { item, k }, SelectorEvent::Declined) => if k + 1 < self.variants {
                (SelectorStage::Trying { item, k: (k + 1) as usize }, SelectorAction::Offer((k + 1) as usize))
            } else {
                (SelectorStage::Closed, SelectorAction::Finish(Err(MqttError::ServerError)))
            },
            (SelectorStage::Trying { item, k }, SelectorEvent::Chosen) => (
                SelectorStage::Delegated { k },
                SelectorAction::Delegate(k, item),
            ),
            (SelectorStage::Trying { .. }, SelectorEvent::Failed(e)) => (
                SelectorStage::Closed,
                SelectorAction::Finish(Err(MqttError::Service(e))),
            ),
            (SelectorStage::Delegated { .. }, SelectorEvent::Completed(res)) => (
                SelectorStage::Closed,
                SelectorAction::Finish(delegated_outcome(res)),
            ),
            (st, _) => (st, SelectorAction::Ignore),
        }
    }

    /// The connection after a sequence of events.
    pub open spec fn run<E>(&self, st: SelectorStage, evs: Seq<SelectorEvent<E>>) -> SelectorStage
        decreases evs.len(),
    {
        if evs.len() == 0 {
            st
        } else {
            self.run(self.next(st, evs[0]).0, evs.drop_first())
        }
    }

    /// Takes a connection whose handshake deadline, if any, is `deadline`: its
    /// first packet is to be read with a codec capped at the inbound limit.
    pub fn accept<E>(&self, deadline: Option<Seconds>) -> (r: (SelectorStage, SelectorAction<E>))
        ensures
            r.0 == self.start(deadline),
            r.0.wf(*self),
            r.1 == SelectorAction::<E>::ReadFirst,
    {
        let shared = MqttShared::new(Codec::new(self.max_size), self.pool);
        (SelectorStage::ReadingFirst { shared, deadline }, SelectorAction::ReadFirst)
    }

    /// Takes a connection under the service's own handshake timeout.
    pub fn call<E>(&self) -> (r: (SelectorStage, SelectorAction<E>))
        ensures
            r.0 == self.start(deadline_of(self.handshake_timeout)),
            r.0.wf(*self),
            r.1 == SelectorAction::<E>::ReadFirst,
    {
        self.accept(self.handshake_timeout.deadline())
    }

    /// Advances a connection by one event.
    ///
    /// The first packet must be CONNECT; then the variants are offered the
    /// handshake in order until one takes it, and its outcome is the connection's.
    pub fn step<E>(&self, st: SelectorStage, ev: SelectorEvent<E>) -> (r: (SelectorStage, SelectorAction<E>))
        requires
            st.wf(*self),
        ensures
            r == self.next(st, ev),
            r.0.wf(*self),
    {
        match st {
            SelectorStage::ReadingFirst { shared, deadline } => match ev {
                SelectorEvent::Received(p) => match p {
                    Packet::Connect(packet) => {
                        if self.variants == 0 {
                            (SelectorStage::Closed, SelectorAction::Finish(Err(MqttError::ServerError)))
                        } else {
                            (
                                SelectorStage::Trying { item: Handshake { packet, shared, deadline }, k: 0 },
                                SelectorAction::Offer(0),
                            )
                        }
                    },
                    other => {
                        let kind = other.packet_type();
                        (
                            SelectorStage::Closed,
                            SelectorAction::Finish(
                                Err(MqttError::Protocol(ProtocolError::Unexpected(kind, Expected::ConnectFirst))),
                            ),
                        )
                    },
                },
                SelectorEvent::Closed => (SelectorStage::Closed, SelectorAction::Finish(Err(MqttError::Disconnected))),
                SelectorEvent::DecodeFailed => (
                    SelectorStage::Closed,
                    SelectorAction::Finish(Err(MqttError::Protocol(ProtocolError::Decode))),
                ),
                SelectorEvent::IoFailed => (SelectorStage::Closed, SelectorAction::Finish(Err(MqttError::Io))),
                _ => (SelectorStage::ReadingFirst { shared, deadline }, SelectorAction::Ignore),
            },
            SelectorStage::Trying { item, k } => match ev {
                SelectorEvent::Declined => {
                    if k + 1 < self.variants {
                        (SelectorStage::Trying { item, k: k + 1 }, SelectorAction::Offer(k + 1))
                    } else {
                        (SelectorStage::Closed, SelectorAction::Finish(Err(MqttError::ServerError)))
                    }
                },
                SelectorEvent::Chosen => (SelectorStage::Delegated { k }, SelectorAction::Delegate(k, item)),
                SelectorEvent::Failed(e) => (SelectorStage::Closed, SelectorAction::Finish(Err(MqttError::Service(e)))),
                _ => (SelectorStage::Trying { item, k }, SelectorAction::Ignore),
            },
            SelectorStage::Delegated { k } => match ev {
                SelectorEvent::Completed(res) => {
                    let out = match res {
                        Ok(()) => Ok(()),
                        Err(e) => Err(MqttError::Service(e)),
                    };
                    (SelectorStage::Closed, SelectorAction::Finish(out))
                },
                _ => (SelectorStage::Delegated { k }, SelectorAction::Ignore),
            },
            SelectorStage::Closed => (SelectorStage::Closed, SelectorAction::Ignore),
        }
    }

    /// Whether the service is ready, from what its variants said, polled in
    /// order: `Err(i)` when variant `i` failed (the first that did), else
    /// `Ok(true)` when all are ready and `Ok(false)` when one is pending.
    pub fn poll_ready(&self, polls: &Vec<Readiness>) -> (r: Result<bool, usize>)
        ensures
            match r {
                Err(i) => {
                    &&& i < polls@.len()
                    &&& polls@[i as int] is Failed
                    &&& forall|j: int| 0 <= j < i ==> !(polls@[j] is Failed)
                },
                Ok(b) => {
                    &&& forall|j: int| 0 <= j < polls@.len() ==> !(polls@[j] is Failed)
                    &&& b == forall|j: int| 0 <= j < polls@.len() ==> polls@[j] is Ready
                },
            },
    {
        let mut ready = true;
        let mut i: usize = 0;
        while i < polls.len()
            invariant
                i <= polls@.len(),
                forall|j: int| 0 <= j < i ==> !(polls@[j] is Failed),
                ready == forall|j: int| 0 <= j < i ==> polls@[j] is Ready,
            decreases polls@.len() - i,
        {
            match polls[i] {
                Readiness::Failed => {
                    return Err(i);
                },
                Readiness::Ready => {},
                Readiness::Pending => {
                    ready = false;
                },
            }
            i = i + 1;
        }
        Ok(ready)
    }

    /// Whether the service has shut down: every variant has.
    pub fn poll_shutdown(&self, done: &Vec<bool>) -> (r: bool)
        ensures
            r == forall|j: int| 0 <= j < done@.len() ==> done@[j],
    {
        let mut ready = true;
        let mut i: usize = 0;
        while i < done.len()
            invariant
                i <= done@.len(),
                ready == forall|j: int| 0 <= j < i ==> done@[j],
            decreases done@.len() - i,
        {
            ready = ready && done[i];
            i = i + 1;
        }
        ready
    }
}

/// Declines pass the handshake on untouched: after `j` declines, starting at
/// variant `k`, variant `k + j` is offered the very handshake that `k` was.
proof fn lemma_declines<E>(svc: SelectorService, item: Handshake, k: usize, j: nat)
    requires
        k + j < svc.variants,
    ensures
        svc.run(SelectorStage::Trying { item, k }, declines::<E>(j)) == (SelectorStage::Trying {
            item,
            k: (k + j) as usize,
        }),
    decreases j,
{
    if j > 0 {
        assert(declines::<E>(j).drop_first() =~= declines::<E>((j - 1) as nat));
        lemma_declines::<E>(svc, item, (k + 1) as usize, (j - 1) as nat);
    }
}

/// A settled connection stays settled, whatever comes.
proof fn lemma_settled_stays<E>(svc: SelectorService, st: SelectorStage, evs: Seq<SelectorEvent<E>>)
    requires
        st.is_settled(),
    ensures
        svc.run(st, evs).is_settled(),
    decreases evs.len(),
{
    if evs.len() > 0 {
        lemma_settled_stays(svc, svc.next(st, evs[0]).0, evs.drop_first());
    }
}

/// Variants are tried in order, one at a time, on the same handshake: when
/// the variants before `k` declined, variant `k` is offered the handshake
/// unchanged; if it takes it, it receives exactly that handshake and the
/// connection's outcome is its own.
pub proof fn variants_tried_in_order<E>(
    svc: SelectorService,
    item: Handshake,
    k: usize,
    res: Result<(), E>,
)
    requires
        k < svc.variants,
    ensures
        svc.run(SelectorStage::Trying { item, k: 0 }, declines::<E>(k as nat)) == (SelectorStage::Trying {
            item,
            k,
        }),
        svc.next(SelectorStage::Trying { item, k }, SelectorEvent::<E>::Chosen) == (
            SelectorStage::Delegated { k },
            SelectorAction::<E>::Delegate(k, item),
        ),
        svc.next(SelectorStage::Delegated { k }, SelectorEvent::Completed(res)) == (
            SelectorStage::Closed,
            SelectorAction::Finish(delegated_outcome(res)),
        ),
{
    lemma_declines::<E>(svc, item, 0, k as nat);
}

/// Acceptance is final: once a variant took the connection (or the connection
/// is over), no variant is offered it again, whatever comes.
pub proof fn acceptance_is_final<E>(
    svc: SelectorService,
    st: SelectorStage,
    evs: Seq<SelectorEvent<E>>,
    ev: SelectorEvent<E>,
)
    requires
        st.is_settled(),
    ensures
        !(svc.next(svc.run(st, evs), ev).1 is Offer),
        !(svc.next(svc.run(st, evs), ev).1 is Delegate),
{
    lemma_settled_stays(svc, st, evs);
}

/// When every variant declines a well-formed CONNECT, the connection closes
/// with a server error.
pub proof fn exhausted_variants_fail<E>(svc: SelectorService, item: Handshake)
    requires
        svc.variants > 0,
    ensures
        svc.next(
            svc.run(SelectorStage::Trying { item, k: 0 }, declines::<E>((svc.variants - 1) as nat)),
            SelectorEvent::<E>::Declined,
        ) == (SelectorStage::Closed, SelectorAction::<E>::Finish(Err(MqttError::ServerError))),
{
    lemma_declines::<E>(svc, item, 0, (svc.variants - 1) as nat);
}

/// A selector without variants closes a well-formed connection with a server error.
pub proof fn no_variant_fails<E>(svc: SelectorService, deadline: Option<Seconds>, c: Connect)
    requires
        svc.variants == 0,
    ensures
        svc.next(svc.start(deadline), SelectorEvent::<E>::Received(Packet::Connect(c))) == (
            SelectorStage::Closed,
            SelectorAction::<E>::Finish(Err(MqttError::ServerError)),
        ),
{
}

/// A first packet that is not CONNECT closes the connection with a protocol
/// error that cites the CONNECT-first rule, and no variant is ever consulted.
pub proof fn connect_must_come_first<E>(
    svc: SelectorService,
    deadline: Option<Seconds>,
    p: Packet,
    evs: Seq<SelectorEvent<E>>,
    ev: SelectorEvent<E>,
)
    requires
        !(p is Connect),
    ensures
        svc.next(svc.start(deadline), SelectorEvent::<E>::Received(p)) == (
            SelectorStage::Closed,
            SelectorAction::<E>::Finish(
                Err(MqttError::Protocol(ProtocolError::Unexpected(p.kind(), Expected::ConnectFirst))),
            ),
        ),
        !(svc.next(svc.run(SelectorStage::Closed, evs), ev).1 is Offer),
        !(svc.next(svc.run(SelectorStage::Closed, evs), ev).1 is Delegate),
{
    lemma_settled_stays(svc, SelectorStage::Closed, evs);
}

} // verus!
