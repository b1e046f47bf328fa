use vstd::prelude::*;

use crate::error::{ClientError, Expected, ProtocolError};
use crate::packet::{Connect, ConnectAck, LastWill, Packet, UserProperties};
use crate::shared::{Codec, MemoryPool, MqttShared};
use crate::time::{deadline_of, Seconds};

verus! {

/// An established client session: what the handshake negotiated, ready for the
/// dispatcher that carries the session's traffic.
#[derive(Clone, Debug, PartialEq, Eq)]
pub struct Client {
    pub shared: MqttShared,
    /// The server's acknowledgment.
    pub ack: ConnectAck,
    /// The in-flight credit the client advertised; zero means unlimited.
    pub max_receive: u16,
    /// The keep-alive interval in force.
    pub keep_alive: Seconds,
    pub disconnect_timeout: Seconds,
}

/// Configuration of a client's connect attempts. Each attempt sends a copy of
/// the same CONNECT packet, so one connector serves any number of attempts.
#[derive(Clone, Debug, PartialEq, Eq)]
pub struct MqttConnector {
    pub address: String,
    pub pkt: Connect,
    /// Bound on the whole handshake; zero disables it.
    pub handshake_timeout: Seconds,
    /// Bound on a graceful close; zero disables it.
    pub disconnect_timeout: Seconds,
    pub pool: MemoryPool,
}

/// Where a connect attempt stands.
#[derive(Clone, Debug, PartialEq, Eq)]
pub enum ClientStage {
    /// Waiting for the transport to open a stream.
    Connecting,
    /// The stream is open; the CONNECT packet is being written.
    Sending(MqttShared),
    /// CONNECT was written; waiting for the server's answer.
    AwaitingAck(MqttShared),
    /// The attempt has its outcome.
    Finished,
}

/// A connect attempt: its stage, and whether a handshake timer runs beside it.
#[derive(Clone, Debug, PartialEq, Eq)]
pub struct ClientHandshake {
    pub stage: ClientStage,
    pub timer: bool,
}

/// What happened on the outside since the last action.
#[derive(Clone, Debug, PartialEq, Eq)]
pub enum ClientEvent {
    /// The transport opened a stream.
    Connected,
    /// The transport could not open a stream.
    ConnectFailed,
    /// The CONNECT packet was written.
    Sent,
    /// A packet arrived.
    Received(Packet),
    /// The peer closed the stream.
    Closed,
    /// The bytes that arrived do not decode.
    DecodeFailed,
    /// Reading or writing the stream failed.
    IoFailed,
    /// The handshake timer fired.
    TimerFired,
}

/// What the attempt asks of the outside next.
#[derive(Debug, PartialEq, Eq)]
pub enum ClientAction {
    /// Open a stream to the address; arm a timer for the deadline, if any.
    Open { deadline: Option<Seconds> },
    /// Write the connector's CONNECT packet.
    SendConnect,
    /// Read the next packet.
    ReadNext,
    /// The attempt is over, with this outcome.
    Finish(Result<Client, ClientError>),
    /// Nothing to do: the event does not apply at this stage.
    Ignore,
}

impl ClientHandshake {
    /// The shared record of a running attempt is still untouched by negotiation.
    pub open spec fn wf(&self) -> bool {
        match self.stage {
            ClientStage::Sending(s) => s.is_fresh(),
            ClientStage::AwaitingAck(s) => s.is_fresh(),
            _ => true,
        }
    }

    pub open spec fn is_finished(&self) -> bool {
        self.stage is Finished
    }
}

/// The inbound limit that an optional packet-size limit stands for.
pub open spec fn size_or_unlimited(v: Option<u32>) -> u32 {
    match v {
        Some(n) => n,
        None => 0,
    }
}

/// The credit that an optional receive-max stands for.
pub open spec fn credit_or_unbounded(v: Option<u16>) -> u16 {
    match v {
        Some(n) => n,
        None => 0,
    }
}

impl MqttConnector {
    pub open spec fn wf(&self) -> bool {
        self.pkt.wf()
    }

    /// A connector for the given address, with keep-alive 30 s, receive-max 16,
    /// no handshake timeout, a 3 s disconnect timeout and the default pool.
    pub fn new(address: String) -> (r: MqttConnector)
        ensures
            r.wf(),
            r.address == address,
            r.pkt.client_id@ == Seq::<char>::empty(),
            !r.pkt.clean_start,
            r.pkt.keep_alive == 30,
            r.pkt.last_will is None,
            r.pkt.auth_method is None,
            r.pkt.auth_data is None,
            r.pkt.username is None,
            r.pkt.password is None,
            r.pkt.max_packet_size is None,
            r.pkt.receive_max == Some(16u16),
            r.pkt.user_properties@.len() == 0,
            r.handshake_timeout == Seconds(0),
            r.disconnect_timeout == Seconds(3),
            r.pool == MemoryPool::default_pool_spec(),
    {
        MqttConnector {
            address,
            pkt: Connect {
                client_id: String::new(),
                clean_start: false,
                keep_alive: 30,
                last_will: None,
                auth_method: None,
                auth_data: None,
                username: None,
                password: None,
                max_packet_size: None,
                receive_max: Some(16),
                user_properties: Vec::new(),
            },
            handshake_timeout: Seconds(0),
            disconnect_timeout: Seconds(3),
            pool: MemoryPool::default_pool(),
        }
    }

    /// Sets the client identifier.
    pub fn client_id(self, client_id: String) -> (r: Self)
        requires
            self.wf(),
        ensures
            r.wf(),
            r == (MqttConnector { pkt: Connect { client_id, ..self.pkt }, ..self }),
    {
        let mut s = self;
        s.pkt.client_id = client_id;
        s
    }

    /// Asks the server to start a new session.
    pub fn clean_start(self) -> (r: Self)
        requires
            self.wf(),
        ensures
            r.wf(),
            r == (MqttConnector { pkt: Connect { clean_start: true, ..self.pkt }, ..self }),
    {
        let mut s = self;
        s.pkt.clean_start = true;
        s
    }

    /// Sets the keep-alive interval to request.
    pub fn keep_alive(self, val: Seconds) -> (r: Self)
        requires
            self.wf(),
        ensures
            r.wf(),
            r == (MqttConnector { pkt: Connect { keep_alive: val.0, ..self.pkt }, ..self }),
    {
        let mut s = self;
        s.pkt.keep_alive = val.0;
        s
    }

    /// Sets the message the server publishes if the client goes away uncleanly.
    pub fn last_will(self, val: LastWill) -> (r: Self)
        requires
            self.wf(),
        ensures
            r.wf(),
            r == (MqttConnector { pkt: Connect { last_will: Some(val), ..self.pkt }, ..self }),
    {
        let mut s = self;
        s.pkt.last_will = Some(val);
        s
    }

    /// Sets the authentication method and data.
    pub fn auth(self, method: String, data: Vec<u8>) -> (r: Self)
        requires
            self.wf(),
        ensures
            r.wf(),
            r == (MqttConnector {
                pkt: Connect { auth_method: Some(method), auth_data: Some(data), ..self.pkt },
                ..self
            }),
    {
        let mut s = self;
        s.pkt.auth_method = Some(method);
        s.pkt.auth_data = Some(data);
        s
    }

    /// Sets the user name.
    pub fn username(self, val: String) -> (r: Self)
        requires
            self.wf(),
        ensures
            r.wf(),
            r == (MqttConnector { pkt: Connect { username: Some(val), ..self.pkt }, ..self }),
    {
        let mut s = self;
        s.pkt.username = Some(val);
        s
    }

    /// Sets the password.
    pub fn password(self, val: Vec<u8>) -> (r: Self)
        requires
            self.wf(),
        ensures
            r.wf(),
            r == (MqttConnector { pkt: Connect { password: Some(val), ..self.pkt }, ..self }),
    {
        let mut s = self;
        s.pkt.password = Some(val);
        s
    }

    /// Sets the largest packet the client accepts; zero lifts the limit.
    pub fn max_packet_size(self, val: u32) -> (r: Self)
        requires
            self.wf(),
        ensures
            r.wf(),
            r == (MqttConnector {
                pkt: Connect { max_packet_size: if val == 0 { None } else { Some(val) }, ..self.pkt },
                ..self
            }),
    {
        let mut s = self;
        if val != 0 {
            s.pkt.max_packet_size = Some(val);
        } else {
            s.pkt.max_packet_size = None;
        }
        s
    }

    /// Sets the in-flight credit advertised to the server; zero lifts the limit.
    pub fn receive_max(self, val: u16) -> (r: Self)
        requires
            self.wf(),
        ensures
            r.wf(),
            r == (MqttConnector {
                pkt: Connect { receive_max: if val == 0 { None } else { Some(val) }, ..self.pkt },
                ..self
            }),
    {
        let mut s = self;
        if val != 0 {
            s.pkt.receive_max = Some(val);
        } else {
            s.pkt.receive_max = None;
        }
        s
    }

    /// Rewrites the user properties of the CONNECT packet with `f`.
    pub fn properties<F>(self, f: F) -> (r: Self) where F: FnOnce(UserProperties) -> UserProperties
        requires
            self.wf(),
            f.requires((self.pkt.user_properties,)),
        ensures
            r.wf(),
            f.ensures((self.pkt.user_properties,), r.pkt.user_properties),
            r == (MqttConnector {
                pkt: Connect { user_properties: r.pkt.user_properties, ..self.pkt },
                ..self
            }),
    {
        let mut s = self;
        let mut props: UserProperties = Vec::new();
        std::mem::swap(&mut s.pkt.user_properties, &mut props);
        s.pkt.user_properties = f(props);
        s
    }

    /// Rewrites the CONNECT packet with `f`.
    pub fn packet<F>(self, f: F) -> (r: Self) where F: FnOnce(Connect) -> Connect
        requires
            f.requires((self.pkt,)),
        ensures
            f.ensures((self.pkt,), r.pkt),
            r == (MqttConnector { pkt: r.pkt, ..self }),
    {
        let MqttConnector { address, pkt, handshake_timeout, disconnect_timeout, pool } = self;
        MqttConnector { address, pkt: f(pkt), handshake_timeout, disconnect_timeout, pool }
    }

    /// Sets the bound on the handshake (CONNECT and its answer); zero disables it.
    pub fn handshake_timeout(self, timeout: Seconds) -> (r: Self)
        ensures
            r == (MqttConnector { handshake_timeout: timeout, ..self }),
    {
        let mut s = self;
        s.handshake_timeout = timeout;
        s
    }

    /// Sets the bound on a graceful close; zero disables it.
    pub fn disconnect_timeout(self, timeout: Seconds) -> (r: Self)
        ensures
            r == (MqttConnector { disconnect_timeout: timeout, ..self }),
    {
        let mut s = self;
        s.disconnect_timeout = timeout;
        s
    }

    /// Sets the memory pool of the connections this connector opens.
    pub fn memory_pool(self, id: MemoryPool) -> (r: Self)
        ensures
            r == (MqttConnector { pool: id, ..self }),
    {
        let mut s = self;
        s.pool = id;
        s
    }

    /// The inbound size limit of each attempt's codec; zero means unlimited.
    pub fn max_inbound_size(&self) -> (r: u32)
        ensures
            r == size_or_unlimited(self.pkt.max_packet_size),
    {
        match self.pkt.max_packet_size {
            Some(n) => n,
            None => 0,
        }
    }

    /// The attempt as it stands before anything happened.
    pub open spec fn start(&self) -> ClientHandshake {
        ClientHandshake { stage: ClientStage::Connecting, timer: self.handshake_timeout.0 != 0 }
    }

    /// The session that a successful acknowledgment negotiates over `shared`.
    pub open spec fn session(&self, shared: MqttShared, ack: ConnectAck) -> Client {
        Client {
            shared: MqttShared {
                codec: Codec {
                    max_outbound: match ack.max_packet_size {
                        Some(n) => Some(n),
                        None => shared.codec.max_outbound,
                    },
                    ..shared.codec
                },
                cap: credit_or_unbounded(ack.receive_max) as usize,
                cap_set: true,
                ..shared
            },
            max_receive: credit_or_unbounded(self.pkt.receive_max),
            keep_alive: Seconds(
                match ack.server_keepalive_sec {
                    Some(k) => k,
                    None => self.pkt.keep_alive,
                },
            ),
            disconnect_timeout: self.disconnect_timeout,
            ack,
        }
    }

    /// The outcome of an attempt whose answer from the server is `p`.
    pub open spec fn outcome(&self, shared: MqttShared, p: Packet) -> Result<Client, ClientError> {
        match p {
            Packet::ConnectAck(ack) => if ack.is_success() {
                Ok(self.session(shared, ack))
            } else {
                Err(ClientError::Ack(ack))
            },
            _ => Err(ClientError::Protocol(ProtocolError::Unexpected(p.kind(), Expected::ConnectAck))),
        }
    }

    /// One step of an attempt: the next stage and action for an event.
    pub open spec fn next(&self, h: ClientHandshake, ev: ClientEvent) -> (ClientHandshake, ClientAction) {
        let done = ClientHandshake { stage: ClientStage::Finished, timer: h.timer };
        match (h.stage, ev) {
            (ClientStage::Finished, _) => (h, ClientAction::Ignore),
            (_, ClientEvent::TimerFired) => if h.timer {
                (done, ClientAction::Finish(Err(ClientError::HandshakeTimeout)))
            } else {
                (h, ClientAction::Ignore)
            },
            (ClientStage::Connecting, ClientEvent::Connected) => (
                ClientHandshake {
                    stage: ClientStage::Sending(
                        MqttShared {
                            codec: Codec {
                                max_inbound: size_or_unlimited(self.pkt.max_packet_size),
                                max_outbound: None,
                            },
                            cap: 0,
                            cap_set: false,
                            pool: self.pool,
                        },
                    ),
                    timer: h.timer,
                },
                ClientAction::SendConnect,
            ),
            (ClientStage::Connecting, ClientEvent::ConnectFailed) => (
                done,
                ClientAction::Finish(Err(ClientError::Connect)),
            ),
            (ClientStage::Sending(s), ClientEvent::Sent) => (
                ClientHandshake { stage: ClientStage::AwaitingAck(s), timer: h.timer },
                ClientAction::ReadNext,
            ),
            (ClientStage::Sending(_), ClientEvent::IoFailed) => (
                done,
                ClientAction::Finish(Err(ClientError::Io)),
            ),
            (ClientStage::AwaitingAck(s), ClientEvent::Received(p)) => (
                done,
                ClientAction::Finish(self.outcome(s, p)),
            ),
            (ClientStage::AwaitingAck(_), ClientEvent::Closed) => (
                done,
                ClientAction::Finish(Err(ClientError::Disconnected)),
            ),
            (ClientStage::AwaitingAck(_), ClientEvent::DecodeFailed) => (
                done,
                ClientAction::Finish(Err(ClientError::Protocol(ProtocolError::Decode))),
            ),
            (ClientStage::AwaitingAck(_), ClientEvent::IoFailed) => (
                done,
                ClientAction::Finish(Err(ClientError::Io)),
            ),
            _ => (h, ClientAction::Ignore),
        }
    }

    /// The attempt after a sequence of events.
    pub open spec fn run(&self, h: ClientHandshake, evs: Seq<ClientEvent>) -> ClientHandshake
        decreases evs.len(),
    {
        if evs.len() == 0 {
            h
        } else {
            self.run(self.next(h, evs[0]).0, evs.drop_first())
        }
    }

    /// The CONNECT packet that each attempt sends.
    pub fn connect_packet(&self) -> (r: &Connect)
        ensures
            *r == self.pkt,
    {
        &self.pkt
    }

    /// Starts a connect attempt: a stream is to be opened, under a handshake
    /// timer when the handshake timeout is not zero.
    pub fn connect(&self) -> (r: (ClientHandshake, ClientAction))
        ensures
            r.0 == self.start(),
            r.0.wf(),
            r.1 == (ClientAction::Open { deadline: deadline_of(self.handshake_timeout) }),
    {
        let h = ClientHandshake { stage: ClientStage::Connecting, timer: self.handshake_timeout.non_zero() };
        (h, ClientAction::Open { deadline: self.handshake_timeout.deadline() })
    }

    /// Decides an attempt on the packet that answered its CONNECT.
    ///
    /// A refusing acknowledgment fails with that very acknowledgment; any other
    /// packet than CONNECT-ACK is a protocol error. A successful one gives the
    /// session: the outbound limit is the server's maximum packet size when it
    /// sent one, the keep-alive is the server's when it sent one and the
    /// requested one otherwise, and the in-flight credit is the server's
    /// receive-max, or zero (unbounded) when it sent none.
    pub fn complete(&self, shared: MqttShared, p: Packet) -> (r: Result<Client, ClientError>)
        requires
            shared.is_fresh(),
        ensures
            r == self.outcome(shared, p),
            p is ConnectAck && !p->ConnectAck_0.is_success() ==> r == Err::<Client, ClientError>(
                ClientError::Ack(p->ConnectAck_0),
            ),
            p is ConnectAck && p->ConnectAck_0.is_success() ==> {
                &&& r is Ok
                &&& r->Ok_0.ack == p->ConnectAck_0
                &&& r->Ok_0.shared.cap == credit_or_unbounded(p->ConnectAck_0.receive_max) as usize
                &&& r->Ok_0.keep_alive.0 == match p->ConnectAck_0.server_keepalive_sec {
                    Some(k) => k,
                    None => self.pkt.keep_alive,
                }
                &&& r->Ok_0.shared.codec.max_outbound == p->ConnectAck_0.max_packet_size
                &&& r->Ok_0.shared.codec.max_inbound == shared.codec.max_inbound
            },
            !(p is ConnectAck) ==> r == Err::<Client, ClientError>(
                ClientError::Protocol(ProtocolError::Unexpected(p.kind(), Expected::ConnectAck)),
            ),
    {
        match p {
            Packet::ConnectAck(ack) => {
                if ack.success() {
                    let mut shared = shared;
                    match ack.max_packet_size {
                        Some(size) => shared.codec.set_max_outbound_size(size),
                        None => {},
                    }
                    let keep_alive = match ack.server_keepalive_sec {
                        Some(k) => k,
                        None => self.pkt.keep_alive,
                    };
                    let cap: u16 = match ack.receive_max {
                        Some(v) => v,
                        None => 0,
                    };
                    shared.set_cap(cap as usize);
                    let max_receive: u16 = match self.pkt.receive_max {
                        Some(v) => v,
                        None => 0,
                    };
                    Ok(
                        Client {
                            shared,
                            ack,
                            max_receive,
                            keep_alive: Seconds(keep_alive),
                            disconnect_timeout: self.disconnect_timeout,
                        },
                    )
                } else {
                    Err(ClientError::Ack(ack))
                }
            },
            other => {
                let kind = other.packet_type();
                Err(ClientError::Protocol(ProtocolError::Unexpected(kind, Expected::ConnectAck)))
            },
        }
    }

    /// Advances an attempt by one event.
    pub fn step(&self, h: ClientHandshake, ev: ClientEvent) -> (r: (ClientHandshake, ClientAction))
        requires
            h.wf(),
        ensures
            r == self.next(h, ev),
            r.0.wf(),
            r.0.timer == h.timer,
    {
        let timer = h.timer;
        match h.stage {
            ClientStage::Finished => (h, ClientAction::Ignore),
            ClientStage::Connecting => match ev {
                ClientEvent::TimerFired => self.on_timer(h),
                ClientEvent::Connected => {
                    let inbound = self.max_inbound_size();
                    let shared = MqttShared::new(Codec::new(inbound), self.pool);
                    (ClientHandshake { stage: ClientStage::Sending(shared), timer }, ClientAction::SendConnect)
                },
                ClientEvent::ConnectFailed => (
                    ClientHandshake { stage: ClientStage::Finished, timer },
                    ClientAction::Finish(Err(ClientError::Connect)),
                ),
                _ => (ClientHandshake { stage: ClientStage::Connecting, timer }, ClientAction::Ignore),
            },
            ClientStage::Sending(s) => match ev {
                ClientEvent::TimerFired => self.on_timer(ClientHandshake { stage: ClientStage::Sending(s), timer }),
                ClientEvent::Sent => (ClientHandshake { stage: ClientStage::AwaitingAck(s), timer }, ClientAction::ReadNext),
                ClientEvent::IoFailed => (
                    ClientHandshake { stage: ClientStage::Finished, timer },
                    ClientAction::Finish(Err(ClientError::Io)),
                ),
                _ => (ClientHandshake { stage: ClientStage::Sending(s), timer }, ClientAction::Ignore),
            },
            ClientStage::AwaitingAck(s) => match ev {
                ClientEvent::TimerFired => self.on_timer(ClientHandshake { stage: ClientStage::AwaitingAck(s), timer }),
                ClientEvent::Received(p) => (
                    ClientHandshake { stage: ClientStage::Finished, timer },
                    ClientAction::Finish(self.complete(s, p)),
                ),
                ClientEvent::Closed => (
                    ClientHandshake { stage: ClientStage::Finished, timer },
                    ClientAction::Finish(Err(ClientError::Disconnected)),
                ),
                ClientEvent::DecodeFailed => (
                    ClientHandshake { stage: ClientStage::Finished, timer },
                    ClientAction::Finish(Err(ClientError::Protocol(ProtocolError::Decode))),
                ),
                ClientEvent::IoFailed => (
                    ClientHandshake { stage: ClientStage::Finished, timer },
                    ClientAction::Finish(Err(ClientError::Io)),
                ),
                _ => (ClientHandshake { stage: ClientStage::AwaitingAck(s), timer }, ClientAction::Ignore),
            },
        }
    }

    /// The handshake timer fired on a running attempt: it ends in a timeout
    /// when a timer was armed, and the event is ignored otherwise.
    fn on_timer(&self, h: ClientHandshake) -> (r: (ClientHandshake, ClientAction))
        requires
            h.wf(),
            !h.is_finished(),
        ensures
            r == self.next(h, ClientEvent::TimerFired),
            r.0.wf(),
            r.0.timer == h.timer,
    {
        if h.timer {
            (
                ClientHandshake { stage: ClientStage::Finished, timer: true },
                ClientAction::Finish(Err(ClientError::HandshakeTimeout)),
            )
        } else {
            (h, ClientAction::Ignore)
        }
    }

    proof fn lemma_run_keeps_timer(&self, h: ClientHandshake, evs: Seq<ClientEvent>)
        ensures
            self.run(h, evs).timer == h.timer,
        decreases evs.len(),
    {
        if evs.len() > 0 {
            self.lemma_run_keeps_timer(self.next(h, evs[0]).0, evs.drop_first());
        }
    }
}

/// With a zero handshake timeout no timer runs: whatever events an attempt
/// has seen and whatever comes next, it never ends in a handshake timeout.
pub proof fn no_timeout_when_disabled(c: MqttConnector, evs: Seq<ClientEvent>, ev: ClientEvent)
    requires
        c.handshake_timeout.0 == 0,
    ensures
        c.next(c.run(c.start(), evs), ev).1 != ClientAction::Finish(
            Err::<Client, ClientError>(ClientError::HandshakeTimeout),
        ),
{
    c.lemma_run_keeps_timer(c.start(), evs);
    let h = c.run(c.start(), evs);
    match (h.stage, ev) {
        (ClientStage::AwaitingAck(s), ClientEvent::Received(p)) => {
            match p {
                Packet::ConnectAck(a) => {},
                _ => {},
            }
        },
        _ => {},
    }
}

/// With a non-zero handshake timeout, an attempt still waiting (for the
/// transport or for the server's answer) when the timer fires ends at once in
/// a handshake timeout, and drops the stream it held.
pub proof fn timeout_when_unanswered(c: MqttConnector, evs: Seq<ClientEvent>)
    requires
        c.handshake_timeout.0 > 0,
        !c.run(c.start(), evs).is_finished(),
    ensures
        c.next(c.run(c.start(), evs), ClientEvent::TimerFired) == (
        ClientHandshake { stage: ClientStage::Finished, timer: true },
        ClientAction::Finish(Err::<Client, ClientError>(ClientError::HandshakeTimeout)),
        ),
{
    c.lemma_run_keeps_timer(c.start(), evs);
}

/// An attempt has one outcome: once finished, every further event is ignored.
pub proof fn finished_is_final(c: MqttConnector, h: ClientHandshake, evs: Seq<ClientEvent>)
    requires
        h.is_finished(),
    ensures
        c.run(h, evs) == h,
    decreases evs.len(),
{
    if evs.len() > 0 {
        finished_is_final(c, c.next(h, evs[0]).0, evs.drop_first());
    }
}

} // verus!
