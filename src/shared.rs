use vstd::prelude::*;

verus! {

/// The memory pool a connection allocates its buffers from.
#[derive(Clone, Copy, Debug, PartialEq, Eq, Structural)]
pub struct MemoryPool {
    pub id: u8,
}

/// The pool used when none is chosen.
pub const DEFAULT_POOL: u8 = 5;

impl MemoryPool {
    pub fn new(id: u8) -> (r: MemoryPool)
        ensures
            r.id == id,
    {
        MemoryPool { id }
    }

    pub open spec fn default_pool_spec() -> MemoryPool {
        MemoryPool { id: DEFAULT_POOL }
    }

    pub fn default_pool() -> (r: MemoryPool)
        ensures
            r == Self::default_pool_spec(),
    {
        MemoryPool { id: DEFAULT_POOL }
    }
}

/// The size limits of a connection's frame codec. Zero means unlimited.
#[derive(Clone, Copy, Debug, PartialEq, Eq, Structural)]
pub struct Codec {
    /// Largest frame accepted from the peer; fixed when the codec is made.
    pub max_inbound: u32,
    /// Largest frame sent to the peer; set at most once, after the handshake.
    pub max_outbound: Option<u32>,
}

impl Codec {
    /// A codec with the given inbound limit and no outbound limit yet.
    pub fn new(max_inbound: u32) -> (r: Codec)
        ensures
            r.max_inbound == max_inbound,
            r.max_outbound is None,
    {
        Codec { max_inbound, max_outbound: None }
    }

    /// Fixes the outbound limit to what the peer negotiated.
    pub fn set_max_outbound_size(&mut self, size: u32)
        requires
            old(self).max_outbound is None,
        ensures
            *final(self) == (Codec { max_outbound: Some(size), ..*old(self) }),
    {
        self.max_outbound = Some(size);
    }
}

/// What one connection's handshake and session share: its codec, its in-flight
/// credit and its memory pool.
#[derive(Clone, Copy, Debug, PartialEq, Eq, Structural)]
pub struct MqttShared {
    pub codec: Codec,
    /// In-flight credit the peer granted; zero means unbounded.
    pub cap: usize,
    /// Whether the credit was already set from a handshake.
    pub cap_set: bool,
    pub pool: MemoryPool,
}

impl MqttShared {
    /// A fresh record: no outbound limit and unbounded credit, both still unset.
    pub open spec fn is_fresh(&self) -> bool {
        &&& self.codec.max_outbound is None
        &&& self.cap == 0
        &&& !self.cap_set
    }

    pub fn new(codec: Codec, pool: MemoryPool) -> (r: MqttShared)
        ensures
            r.codec == codec,
            r.pool == pool,
            r.cap == 0,
            !r.cap_set,
    {
        MqttShared { codec, cap: 0, cap_set: false, pool }
    }

    /// Sets the in-flight credit once, from the negotiated receive-max.
    pub fn set_cap(&mut self, cap: usize)
        requires
            !old(self).cap_set,
        ensures
            *final(self) == (MqttShared { cap, cap_set: true, ..*old(self) }),
    {
        self.cap = cap;
        self.cap_set = true;
    }
}

} // verus!
