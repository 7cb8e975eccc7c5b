//! Buffer management: outgoing packets, the receive buffer and the
//! transmit queue.
use vstd::prelude::*;

use crate::collections::TxDeque;

verus! {

/// Buffer size: BLE_EVT_LEN_MAX (247) + 2 bytes for the response code.
pub const BUFFER_SIZE: usize = 249;

/// Number of TX buffers.
pub const TX_POOL_SIZE: usize = 8;

/// RX buffer size for command reception.
pub const RX_BUFFER_SIZE: usize = BUFFER_SIZE;

/// Buffer errors.
#[derive(Debug, Clone, Copy, PartialEq, Eq)]
pub enum BufferError {
    /// No buffers available in pool
    PoolExhausted,
    /// Buffer too small for data
    BufferTooSmall,
    /// Invalid buffer size
    InvalidSize,
}

/// An outgoing packet: at most [`BUFFER_SIZE`] bytes, held in a vector of
/// its own.  Packets are not drawn from a pool of [`TX_POOL_SIZE`] buffers
/// here, so the number of live packets is not bounded by this type.
#[derive(Debug)]
pub struct TxPacket {
    data: Vec<u8>,
}

impl View for TxPacket {
    type V = Seq<u8>;

    closed spec fn view(&self) -> Seq<u8> {
        self.data@
    }
}

impl TxPacket {
    #[verifier::type_invariant]
    spec fn inv(self) -> bool {
        self.data@.len() <= BUFFER_SIZE
    }

    /// A packet holding a copy of `data`; `BufferTooSmall` when `data` is
    /// longer than [`BUFFER_SIZE`].
    pub fn new(data: &[u8]) -> (r: Result<Self, BufferError>)
        ensures
            r is Ok <==> data@.len() <= BUFFER_SIZE,
            r matches Ok(p) ==> p@ == data@,
            r matches Err(e) ==> e == BufferError::BufferTooSmall,
    {
        if data.len() > BUFFER_SIZE {
            return Err(BufferError::BufferTooSmall);
        }
        let mut buffer: Vec<u8> = Vec::new();
        let mut i: usize = 0;
        while i < data.len()
            invariant
                i <= data@.len(),
                data@.len() <= BUFFER_SIZE,
                buffer@ == data@.subrange(0, i as int),
            decreases data@.len() - i,
        {
            buffer.push(data[i]);
            i = i + 1;
            assert(buffer@ =~= data@.subrange(0, i as int));
        }
        assert(buffer@ =~= data@);
        Ok(Self { data: buffer })
    }

    /// The packet bytes.
    pub fn as_slice(&self) -> (r: &[u8])
        ensures
            r@ == self@,
    {
        self.data.as_slice()
    }

    /// The packet length, never above [`BUFFER_SIZE`].
    pub fn len(&self) -> (r: usize)
        ensures
            r == self@.len(),
            r <= BUFFER_SIZE,
    {
        proof {
            use_type_invariant(self);
        }
        self.data.len()
    }

    /// Whether the packet holds no bytes.
    pub fn is_empty(&self) -> (r: bool)
        ensures
            r == (self@.len() == 0),
    {
        self.data.len() == 0
    }
}

/// The receive buffer for incoming commands.
pub struct RxBuffer {
    data: [u8; RX_BUFFER_SIZE],
    len: usize,
}

impl RxBuffer {
    #[verifier::type_invariant]
    spec fn inv(self) -> bool {
        self.len <= RX_BUFFER_SIZE
    }

    /// All the buffer's storage, received or not.
    pub closed spec fn storage(self) -> Seq<u8> {
        self.data@
    }

    /// The number of received bytes.
    pub closed spec fn received_len(self) -> nat {
        self.len as nat
    }

    /// The received bytes.
    pub open spec fn received(self) -> Seq<u8> {
        self.storage().subrange(0, self.received_len() as int)
    }

    /// An empty receive buffer with zeroed storage.
    pub fn new() -> (r: Self)
        ensures
            r.received_len() == 0,
            r.storage() == Seq::new(RX_BUFFER_SIZE as nat, |i: int| 0u8),
    {
        let r = Self { data: [0u8; RX_BUFFER_SIZE], len: 0 };
        assert(r.data@ =~= Seq::new(RX_BUFFER_SIZE as nat, |i: int| 0u8));
        r
    }

    /// The whole storage, for the receiver to write into.
    pub fn as_mut_slice(&mut self) -> (r: &mut [u8])
        ensures
            r@ == old(self).storage(),
            final(self).received_len() == old(self).received_len(),
            final(self).storage() == final(r)@,
    {
        proof {
            use_type_invariant(&*self);
        }
        &mut self.data
    }

    /// Set the number of received bytes; `InvalidSize` (and no change) when
    /// it exceeds [`RX_BUFFER_SIZE`].
    pub fn set_len(&mut self, len: usize) -> (r: Result<(), BufferError>)
        ensures
            r is Ok <==> len <= RX_BUFFER_SIZE,
            r is Ok ==> final(self).received_len() == len,
            r matches Err(e) ==> e == BufferError::InvalidSize && final(self).received_len()
                == old(self).received_len(),
            final(self).storage() == old(self).storage(),
    {
        if len > RX_BUFFER_SIZE {
            return Err(BufferError::InvalidSize);
        }
        self.len = len;
        Ok(())
    }

    /// The received bytes.
    pub fn as_slice(&self) -> (r: &[u8])
        ensures
            r@ == self.received(),
    {
        proof {
            use_type_invariant(self);
        }
        vstd::slice::slice_subrange(self.data.as_slice(), 0, self.len)
    }

    /// The number of received bytes.
    pub fn len(&self) -> (r: usize)
        ensures
            r == self.received_len(),
            r <= RX_BUFFER_SIZE,
    {
        proof {
            use_type_invariant(self);
        }
        self.len
    }

    /// Whether no byte was received.
    pub fn is_empty(&self) -> (r: bool)
        ensures
            r == (self.received_len() == 0),
    {
        self.len == 0
    }

    /// Forget the received bytes.
    pub fn clear(&mut self)
        ensures
            final(self).received_len() == 0,
            final(self).storage() == old(self).storage(),
    {
        self.len = 0;
    }
}

impl Default for RxBuffer {
    fn default() -> (r: Self)
        ensures
            r.received_len() == 0,
    {
        Self::new()
    }
}

/// TX queue for managing outgoing packets, first in first out.
pub struct TxQueue {
    queue: TxDeque,
}

impl View for TxQueue {
    type V = Seq<TxPacket>;

    closed spec fn view(&self) -> Seq<TxPacket> {
        self.queue@
    }
}

impl TxQueue {
    /// An empty queue.
    pub fn new() -> (r: Self)
        ensures
            r@ == Seq::<TxPacket>::empty(),
    {
        Self { queue: TxDeque::new() }
    }

    /// Enqueue a packet at the back; `PoolExhausted` (and no change) when
    /// [`TX_POOL_SIZE`] packets are queued.
    pub fn enqueue(&mut self, packet: TxPacket) -> (r: Result<(), BufferError>)
        ensures
            r is Ok <==> old(self)@.len() < TX_POOL_SIZE,
            final(self)@ == queue_after_enqueue(old(self)@, packet),
            r is Ok ==> final(self)@ == old(self)@.push(packet),
            r matches Err(e) ==> e == BufferError::PoolExhausted && final(self)@ == old(self)@,
    {
        match self.queue.push_back(packet) {
            Ok(()) => Ok(()),
            Err(_) => Err(BufferError::PoolExhausted),
        }
    }

    /// Dequeue the packet at the front, if any.
    pub fn dequeue(&mut self) -> (r: Option<TxPacket>)
        ensures
            old(self)@.len() == 0 ==> r is None && final(self)@ == old(self)@,
            old(self)@.len() > 0 ==> r == Some(old(self)@[0]) && final(self)@ == old(self)@.drop_first(),
            (r, final(self)@) == dequeue_result(old(self)@),
    {
        self.queue.pop_front()
    }

    /// Whether the queue is empty.
    pub fn is_empty(&self) -> (r: bool)
        ensures
            r == (self@.len() == 0),
    {
        self.queue.is_empty()
    }

    /// Whether the queue is full.
    pub fn is_full(&self) -> (r: bool)
        ensures
            r == (self@.len() == TX_POOL_SIZE),
    {
        self.queue.is_full()
    }

    /// The number of queued packets.
    pub fn len(&self) -> (r: usize)
        ensures
            r == self@.len(),
            r <= TX_POOL_SIZE,
    {
        self.queue.len()
    }
}

impl Default for TxQueue {
    fn default() -> (r: Self)
        ensures
            r@ == Seq::<TxPacket>::empty(),
    {
        Self::new()
    }
}

/// Buffer pool statistics.
#[derive(Debug, Clone, Copy)]
pub struct PoolStats {
    pub tx_allocated: usize,
    pub tx_available: usize,
    pub rx_active: bool,
}

/// Pool statistics.  Packets are not drawn from a pool here (see
/// [`TxPacket`]) and nothing counts the live ones, so these are the fixed
/// values of an idle pool of [`TX_POOL_SIZE`] buffers.
pub fn get_stats() -> (r: PoolStats)
    ensures
        r.tx_allocated == 0,
        r.tx_available == TX_POOL_SIZE,
        r.tx_allocated + r.tx_available == TX_POOL_SIZE,
        r.rx_active,
{
    PoolStats { tx_allocated: 0, tx_available: TX_POOL_SIZE, rx_active: true }
}


/// The queue after `enqueue` offers `p`: appended at the back when fewer
/// than [`TX_POOL_SIZE`] packets are queued, else unchanged.
pub open spec fn queue_after_enqueue(q: Seq<TxPacket>, p: TxPacket) -> Seq<TxPacket> {
    if q.len() < TX_POOL_SIZE {
        q.push(p)
    } else {
        q
    }
}

/// What `dequeue` gives on a queue, and the queue after it.
pub open spec fn dequeue_result(q: Seq<TxPacket>) -> (Option<TxPacket>, Seq<TxPacket>) {
    if q.len() == 0 {
        (None, q)
    } else {
        (Some(q[0]), q.drop_first())
    }
}

/// The packets that dequeueing again and again gives, until the queue is
/// empty.
pub open spec fn drained(q: Seq<TxPacket>) -> Seq<TxPacket>
    decreases q.len(),
{
    if q.len() == 0 {
        Seq::empty()
    } else {
        seq![dequeue_result(q).0.unwrap()] + drained(dequeue_result(q).1)
    }
}

/// Dequeueing a queue until it is empty gives its packets front to back.
pub proof fn lemma_drained_in_order(q: Seq<TxPacket>)
    ensures
        drained(q) == q,
    decreases q.len(),
{
    if q.len() > 0 {
        lemma_drained_in_order(q.drop_first());
        assert(seq![q[0]] + q.drop_first() =~= q);
    }
}

/// The queue is first in, first out: two packets enqueued on a queue with
/// room for them come out after the packets already queued, in the order
/// they went in.
pub proof fn lemma_queue_fifo(queued: Seq<TxPacket>, a: TxPacket, b: TxPacket)
    requires
        queued.len() + 2 <= TX_POOL_SIZE,
    ensures
        drained(queue_after_enqueue(queue_after_enqueue(queued, a), b)) == queued + seq![a, b],
{
    let q2 = queue_after_enqueue(queue_after_enqueue(queued, a), b);
    assert(q2 =~= queued + seq![a, b]);
    lemma_drained_in_order(q2);
}

} // verus!
