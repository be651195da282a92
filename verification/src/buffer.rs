//! The receive and transmit frame buffers.
//!
//! Each buffer is a fixed arena of [`ETH_FRAME_SIZE`] bytes with integer
//! cursors. The receive side reassembles one frame from packets, the transmit
//! side cuts one frame into packets; in both directions a packet shorter than
//! [`EP_PKG_USIZE`] ends the frame.

use vstd::prelude::*;
use crate::lock::{Guard, Lock, LockHandle, LockInner};
use crate::{EP_PKG_USIZE, ETH_FRAME_SIZE};

verus! {

/// What a receive buffer holds: the whole arena, how much of it is written,
/// and whether the written part is a finished frame.
pub struct RxState {
    pub buffer: Seq<u8>,
    pub cursor: nat,
    pub complete: bool,
}

impl RxState {
    pub open spec fn wf(self) -> bool {
        &&& self.buffer.len() == ETH_FRAME_SIZE
        &&& self.cursor <= ETH_FRAME_SIZE
    }

    /// Nothing written, nothing pending.
    pub open spec fn is_idle(self) -> bool {
        self.cursor == 0 && !self.complete
    }

    /// The bytes received so far.
    pub open spec fn frame(self) -> Seq<u8> {
        self.buffer.subrange(0, self.cursor as int)
    }

    /// The part of the arena that no packet has been written to yet.
    pub open spec fn tail(self) -> Seq<u8> {
        self.buffer.subrange(self.cursor as int, ETH_FRAME_SIZE as int)
    }

    /// The same buffer with the unwritten part replaced by `tail`.
    pub open spec fn with_tail(self, tail: Seq<u8>) -> RxState {
        RxState { buffer: self.frame() + tail, ..self }
    }

    pub open spec fn reset(self) -> RxState {
        RxState { cursor: 0, complete: false, ..self }
    }

    /// `n` more bytes count as received; fewer than a full packet end the frame.
    pub open spec fn advance(self, n: nat) -> RxState {
        RxState {
            cursor: self.cursor + n,
            complete: self.complete || n < EP_PKG_USIZE,
            ..self
        }
    }

    /// One packet arrives: its bytes land at the cursor, the rest of the
    /// arena stays as it was, and the cursor moves past them.
    pub open spec fn receive(self, packet: Seq<u8>) -> RxState {
        self.with_tail(packet + self.tail().skip(packet.len() as int)).advance(packet.len())
    }

    /// The packets of `packets` arrive in order.
    pub open spec fn receive_all(self, packets: Seq<Seq<u8>>) -> RxState
        decreases packets.len(),
    {
        if packets.len() == 0 {
            self
        } else {
            self.receive_all(packets.drop_last()).receive(packets.last())
        }
    }
}

/// Receive buffer: reassembles one ethernet frame from the packets of a bulk
/// transfer.
#[derive(Debug)]
pub struct RxBufInner {
    buf: [u8; ETH_FRAME_SIZE],
    idx: usize,
    complete: bool,
}

impl View for RxBufInner {
    type V = RxState;

    closed spec fn view(&self) -> RxState {
        RxState { buffer: self.buf@, cursor: self.idx as nat, complete: self.complete }
    }
}

impl Clone for RxBufInner {
    fn clone(&self) -> (copy: Self)
        ensures
            copy@ == self@,
    {
        proof {
            use_type_invariant(self);
        }
        RxBufInner { buf: self.buf, idx: self.idx, complete: self.complete }
    }
}

impl RxBufInner {
    /// Every buffer is well formed.
    #[verifier::type_invariant]
    pub open spec fn inv(&self) -> bool {
        self@.wf()
    }

    /// An idle buffer, zero-filled.
    pub fn new() -> (buf: Self)
        ensures
            buf@.wf(),
            buf@.is_idle(),
            buf@.buffer == Seq::new(ETH_FRAME_SIZE as nat, |i: int| 0u8),
    {
        let buf = RxBufInner { buf: [0; ETH_FRAME_SIZE], idx: 0, complete: false };
        assert(buf@.buffer =~= Seq::new(ETH_FRAME_SIZE as nat, |i: int| 0u8));
        buf
    }

    /// Returns `true`, if a frame has been received completely and
    /// can be passed on to the next layer
    pub fn frame_complete(&self) -> (complete: bool)
        ensures
            complete == self@.complete,
            self@.wf(),
    {
        proof {
            use_type_invariant(self);
        }
        self.complete
    }

    /// Resets the buffer into its initial state
    pub fn reset(&mut self)
        ensures
            final(self)@ == old(self)@.reset(),
            final(self)@.is_idle(),
            final(self)@.wf(),
    {
        proof {
            use_type_invariant(&*self);
        }
        self.idx = 0;
        self.complete = false;
    }

    /// If a frame is ready, it is returned.
    /// Returns `None` otherwise
    pub fn try_get_frame(&self) -> (frame: Option<&[u8]>)
        ensures
            frame is Some <==> self@.complete,
            frame matches Some(bytes) ==> bytes@ == self@.frame(),
            self@.wf(),
    {
        proof {
            use_type_invariant(self);
        }
        match self.frame_complete() {
            false => None,
            true => {
                let idx = self.idx;
                Some(vstd::slice::slice_subrange(&self.buf, 0, idx))
            },
        }
    }

    /// If a frame is ready, it is returned for reading and writing in place.
    /// Returns `None` otherwise
    pub fn try_get_frame_mut(&mut self) -> (frame: Option<&mut [u8]>)
        ensures
            frame is Some <==> old(self)@.complete,
            frame is None ==> final(self)@ == old(self)@,
            frame matches Some(bytes) ==> {
                &&& bytes@ == old(self)@.frame()
                &&& final(bytes)@.len() == bytes@.len()
                &&& final(self)@ == RxState {
                    buffer: final(bytes)@ + old(self)@.tail(),
                    ..old(self)@
                }
            },
            final(self)@.wf(),
    {
        proof {
            use_type_invariant(&*self);
        }
        match self.frame_complete() {
            false => None,
            true => {
                let idx = self.idx;
                let (head, tail) = self.buf.split_at_mut(idx);
                proof {
                    assert((final(head)@ + final(tail)@).len() == ETH_FRAME_SIZE);
                    assert(final(tail)@.len() == tail@.len());
                }
                Some(head)
            },
        }
    }

    /// Returns mutably the part of the buffer that
    /// is not written yet, such that a data packet can be copied into it
    /// NOTE: The buffer part left can be empty
    pub fn insert_packet(&mut self) -> (tail: &mut [u8])
        ensures
            old(self)@.wf(),
            tail@ == old(self)@.tail(),
            final(tail)@.len() == tail@.len(),
            final(self)@ == old(self)@.with_tail(final(tail)@),
            final(self)@.wf(),
    {
        proof {
            use_type_invariant(&*self);
        }
        let idx = self.idx;
        let (head, tail) = self.buf.split_at_mut(idx);
        proof {
            assert((final(head)@ + final(tail)@).len() == ETH_FRAME_SIZE);
            assert(final(head)@.len() == head@.len());
        }
        tail
    }

    /// After writing data using `insert`, the buffer needs to be advanced
    /// by the amount of data, that has been written
    pub fn advance(&mut self, num_bytes: usize)
        requires
            old(self)@.cursor + num_bytes <= ETH_FRAME_SIZE,
        ensures
            final(self)@ == old(self)@.advance(num_bytes as nat),
            final(self)@.wf(),
    {
        proof {
            use_type_invariant(&*self);
        }
        // Advance the index into the reveive buffer
        self.idx += num_bytes;

        // If the received packet is short, the packet was
        // received completely
        if num_bytes < EP_PKG_USIZE {
            self.complete = true;
        }
    }
}

/// What a transmit buffer holds: the whole arena, the length of the frame in
/// flight (0 when idle) and how much of it has been handed out.
pub struct TxState {
    pub buffer: Seq<u8>,
    pub cursor: nat,
    pub length: nat,
}

impl TxState {
    pub open spec fn wf(self) -> bool {
        &&& self.buffer.len() == ETH_FRAME_SIZE
        &&& self.cursor <= self.length <= ETH_FRAME_SIZE
    }

    /// A frame is in flight.
    pub open spec fn is_sending(self) -> bool {
        self.length != 0
    }

    /// The frame in flight.
    pub open spec fn frame(self) -> Seq<u8> {
        self.buffer.subrange(0, self.length as int)
    }

    /// Length of the next packet: a full packet while that much is left,
    /// else what is left, which may be nothing.
    pub open spec fn next_len(self) -> nat {
        if self.length - self.cursor >= EP_PKG_USIZE {
            EP_PKG_USIZE as nat
        } else {
            (self.length - self.cursor) as nat
        }
    }

    pub open spec fn next_packet(self) -> Seq<u8> {
        self.buffer.subrange(self.cursor as int, (self.cursor + self.next_len()) as int)
    }

    pub open spec fn reset(self) -> TxState {
        TxState { cursor: 0, length: 0, ..self }
    }

    /// `n` bytes went out; fewer than a full packet end the frame.
    pub open spec fn advance(self, n: nat) -> TxState {
        if n < EP_PKG_USIZE {
            self.reset()
        } else {
            TxState { cursor: self.cursor + n, ..self }
        }
    }

    /// A frame of `frame.len()` bytes is put at the start of the arena.
    pub open spec fn load(self, frame: Seq<u8>) -> TxState {
        TxState {
            buffer: frame + self.buffer.skip(frame.len() as int),
            cursor: 0,
            length: frame.len(),
        }
    }

    /// The packets that go out when the buffer is drained: each is the next
    /// packet of the state that the one before left.
    pub open spec fn packets(self) -> Seq<Seq<u8>>
        decreases
            (if self.is_sending() && self.cursor <= self.length {
                self.length - self.cursor + 1
            } else {
                0
            }),
    {
        if self.is_sending() && self.cursor <= self.length {
            seq![self.next_packet()] + self.advance(self.next_len()).packets()
        } else {
            Seq::empty()
        }
    }

    /// The state that draining leaves.
    pub open spec fn drained(self) -> TxState
        decreases
            (if self.is_sending() && self.cursor <= self.length {
                self.length - self.cursor + 1
            } else {
                0
            }),
    {
        if self.is_sending() && self.cursor <= self.length {
            self.advance(self.next_len()).drained()
        } else {
            self
        }
    }
}

/// Transmit buffer: hands out one ethernet frame as the packets of a bulk
/// transfer.
#[derive(Debug)]
pub struct TxBufInner {
    buf: [u8; ETH_FRAME_SIZE],
    idx: usize,
    len: usize,
}

impl View for TxBufInner {
    type V = TxState;

    closed spec fn view(&self) -> TxState {
        TxState { buffer: self.buf@, cursor: self.idx as nat, length: self.len as nat }
    }
}

impl Clone for TxBufInner {
    fn clone(&self) -> (copy: Self)
        ensures
            copy@ == self@,
    {
        proof {
            use_type_invariant(self);
        }
        TxBufInner { buf: self.buf, idx: self.idx, len: self.len }
    }
}

impl TxBufInner {
    /// Every buffer is well formed.
    #[verifier::type_invariant]
    pub open spec fn inv(&self) -> bool {
        self@.wf()
    }

    /// An idle buffer, zero-filled.
    pub fn new() -> (buf: Self)
        ensures
            buf@.wf(),
            !buf@.is_sending(),
            buf@.cursor == 0,
            buf@.buffer == Seq::new(ETH_FRAME_SIZE as nat, |i: int| 0u8),
    {
        let buf = TxBufInner { buf: [0; ETH_FRAME_SIZE], idx: 0, len: 0 };
        assert(buf@.buffer =~= Seq::new(ETH_FRAME_SIZE as nat, |i: int| 0u8));
        buf
    }

    /// Returns `true`, if there is a frame in the process of being sent
    pub fn is_sending(&self) -> (sending: bool)
        ensures
            sending == self@.is_sending(),
            self@.wf(),
    {
        proof {
            use_type_invariant(self);
        }
        self.len != 0
    }

    /// Resets the buffer into its initial state
    pub fn reset(&mut self)
        ensures
            final(self)@ == old(self)@.reset(),
            !final(self)@.is_sending(),
            final(self)@.wf(),
    {
        proof {
            use_type_invariant(&*self);
        }
        self.idx = 0;
        self.len = 0;
    }

    /// Get the section of the frame to be sent next
    pub fn try_get_packet(&self) -> (packet: Option<&[u8]>)
        ensures
            packet is Some <==> self@.is_sending(),
            packet matches Some(bytes) ==> bytes@ == self@.next_packet(),
            self@.wf(),
    {
        proof {
            use_type_invariant(self);
        }
        match self.is_sending() {
            false => None,
            true => {
                // Calculate the section of the frame that forms the next packet
                let left = self.len - self.idx;
                let bytes_to_send = if left < EP_PKG_USIZE { left } else { EP_PKG_USIZE };
                let idx_end = self.idx + bytes_to_send;

                Some(vstd::slice::slice_subrange(&self.buf, self.idx, idx_end))
            },
        }
    }

    /// Advance the buffer after reading data from it.
    /// If the advancement appens via a short packet, the frame has been sent
    /// completely and the buffer is rest
    pub fn advance(&mut self, num_bytes: usize)
        requires
            old(self)@.cursor + num_bytes <= old(self)@.length,
        ensures
            final(self)@ == old(self)@.advance(num_bytes as nat),
            final(self)@.wf(),
    {
        proof {
            use_type_invariant(&*self);
        }
        // Advance the counter
        self.idx += num_bytes;

        if num_bytes < EP_PKG_USIZE {
            self.reset()
        }
    }

    /// Tries to mutably aqcuire the buffer in order to copy
    /// the data into it.
    /// Returns none, if there is already a frame in transit.
    pub fn try_send_frame(&mut self, len: usize) -> (frame: Option<&mut [u8]>)
        requires
            !old(self)@.is_sending() ==> len <= ETH_FRAME_SIZE,
        ensures
            old(self)@.wf(),
            frame is Some <==> !old(self)@.is_sending(),
            frame is None ==> final(self)@ == old(self)@,
            frame matches Some(bytes) ==> {
                &&& bytes@ == old(self)@.buffer.subrange(0, len as int)
                &&& final(bytes)@.len() == len
                &&& final(self)@ == old(self)@.load(final(bytes)@)
            },
            final(self)@.wf(),
    {
        proof {
            use_type_invariant(&*self);
        }
        match self.is_sending() {
            true => None,
            false => {
                self.idx = 0;
                self.len = len;

                let (head, tail) = self.buf.split_at_mut(len);
                proof {
                    assert((final(head)@ + final(tail)@).len() == ETH_FRAME_SIZE);
                    assert(final(tail)@.len() == tail@.len());
                    assert(final(tail)@ =~= old(self)@.buffer.skip(len as int));
                }
                Some(head)
            },
        }
    }
}

/// Structure holds and manages the receive side.
pub struct RxBuf(Lock<RxBufInner>);

impl RxBuf {
    /// The lock that guards the buffer.
    pub closed spec fn lock(&self) -> &LockInner<RxBufInner> {
        self.0.inner()
    }

    /// An idle receive buffer behind its lock.
    pub fn new() -> Self {
        Self(Lock::new(RxBufInner::new()))
    }

    /// One attempt to get hold of the buffer.
    pub fn lock_mut(&self) -> (guard: Option<Guard<'_, RxBufInner>>)
        ensures
            guard matches Some(g) ==> g.holds() && g.lock() == self.lock(),
    {
        self.0.try_lock()
    }

    /// A handle for the other accessor of the buffer.
    pub fn get_handle(&self) -> (handle: LockHandle<'_, RxBufInner>)
        ensures
            handle.lock() == self.lock(),
    {
        self.0.get_handle()
    }
}

/// Stucture holds and manages the send side
pub struct TxBuf(Lock<TxBufInner>);

impl TxBuf {
    /// The lock that guards the buffer.
    pub closed spec fn lock(&self) -> &LockInner<TxBufInner> {
        self.0.inner()
    }

    /// An idle transmit buffer behind its lock.
    pub fn new() -> Self {
        Self(Lock::new(TxBufInner::new()))
    }

    /// One attempt to get hold of the buffer.
    pub fn lock_mut(&self) -> (guard: Option<Guard<'_, TxBufInner>>)
        ensures
            guard matches Some(g) ==> g.holds() && g.lock() == self.lock(),
    {
        self.0.try_lock()
    }

    /// A handle for the other accessor of the buffer.
    pub fn get_handle(&self) -> (handle: LockHandle<'_, TxBufInner>)
        ensures
            handle.lock() == self.lock(),
    {
        self.0.get_handle()
    }
}

/// What a run of packets does to an idle receive buffer, as long as they
/// fit: the buffer holds their concatenation, and it is complete exactly when
/// one of them was short.
proof fn lemma_receive_all(start: RxState, packets: Seq<Seq<u8>>)
    requires
        start.wf(),
        start.is_idle(),
        packets.flatten().len() <= ETH_FRAME_SIZE,
    ensures
        start.receive_all(packets).wf(),
        start.receive_all(packets).frame() == packets.flatten(),
        start.receive_all(packets).cursor == packets.flatten().len(),
        start.receive_all(packets).complete <==> exists|i: int|
            0 <= i < packets.len() && (#[trigger] packets[i]).len() < EP_PKG_USIZE,
    decreases packets.len(),
{
    if packets.len() == 0 {
        assert(start.frame() =~= packets.flatten());
    } else {
        let init = packets.drop_last();
        let last = packets.last();
        assert(packets =~= init.push(last));
        init.lemma_flatten_push(last);
        lemma_receive_all(start, init);
        let before = start.receive_all(init);
        let after = before.receive(last);
        assert(after.frame() =~= before.frame() + last);
        if after.complete {
            if before.complete {
                let i = choose|i: int| 0 <= i < init.len() && (#[trigger] init[i]).len() < EP_PKG_USIZE;
                assert(packets[i].len() < EP_PKG_USIZE);
            } else {
                assert(packets[packets.len() - 1].len() < EP_PKG_USIZE);
            }
        } else {
            assert forall|i: int| 0 <= i < packets.len() implies !((#[trigger] packets[i]).len()
                < EP_PKG_USIZE) by {
                if i < init.len() {
                    assert(init[i] == packets[i]);
                }
            }
        }
    }
}

/// Reassembly. Full packets followed by one short packet, delivered in order
/// to an idle buffer that they fit in, leave a complete frame that is their
/// concatenation; the buffer is not complete before the short packet.
pub proof fn lemma_rx_reassembles_frame(start: RxState, packets: Seq<Seq<u8>>)
    requires
        start.wf(),
        start.is_idle(),
        packets.len() >= 1,
        forall|i: int| 0 <= i < packets.len() - 1 ==> (#[trigger] packets[i]).len() == EP_PKG_USIZE,
        packets.last().len() < EP_PKG_USIZE,
        packets.flatten().len() <= ETH_FRAME_SIZE,
    ensures
        forall|k: int|
            0 <= k < packets.len() ==> !(#[trigger] start.receive_all(packets.take(k))).complete,
        start.receive_all(packets).complete,
        start.receive_all(packets).frame() == packets.flatten(),
        start.receive_all(packets).frame().len() == packets.flatten().len(),
{
    lemma_receive_all(start, packets);
    assert(packets[packets.len() - 1].len() < EP_PKG_USIZE);
    assert forall|k: int| 0 <= k < packets.len() implies !(#[trigger] start.receive_all(
        packets.take(k),
    )).complete by {
        let head = packets.take(k);
        assert(packets =~= head + packets.skip(k));
        vstd::seq_lib::lemma_flatten_concat(head, packets.skip(k));
        lemma_receive_all(start, head);
        assert forall|i: int| 0 <= i < head.len() implies !((#[trigger] head[i]).len()
            < EP_PKG_USIZE) by {
            assert(head[i] == packets[i]);
        }
    }
}

/// Backpressure. Nothing that delivers data clears the completion flag: a
/// complete buffer stays complete under writes to its tail, `advance` and
/// whole packets. Only `reset` makes it idle again.
pub proof fn lemma_rx_complete_until_reset(state: RxState, tail: Seq<u8>, n: nat, packet: Seq<u8>)
    requires
        state.complete,
    ensures
        state.with_tail(tail).complete,
        state.advance(n).complete,
        state.receive(packet).complete,
        state.reset().is_idle(),
{
}

/// What draining does from any state with a frame in flight: the packets are
/// the rest of the frame cut at every `EP_PKG_USIZE` bytes, the last of them
/// short (empty when the rest is a whole number of packets), and the buffer
/// ends idle.
proof fn lemma_packets(state: TxState)
    requires
        state.wf(),
        state.is_sending(),
    ensures
        state.packets().len() == (state.length - state.cursor) / (EP_PKG_USIZE as int) + 1,
        forall|i: int|
            0 <= i < state.packets().len() - 1 ==> (#[trigger] state.packets()[i]).len()
                == EP_PKG_USIZE,
        state.packets().last().len() == (state.length - state.cursor) % (EP_PKG_USIZE as int),
        state.packets().flatten() == state.buffer.subrange(
            state.cursor as int,
            state.length as int,
        ),
        !state.drained().is_sending(),
        state.drained().cursor == 0,
    decreases state.length - state.cursor,
{
    let first = state.next_packet();
    let next = state.advance(state.next_len());
    let rest = next.packets();
    assert(state.packets() == seq![first] + rest);
    assert(state.drained() == next.drained());
    vstd::seq_lib::lemma_flatten_concat(seq![first], rest);
    seq![first].lemma_flatten_one_element();
    if state.next_len() < EP_PKG_USIZE {
        assert(rest =~= Seq::<Seq<u8>>::empty());
        assert(state.packets() =~= seq![first]);
        assert(rest.flatten() =~= Seq::<u8>::empty());
        assert(state.packets().flatten() =~= first);
    } else {
        lemma_packets(next);
        assert(state.packets().last() == rest.last());
        assert forall|i: int| 0 <= i < state.packets().len() - 1 implies (
        #[trigger] state.packets()[i]).len() == EP_PKG_USIZE by {
            if i > 0 {
                assert(state.packets()[i] == rest[i - 1]);
            }
        }
        assert(state.packets().flatten() =~= state.buffer.subrange(
            state.cursor as int,
            state.length as int,
        ));
    }
}

/// Fragmentation. Once a frame of `frame.len()` bytes, at least one, is
/// loaded, draining the buffer packet by packet emits exactly the frame: the
/// packets concatenate to it, all but the last are full, the last is short,
/// and it is the empty packet exactly when the frame is a whole number of
/// packets long. Draining leaves the buffer idle.
pub proof fn lemma_tx_emits_frame(before: TxState, frame: Seq<u8>)
    requires
        before.wf(),
        1 <= frame.len() <= ETH_FRAME_SIZE,
    ensures
        before.load(frame).packets().flatten() == frame,
        before.load(frame).packets().flatten().len() == frame.len(),
        before.load(frame).packets().len() == frame.len() / (EP_PKG_USIZE as nat) + 1,
        forall|i: int|
            0 <= i < before.load(frame).packets().len() - 1 ==> (#[trigger] before.load(
                frame,
            ).packets()[i]).len() == EP_PKG_USIZE,
        before.load(frame).packets().last().len() < EP_PKG_USIZE,
        before.load(frame).packets().last().len() == 0 <==> frame.len() % (EP_PKG_USIZE as nat)
            == 0,
        !before.load(frame).drained().is_sending(),
{
    let loaded = before.load(frame);
    lemma_packets(loaded);
    assert(loaded.buffer.subrange(0, frame.len() as int) =~= frame);
}

} // verus!
