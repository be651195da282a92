//! USB CDC-ECM (Ethernet Control Model): a function that shows up at the host
//! as a network adapter and carries ethernet frames over bulk transfers.
//!
//! The crate holds what such a function decides. [`buffer`] reassembles
//! frames from packets and cuts them into packets, [`lock`] lets the USB side
//! and the network side share the two buffers without ever waiting, [`ecm`]
//! knows the descriptors and the control requests of the class, and
//! [`UsbEthernetDevice`] puts them together. Moving bytes over the bus is the
//! caller's part: where the device needs the bus, it takes the transfer as a
//! closure and says what it made of the result.

use vstd::prelude::*;
use crate::buffer::{RxBuf, RxBufInner, RxState, TxBuf, TxBufInner, TxState};
use crate::ecm::{
    Allocation, CdcEcmClass, ControlResponse, Descriptor, EcmState, Request, ascii_chars,
    descriptor_views,
};
use crate::lock::LockInner;
use crate::smoltcp::SmolUsb;

pub mod buffer;
pub mod ecm;
pub mod lock;
pub mod smoltcp;

verus! {

/// Maximum packet size of the two bulk data endpoints.
///
/// A packet shorter than this ends a transfer; a full packet announces more.
pub const EP_PKG_SIZE: u16 = 64;

/// `EP_PKG_SIZE` as `usize`.
pub const EP_PKG_USIZE: usize = 64;

/// Length of an ethernet frame
pub const ETH_FRAME_SIZE: usize = 1514;

/// The device class of this device.
pub const USB_CLASS_CDC: u8 = 0x02;

/// Why a transfer on an endpoint did not take place.
#[derive(Clone, Copy, Debug, PartialEq, Eq, Structural)]
pub enum TransferError {
    /// The endpoint is busy, or has nothing to read
    WouldBlock,
    /// The packet does not fit into the buffer that was offered
    BufferOverflow,
    /// Anything else
    Other,
}

/// What an attempt to read a packet from the host came to.
#[derive(Clone, Copy, Debug, PartialEq, Eq, Structural)]
pub enum RecvOutcome {
    /// The receive buffer is in use elsewhere: nothing was read.
    Busy,
    /// A frame waits to be fetched: nothing was read.
    Pending,
    /// A packet of this many bytes was added to the frame.
    Received(usize),
    /// The host sent more than a frame can hold: what there was of the frame
    /// is dropped.
    Dropped,
    /// There was nothing to read.
    WouldBlock,
    /// The transfer failed; the frame is as it was.
    Failed,
}

/// What an attempt to write a packet to the host came to.
#[derive(Clone, Copy, Debug, PartialEq, Eq, Structural)]
pub enum SendOutcome {
    /// The transmit buffer is in use elsewhere: nothing was written.
    Busy,
    /// No frame is in flight: nothing was written.
    Idle,
    /// A packet of this many bytes went out.
    Sent(usize),
    /// The endpoint took only `written` of the `expected` bytes of the
    /// packet. The buffer has moved on by what was taken, which ends the
    /// frame: the rest of it is not sent.
    ShortWrite { written: usize, expected: usize },
    /// The endpoint cannot take a packet now.
    WouldBlock,
    /// The transfer failed, or the endpoint claims more bytes than it was
    /// given; the frame is as it was.
    Failed,
}

/// What the result of a read means for a buffer in state `state`. While a
/// frame waits, nothing is taken in. Else a packet that fits is received; one
/// that does not, or an overflow that the bus reports, costs the frame.
pub open spec fn recv_outcome(state: RxState, result: Result<usize, TransferError>) -> RecvOutcome {
    if state.complete {
        RecvOutcome::Pending
    } else {
        match result {
            Ok(n) => if state.cursor + n <= ETH_FRAME_SIZE {
                RecvOutcome::Received(n)
            } else {
                RecvOutcome::Dropped
            },
            Err(TransferError::BufferOverflow) => RecvOutcome::Dropped,
            Err(TransferError::WouldBlock) => RecvOutcome::WouldBlock,
            Err(TransferError::Other) => RecvOutcome::Failed,
        }
    }
}

/// The receive buffer after an attempt to read: advanced past a received
/// packet, reset after a drop, else as before.
pub open spec fn after_recv(state: RxState, outcome: RecvOutcome) -> RxState {
    match outcome {
        RecvOutcome::Received(n) => state.advance(n as nat),
        RecvOutcome::Dropped => state.reset(),
        _ => state,
    }
}

/// What the result of a write means for a buffer in state `state`. Without a
/// frame in flight there is nothing to send. Else the packet is sent if the
/// endpoint took all of it, and written short if it took less. A count above
/// the packet's length is no count at all.
pub open spec fn send_outcome(state: TxState, result: Result<usize, TransferError>) -> SendOutcome {
    if !state.is_sending() {
        SendOutcome::Idle
    } else {
        match result {
            Ok(n) => if n == state.next_len() {
                SendOutcome::Sent(n)
            } else if n < state.next_len() {
                SendOutcome::ShortWrite { written: n, expected: state.next_len() as usize }
            } else {
                SendOutcome::Failed
            },
            Err(TransferError::WouldBlock) => SendOutcome::WouldBlock,
            Err(_) => SendOutcome::Failed,
        }
    }
}

/// The transmit buffer after an attempt to write: advanced by the bytes that
/// the endpoint took, be it the whole packet or less, else as before.
pub open spec fn after_send(state: TxState, outcome: SendOutcome) -> TxState {
    match outcome {
        SendOutcome::Sent(n) => state.advance(n as nat),
        SendOutcome::ShortWrite { written, .. } => state.advance(written as nat),
        _ => state,
    }
}

/// Takes note of how reading a packet into the free part of `buf` went. A
/// buffer that holds a complete frame takes note of nothing.
pub fn finish_read(buf: &mut RxBufInner, result: Result<usize, TransferError>) -> (outcome:
    RecvOutcome)
    ensures
        outcome == recv_outcome(old(buf)@, result),
        final(buf)@ == after_recv(old(buf)@, outcome),
        final(buf)@.wf(),
{
    if buf.frame_complete() {
        return RecvOutcome::Pending;
    }
    match result {
        Ok(bytes_read) => {
            let room = buf.insert_packet().len();
            assert(buf@.buffer =~= old(buf)@.buffer);
            if bytes_read <= room {
                buf.advance(bytes_read);
                RecvOutcome::Received(bytes_read)
            } else {
                buf.reset();
                RecvOutcome::Dropped
            }
        },
        // This can only be triggered by a a host ingoring our boundaries
        Err(TransferError::BufferOverflow) => {
            buf.reset();
            RecvOutcome::Dropped
        },
        // If busy, try again later
        Err(TransferError::WouldBlock) => RecvOutcome::WouldBlock,
        Err(TransferError::Other) => RecvOutcome::Failed,
    }
}

/// Says whether a frame waits in the receive buffer, given what the attempt
/// to lock the buffer came to: `None` stands for a buffer that could not be
/// had, and shows no frame.
pub fn has_frame(buf: Option<&RxBufInner>) -> (ready: bool)
    ensures
        ready <==> (buf matches Some(b) && b@.complete),
{
    match buf {
        None => false,
        Some(buf) => buf.frame_complete(),
    }
}

/// Attempts to receive one packet, given what the attempt to lock the receive
/// buffer came to: `None` stands for a buffer that could not be had.
///
/// `read` stands for the bulk OUT endpoint: it is handed the part of the
/// buffer that is free and says how many bytes it put there. It is called
/// once if the buffer is there and no frame waits in it, else not at all: a
/// frame that waits stalls the pipe until it is fetched.
pub fn read_packet<R>(buf: Option<&mut RxBufInner>, read: R) -> (outcome: RecvOutcome) where
    R: FnOnce(&mut [u8]) -> Result<usize, TransferError>,

    requires
        forall|tail: &mut [u8]| call_requires(read, (tail,)),
    ensures
        buf is None ==> outcome == RecvOutcome::Busy,
        buf matches Some(b) ==> {
            &&& b@.wf()
            &&& b@.complete ==> outcome == RecvOutcome::Pending && final(b)@ == b@
            &&& !b@.complete ==> {
                &&& exists|tail: &mut [u8], result: Result<usize, TransferError>|
                    {
                        &&& tail@ == b@.tail()
                        &&& call_ensures(read, (tail,), result)
                        &&& outcome == recv_outcome(b@, result)
                        &&& final(b)@.buffer == b@.frame() + final(tail)@
                    }
                &&& final(b)@.buffer.subrange(0, b@.cursor as int) == b@.frame()
                &&& final(b)@ == after_recv(RxState { buffer: final(b)@.buffer, ..b@ }, outcome)
            }
            &&& final(b)@.wf()
        },
{
    let buf = match buf {
        None => {
            return RecvOutcome::Busy;
        },
        Some(buf) => buf,
    };
    // Do not receive if there is an ethernet packet waiting
    // The pipe will stall until the ethernet packet gets processed.
    if buf.frame_complete() {
        return RecvOutcome::Pending;
    }
    let ghost before = buf@;
    // Read a packet from the host

    let result = read(buf.insert_packet());
    proof {
        assert(buf@.buffer.subrange(0, before.cursor as int) =~= before.frame());
        assert(recv_outcome(buf@, result) == recv_outcome(before, result));
    }
    finish_read(buf, result)
}

/// If a frame is complete in the receive buffer, hands it to `f` and clears
/// the buffer for the next one. `buf` is what the attempt to lock the buffer
/// came to: `None` stands for a buffer that could not be had.
///
/// # Returns
/// - the length of the frame, if there was one
/// - `None`: otherwise
pub fn receive_frame<F>(buf: Option<&mut RxBufInner>, f: F) -> (len: Option<usize>) where
    F: FnOnce(&[u8]),

    requires
        forall|frame: &[u8]| call_requires(f, (frame,)),
    ensures
        len is Some <==> (buf matches Some(b) && b@.complete),
        buf matches Some(b) ==> {
            &&& b@.wf()
            &&& len matches Some(n) ==> {
                &&& n == b@.cursor
                &&& n <= ETH_FRAME_SIZE
                &&& final(b)@ == b@.reset()
                &&& exists|frame: &[u8]| frame@ == b@.frame() && call_ensures(f, (frame,), ())
            }
            &&& len is None ==> final(b)@ == b@
            &&& final(b)@.wf()
        },
{
    let buf = match buf {
        None => {
            return None;
        },
        Some(buf) => buf,
    };
    match buf.try_get_frame() {
        None => None,
        Some(frame) => {
            let len = frame.len();
            f(frame);

            // Reset the buffer after reading it
            buf.reset();
            Some(len)
        },
    }
}

/// Starts a frame of `len` bytes in the transmit buffer and lets `f` fill it
/// in, if the frame is shorter than [`ETH_FRAME_SIZE`] and the buffer is
/// idle. `buf` is what the attempt to lock the buffer came to: `None` stands
/// for a buffer that could not be had.
///
/// # Returns
/// - `true`, if the frame was taken
/// - `false` otherwise; the buffer is as it was then, and `f` was not called
pub fn send_frame<F>(buf: Option<&mut TxBufInner>, len: usize, f: F) -> (accepted: bool) where
    F: FnOnce(&mut [u8]),

    requires
        forall|frame: &mut [u8]| call_requires(f, (frame,)),
    ensures
        accepted <==> (buf matches Some(b) && len < ETH_FRAME_SIZE && !b@.is_sending()),
        buf matches Some(b) ==> {
            &&& b@.wf()
            &&& accepted ==> {
                &&& final(b)@.frame().len() == len
                &&& final(b)@ == b@.load(final(b)@.frame())
                &&& exists|frame: &mut [u8]|
                    {
                        &&& frame@ == b@.buffer.subrange(0, len as int)
                        &&& call_ensures(f, (frame,), ())
                        &&& final(frame)@ == final(b)@.frame()
                    }
            }
            &&& !accepted ==> final(b)@ == b@
            &&& final(b)@.wf()
        },
{
    let buf = match buf {
        None => {
            return false;
        },
        Some(buf) => buf,
    };
    proof {
        use_type_invariant(&*buf);
    }
    // If length to big, we simply return
    if len >= ETH_FRAME_SIZE {
        return false;
    }
    match buf.try_send_frame(len) {
        None => false,
        Some(frame) => {
            f(frame);
            proof {
                assert(buf@.frame() =~= final(frame)@);
            }
            true
        },
    }
}

/// Takes note of how writing the next packet of `buf` went. A buffer without
/// a frame in flight takes note of nothing.
pub fn finish_write(buf: &mut TxBufInner, result: Result<usize, TransferError>) -> (outcome:
    SendOutcome)
    ensures
        outcome == send_outcome(old(buf)@, result),
        final(buf)@ == after_send(old(buf)@, outcome),
        final(buf)@.wf(),
{
    let expected = match buf.try_get_packet() {
        Some(packet) => packet.len(),
        None => {
            return SendOutcome::Idle;
        },
    };
    match result {
        Ok(bytes_written) => {
            if bytes_written == expected {
                buf.advance(bytes_written);
                SendOutcome::Sent(bytes_written)
            } else if bytes_written < expected {
                buf.advance(bytes_written);
                SendOutcome::ShortWrite { written: bytes_written, expected }
            } else {
                SendOutcome::Failed
            }
        },
        Err(TransferError::WouldBlock) => SendOutcome::WouldBlock,
        Err(_) => SendOutcome::Failed,
    }
}

/// Attempts to send the next packet of the frame in flight, given what the
/// attempt to lock the transmit buffer came to: `None` stands for a buffer
/// that could not be had.
///
/// `write` stands for the bulk IN endpoint: it is handed the packet and says
/// how many bytes of it went out. It is called once if the buffer is there
/// and a frame is in flight, else not at all.
pub fn write_packet<W>(buf: Option<&mut TxBufInner>, write: W) -> (outcome: SendOutcome) where
    W: FnOnce(&[u8]) -> Result<usize, TransferError>,

    requires
        forall|packet: &[u8]| call_requires(write, (packet,)),
    ensures
        buf is None ==> outcome == SendOutcome::Busy,
        buf matches Some(b) ==> {
            &&& b@.wf()
            &&& !b@.is_sending() ==> outcome == SendOutcome::Idle && final(b)@ == b@
            &&& b@.is_sending() ==> exists|packet: &[u8], result: Result<usize, TransferError>|
                {
                    &&& packet@ == b@.next_packet()
                    &&& call_ensures(write, (packet,), result)
                    &&& outcome == send_outcome(b@, result)
                    &&& final(b)@ == after_send(b@, outcome)
                }
            &&& final(b)@.wf()
        },
{
    let buf = match buf {
        None => {
            return SendOutcome::Busy;
        },
        Some(buf) => buf,
    };
    // Retreive the packet
    let result = match buf.try_get_packet() {
        // Skip if there is no data to send
        None => {
            return SendOutcome::Idle;
        },
        // Send the packet to the host
        Some(packet) => write(packet),
    };
    finish_write(buf, result)
}

/// `outcome` is what one call of `read` came to: `read` was handed the free
/// part of a receive buffer in which no frame waited, and `outcome` is what
/// its result means for that buffer.
pub open spec fn came_of_read<R>(read: R, outcome: RecvOutcome) -> bool where
    R: FnOnce(&mut [u8]) -> Result<usize, TransferError>,
 {
    exists|state: RxState, tail: &mut [u8], result: Result<usize, TransferError>|
        {
            &&& state.wf()
            &&& !state.complete
            &&& tail@ == state.tail()
            &&& call_ensures(read, (tail,), result)
            &&& outcome == recv_outcome(state, result)
        }
}

/// `outcome` is what one call of `write` came to: `write` was handed the next
/// packet of a transmit buffer with a frame in flight, and `outcome` is what
/// its result means for that buffer.
pub open spec fn came_of_write<W>(write: W, outcome: SendOutcome) -> bool where
    W: FnOnce(&[u8]) -> Result<usize, TransferError>,
 {
    exists|state: TxState, packet: &[u8], result: Result<usize, TransferError>|
        {
            &&& state.wf()
            &&& state.is_sending()
            &&& packet@ == state.next_packet()
            &&& call_ensures(write, (packet,), result)
            &&& outcome == send_outcome(state, result)
        }
}

/// A CDC-ECM function: the class, and one frame buffer for each direction
/// behind its lock.
pub struct UsbEthernetDevice {
    ecm: CdcEcmClass,
    tx_buf: TxBuf,
    rx_buf: RxBuf,
}

impl UsbEthernetDevice {
    /// The class of the device.
    pub closed spec fn class(&self) -> EcmState {
        self.ecm@
    }

    /// The lock of the transmit buffer.
    pub closed spec fn tx_lock(&self) -> &LockInner<TxBufInner> {
        self.tx_buf.lock()
    }

    /// The lock of the receive buffer.
    pub closed spec fn rx_lock(&self) -> &LockInner<RxBufInner> {
        self.rx_buf.lock()
    }

    /// Create a new [`UsbEthernetDevice`]('UsbEthernetDevice').
    pub fn new(alloc: Allocation, mac_addr: &[u8; 6]) -> (device: Self)
        ensures
            device.class() == EcmState::new(alloc, mac_addr@),
    {
        Self { ecm: CdcEcmClass::new(alloc, mac_addr), tx_buf: TxBuf::new(), rx_buf: RxBuf::new() }
    }

    /// Check, wether an ethernet frame is ready to be received
    pub fn frame_ready(&self) -> bool {
        let guard = self.rx_buf.lock_mut();
        has_frame(
            match guard.as_ref() {
                Some(guard) => Some(guard.deref()),
                None => None,
            },
        )
    }

    /// Tries to receive an ethernet frame.
    ///
    /// If a frame is ready, the closure will be executed, which allows to copy out the ethernet frame.
    ///
    /// # Returns
    /// - the length of the frame, if a frame was received
    /// - `None`: otherwise
    pub fn try_receive_frame<F>(&self, f: F) -> (len: Option<usize>) where F: FnOnce(&[u8])
        requires
            forall|frame: &[u8]| call_requires(f, (frame,)),
        ensures
            len matches Some(n) ==> exists|state: RxState, frame: &[u8]|
                {
                    &&& state.wf()
                    &&& state.complete
                    &&& n == state.cursor
                    &&& frame@ == state.frame()
                    &&& call_ensures(f, (frame,), ())
                },
    {
        let mut guard = self.rx_buf.lock_mut();
        let buf = match guard.as_mut() {
            Some(guard) => Some(guard.deref_mut()),
            None => None,
        };
        let ghost before = buf;
        let len = receive_frame(buf, f);
        proof {
            if len is Some {
                let state = before->0@;
                let frame = choose|frame: &[u8]|
                    frame@ == state.frame() && call_ensures(f, (frame,), ());
                assert(state.wf() && state.complete && len->0 == state.cursor && frame@
                    == state.frame() && call_ensures(f, (frame,), ()));
            }
        }
        len
    }

    /// Attempts to receive data into rx_buf
    pub fn try_recv<R>(&self, read: R) -> (outcome: RecvOutcome) where
        R: FnOnce(&mut [u8]) -> Result<usize, TransferError>,

        requires
            forall|tail: &mut [u8]| call_requires(read, (tail,)),
        ensures
            outcome != RecvOutcome::Busy && outcome != RecvOutcome::Pending ==> came_of_read(
                read,
                outcome,
            ),
    {
        let mut guard = self.rx_buf.lock_mut();
        let buf = match guard.as_mut() {
            Some(guard) => Some(guard.deref_mut()),
            None => None,
        };
        let ghost before = buf;
        let outcome = read_packet(buf, read);
        proof {
            if outcome != RecvOutcome::Busy && outcome != RecvOutcome::Pending {
                let state = before->0@;
                let (tail, result) = choose|tail: &mut [u8], result: Result<usize, TransferError>|
                    tail@ == state.tail() && call_ensures(read, (tail,), result) && outcome
                        == recv_outcome(state, result);
                assert(state.wf() && !state.complete && tail@ == state.tail() && call_ensures(
                    read,
                    (tail,),
                    result,
                ) && outcome == recv_outcome(state, result));
            }
        }
        outcome
    }

    /// Tries to send an ethernet frame
    ///
    /// If the device is ready to send a frame, the closure is executed to allow copying in the bytes.
    /// Whether or not the frame was taken, the next packet that is due is
    /// then offered to `write`, unless the frame was too long to begin with.
    ///
    /// # Returns
    /// - `true`, if the packet was sent
    /// - `false` otherwise
    pub fn try_send_frame<F, W>(&self, len: usize, f: F, write: W) -> (accepted: bool) where
        F: FnOnce(&mut [u8]),
        W: FnOnce(&[u8]) -> Result<usize, TransferError>,

        requires
            forall|frame: &mut [u8]| call_requires(f, (frame,)),
            forall|packet: &[u8]| call_requires(write, (packet,)),
        ensures
            len >= ETH_FRAME_SIZE ==> !accepted,
            accepted ==> exists|frame: &mut [u8]|
                frame@.len() == len && call_ensures(f, (frame,), ()),
    {
        // If length to big, we simply return
        if len >= ETH_FRAME_SIZE {
            return false;
        }
        let result = {
            let mut guard = self.tx_buf.lock_mut();
            let buf = match guard.as_mut() {
                Some(guard) => Some(guard.deref_mut()),
                None => None,
            };
            let ghost before = buf;
            let accepted = send_frame(buf, len, f);
            proof {
                if accepted {
                    let state = before->0@;
                    let frame = choose|frame: &mut [u8]|
                        frame@ == state.buffer.subrange(0, len as int) && call_ensures(
                            f,
                            (frame,),
                            (),
                        );
                    assert(frame@.len() == len && call_ensures(f, (frame,), ()));
                }
            }
            accepted
        };

        // Trigger sending the first packet
        let _ = self.try_send(write);
        result
    }

    /// Attempts to write data out to the host from tx_buf
    pub fn try_send<W>(&self, write: W) -> (outcome: SendOutcome) where
        W: FnOnce(&[u8]) -> Result<usize, TransferError>,

        requires
            forall|packet: &[u8]| call_requires(write, (packet,)),
        ensures
            outcome != SendOutcome::Busy && outcome != SendOutcome::Idle ==> came_of_write(
                write,
                outcome,
            ),
    {
        let mut guard = self.tx_buf.lock_mut();
        let buf = match guard.as_mut() {
            Some(guard) => Some(guard.deref_mut()),
            None => None,
        };
        let ghost before = buf;
        let outcome = write_packet(buf, write);
        proof {
            if outcome != SendOutcome::Busy && outcome != SendOutcome::Idle {
                let state = before->0@;
                let (packet, result) = choose|packet: &[u8], result: Result<usize, TransferError>|
                    packet@ == state.next_packet() && call_ensures(write, (packet,), result)
                        && outcome == send_outcome(state, result);
                assert(state.wf() && state.is_sending() && packet@ == state.next_packet()
                    && call_ensures(write, (packet,), result) && outcome == send_outcome(
                    state,
                    result,
                ));
            }
        }
        outcome
    }

    /// Called when endpoint with address `addr` has received data: if it is
    /// the endpoint of this device, a packet is read.
    pub fn endpoint_out<R>(&self, addr: u8, read: R) -> (outcome: Option<RecvOutcome>) where
        R: FnOnce(&mut [u8]) -> Result<usize, TransferError>,

        requires
            forall|tail: &mut [u8]| call_requires(read, (tail,)),
        ensures
            outcome is Some <==> addr == self.class().read_ep.address,
            outcome matches Some(o) ==> (o != RecvOutcome::Busy && o != RecvOutcome::Pending
                ==> came_of_read(read, o)),
    {
        if addr == self.ecm.get_read_ep().address {
            Some(self.try_recv(read))
        } else {
            None
        }
    }

    /// Called when endpoint with address `addr` has completed transmitting
    /// data: if it is the endpoint of this device, the next packet is
    /// written.
    pub fn endpoint_in_complete<W>(&self, addr: u8, write: W) -> (outcome: Option<SendOutcome>) where
        W: FnOnce(&[u8]) -> Result<usize, TransferError>,

        requires
            forall|packet: &[u8]| call_requires(write, (packet,)),
        ensures
            outcome is Some <==> addr == self.class().write_ep.address,
            outcome matches Some(o) ==> (o != SendOutcome::Busy && o != SendOutcome::Idle
                ==> came_of_write(write, o)),
    {
        if addr == self.ecm.get_write_ep().address {
            Some(self.try_send(write))
        } else {
            None
        }
    }

    /// Called after a bus reset. The buffers are left as they are: a frame in
    /// flight is not given up behind the back of whoever holds its buffer.
    pub fn reset(&self) {
    }

    // Pass through the control and setup calls
    pub fn get_configuration_descriptors(&self) -> (list: Vec<Descriptor>)
        ensures
            list@.len() == 9,
            descriptor_views(list@) == self.class().descriptors(),
    {
        self.ecm.get_configuration_descriptors()
    }

    pub fn get_string(&self, index: u8, lang_id: u16) -> (string: Option<&str>)
        ensures
            string is Some <==> index == self.class().mac_string_index,
            string matches Some(s) ==> s@ == ascii_chars(self.class().mac_string),
    {
        self.ecm.get_string(index, lang_id)
    }

    pub fn control_in(&self, req: &Request) -> (response: ControlResponse)
        ensures
            response == self.class().control_in(*req),
    {
        self.ecm.control_in(req)
    }

    pub fn control_out(&self, req: &Request) -> (response: ControlResponse)
        ensures
            response == self.class().control_out(*req),
    {
        self.ecm.control_out(req)
    }

    /// The two buffers as a device for a network stack.
    pub fn get_smol(&self) -> (smol: SmolUsb<'_>)
        ensures
            smol.tx_lock() == self.tx_lock(),
            smol.rx_lock() == self.rx_lock(),
    {
        SmolUsb::new(self.tx_buf.get_handle(), self.rx_buf.get_handle())
    }
}

} // verus!
