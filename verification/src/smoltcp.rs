//! The two buffers as a device for a network stack that polls for tokens.
//!
//! A token is the right to move one frame. It holds the lock of its buffer
//! from the moment it is handed out until it is consumed or dropped.

use vstd::prelude::*;
use crate::buffer::{RxBufInner, TxBufInner};
use crate::lock::{Guard, LockHandle, LockInner};
use crate::ETH_FRAME_SIZE;

verus! {

/// What the device can do.
#[derive(Clone, Copy, Debug, PartialEq, Eq, Structural)]
pub struct DeviceCapabilities {
    /// Largest frame, in bytes
    pub max_transmission_unit: usize,
    /// How many frames can be in flight at once
    pub max_burst_size: Option<usize>,
}

pub struct SmolUsb<'a> {
    tx_buf: LockHandle<'a, TxBufInner>,
    rx_buf: LockHandle<'a, RxBufInner>,
}

/// The right to send one frame.
pub struct UsbTxToken<'a>(Guard<'a, TxBufInner>);

/// The right to fetch the frame that was received.
pub struct UsbRxToken<'a>(Guard<'a, RxBufInner>);

/// A token to send with, if the transmit buffer could be locked and is idle.
/// A buffer that cannot be used is unlocked again.
pub fn transmit_token<'a>(tx: Option<Guard<'a, TxBufInner>>) -> (token: Option<UsbTxToken<'a>>)
    requires
        tx matches Some(guard) ==> guard.holds(),
    ensures
        token is Some <==> (tx matches Some(guard) && !guard.payload()@.is_sending()),
        token matches Some(t) ==> t.wf() && t.guard() == tx->0,
{
    match tx {
        Some(guard) => {
            if guard.deref().is_sending() {
                None
            } else {
                Some(UsbTxToken(guard))
            }
        },
        None => None,
    }
}

/// A token to fetch a frame with and one to answer it with, if both buffers
/// could be locked, a frame is complete in the receive buffer and the
/// transmit buffer is idle. Whatever was locked in vain is unlocked again.
pub fn receive_tokens<'a>(
    rx: Option<Guard<'a, RxBufInner>>,
    tx: Option<Guard<'a, TxBufInner>>,
) -> (tokens: Option<(UsbRxToken<'a>, UsbTxToken<'a>)>)
    requires
        rx matches Some(guard) ==> guard.holds(),
        tx matches Some(guard) ==> guard.holds(),
    ensures
        tokens is Some <==> (rx matches Some(rx_guard) && tx matches Some(tx_guard)
            && rx_guard.payload()@.complete && !tx_guard.payload()@.is_sending()),
        tokens matches Some((r, t)) ==> r.wf() && t.wf() && r.guard() == rx->0 && t.guard()
            == tx->0,
{
    match (rx, tx) {
        (Some(rx_guard), Some(tx_guard)) => {
            if rx_guard.deref().frame_complete() && !tx_guard.deref().is_sending() {
                Some((UsbRxToken(rx_guard), UsbTxToken(tx_guard)))
            } else {
                None
            }
        },
        _ => None,
    }
}

impl<'a> SmolUsb<'a> {
    /// The lock of the transmit buffer.
    pub closed spec fn tx_lock(&self) -> &LockInner<TxBufInner> {
        self.tx_buf.lock()
    }

    /// The lock of the receive buffer.
    pub closed spec fn rx_lock(&self) -> &LockInner<RxBufInner> {
        self.rx_buf.lock()
    }

    pub fn new(tx_buf: LockHandle<'a, TxBufInner>, rx_buf: LockHandle<'a, RxBufInner>) -> (smol:
        Self)
        ensures
            smol.tx_lock() == tx_buf.lock(),
            smol.rx_lock() == rx_buf.lock(),
    {
        Self { tx_buf, rx_buf }
    }

    pub fn capabilities(&self) -> (cap: DeviceCapabilities)
        ensures
            cap.max_transmission_unit == ETH_FRAME_SIZE,
            cap.max_burst_size == Some(1usize),
    {
        DeviceCapabilities { max_transmission_unit: ETH_FRAME_SIZE, max_burst_size: Some(1) }
    }

    /// A frame to fetch, with the means to answer it.
    pub fn receive(&mut self) -> (tokens: Option<(UsbRxToken<'a>, UsbTxToken<'a>)>)
        ensures
            tokens matches Some((r, t)) ==> {
                &&& r.wf()
                &&& t.wf()
                &&& r.guard().lock() == old(self).rx_lock()
                &&& t.guard().lock() == old(self).tx_lock()
            },
            final(self).rx_lock() == old(self).rx_lock(),
            final(self).tx_lock() == old(self).tx_lock(),
    {
        let rx = self.rx_buf.try_lock();
        let tx = self.tx_buf.try_lock();
        receive_tokens(rx, tx)
    }

    /// The means to send a frame.
    pub fn transmit(&mut self) -> (token: Option<UsbTxToken<'a>>)
        ensures
            token matches Some(t) ==> t.wf() && t.guard().lock() == old(self).tx_lock(),
            final(self).rx_lock() == old(self).rx_lock(),
            final(self).tx_lock() == old(self).tx_lock(),
    {
        transmit_token(self.tx_buf.try_lock())
    }
}

impl<'a> UsbTxToken<'a> {
    /// The buffer behind the token.
    pub closed spec fn guard(&self) -> Guard<'a, TxBufInner> {
        self.0
    }

    /// The token holds an idle transmit buffer.
    pub open spec fn wf(&self) -> bool {
        self.guard().holds() && !self.guard().payload()@.is_sending()
    }

    /// Starts a frame of `len` bytes and lets `f` fill it in. A frame longer
    /// than the buffer is refused: `f` is not called then.
    pub fn consume<R, F>(self, len: usize, f: F) -> (result: Option<R>) where
        F: FnOnce(&mut [u8]) -> R,

        requires
            self.wf(),
            forall|frame: &mut [u8]| call_requires(f, (frame,)),
        ensures
            result is Some <==> len <= ETH_FRAME_SIZE,
            result matches Some(r) ==> exists|frame: &mut [u8]|
                frame@.len() == len && call_ensures(f, (frame,), r),
    {
        if len > ETH_FRAME_SIZE {
            return None;
        }
        let mut guard = self.0;
        match guard.deref_mut().try_send_frame(len) {
            Some(frame) => Some(f(frame)),
            None => vstd::pervasive::unreached(),
        }
    }
}

impl<'a> UsbRxToken<'a> {
    /// The buffer behind the token.
    pub closed spec fn guard(&self) -> Guard<'a, RxBufInner> {
        self.0
    }

    /// The token holds a receive buffer with a complete frame.
    pub open spec fn wf(&self) -> bool {
        self.guard().holds() && self.guard().payload()@.complete
    }

    /// Hands the frame to `f` and clears the buffer for the next one.
    pub fn consume<R, F>(self, f: F) -> (result: R) where F: FnOnce(&mut [u8]) -> R
        requires
            self.wf(),
            forall|frame: &mut [u8]| call_requires(f, (frame,)),
        ensures
            exists|frame: &mut [u8]|
                frame@ == self.guard().payload()@.frame() && call_ensures(f, (frame,), result),
    {
        let mut guard = self.0;
        let buf = guard.deref_mut();
        let result = match buf.try_get_frame_mut() {
            Some(frame) => f(frame),
            None => vstd::pervasive::unreached(),
        };
        buf.reset();
        result
    }
}

} // verus!
