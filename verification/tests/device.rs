use std::cell::{Cell, RefCell};

use usbd_ecm::buffer::{RxBufInner, TxBufInner};
use usbd_ecm::ecm::{
    Allocation, ControlResponse, Recipient, Request, RequestType, Unsupported, UsbDirection,
};
use usbd_ecm::{
    finish_read, finish_write, has_frame, read_packet, receive_frame, send_frame, write_packet,
    RecvOutcome,
    SendOutcome, TransferError, UsbEthernetDevice, ETH_FRAME_SIZE,
};

const READ_EP: u8 = 0x02;
const WRITE_EP: u8 = 0x82;

fn device() -> UsbEthernetDevice {
    UsbEthernetDevice::new(
        Allocation {
            comm_if: 0,
            comm_ep: 0x81,
            data_if: 1,
            read_ep: READ_EP,
            write_ep: WRITE_EP,
            mac_string_index: 4,
        },
        &[0x02, 0x00, 0x00, 0x00, 0x00, 0x01],
    )
}

fn pattern(len: usize, seed: u8) -> Vec<u8> {
    (0..len).map(|i| (i as u8).wrapping_mul(13).wrapping_add(seed)).collect()
}

/// An endpoint that has `packet` to read.
fn host_sends(packet: &[u8]) -> impl FnOnce(&mut [u8]) -> Result<usize, TransferError> + '_ {
    move |buf: &mut [u8]| {
        if packet.len() > buf.len() {
            return Err(TransferError::BufferOverflow);
        }
        buf[..packet.len()].copy_from_slice(packet);
        Ok(packet.len())
    }
}

/// An endpoint that takes every packet and keeps it in `wire`.
fn host_takes(wire: &RefCell<Vec<Vec<u8>>>) -> impl FnOnce(&[u8]) -> Result<usize, TransferError> + '_ {
    move |packet: &[u8]| {
        wire.borrow_mut().push(packet.to_vec());
        Ok(packet.len())
    }
}

fn busy_endpoint(_packet: &[u8]) -> Result<usize, TransferError> {
    Err(TransferError::WouldBlock)
}

#[test]
fn frame_of_1514_bytes_is_refused() {
    let dev = device();
    let filled = Cell::new(false);
    let wire = RefCell::new(Vec::new());
    assert!(!dev.try_send_frame(1514, |_| filled.set(true), host_takes(&wire)));
    assert!(!filled.get());
    assert!(wire.borrow().is_empty());
    // nothing was taken: the buffer is still free
    assert_eq!(dev.try_send(host_takes(&wire)), SendOutcome::Idle);
}

#[test]
fn longer_frames_are_refused_too() {
    let dev = device();
    let filled = Cell::new(false);
    for len in [1515, 2000, usize::MAX] {
        assert!(!dev.try_send_frame(len, |_| filled.set(true), busy_endpoint));
        assert!(!filled.get());
    }
}

#[test]
fn frame_of_1513_bytes_is_taken() {
    let dev = device();
    let data = pattern(1513, 1);
    let wire = RefCell::new(Vec::new());
    assert!(dev.try_send_frame(1513, |buf| buf.copy_from_slice(&data), host_takes(&wire)));
    while dev.try_send(host_takes(&wire)) != SendOutcome::Idle {}
    let wire = wire.into_inner();
    assert_eq!(wire.len(), 1513 / 64 + 1);
    assert_eq!(wire.concat(), data);
    assert_eq!(wire.last().unwrap().len(), 1513 % 64);
}

#[test]
fn device_receives_64_64_30_as_one_frame_of_158() {
    let dev = device();
    let data = pattern(158, 2);

    assert_eq!(dev.try_recv(host_sends(&data[..64])), RecvOutcome::Received(64));
    assert!(!dev.frame_ready());
    assert_eq!(dev.try_recv(host_sends(&data[64..128])), RecvOutcome::Received(64));
    assert!(!dev.frame_ready());
    assert_eq!(dev.try_recv(host_sends(&data[128..])), RecvOutcome::Received(30));
    assert!(dev.frame_ready());

    let mut copy = Vec::new();
    assert_eq!(dev.try_receive_frame(|frame| copy.extend_from_slice(frame)), Some(158));
    assert_eq!(copy, data);

    // the frame is gone, the buffer takes the next one
    assert!(!dev.frame_ready());
    assert_eq!(dev.try_receive_frame(|_| panic!("no frame to hand out")), None);
    assert_eq!(dev.try_recv(host_sends(&[1, 2, 3])), RecvOutcome::Received(3));
    assert_eq!(dev.try_receive_frame(|frame| assert_eq!(frame, &[1, 2, 3])), Some(3));
}

#[test]
fn no_frame_before_the_short_packet() {
    let dev = device();
    assert_eq!(dev.try_receive_frame(|_| panic!("no frame to hand out")), None);
    assert_eq!(dev.try_recv(host_sends(&pattern(64, 0))), RecvOutcome::Received(64));
    assert_eq!(dev.try_receive_frame(|_| panic!("no frame to hand out")), None);
}

#[test]
fn waiting_frame_stalls_reception() {
    let dev = device();
    assert_eq!(dev.try_recv(host_sends(&[9, 9])), RecvOutcome::Received(2));
    assert!(dev.frame_ready());

    let asked = Cell::new(false);
    let outcome = dev.try_recv(|_| {
        asked.set(true);
        Ok(64)
    });
    assert_eq!(outcome, RecvOutcome::Pending);
    assert!(!asked.get());
    assert_eq!(dev.endpoint_out(READ_EP, host_sends(&[1])), Some(RecvOutcome::Pending));

    // the frame is as it was
    assert_eq!(dev.try_receive_frame(|frame| assert_eq!(frame, &[9, 9])), Some(2));
    // and only now the pipe flows again
    assert_eq!(dev.try_recv(host_sends(&[1])), RecvOutcome::Received(1));
}

#[test]
fn overflow_drops_the_partial_frame() {
    let dev = device();
    assert_eq!(dev.try_recv(host_sends(&pattern(64, 0))), RecvOutcome::Received(64));
    assert_eq!(dev.try_recv(|_| Err(TransferError::BufferOverflow)), RecvOutcome::Dropped);
    assert!(!dev.frame_ready());

    // the next frame starts from scratch
    assert_eq!(dev.try_recv(host_sends(&[5, 6])), RecvOutcome::Received(2));
    assert_eq!(dev.try_receive_frame(|frame| assert_eq!(frame, &[5, 6])), Some(2));
}

#[test]
fn frame_longer_than_the_buffer_is_dropped() {
    let dev = device();
    // 23 full packets leave room for 42 bytes
    for _ in 0..23 {
        assert_eq!(dev.try_recv(host_sends(&pattern(64, 0))), RecvOutcome::Received(64));
    }
    assert_eq!(dev.try_recv(host_sends(&pattern(64, 0))), RecvOutcome::Dropped);
    assert!(!dev.frame_ready());
    assert_eq!(dev.try_recv(host_sends(&[1])), RecvOutcome::Received(1));
    assert_eq!(dev.try_receive_frame(|frame| assert_eq!(frame, &[1])), Some(1));
}

#[test]
fn endpoint_that_claims_more_than_fits_costs_the_frame() {
    let dev = device();
    assert_eq!(dev.try_recv(host_sends(&pattern(64, 0))), RecvOutcome::Received(64));
    assert_eq!(dev.try_recv(|_| Ok(ETH_FRAME_SIZE)), RecvOutcome::Dropped);
    assert!(!dev.frame_ready());
}

#[test]
fn busy_endpoint_changes_nothing_on_the_way_in() {
    let dev = device();
    let data = pattern(70, 3);
    assert_eq!(dev.try_recv(host_sends(&data[..64])), RecvOutcome::Received(64));
    assert_eq!(dev.try_recv(|_| Err(TransferError::WouldBlock)), RecvOutcome::WouldBlock);
    assert_eq!(dev.try_recv(|_| Err(TransferError::Other)), RecvOutcome::Failed);
    assert!(!dev.frame_ready());
    assert_eq!(dev.try_recv(host_sends(&data[64..])), RecvOutcome::Received(6));
    let mut copy = Vec::new();
    assert_eq!(dev.try_receive_frame(|frame| copy.extend_from_slice(frame)), Some(70));
    assert_eq!(copy, data);
}

#[test]
fn frame_of_128_goes_to_the_host_as_64_64_0() {
    let dev = device();
    let data = pattern(128, 4);
    let wire = RefCell::new(Vec::new());

    // taking the frame pushes the first packet
    assert!(dev.try_send_frame(128, |buf| buf.copy_from_slice(&data), host_takes(&wire)));
    assert_eq!(wire.borrow().len(), 1);

    assert_eq!(dev.try_send(host_takes(&wire)), SendOutcome::Sent(64));
    assert_eq!(dev.try_send(host_takes(&wire)), SendOutcome::Sent(0));
    assert_eq!(dev.try_send(host_takes(&wire)), SendOutcome::Idle);

    let wire = wire.into_inner();
    assert_eq!(wire.iter().map(|p| p.len()).collect::<Vec<_>>(), vec![64, 64, 0]);
    assert_eq!(wire.concat(), data);
}

#[test]
fn second_frame_waits_for_the_first() {
    let dev = device();
    let first = pattern(100, 5);
    let second = pattern(10, 6);
    let wire = RefCell::new(Vec::new());
    let filled = Cell::new(false);

    assert!(dev.try_send_frame(100, |buf| buf.copy_from_slice(&first), busy_endpoint));
    // refused, but the packet that is due is offered to the endpoint
    assert!(!dev.try_send_frame(10, |_| filled.set(true), host_takes(&wire)));
    assert!(!filled.get());
    assert_eq!(wire.borrow().concat(), &first[..64]);

    assert_eq!(dev.try_send(host_takes(&wire)), SendOutcome::Sent(36));
    assert_eq!(wire.borrow().concat(), first);

    assert!(dev.try_send_frame(10, |buf| buf.copy_from_slice(&second), busy_endpoint));
    assert_eq!(dev.try_send(host_takes(&wire)), SendOutcome::Sent(10));
    assert_eq!(wire.borrow().last().unwrap(), &second);
}

#[test]
fn packet_that_did_not_go_out_is_offered_again() {
    let dev = device();
    let data = pattern(70, 7);
    let wire = RefCell::new(Vec::new());

    assert!(dev.try_send_frame(70, |buf| buf.copy_from_slice(&data), busy_endpoint));
    assert_eq!(dev.try_send(busy_endpoint), SendOutcome::WouldBlock);
    assert_eq!(dev.try_send(|_| Err(TransferError::Other)), SendOutcome::Failed);
    assert_eq!(dev.try_send(|_| Err(TransferError::BufferOverflow)), SendOutcome::Failed);
    // an endpoint that claims more than it was given has sent nothing
    assert_eq!(dev.try_send(|_| Ok(65)), SendOutcome::Failed);
    assert_eq!(dev.try_send(host_takes(&wire)), SendOutcome::Sent(64));
    assert_eq!(dev.try_send(host_takes(&wire)), SendOutcome::Sent(6));
    assert_eq!(dev.try_send(host_takes(&wire)), SendOutcome::Idle);
    assert_eq!(wire.into_inner().concat(), data);
}

#[test]
fn short_write_moves_on_by_what_was_taken() {
    let dev = device();
    let data = pattern(200, 9);
    let wire = RefCell::new(Vec::new());
    let asked = Cell::new(0);

    assert!(dev.try_send_frame(200, |buf| buf.copy_from_slice(&data), host_takes(&wire)));
    let outcome = dev.try_send(|packet| {
        asked.set(asked.get() + 1);
        assert_eq!(packet, &data[64..128]);
        Ok(10)
    });
    assert_eq!(outcome, SendOutcome::ShortWrite { written: 10, expected: 64 });
    // the endpoint was asked once, and not again within the call
    assert_eq!(asked.get(), 1);

    // ten bytes are fewer than a packet, so the frame has ended
    assert_eq!(dev.try_send(|_| panic!("nothing to write")), SendOutcome::Idle);
    let second = pattern(5, 1);
    assert!(dev.try_send_frame(5, |buf| buf.copy_from_slice(&second), host_takes(&wire)));
    assert_eq!(wire.into_inner(), vec![data[..64].to_vec(), second]);
}

#[test]
fn short_write_of_the_last_packet_ends_the_frame() {
    let mut buf = TxBufInner::new();
    buf.try_send_frame(70).unwrap();
    assert_eq!(finish_write(&mut buf, Ok(64)), SendOutcome::Sent(64));
    assert_eq!(
        finish_write(&mut buf, Ok(0)),
        SendOutcome::ShortWrite { written: 0, expected: 6 }
    );
    assert!(!buf.is_sending());
}

#[test]
fn idle_device_writes_nothing() {
    let dev = device();
    assert_eq!(dev.try_send(|_| panic!("nothing to write")), SendOutcome::Idle);
    assert_eq!(
        dev.endpoint_in_complete(WRITE_EP, |_| panic!("nothing to write")),
        Some(SendOutcome::Idle)
    );
}

#[test]
fn events_of_other_endpoints_are_not_mine() {
    let dev = device();
    for addr in [0x00, 0x01, 0x81, WRITE_EP, 0x03] {
        assert_eq!(dev.endpoint_out(addr, |_| panic!("not my endpoint")), None);
    }
    for addr in [0x00, 0x01, 0x81, READ_EP, 0x83] {
        assert_eq!(dev.endpoint_in_complete(addr, |_| panic!("not my endpoint")), None);
    }
}

#[test]
fn endpoint_events_move_packets() {
    let dev = device();
    let wire = RefCell::new(Vec::new());

    assert_eq!(dev.endpoint_out(READ_EP, host_sends(&[1, 2])), Some(RecvOutcome::Received(2)));
    assert!(dev.frame_ready());

    assert!(dev.try_send_frame(3, |buf| buf.copy_from_slice(&[7, 8, 9]), busy_endpoint));
    assert_eq!(dev.endpoint_in_complete(WRITE_EP, host_takes(&wire)), Some(SendOutcome::Sent(3)));
    assert_eq!(wire.into_inner(), vec![vec![7, 8, 9]]);
}

#[test]
fn bus_reset_leaves_the_buffers_alone() {
    let dev = device();
    assert_eq!(dev.try_recv(host_sends(&[1, 2])), RecvOutcome::Received(2));
    assert!(dev.try_send_frame(3, |buf| buf.copy_from_slice(&[7, 8, 9]), busy_endpoint));
    dev.reset();
    assert!(dev.frame_ready());
    assert_eq!(dev.try_send(|packet| Ok(packet.len())), SendOutcome::Sent(3));
}

#[test]
fn locked_buffers_make_the_device_step_back() {
    let dev = device();
    let mut smol = dev.get_smol();
    assert_eq!(dev.try_recv(host_sends(&[1, 2])), RecvOutcome::Received(2));

    let (rx_token, tx_token) = smol.receive().unwrap();
    // both buffers are in the hands of the network stack now
    assert!(!dev.frame_ready());
    assert_eq!(dev.try_receive_frame(|_| panic!("buffer is locked")), None);
    assert_eq!(dev.try_recv(|_| panic!("buffer is locked")), RecvOutcome::Busy);
    assert_eq!(dev.try_send(|_| panic!("buffer is locked")), SendOutcome::Busy);
    assert!(!dev.try_send_frame(1, |_| panic!("buffer is locked"), |_| panic!("buffer is locked")));

    drop(rx_token);
    drop(tx_token);
    assert!(dev.frame_ready());
    assert_eq!(dev.try_receive_frame(|frame| assert_eq!(frame, &[1, 2])), Some(2));
}

#[test]
fn device_passes_the_class_through() {
    let dev = device();
    assert_eq!(dev.get_string(4, 0x0409), Some("020000000001"));
    assert_eq!(dev.get_string(1, 0x0409), None);
    assert_eq!(dev.get_configuration_descriptors().len(), 9);

    let req = Request {
        direction: UsbDirection::Out,
        request_type: RequestType::Class,
        recipient: Recipient::Interface,
        request: 0x43,
        value: 0,
        index: 0,
        length: 0,
    };
    assert_eq!(dev.control_out(&req), ControlResponse::Rejected(Unsupported::PacketFilter));
    assert_eq!(dev.control_in(&req), ControlResponse::Rejected(Unsupported::Unknown));
    assert_eq!(dev.control_out(&Request { index: 1, ..req }), ControlResponse::Ignored);
}

#[test]
fn finish_read_by_result() {
    let mut buf = RxBufInner::new();
    assert_eq!(finish_read(&mut buf, Ok(64)), RecvOutcome::Received(64));
    assert_eq!(finish_read(&mut buf, Err(TransferError::WouldBlock)), RecvOutcome::WouldBlock);
    assert_eq!(finish_read(&mut buf, Err(TransferError::Other)), RecvOutcome::Failed);
    assert_eq!(buf.insert_packet().len(), ETH_FRAME_SIZE - 64);
    assert!(!buf.frame_complete());

    // exactly what is left still fits
    assert_eq!(finish_read(&mut buf, Ok(ETH_FRAME_SIZE - 64)), RecvOutcome::Received(1450));
    assert!(!buf.frame_complete());
    assert_eq!(finish_read(&mut buf, Ok(1)), RecvOutcome::Dropped);
    assert_eq!(buf.insert_packet().len(), ETH_FRAME_SIZE);

    assert_eq!(finish_read(&mut buf, Ok(64)), RecvOutcome::Received(64));
    assert_eq!(finish_read(&mut buf, Err(TransferError::BufferOverflow)), RecvOutcome::Dropped);
    assert_eq!(buf.insert_packet().len(), ETH_FRAME_SIZE);
    assert!(!buf.frame_complete());
}

#[test]
fn finish_read_takes_nothing_while_a_frame_waits() {
    let mut buf = RxBufInner::new();
    buf.insert_packet()[..3].copy_from_slice(&[1, 2, 3]);
    assert_eq!(finish_read(&mut buf, Ok(3)), RecvOutcome::Received(3));
    assert!(buf.frame_complete());

    assert_eq!(finish_read(&mut buf, Ok(64)), RecvOutcome::Pending);
    assert_eq!(finish_read(&mut buf, Ok(ETH_FRAME_SIZE)), RecvOutcome::Pending);
    assert_eq!(finish_read(&mut buf, Err(TransferError::BufferOverflow)), RecvOutcome::Pending);
    assert_eq!(finish_read(&mut buf, Err(TransferError::WouldBlock)), RecvOutcome::Pending);
    assert!(buf.frame_complete());
    assert_eq!(buf.try_get_frame().unwrap(), &[1, 2, 3]);
}

#[test]
fn finish_write_by_result() {
    let mut buf = TxBufInner::new();
    buf.try_send_frame(65).unwrap();
    assert_eq!(finish_write(&mut buf, Ok(65)), SendOutcome::Failed);
    assert_eq!(finish_write(&mut buf, Ok(usize::MAX)), SendOutcome::Failed);
    assert_eq!(finish_write(&mut buf, Err(TransferError::WouldBlock)), SendOutcome::WouldBlock);
    assert_eq!(finish_write(&mut buf, Err(TransferError::BufferOverflow)), SendOutcome::Failed);
    assert_eq!(finish_write(&mut buf, Err(TransferError::Other)), SendOutcome::Failed);
    assert_eq!(buf.try_get_packet().unwrap().len(), 64);
    assert_eq!(finish_write(&mut buf, Ok(64)), SendOutcome::Sent(64));
    assert_eq!(finish_write(&mut buf, Ok(1)), SendOutcome::Sent(1));
    assert!(!buf.is_sending());

    buf.try_send_frame(100).unwrap();
    assert_eq!(
        finish_write(&mut buf, Ok(63)),
        SendOutcome::ShortWrite { written: 63, expected: 64 }
    );
    assert!(!buf.is_sending());

    // nothing in flight, nothing to take note of
    assert_eq!(finish_write(&mut buf, Ok(0)), SendOutcome::Idle);
    assert_eq!(finish_write(&mut buf, Err(TransferError::Other)), SendOutcome::Idle);
    assert!(!buf.is_sending());
}

#[test]
fn transfers_on_a_buffer_that_was_locked() {
    let mut rx = RxBufInner::new();
    assert!(!has_frame(Some(&rx)));
    assert_eq!(receive_frame(Some(&mut rx), |_| panic!("no frame")), None);
    assert_eq!(read_packet(Some(&mut rx), host_sends(&[1, 2, 3])), RecvOutcome::Received(3));
    assert!(has_frame(Some(&rx)));
    assert_eq!(read_packet(Some(&mut rx), |_| panic!("frame waits")), RecvOutcome::Pending);
    assert_eq!(receive_frame(Some(&mut rx), |frame| assert_eq!(frame, &[1, 2, 3])), Some(3));
    assert!(!rx.frame_complete());
    assert!(!has_frame(Some(&rx)));

    let mut tx = TxBufInner::new();
    assert_eq!(write_packet(Some(&mut tx), |_| panic!("idle")), SendOutcome::Idle);
    assert!(send_frame(Some(&mut tx), 2, |buf| buf.copy_from_slice(&[4, 5])));
    assert!(!send_frame(Some(&mut tx), 2, |_| panic!("frame in flight")));
    let outcome = write_packet(Some(&mut tx), |packet| {
        assert_eq!(packet, &[4, 5]);
        Ok(2)
    });
    assert_eq!(outcome, SendOutcome::Sent(2));
    assert!(!tx.is_sending());
}

#[test]
fn transfers_on_a_buffer_that_could_not_be_had() {
    assert!(!has_frame(None));
    assert_eq!(receive_frame(None, |_| panic!("no buffer")), None);
    assert_eq!(read_packet(None, |_| panic!("no buffer")), RecvOutcome::Busy);
    assert!(!send_frame(None, 2, |_| panic!("no buffer")));
    assert_eq!(write_packet(None, |_| panic!("no buffer")), SendOutcome::Busy);
}

#[test]
fn send_frame_takes_frames_below_1514_only() {
    let mut tx = TxBufInner::new();
    assert!(!send_frame(Some(&mut tx), 1514, |_| panic!("frame too long")));
    assert!(!send_frame(Some(&mut tx), usize::MAX, |_| panic!("frame too long")));
    assert!(!tx.is_sending());
    assert!(send_frame(Some(&mut tx), 1513, |buf| assert_eq!(buf.len(), 1513)));
    assert!(tx.is_sending());
}

#[test]
fn read_packet_hands_the_free_part_to_the_endpoint() {
    let mut rx = RxBufInner::new();
    assert_eq!(read_packet(Some(&mut rx), host_sends(&[7; 64])), RecvOutcome::Received(64));
    let outcome = read_packet(Some(&mut rx), |tail| {
        assert_eq!(tail.len(), ETH_FRAME_SIZE - 64);
        Err(TransferError::WouldBlock)
    });
    assert_eq!(outcome, RecvOutcome::WouldBlock);
    assert!(!rx.frame_complete());
}
