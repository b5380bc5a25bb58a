//! The host bridge: moves packets between the USB serial endpoint and the
//! ring buffers.
//!
//! Inbound, a packet is admitted to the transmit buffer whole or not at all.
//! Outbound, up to one packet is drained from the receive buffer and written
//! to the endpoint; what a short write leaves unsent goes back to the tail
//! of the receive buffer, behind whatever arrived in the meantime.

use vstd::prelude::*;

use crate::config::DATA_PACKET_SIZE;
use crate::errors::{DeviceError, UsbError};
use crate::peripherals::otg_fs::{
    configured, read_outcome, staged, write_outcome, EndpointError, OtgFsController, OtgFsView,
};
use crate::ring_buffer::{after_pop, after_push, popped_by, push_fits, RingBuffer};

verus! {

/// What the inbound path returns for a packet that the endpoint handed
/// over: its length where it fits the free space of `tx`, a USB fault where
/// it does not; 0 where the endpoint had nothing; a USB fault where the
/// endpoint failed.
pub open spec fn inbound_result(
    usb: OtgFsView,
    received: Result<usize, EndpointError>,
    tx: Seq<u8>,
) -> Result<usize, DeviceError> {
    match read_outcome(usb, received) {
        Ok(Some(count)) => if push_fits(tx, usb.rx_buffer.subrange(0, count as int)) {
            Ok(count)
        } else {
            Err(DeviceError::UsbError)
        },
        Ok(None) => Ok(0),
        Err(_) => Err(DeviceError::UsbError),
    }
}

/// The transmit buffer after the inbound path: the packet is appended where
/// it is admitted, and nothing changes otherwise.
pub open spec fn inbound_content(
    usb: OtgFsView,
    received: Result<usize, EndpointError>,
    tx: Seq<u8>,
) -> Seq<u8> {
    match read_outcome(usb, received) {
        Ok(Some(count)) => after_push(tx, usb.rx_buffer.subrange(0, count as int)),
        _ => tx,
    }
}

/// Handles one inbound step: admits the packet that the endpoint handed
/// over to the transmit buffer.
///
/// `received` is what the endpoint answered to a read into the inbound
/// staging area of `usb`. Returns 0, and admits nothing, while the device
/// has not completed enumeration. A packet that does not fit the free space
/// of `tx` is rejected whole.
pub fn handle_usb(
    usb: &mut OtgFsController,
    received: Result<usize, EndpointError>,
    tx: &mut RingBuffer,
) -> (result: Result<usize, DeviceError>)
    requires
        old(tx).wf(),
        received matches Ok(count) ==> count <= DATA_PACKET_SIZE,
    ensures
        final(tx).wf(),
        *final(usb) == *old(usb),
        !configured(old(usb)@) ==> result == Ok::<usize, DeviceError>(0) && *final(tx) == *old(tx),
        configured(old(usb)@) ==> result == inbound_result(old(usb)@, received, old(tx)@)
            && final(tx)@ == inbound_content(old(usb)@, received, old(tx)@),
        result is Err || result == Ok::<usize, DeviceError>(0) ==> *final(tx) == *old(tx),
{
    if !usb.is_configured() {
        return Ok(0);
    }
    let bytes_processed = process_usb_data(usb, received, tx)?;
    Ok(bytes_processed)
}

/// Admits the packet that the endpoint handed over to the transmit buffer,
/// whole or not at all.
fn process_usb_data(
    usb: &mut OtgFsController,
    received: Result<usize, EndpointError>,
    tx: &mut RingBuffer,
) -> (result: Result<usize, DeviceError>)
    requires
        old(tx).wf(),
        received matches Ok(count) ==> count <= DATA_PACKET_SIZE,
    ensures
        final(tx).wf(),
        *final(usb) == *old(usb),
        result == inbound_result(old(usb)@, received, old(tx)@),
        final(tx)@ == inbound_content(old(usb)@, received, old(tx)@),
        result is Err || result == Ok::<usize, DeviceError>(0) ==> *final(tx) == *old(tx),
{
    match usb.read(received) {
        Ok(Some((data, count))) => {
            if tx.available_space() < count {
                return Err(DeviceError::from(UsbError::BufferOverflow));
            }
            match tx.push(data) {
                Ok(()) => Ok(count),
                Err(_) => Err(DeviceError::from(UsbError::BufferOverflow)),
            }
        },
        Ok(None) => Ok(0),
        Err(e) => Err(DeviceError::from(e)),
    }
}

/// What the outbound path returns once the endpoint has answered the write
/// of a staged packet: the number of bytes the endpoint took, or a USB
/// fault where the write failed or the unsent bytes found no room.
pub open spec fn outbound_result(
    rest: Seq<u8>,
    packet: Seq<u8>,
    written: Result<usize, UsbError>,
) -> Result<usize, DeviceError> {
    match written {
        Ok(count) => if count < packet.len() && !push_fits(
            rest,
            packet.subrange(count as int, packet.len() as int),
        ) {
            Err(DeviceError::UsbError)
        } else {
            Ok(count)
        },
        Err(_) => Err(DeviceError::UsbError),
    }
}

/// The receive buffer once the endpoint has answered the write of a staged
/// packet: after a short write the unsent bytes follow what the buffer
/// holds; after a failed write the packet is lost.
pub open spec fn outbound_content(
    rest: Seq<u8>,
    packet: Seq<u8>,
    written: Result<usize, UsbError>,
) -> Seq<u8> {
    match written {
        Ok(count) => if count < packet.len() {
            after_push(rest, packet.subrange(count as int, packet.len() as int))
        } else {
            rest
        },
        Err(_) => rest,
    }
}

/// Finishes an outbound step: `packet` was drained from `rx` and written to
/// the endpoint, which answered `written`.
///
/// After a short write the unsent remainder of `packet` is put back at the
/// tail of `rx`.
pub fn requeue_unsent(
    rx: &mut RingBuffer,
    packet: &[u8],
    written: Result<usize, UsbError>,
) -> (result: Result<usize, DeviceError>)
    requires
        old(rx).wf(),
    ensures
        final(rx).wf(),
        result == outbound_result(old(rx)@, packet@, written),
        final(rx)@ == outbound_content(old(rx)@, packet@, written),
{
    match written {
        Ok(count) => {
            if count < packet.len() {
                let remaining = vstd::slice::slice_subrange(packet, count, packet.len());
                match rx.push(remaining) {
                    Ok(()) => {},
                    Err(_) => {
                        return Err(DeviceError::from(UsbError::BufferOverflow));
                    },
                }
            }
            Ok(count)
        },
        Err(e) => Err(DeviceError::from(e)),
    }
}

/// Handles one outbound step: drains up to one packet from the receive
/// buffer, writes it to the endpoint through `endpoint_write`, and puts
/// back what the endpoint did not take.
///
/// With an empty buffer the endpoint is not called and 0 is returned.
pub fn process_rx_buffer<W: FnOnce(&[u8]) -> Result<usize, EndpointError>>(
    usb: &mut OtgFsController,
    rx: &mut RingBuffer,
    endpoint_write: W,
) -> (result: Result<usize, DeviceError>)
    requires
        old(rx).wf(),
        old(rx)@.len() > 0 && old(usb)@.serial ==> forall|packet: &[u8]|
            packet@ == popped_by(old(rx)@, DATA_PACKET_SIZE as nat) ==> call_requires(
                endpoint_write,
                (packet,),
            ),
    ensures
        final(rx).wf(),
        old(rx)@.len() == 0 ==> result == Ok::<usize, DeviceError>(0) && final(rx)@ == old(rx)@
            && *final(usb) == *old(usb),
        old(rx)@.len() > 0 && !old(usb)@.serial ==> result == Err::<usize, DeviceError>(
            DeviceError::UsbError,
        ) && final(rx)@ == after_pop(old(rx)@, DATA_PACKET_SIZE as nat) && *final(usb) == *old(usb),
        old(rx)@.len() > 0 && old(usb)@.serial ==> final(usb)@ == (OtgFsView {
            tx_buffer: staged(old(usb)@.tx_buffer, popped_by(old(rx)@, DATA_PACKET_SIZE as nat)),
            ..old(usb)@
        }),
        old(rx)@.len() > 0 && old(usb)@.serial ==> exists|
            packet: &[u8],
            answer: Result<usize, EndpointError>,
        |
            packet@ == popped_by(old(rx)@, DATA_PACKET_SIZE as nat) && call_ensures(
                endpoint_write,
                (packet,),
                answer,
            ) && result == outbound_result(
                after_pop(old(rx)@, DATA_PACKET_SIZE as nat),
                packet@,
                write_outcome(answer),
            ) && final(rx)@ == outbound_content(
                after_pop(old(rx)@, DATA_PACKET_SIZE as nat),
                packet@,
                write_outcome(answer),
            ) && (answer is Ok ==> result == Ok::<usize, DeviceError>(answer->Ok_0)),
{
    let mut tx_buffer = [0u8; DATA_PACKET_SIZE];

    if rx.is_empty() {
        return Ok(0);
    }
    proof {
        rx.lemma_bounded();
    }
    let bytes_read = rx.pop(&mut tx_buffer);
    let packet = vstd::slice::slice_subrange(tx_buffer.as_slice(), 0, bytes_read);
    assert(packet@ =~= popped_by(old(rx)@, DATA_PACKET_SIZE as nat));
    let written = usb.write(packet, endpoint_write);
    requeue_unsent(rx, packet, written)
}

} // verus!
