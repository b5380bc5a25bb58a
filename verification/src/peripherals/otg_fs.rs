//! The USB serial endpoint as the host bridge sees it.
//!
//! The controller holds the two packet staging areas, the device state as
//! last polled and whether the serial endpoint exists. It never touches the
//! bus. For the inbound direction the driver reads the endpoint into
//! [`OtgFsController::get_rx_buffer`] and hands over what the endpoint
//! answered; for the outbound direction the driver hands over the operation
//! that writes a staged packet to the endpoint.

use vstd::prelude::*;

use crate::config::DATA_PACKET_SIZE;
use crate::errors::UsbError;
use crate::utils::bytes::copy_run;

verus! {

/// State of the USB device, as the bus reports it.
#[derive(Debug, Clone, Copy, PartialEq, Eq, Structural)]
pub enum UsbDeviceState {
    /// Just created or reset.
    Default,
    /// Has received an address from the host.
    Addressed,
    /// Configured by the host: enumeration is complete.
    Configured,
    /// Suspended by the host, or unplugged.
    Suspend,
}

/// What the endpoint answers in place of a byte count.
#[derive(Debug, Clone, Copy, PartialEq, Eq, Structural)]
pub enum EndpointError {
    /// Nothing to read, or no room to write, right now.
    WouldBlock,
    /// Parsing failed on invalid input.
    ParseError,
    /// A buffer was too short, or data too long.
    BufferOverflow,
    /// More endpoints were asked for than the peripheral has.
    EndpointOverflow,
    /// More packet memory was asked for than the peripheral has.
    EndpointMemoryOverflow,
    /// The endpoint address is invalid or in use.
    InvalidEndpoint,
    /// The operation is not supported.
    Unsupported,
    /// The operation is not valid in the current state.
    InvalidState,
}

/// The USB controller with its packet staging areas.
pub struct OtgFsController {
    pub(crate) usb_device: Option<UsbDeviceState>,
    pub(crate) serial: bool,
    pub(crate) rx_buffer: [u8; DATA_PACKET_SIZE],
    pub(crate) tx_buffer: [u8; DATA_PACKET_SIZE],
}

/// What an [`OtgFsController`] stands for.
pub struct OtgFsView {
    /// State of the device as last polled; `None` without a device.
    pub device: Option<UsbDeviceState>,
    /// Whether the serial endpoint exists.
    pub serial: bool,
    /// The inbound staging area.
    pub rx_buffer: Seq<u8>,
    /// The outbound staging area.
    pub tx_buffer: Seq<u8>,
}

impl View for OtgFsController {
    type V = OtgFsView;

    open(crate) spec fn view(&self) -> OtgFsView {
        OtgFsView {
            device: self.usb_device,
            serial: self.serial,
            rx_buffer: self.rx_buffer@,
            tx_buffer: self.tx_buffer@,
        }
    }
}

/// Whether the device has completed enumeration.
pub open spec fn configured(usb: OtgFsView) -> bool {
    usb.device == Some(UsbDeviceState::Configured)
}

/// What a read of the endpoint gives the bridge: the length of the packet
/// received, nothing, or a fault. A packet of no bytes and an endpoint that
/// would block both count as nothing.
pub open spec fn read_outcome(usb: OtgFsView, received: Result<usize, EndpointError>) -> Result<
    Option<usize>,
    UsbError,
> {
    if !usb.serial {
        Err(UsbError::NotInitialized)
    } else {
        match received {
            Ok(count) => if count > 0 {
                Ok(Some(count))
            } else {
                Ok(None)
            },
            Err(EndpointError::WouldBlock) => Ok(None),
            Err(_) => Err(UsbError::ReadError),
        }
    }
}

/// What the bridge makes of the endpoint's answer to a write: any fault of
/// the endpoint, also that it would block, is a write error.
pub open spec fn write_outcome(answer: Result<usize, EndpointError>) -> Result<usize, UsbError> {
    match answer {
        Ok(count) => Ok(count),
        Err(_) => Err(UsbError::WriteError),
    }
}

/// The staging area after `data` has been staged at its start.
pub open spec fn staged(area: Seq<u8>, data: Seq<u8>) -> Seq<u8> {
    data + area.subrange(data.len() as int, area.len() as int)
}

impl OtgFsController {
    /// What holds of every controller: the staging areas have the packet size.
    pub proof fn lemma_sizes(&self)
        ensures
            self@.rx_buffer.len() == DATA_PACKET_SIZE,
            self@.tx_buffer.len() == DATA_PACKET_SIZE,
    {
    }

    /// Creates the controller for a device in the given state, `None` where
    /// no device exists, with or without a serial endpoint. The staging
    /// areas are zeroed.
    pub fn new(usb_device: Option<UsbDeviceState>, serial: bool) -> (usb: Self)
        ensures
            usb@.device == usb_device,
            usb@.serial == serial,
            forall|i: int| 0 <= i < DATA_PACKET_SIZE ==> usb@.rx_buffer[i] == 0,
            forall|i: int| 0 <= i < DATA_PACKET_SIZE ==> usb@.tx_buffer[i] == 0,
    {
        OtgFsController {
            usb_device,
            serial,
            rx_buffer: [0u8; DATA_PACKET_SIZE],
            tx_buffer: [0u8; DATA_PACKET_SIZE],
        }
    }

    /// Classifies what the endpoint answered to a read into the inbound
    /// staging area, and hands out the packet received.
    pub fn read(&self, received: Result<usize, EndpointError>) -> (result: Result<
        Option<(&[u8], usize)>,
        UsbError,
    >)
        requires
            received matches Ok(count) ==> count <= DATA_PACKET_SIZE,
        ensures
            match read_outcome(self@, received) {
                Ok(Some(count)) => result matches Ok(Some(packet)) && packet.1 == count
                    && packet.0@ == self@.rx_buffer.subrange(0, count as int),
                Ok(None) => result is Ok && result->Ok_0 is None,
                Err(e) => result is Err && result->Err_0 == e,
            },
    {
        if !self.serial {
            return Err(UsbError::NotInitialized);
        }
        match received {
            Ok(count) => {
                if count > 0 {
                    let packet = vstd::slice::slice_subrange(self.rx_buffer.as_slice(), 0, count);
                    Ok(Some((packet, count)))
                } else {
                    Ok(None)
                }
            },
            Err(EndpointError::WouldBlock) => Ok(None),
            Err(_) => Err(UsbError::ReadError),
        }
    }

    /// Stages `data` in the outbound staging area and writes it to the
    /// endpoint.
    ///
    /// Without a serial endpoint, or with `data` longer than a packet,
    /// nothing is staged and the endpoint is not called. Otherwise the
    /// endpoint is handed the staged bytes, and its answer decides the
    /// result.
    pub fn write<W: FnOnce(&[u8]) -> Result<usize, EndpointError>>(
        &mut self,
        data: &[u8],
        endpoint_write: W,
    ) -> (result: Result<usize, UsbError>)
        requires
            old(self)@.serial && data@.len() <= DATA_PACKET_SIZE ==> forall|packet: &[u8]|
                packet@ == data@ ==> call_requires(endpoint_write, (packet,)),
        ensures
            !old(self)@.serial ==> result == Err::<usize, UsbError>(UsbError::NotInitialized)
                && *final(self) == *old(self),
            old(self)@.serial && data@.len() > DATA_PACKET_SIZE ==> result == Err::<
                usize,
                UsbError,
            >(UsbError::BufferOverflow) && *final(self) == *old(self),
            old(self)@.serial && data@.len() <= DATA_PACKET_SIZE ==> final(self)@ == (OtgFsView {
                tx_buffer: staged(old(self)@.tx_buffer, data@),
                ..old(self)@
            }) && exists|packet: &[u8], answer: Result<usize, EndpointError>|
                packet@ == data@ && call_ensures(endpoint_write, (packet,), answer) && result
                    == write_outcome(answer),
    {
        if !self.serial {
            return Err(UsbError::NotInitialized);
        }
        if data.len() > DATA_PACKET_SIZE {
            return Err(UsbError::BufferOverflow);
        }
        copy_run(&mut self.tx_buffer, 0, data, 0, data.len());
        let packet = vstd::slice::slice_subrange(self.tx_buffer.as_slice(), 0, data.len());
        assert(packet@ =~= data@);
        assert(self.tx_buffer@ =~= staged(old(self).tx_buffer@, data@));
        let answer = endpoint_write(packet);
        match answer {
            Ok(count) => Ok(count),
            Err(_) => Err(UsbError::WriteError),
        }
    }

    /// Records the device state that the bus reported at this poll.
    ///
    /// Returns whether there is a device with a serial endpoint to poll;
    /// without them nothing is recorded.
    pub fn poll(&mut self, state: UsbDeviceState) -> (active: bool)
        ensures
            active == (old(self)@.device is Some && old(self)@.serial),
            active ==> final(self)@ == (OtgFsView { device: Some(state), ..old(self)@ }),
            !active ==> *final(self) == *old(self),
    {
        if self.usb_device.is_some() && self.serial {
            self.usb_device = Some(state);
            return true;
        }
        false
    }

    /// Whether the device has completed enumeration.
    pub fn is_configured(&self) -> (yes: bool)
        ensures
            yes == configured(self@),
    {
        match self.usb_device {
            Some(UsbDeviceState::Configured) => true,
            _ => false,
        }
    }

    /// The inbound staging area, for the driver to read a packet into.
    pub fn get_rx_buffer(&mut self) -> (area: &mut [u8])
        ensures
            area@ == old(self)@.rx_buffer,
            final(self)@ == (OtgFsView { rx_buffer: final(area)@, ..old(self)@ }),
    {
        &mut self.rx_buffer
    }

    /// The outbound staging area.
    pub fn get_tx_buffer(&mut self) -> (area: &mut [u8])
        ensures
            area@ == old(self)@.tx_buffer,
            final(self)@ == (OtgFsView { tx_buffer: final(area)@, ..old(self)@ }),
    {
        &mut self.tx_buffer
    }
}

} // verus!
