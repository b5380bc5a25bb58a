//! The UART link controller as the handlers see it.
//!
//! The controller owns the two hardware transfer buffers, one per
//! direction, and for each direction the DMA stream's flags as last read
//! from the hardware. It does not touch a register. Every operation on the
//! hardware is recorded as a [`LinkCommand`]; after each handler the driver
//! carries the recorded commands out, in order, and before the next handler
//! it stores what the hardware shows.

use vstd::prelude::*;

use crate::config::DMA_BUFFER_LEN;
use crate::errors::UsartError;
use crate::utils::bytes::copy_run;

verus! {

/// Bit of the receive-data-register-not-empty flag.
pub const USART_FLAG_RXNE: u32 = 1 << 5;

/// Bit of the transmission-complete flag.
pub const USART_FLAG_TC: u32 = 1 << 6;

/// Bit of the transmit-data-register-empty flag.
pub const USART_FLAG_TXE: u32 = 1 << 7;

/// A set of UART status flags.
#[derive(Debug, Clone, Copy, PartialEq, Eq, Structural)]
pub struct UsartFlag {
    pub(crate) bits: u32,
}

impl View for UsartFlag {
    type V = u32;

    /// The bits of the flags in the set.
    open(crate) spec fn view(&self) -> u32 {
        self.bits
    }
}

impl UsartFlag {
    /// The set of the receive-data-register-not-empty flag alone.
    pub fn rxne() -> (flags: Self)
        ensures
            flags@ == USART_FLAG_RXNE,
    {
        UsartFlag { bits: USART_FLAG_RXNE }
    }

    /// The set of the transmit-data-register-empty flag alone.
    pub fn txe() -> (flags: Self)
        ensures
            flags@ == USART_FLAG_TXE,
    {
        UsartFlag { bits: USART_FLAG_TXE }
    }

    /// The set of the transmission-complete flag alone.
    pub fn tc() -> (flags: Self)
        ensures
            flags@ == USART_FLAG_TC,
    {
        UsartFlag { bits: USART_FLAG_TC }
    }

    /// The empty set.
    pub fn empty() -> (flags: Self)
        ensures
            flags@ == 0,
    {
        UsartFlag { bits: 0 }
    }

    /// The set with the given bits, bits of no flag dropped.
    pub fn from_bits_truncate(bits: u32) -> (flags: Self)
        ensures
            flags@ == bits & (USART_FLAG_RXNE | USART_FLAG_TC | USART_FLAG_TXE),
    {
        UsartFlag { bits: bits & (USART_FLAG_RXNE | USART_FLAG_TC | USART_FLAG_TXE) }
    }

    /// The bits of the set.
    pub fn bits(&self) -> (bits: u32)
        ensures
            bits == self@,
    {
        self.bits
    }

    /// Whether every flag of `other` is in this set.
    pub fn contains(&self, other: UsartFlag) -> (yes: bool)
        ensures
            yes == (self@ & other@ == other@),
    {
        self.bits & other.bits == other.bits
    }

    /// The flags of either set.
    pub fn union(self, other: UsartFlag) -> (flags: Self)
        ensures
            flags@ == self@ | other@,
    {
        UsartFlag { bits: self.bits | other.bits }
    }
}

/// The UART status register, as last read.
#[derive(Debug, Clone, Copy, PartialEq, Eq, Structural)]
pub struct UsartStatus {
    /// A received byte waits in the data register.
    pub rxne: bool,
    /// The data register can take a byte to send.
    pub txe: bool,
    /// The last byte has left the shift register.
    pub tc: bool,
}

/// One direction of the link.
#[derive(Debug, Clone, Copy, PartialEq, Eq, Structural)]
pub enum DmaDirection {
    /// Wire to memory.
    Rx,
    /// Memory to wire.
    Tx,
}

/// A DMA stream's flags and counter, as last read from the hardware or as
/// the recorded commands leave them.
#[derive(Debug, Clone, Copy, PartialEq, Eq, Structural)]
pub struct DmaStream {
    /// The stream is enabled: a transfer is in flight.
    pub enabled: bool,
    /// The transfer-complete flag.
    pub transfer_complete: bool,
    /// The transfer-error flag.
    pub transfer_error: bool,
    /// Items still to be moved; the hardware counts down.
    pub remaining: u16,
}

/// A transfer's state as one tag.
#[derive(Debug, Clone, Copy, PartialEq, Eq, Structural)]
pub enum TransferStatus {
    /// No transfer in flight.
    Idle,
    /// A transfer is in flight.
    Active,
    /// The transfer has completed.
    Complete,
    /// The transfer has faulted.
    Error,
}

impl DmaStream {
    /// A stream at rest with nothing to move.
    pub open spec fn spec_idle() -> DmaStream {
        DmaStream { enabled: false, transfer_complete: false, transfer_error: false, remaining: 0 }
    }

    /// The tag of this stream: a fault outranks completion, which outranks
    /// a transfer in flight.
    pub open spec fn spec_status(self) -> TransferStatus {
        if self.transfer_error {
            TransferStatus::Error
        } else if self.transfer_complete {
            TransferStatus::Complete
        } else if self.enabled {
            TransferStatus::Active
        } else {
            TransferStatus::Idle
        }
    }

    /// This stream with its fault flag cleared.
    pub open spec fn fault_cleared(self) -> DmaStream {
        DmaStream { transfer_error: false, ..self }
    }

    /// This stream enabled.
    pub open spec fn started(self) -> DmaStream {
        DmaStream { enabled: true, ..self }
    }

    /// This stream with its completion flag cleared.
    pub open spec fn complete_cleared(self) -> DmaStream {
        DmaStream { transfer_complete: false, ..self }
    }

    /// A stream at rest with nothing to move.
    pub fn idle() -> (stream: Self)
        ensures
            stream == DmaStream::spec_idle(),
    {
        DmaStream { enabled: false, transfer_complete: false, transfer_error: false, remaining: 0 }
    }

    /// Polls the stream for its state as one tag.
    pub fn status(&self) -> (status: TransferStatus)
        ensures
            status == self.spec_status(),
    {
        if self.transfer_error {
            TransferStatus::Error
        } else if self.transfer_complete {
            TransferStatus::Complete
        } else if self.enabled {
            TransferStatus::Active
        } else {
            TransferStatus::Idle
        }
    }
}

/// An operation on the link hardware that a handler has decided on.
#[derive(Debug, Clone, Copy, PartialEq, Eq, Structural)]
pub enum LinkCommand {
    /// Clear the transfer-error flag of the receive stream.
    ClearRxFault,
    /// Clear the transfer-error flag of the transmit stream.
    ClearTxFault,
    /// Enable the receive stream, for a transfer of the whole receive buffer.
    StartRx,
    /// Enable the transmit stream, for a transfer of the transmit buffer.
    StartTx,
    /// Clear the completion and FIFO-error flags of the receive stream.
    ClearRxComplete,
    /// Clear the completion and FIFO-error flags of the transmit stream.
    ClearTxComplete,
    /// Read the data register, which clears the receive flag.
    ReadData,
    /// Write zero to the data register, which clears a transmit flag.
    WriteData,
}

/// The UART link controller.
pub struct Usart6Controller {
    pub(crate) dma_tx: Option<DmaStream>,
    pub(crate) dma_rx: Option<DmaStream>,
    pub(crate) tx_buffer: [u8; DMA_BUFFER_LEN],
    pub(crate) rx_buffer: [u8; DMA_BUFFER_LEN],
    pub(crate) status: UsartStatus,
    pub(crate) commands: Vec<LinkCommand>,
}

/// What a [`Usart6Controller`] stands for.
pub struct Usart6View {
    /// The transmit stream; `None` where it was never set up.
    pub dma_tx: Option<DmaStream>,
    /// The receive stream; `None` where it was never set up.
    pub dma_rx: Option<DmaStream>,
    /// The hardware transmit buffer.
    pub tx_buffer: Seq<u8>,
    /// The hardware receive buffer.
    pub rx_buffer: Seq<u8>,
    /// The status register.
    pub status: UsartStatus,
    /// The commands recorded and not yet carried out, oldest first.
    pub commands: Seq<LinkCommand>,
}

impl Usart6View {
    /// The stream of one direction.
    pub open spec fn stream(self, direction: DmaDirection) -> Option<DmaStream> {
        match direction {
            DmaDirection::Rx => self.dma_rx,
            DmaDirection::Tx => self.dma_tx,
        }
    }

    /// This state with `command` recorded.
    pub open spec fn record(self, command: LinkCommand) -> Usart6View {
        Usart6View { commands: self.commands.push(command), ..self }
    }

    /// This state after the stream of one direction has been started.
    pub open spec fn start(self, direction: DmaDirection) -> Usart6View {
        match direction {
            DmaDirection::Rx => match self.dma_rx {
                Some(stream) => Usart6View { dma_rx: Some(stream.started()), ..self }.record(
                    LinkCommand::StartRx,
                ),
                None => self,
            },
            DmaDirection::Tx => match self.dma_tx {
                Some(stream) => Usart6View { dma_tx: Some(stream.started()), ..self }.record(
                    LinkCommand::StartTx,
                ),
                None => self,
            },
        }
    }

    /// This state after the fault flag of one direction has been cleared.
    pub open spec fn clear_fault(self, direction: DmaDirection) -> Usart6View {
        match direction {
            DmaDirection::Rx => match self.dma_rx {
                Some(stream) => Usart6View {
                    dma_rx: Some(stream.fault_cleared()),
                    ..self
                }.record(LinkCommand::ClearRxFault),
                None => self,
            },
            DmaDirection::Tx => match self.dma_tx {
                Some(stream) => Usart6View {
                    dma_tx: Some(stream.fault_cleared()),
                    ..self
                }.record(LinkCommand::ClearTxFault),
                None => self,
            },
        }
    }

    /// This state after the stream of one direction has been restarted: its
    /// fault flag cleared, then the stream started.
    pub open spec fn restart(self, direction: DmaDirection) -> Usart6View {
        self.clear_fault(direction).start(direction)
    }

    /// This state after the fault flags of both directions have been
    /// cleared, the receive direction first.
    pub open spec fn clear_errors(self) -> Usart6View {
        self.clear_fault(DmaDirection::Rx).clear_fault(DmaDirection::Tx)
    }

    /// This state after the completion flag of one direction has been
    /// cleared.
    pub open spec fn clear_complete(self, direction: DmaDirection) -> Usart6View {
        match direction {
            DmaDirection::Rx => match self.dma_rx {
                Some(stream) => Usart6View {
                    dma_rx: Some(stream.complete_cleared()),
                    ..self
                }.record(LinkCommand::ClearRxComplete),
                None => self,
            },
            DmaDirection::Tx => match self.dma_tx {
                Some(stream) => Usart6View {
                    dma_tx: Some(stream.complete_cleared()),
                    ..self
                }.record(LinkCommand::ClearTxComplete),
                None => self,
            },
        }
    }

    /// This state after the receive flag has been cleared, where `flags`
    /// names it and it is set: the data register is read.
    pub open spec fn clear_rxne(self, flags: u32) -> Usart6View {
        if flags & USART_FLAG_RXNE == USART_FLAG_RXNE && self.status.rxne {
            Usart6View { status: UsartStatus { rxne: false, ..self.status }, ..self }.record(
                LinkCommand::ReadData,
            )
        } else {
            self
        }
    }

    /// This state after the transmit-empty flag has been cleared, where
    /// `flags` names it and it is set: zero is written to the data register.
    pub open spec fn clear_txe(self, flags: u32) -> Usart6View {
        if flags & USART_FLAG_TXE == USART_FLAG_TXE && self.status.txe {
            Usart6View { status: UsartStatus { txe: false, ..self.status }, ..self }.record(
                LinkCommand::WriteData,
            )
        } else {
            self
        }
    }

    /// This state after the transmission-complete flag has been cleared,
    /// where `flags` names it and it is set: zero is written to the data
    /// register.
    pub open spec fn clear_tc(self, flags: u32) -> Usart6View {
        if flags & USART_FLAG_TC == USART_FLAG_TC && self.status.tc {
            Usart6View { status: UsartStatus { tc: false, ..self.status }, ..self }.record(
                LinkCommand::WriteData,
            )
        } else {
            self
        }
    }

    /// This state after the status flags that `flags` names have been
    /// cleared, each by its own sequence.
    pub open spec fn clear_usart_flags(self, flags: u32) -> Usart6View {
        self.clear_rxne(flags).clear_txe(flags).clear_tc(flags)
    }

    /// Number of bytes that the last receive transfer has stored: the
    /// buffer size less what the stream still had to move.
    pub open spec fn bytes_received(self) -> int {
        match self.dma_rx {
            Some(stream) => DMA_BUFFER_LEN - stream.remaining,
            None => 0,
        }
    }
}

impl View for Usart6Controller {
    type V = Usart6View;

    open(crate) spec fn view(&self) -> Usart6View {
        Usart6View {
            dma_tx: self.dma_tx,
            dma_rx: self.dma_rx,
            tx_buffer: self.tx_buffer@,
            rx_buffer: self.rx_buffer@,
            status: self.status,
            commands: self.commands@,
        }
    }
}

/// What a stream's answer is for a controller without that stream.
pub open spec fn stream_flag(stream: Option<DmaStream>, flag: spec_fn(DmaStream) -> bool) -> Result<
    bool,
    UsartError,
> {
    match stream {
        Some(s) => Ok(flag(s)),
        None => Err(UsartError::NotInitialized),
    }
}

impl Usart6Controller {
    /// The receive stream never has more left to move than the receive
    /// buffer holds.
    pub open(crate) spec fn wf(&self) -> bool {
        match self.dma_rx {
            Some(stream) => stream.remaining <= DMA_BUFFER_LEN,
            None => true,
        }
    }

    /// What validity says of the view, and the fixed size of the buffers.
    pub proof fn lemma_wf(&self)
        ensures
            self@.tx_buffer.len() == DMA_BUFFER_LEN,
            self@.rx_buffer.len() == DMA_BUFFER_LEN,
            self.wf() <==> (self@.dma_rx matches Some(stream) ==> stream.remaining
                <= DMA_BUFFER_LEN),
            self.wf() ==> 0 <= self@.bytes_received() <= DMA_BUFFER_LEN,
    {
    }

    /// Creates the controller with the given streams, `None` for a stream
    /// that could not be set up. The buffers are zeroed, no status flag is
    /// set, and no command is recorded.
    pub fn new(dma_tx: Option<DmaStream>, dma_rx: Option<DmaStream>) -> (usart: Self)
        requires
            dma_rx matches Some(stream) ==> stream.remaining <= DMA_BUFFER_LEN,
        ensures
            usart.wf(),
            usart@.dma_tx == dma_tx,
            usart@.dma_rx == dma_rx,
            usart@.status == (UsartStatus { rxne: false, txe: false, tc: false }),
            usart@.commands == Seq::<LinkCommand>::empty(),
            forall|i: int| 0 <= i < DMA_BUFFER_LEN ==> usart@.tx_buffer[i] == 0,
            forall|i: int| 0 <= i < DMA_BUFFER_LEN ==> usart@.rx_buffer[i] == 0,
    {
        Usart6Controller {
            dma_tx,
            dma_rx,
            tx_buffer: [0u8; DMA_BUFFER_LEN],
            rx_buffer: [0u8; DMA_BUFFER_LEN],
            status: UsartStatus { rxne: false, txe: false, tc: false },
            commands: Vec::new(),
        }
    }

    /// Stores what the hardware shows of the status register.
    pub fn observe_status(&mut self, status: UsartStatus)
        ensures
            final(self).wf() == old(self).wf(),
            final(self)@ == (Usart6View { status, ..old(self)@ }),
    {
        self.status = status;
    }

    /// Stores what the hardware shows of the transmit stream. A controller
    /// without that stream stays as it is.
    pub fn observe_tx(&mut self, stream: DmaStream)
        ensures
            final(self).wf() == old(self).wf(),
            old(self)@.dma_tx is Some ==> final(self)@ == (Usart6View {
                dma_tx: Some(stream),
                ..old(self)@
            }),
            old(self)@.dma_tx is None ==> final(self)@ == old(self)@,
    {
        if self.dma_tx.is_some() {
            self.dma_tx = Some(stream);
        }
    }

    /// Stores what the hardware shows of the receive stream and of the
    /// receive buffer. A controller without that stream stays as it is.
    pub fn observe_rx(&mut self, stream: DmaStream, received: &[u8; DMA_BUFFER_LEN])
        requires
            stream.remaining <= DMA_BUFFER_LEN,
        ensures
            old(self).wf() ==> final(self).wf(),
            old(self)@.dma_rx is Some ==> final(self)@ == (Usart6View {
                dma_rx: Some(stream),
                rx_buffer: received@,
                ..old(self)@
            }),
            old(self)@.dma_rx is None ==> final(self)@ == old(self)@,
    {
        if self.dma_rx.is_some() {
            self.dma_rx = Some(stream);
            copy_run(&mut self.rx_buffer, 0, received, 0, DMA_BUFFER_LEN);
            assert(self.rx_buffer@ =~= received@);
        }
    }

    /// Hands out the recorded commands, oldest first, and forgets them.
    pub fn take_commands(&mut self) -> (commands: Vec<LinkCommand>)
        ensures
            final(self).wf() == old(self).wf(),
            commands@ == old(self)@.commands,
            final(self)@ == (Usart6View { commands: Seq::empty(), ..old(self)@ }),
    {
        let mut taken: Vec<LinkCommand> = Vec::new();
        let mut i: usize = 0;
        while i < self.commands.len()
            invariant
                i <= self.commands@.len(),
                *self == *old(self),
                taken@ == self.commands@.subrange(0, i as int),
            decreases self.commands@.len() - i,
        {
            taken.push(self.commands[i]);
            assert(taken@ =~= self.commands@.subrange(0, i + 1));
            i += 1;
        }
        assert(taken@ =~= self.commands@);
        self.commands = Vec::new();
        taken
    }

    /// Starts the transmit stream.
    pub fn start_dma_tx(&mut self) -> (result: Result<(), UsartError>)
        ensures
            final(self).wf() == old(self).wf(),
            final(self)@ == old(self)@.start(DmaDirection::Tx),
            old(self)@.dma_tx is Some ==> result is Ok,
            old(self)@.dma_tx is None ==> result == Err::<(), UsartError>(
                UsartError::NotInitialized,
            ),
    {
        match self.dma_tx {
            Some(stream) => {
                self.dma_tx = Some(DmaStream { enabled: true, ..stream });
                self.commands.push(LinkCommand::StartTx);
                Ok(())
            },
            None => Err(UsartError::NotInitialized),
        }
    }

    /// Starts the receive stream.
    pub fn start_dma_rx(&mut self) -> (result: Result<(), UsartError>)
        ensures
            final(self).wf() == old(self).wf(),
            final(self)@ == old(self)@.start(DmaDirection::Rx),
            old(self)@.dma_rx is Some ==> result is Ok,
            old(self)@.dma_rx is None ==> result == Err::<(), UsartError>(
                UsartError::NotInitialized,
            ),
    {
        match self.dma_rx {
            Some(stream) => {
                self.dma_rx = Some(DmaStream { enabled: true, ..stream });
                self.commands.push(LinkCommand::StartRx);
                Ok(())
            },
            None => Err(UsartError::NotInitialized),
        }
    }

    /// Restarts the receive stream: clears its fault flag and starts it.
    pub fn restart_dma_rx(&mut self) -> (result: Result<(), UsartError>)
        ensures
            final(self).wf() == old(self).wf(),
            final(self)@ == old(self)@.restart(DmaDirection::Rx),
            old(self)@.dma_rx is Some ==> result is Ok,
            old(self)@.dma_rx is None ==> result == Err::<(), UsartError>(
                UsartError::NotInitialized,
            ),
    {
        match self.dma_rx {
            Some(stream) => {
                self.dma_rx = Some(DmaStream { transfer_error: false, enabled: true, ..stream });
                self.commands.push(LinkCommand::ClearRxFault);
                self.commands.push(LinkCommand::StartRx);
                Ok(())
            },
            None => Err(UsartError::NotInitialized),
        }
    }

    /// Restarts the transmit stream: clears its fault flag and starts it.
    pub fn restart_dma_tx(&mut self) -> (result: Result<(), UsartError>)
        ensures
            final(self).wf() == old(self).wf(),
            final(self)@ == old(self)@.restart(DmaDirection::Tx),
            old(self)@.dma_tx is Some ==> result is Ok,
            old(self)@.dma_tx is None ==> result == Err::<(), UsartError>(
                UsartError::NotInitialized,
            ),
    {
        match self.dma_tx {
            Some(stream) => {
                self.dma_tx = Some(DmaStream { transfer_error: false, enabled: true, ..stream });
                self.commands.push(LinkCommand::ClearTxFault);
                self.commands.push(LinkCommand::StartTx);
                Ok(())
            },
            None => Err(UsartError::NotInitialized),
        }
    }

    /// Issues a transmit transfer of the transmit buffer.
    pub fn write_dma(&mut self) -> (result: Result<(), UsartError>)
        ensures
            final(self).wf() == old(self).wf(),
            final(self)@ == old(self)@.restart(DmaDirection::Tx),
            old(self)@.dma_tx is Some ==> result is Ok,
            old(self)@.dma_tx is None ==> result == Err::<(), UsartError>(
                UsartError::NotInitialized,
            ),
    {
        self.restart_dma_tx()
    }

    /// Issues a receive transfer sized to the whole receive buffer.
    pub fn read_dma(&mut self) -> (result: Result<(), UsartError>)
        ensures
            final(self).wf() == old(self).wf(),
            final(self)@ == old(self)@.restart(DmaDirection::Rx),
            old(self)@.dma_rx is Some ==> result is Ok,
            old(self)@.dma_rx is None ==> result == Err::<(), UsartError>(
                UsartError::NotInitialized,
            ),
    {
        self.restart_dma_rx()
    }

    /// Whether the receive stream has faulted.
    pub fn check_dma_rx_error(&mut self) -> (result: Result<bool, UsartError>)
        ensures
            *final(self) == *old(self),
            result == stream_flag(old(self)@.dma_rx, |s: DmaStream| s.transfer_error),
    {
        match self.dma_rx {
            Some(stream) => Ok(stream.transfer_error),
            None => Err(UsartError::NotInitialized),
        }
    }

    /// Whether the transmit stream has faulted.
    pub fn check_dma_tx_error(&mut self) -> (result: Result<bool, UsartError>)
        ensures
            *final(self) == *old(self),
            result == stream_flag(old(self)@.dma_tx, |s: DmaStream| s.transfer_error),
    {
        match self.dma_tx {
            Some(stream) => Ok(stream.transfer_error),
            None => Err(UsartError::NotInitialized),
        }
    }

    /// Whether the transmit transfer has completed.
    pub fn is_dma_tx_complete(&self) -> (result: Result<bool, UsartError>)
        ensures
            result == stream_flag(self@.dma_tx, |s: DmaStream| s.transfer_complete),
    {
        match self.dma_tx {
            Some(stream) => Ok(stream.transfer_complete),
            None => Err(UsartError::NotInitialized),
        }
    }

    /// Whether the receive transfer has completed.
    pub fn is_dma_rx_complete(&self) -> (result: Result<bool, UsartError>)
        ensures
            result == stream_flag(self@.dma_rx, |s: DmaStream| s.transfer_complete),
    {
        match self.dma_rx {
            Some(stream) => Ok(stream.transfer_complete),
            None => Err(UsartError::NotInitialized),
        }
    }

    /// The start of the receive buffer, `length` bytes of it or all of it if
    /// `length` is more.
    pub fn get_rx_buffer_slice(&self, length: usize) -> (slice: Option<&[u8]>)
        ensures
            slice is Some,
            slice->Some_0@ == self@.rx_buffer.subrange(
                0,
                vstd::math::min(length as int, DMA_BUFFER_LEN as int),
            ),
    {
        let len = if length < DMA_BUFFER_LEN {
            length
        } else {
            DMA_BUFFER_LEN
        };
        Some(vstd::slice::slice_subrange(self.rx_buffer.as_slice(), 0, len))
    }

    /// The start of the transmit buffer, `length` bytes of it or all of it
    /// if `length` is more, for writing.
    pub fn get_tx_buffer_slice(&mut self, length: usize) -> (slice: Option<&mut [u8]>)
        ensures
            slice is Some,
            slice->Some_0@ == old(self)@.tx_buffer.subrange(
                0,
                vstd::math::min(length as int, DMA_BUFFER_LEN as int),
            ),
            final(self).wf() == old(self).wf(),
            final(self)@ == (Usart6View {
                tx_buffer: final(slice->Some_0)@ + old(self)@.tx_buffer.subrange(
                    vstd::math::min(length as int, DMA_BUFFER_LEN as int),
                    DMA_BUFFER_LEN as int,
                ),
                ..old(self)@
            }),
    {
        let len = if length < DMA_BUFFER_LEN {
            length
        } else {
            DMA_BUFFER_LEN
        };
        let (head, _tail) = self.tx_buffer.split_at_mut(len);
        Some(head)
    }

    /// Clears the fault flags of both streams.
    pub fn clear_errors(&mut self)
        ensures
            final(self).wf() == old(self).wf(),
            final(self)@ == old(self)@.clear_errors(),
    {
        if let Some(stream) = self.dma_rx {
            self.dma_rx = Some(DmaStream { transfer_error: false, ..stream });
            self.commands.push(LinkCommand::ClearRxFault);
        }
        if let Some(stream) = self.dma_tx {
            self.dma_tx = Some(DmaStream { transfer_error: false, ..stream });
            self.commands.push(LinkCommand::ClearTxFault);
        }
    }

    /// Clears the completion flag of the transmit stream.
    pub fn clear_dma_tx_complete_flag(&mut self)
        ensures
            final(self).wf() == old(self).wf(),
            final(self)@ == old(self)@.clear_complete(DmaDirection::Tx),
    {
        if let Some(stream) = self.dma_tx {
            self.dma_tx = Some(DmaStream { transfer_complete: false, ..stream });
            self.commands.push(LinkCommand::ClearTxComplete);
        }
    }

    /// Clears the completion flag of the receive stream.
    pub fn clear_dma_rx_complete_flag(&mut self)
        ensures
            final(self).wf() == old(self).wf(),
            final(self)@ == old(self)@.clear_complete(DmaDirection::Rx),
    {
        if let Some(stream) = self.dma_rx {
            self.dma_rx = Some(DmaStream { transfer_complete: false, ..stream });
            self.commands.push(LinkCommand::ClearRxComplete);
        }
    }

    /// Whether a received byte waits in the data register.
    pub fn is_rx_not_empty(&self) -> (yes: bool)
        ensures
            yes == self@.status.rxne,
    {
        self.status.rxne
    }

    /// Whether the data register can take a byte to send.
    pub fn is_tx_empty(&self) -> (yes: bool)
        ensures
            yes == self@.status.txe,
    {
        self.status.txe
    }

    /// Whether the last byte has left the shift register.
    pub fn is_transmission_complete(&self) -> (yes: bool)
        ensures
            yes == self@.status.tc,
    {
        self.status.tc
    }

    /// Clears the status flags that `flags` names and that are set, each by
    /// its own sequence on the data register.
    pub fn clear_usart_flags(&mut self, flags: UsartFlag)
        ensures
            final(self).wf() == old(self).wf(),
            final(self)@ == old(self)@.clear_usart_flags(flags@),
    {
        let status = self.status;
        if flags.contains(UsartFlag::rxne()) && status.rxne {
            self.status.rxne = false;
            self.commands.push(LinkCommand::ReadData);
        }
        if flags.contains(UsartFlag::txe()) && status.txe {
            self.status.txe = false;
            self.commands.push(LinkCommand::WriteData);
        }
        if flags.contains(UsartFlag::tc()) && status.tc {
            self.status.tc = false;
            self.commands.push(LinkCommand::WriteData);
        }
    }

    /// Whether no receive transfer is in flight.
    pub fn is_dma_rx_is_idle(&self) -> (result: Result<bool, UsartError>)
        ensures
            result == stream_flag(self@.dma_rx, |s: DmaStream| !s.enabled),
    {
        match self.dma_rx {
            Some(stream) => Ok(!stream.enabled),
            None => Err(UsartError::NotInitialized),
        }
    }

    /// Number of bytes that the transmit buffer can take: all of it once
    /// the transmit transfer has completed, none before.
    pub fn available_data(&mut self) -> (space: usize)
        ensures
            *final(self) == *old(self),
            space == if old(self)@.dma_tx matches Some(stream) && stream.transfer_complete {
                DMA_BUFFER_LEN
            } else {
                0
            },
    {
        match self.is_dma_tx_complete() {
            Ok(complete) => if complete {
                DMA_BUFFER_LEN
            } else {
                0
            },
            Err(_) => 0,
        }
    }

    /// Number of items that the receive stream still has to move.
    pub fn get_dma_rx_length(&mut self) -> (result: Result<usize, UsartError>)
        ensures
            *final(self) == *old(self),
            old(self)@.dma_rx matches Some(stream) ==> result == Ok::<usize, UsartError>(
                stream.remaining as usize,
            ),
            old(self)@.dma_rx is None ==> result == Err::<usize, UsartError>(
                UsartError::NotInitialized,
            ),
    {
        match self.dma_rx {
            Some(stream) => Ok(stream.remaining as usize),
            None => Err(UsartError::NotInitialized),
        }
    }
}

} // verus!
