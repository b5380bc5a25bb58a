//! The link transfer logic: moves bytes between the ring buffers and the
//! hardware transfer buffers, and recovers from transfer faults within a
//! bounded number of retries.

use vstd::prelude::*;

use crate::config::DMA_BUFFER_LEN;
use crate::errors::DmaError;
use crate::fixed_vec::fixed_vec_as_slice;
use crate::peripherals::otg_fs::staged;
use crate::peripherals::usart_6::{
    DmaDirection, Usart6Controller, Usart6View, UsartFlag, USART_FLAG_RXNE,
};
use crate::ring_buffer::{after_pop, after_push, popped_by, push_fits, RingBuffer};
use crate::utils::bytes::copy_run;

verus! {

/// Number of consecutive faults of one direction that are recovered from.
pub const MAX_RETRY_COUNT: u8 = 3;

/// The fault counter after one more fault has been counted, saturating.
pub open spec fn counted(retry_count: u8) -> u8 {
    if retry_count == u8::MAX {
        u8::MAX
    } else {
        (retry_count + 1) as u8
    }
}

/// Whether one more fault is still recovered from.
pub open spec fn fault_tolerated(retry_count: u8) -> bool {
    counted(retry_count) <= MAX_RETRY_COUNT
}

/// The fault counter after one more fault: the new count while the fault is
/// tolerated, zero once the limit is exceeded.
pub open spec fn after_fault(retry_count: u8) -> u8 {
    if fault_tolerated(retry_count) {
        counted(retry_count)
    } else {
        0
    }
}

/// The fault counter after `faults` consecutive faults.
pub open spec fn after_faults(retry_count: u8, faults: nat) -> u8
    decreases faults,
{
    if faults == 0 {
        retry_count
    } else {
        after_fault(after_faults(retry_count, (faults - 1) as nat))
    }
}

/// The retry cap. From a counter at zero, the first three consecutive
/// faults of a direction are tolerated; the fourth exceeds the limit and
/// leaves the counter at zero, so that the faults after it get the full
/// allowance again. The counter never exceeds the limit.
pub proof fn lemma_retry_cap()
    ensures
        fault_tolerated(after_faults(0, 0)),
        fault_tolerated(after_faults(0, 1)),
        fault_tolerated(after_faults(0, 2)),
        !fault_tolerated(after_faults(0, 3)),
        after_faults(0, 4) == 0,
        forall|retry_count: u8| #[trigger] after_fault(retry_count) <= MAX_RETRY_COUNT,
        forall|retry_count: u8|
            retry_count <= MAX_RETRY_COUNT ==> (#[trigger] fault_tolerated(retry_count)
                <==> retry_count < MAX_RETRY_COUNT),
{
    reveal_with_fuel(after_faults, 5);
}

/// What the recovery of one direction's stream leaves: the fault flags of
/// both directions cleared, then that stream restarted.
pub open spec fn recovered(usart: Usart6View, direction: DmaDirection) -> Usart6View {
    usart.clear_errors().restart(direction)
}

/// The link after the fault check of one direction: untouched without a
/// fault or beyond the retry limit, recovered otherwise.
pub open spec fn after_fault_check(
    usart: Usart6View,
    retry_count: u8,
    direction: DmaDirection,
) -> Usart6View {
    if has_fault(usart, direction) && fault_tolerated(retry_count) {
        recovered(usart, direction)
    } else {
        usart
    }
}

/// The counter after the fault check of one direction.
pub open spec fn counter_after_check(
    usart: Usart6View,
    retry_count: u8,
    direction: DmaDirection,
) -> u8 {
    if has_fault(usart, direction) {
        after_fault(retry_count)
    } else {
        retry_count
    }
}

/// Whether the stream of one direction exists and shows a transfer fault.
pub open spec fn has_fault(usart: Usart6View, direction: DmaDirection) -> bool {
    match usart.stream(direction) {
        Some(stream) => stream.transfer_error,
        None => false,
    }
}

/// What the fault handling of the link leaves behind.
pub struct FaultCheck {
    /// The link controller.
    pub usart: Usart6View,
    /// The fault counter of the receive direction.
    pub rx_retry_count: u8,
    /// The fault counter of the transmit direction.
    pub tx_retry_count: u8,
    /// What the handling returns.
    pub result: Result<(), DmaError>,
}

/// The fault handling of the link: the receive direction is checked and
/// recovered first, then the transmit direction as the first recovery left
/// it, then the receive flag is cleared. A fault beyond the retry limit
/// ends the handling at once.
pub open spec fn usart_error_check(
    usart: Usart6View,
    rx_retry_count: u8,
    tx_retry_count: u8,
) -> FaultCheck {
    let rx_count = counter_after_check(usart, rx_retry_count, DmaDirection::Rx);
    if has_fault(usart, DmaDirection::Rx) && !fault_tolerated(rx_retry_count) {
        FaultCheck {
            usart,
            rx_retry_count: rx_count,
            tx_retry_count,
            result: Err(DmaError::RetryLimitExceeded),
        }
    } else {
        let checked = after_fault_check(usart, rx_retry_count, DmaDirection::Rx);
        let tx_count = counter_after_check(checked, tx_retry_count, DmaDirection::Tx);
        if has_fault(checked, DmaDirection::Tx) && !fault_tolerated(tx_retry_count) {
            FaultCheck {
                usart: checked,
                rx_retry_count: rx_count,
                tx_retry_count: tx_count,
                result: Err(DmaError::RetryLimitExceeded),
            }
        } else {
            FaultCheck {
                usart: after_fault_check(
                    checked,
                    tx_retry_count,
                    DmaDirection::Tx,
                ).clear_usart_flags(USART_FLAG_RXNE),
                rx_retry_count: rx_count,
                tx_retry_count: tx_count,
                result: Ok(()),
            }
        }
    }
}

/// Whether a send of `bytes_processed` bytes asks both for more than a
/// hardware buffer holds and for more than the ring buffer holds.
pub open spec fn tx_underflow(tx: Seq<u8>, bytes_processed: usize) -> bool {
    bytes_processed > DMA_BUFFER_LEN && tx.len() < bytes_processed
}

/// Number of bytes that a send of `bytes_processed` bytes asks the ring
/// buffer for: the request, cut to the size of a hardware buffer.
pub open spec fn tx_request(bytes_processed: usize) -> nat {
    if bytes_processed < DMA_BUFFER_LEN {
        bytes_processed as nat
    } else {
        DMA_BUFFER_LEN as nat
    }
}

/// What a send of `bytes_processed` bytes returns.
pub open spec fn dma_tx_result(usart: Usart6View, tx: Seq<u8>, bytes_processed: usize) -> Result<
    (),
    DmaError,
> {
    if tx_underflow(tx, bytes_processed) {
        Err(DmaError::BufferUnderflow)
    } else if usart.dma_tx is None {
        Err(DmaError::WriteError)
    } else {
        Ok(())
    }
}

/// The link controller after a send of `bytes_processed` bytes: the bytes
/// extracted staged in the transmit buffer, then the transfer issued and its
/// completion flag cleared, or, without a transmit stream, the fault flags
/// cleared.
pub open spec fn usart_after_dma_tx(
    usart: Usart6View,
    tx: Seq<u8>,
    bytes_processed: usize,
) -> Usart6View {
    if tx_underflow(tx, bytes_processed) {
        usart
    } else {
        let loaded = Usart6View {
            tx_buffer: staged(usart.tx_buffer, popped_by(tx, tx_request(bytes_processed))),
            ..usart
        };
        if usart.dma_tx is Some {
            loaded.restart(DmaDirection::Tx).clear_complete(DmaDirection::Tx)
        } else {
            loaded.clear_errors()
        }
    }
}

/// The transmit ring buffer after a send of `bytes_processed` bytes.
pub open spec fn tx_after_dma_tx(tx: Seq<u8>, bytes_processed: usize) -> Seq<u8> {
    if tx_underflow(tx, bytes_processed) {
        tx
    } else {
        after_pop(tx, tx_request(bytes_processed))
    }
}

/// The bytes that the last receive transfer stored.
pub open spec fn rx_received(usart: Usart6View) -> Seq<u8> {
    usart.rx_buffer.subrange(0, usart.bytes_received())
}

/// What a harvest of the receive direction returns.
pub open spec fn dma_rx_result(usart: Usart6View, rx: Seq<u8>) -> Result<(), DmaError> {
    if usart.dma_rx is None {
        Err(DmaError::ReadError)
    } else if push_fits(rx, rx_received(usart)) {
        Ok(())
    } else {
        Err(DmaError::BufferOverflow)
    }
}

/// The link controller after a harvest of the receive direction: the
/// receive transfer reissued and the receive flag cleared, and, once the
/// bytes are stored, the completion flag cleared; without a receive stream,
/// the fault flags cleared.
pub open spec fn usart_after_dma_rx(usart: Usart6View, rx: Seq<u8>) -> Usart6View {
    if usart.dma_rx is None {
        usart.clear_errors()
    } else {
        let harvested = usart.restart(DmaDirection::Rx).clear_usart_flags(USART_FLAG_RXNE);
        if push_fits(rx, rx_received(usart)) {
            harvested.clear_complete(DmaDirection::Rx)
        } else {
            harvested
        }
    }
}

/// The receive ring buffer after a harvest of the receive direction.
pub open spec fn rx_after_dma_rx(usart: Usart6View, rx: Seq<u8>) -> Seq<u8> {
    if usart.dma_rx is None {
        rx
    } else {
        after_push(rx, rx_received(usart))
    }
}

/// Checks both directions for a transfer fault and recovers from each
/// within the retry limit, the receive direction first; then clears the
/// receive flag.
///
/// Each direction has its own counter of consecutive faults. A fault beyond
/// the limit ends the handling at once with `RetryLimitExceeded`, its
/// counter back at zero.
pub fn handle_usart_error(
    usart: &mut Usart6Controller,
    rx_retry_count: &mut u8,
    tx_retry_count: &mut u8,
) -> (result: Result<(), DmaError>)
    ensures
        final(usart).wf() == old(usart).wf(),
        ({
            let check = usart_error_check(
                old(usart)@,
                *old(rx_retry_count),
                *old(tx_retry_count),
            );
            &&& result == check.result
            &&& final(usart)@ == check.usart
            &&& *final(rx_retry_count) == check.rx_retry_count
            &&& *final(tx_retry_count) == check.tx_retry_count
        }),
{
    let rx_fault = match usart.check_dma_rx_error() {
        Ok(fault) => fault,
        Err(_) => false,
    };
    if rx_fault {
        handle_error_condition(usart, rx_retry_count, DmaDirection::Rx)?;
    }
    let tx_fault = match usart.check_dma_tx_error() {
        Ok(fault) => fault,
        Err(_) => false,
    };
    if tx_fault {
        handle_error_condition(usart, tx_retry_count, DmaDirection::Tx)?;
    }
    usart.clear_usart_flags(UsartFlag::rxne());
    Ok(())
}

/// Sends up to `bytes_processed` bytes from the transmit ring buffer over
/// the link: moves the oldest of them, at most a hardware buffer full, into
/// the hardware transmit buffer and issues the transfer.
pub fn handle_dma_tx(
    usart: &mut Usart6Controller,
    tx: &mut RingBuffer,
    bytes_processed: usize,
) -> (result: Result<(), DmaError>)
    requires
        old(tx).wf(),
    ensures
        final(tx).wf(),
        final(usart).wf() == old(usart).wf(),
        result == dma_tx_result(old(usart)@, old(tx)@, bytes_processed),
        final(usart)@ == usart_after_dma_tx(old(usart)@, old(tx)@, bytes_processed),
        final(tx)@ == tx_after_dma_tx(old(tx)@, bytes_processed),
        tx_underflow(old(tx)@, bytes_processed) ==> *final(tx) == *old(tx) && *final(usart)
            == *old(usart),
{
    let mut buffer = [0u8; DMA_BUFFER_LEN];
    let data = prepare_tx_data(tx, bytes_processed, &mut buffer)?;
    transfer_to_dma(usart, data)?;
    usart.clear_dma_tx_complete_flag();
    Ok(())
}

/// Harvests what the link has received: restarts the receive transfer and
/// moves the bytes that the last one stored from the hardware receive
/// buffer into the receive ring buffer.
pub fn handle_dma_rx(usart: &mut Usart6Controller, rx: &mut RingBuffer) -> (result: Result<
    (),
    DmaError,
>)
    requires
        old(usart).wf(),
        old(rx).wf(),
    ensures
        final(usart).wf(),
        final(rx).wf(),
        result == dma_rx_result(old(usart)@, old(rx)@),
        final(usart)@ == usart_after_dma_rx(old(usart)@, old(rx)@),
        final(rx)@ == rx_after_dma_rx(old(usart)@, old(rx)@),
        result is Err ==> *final(rx) == *old(rx),
{
    let mut buffer = [0u8; DMA_BUFFER_LEN];
    let data = read_from_dma(usart, &mut buffer)?;
    store_to_buffer(rx, data)?;
    usart.clear_dma_rx_complete_flag();
    Ok(())
}

/// Counts one fault of a direction and recovers from it: within the retry
/// limit the fault flags are cleared and the direction's transfer is
/// restarted; beyond it the counter goes back to zero and the link is left
/// alone.
pub fn handle_error_condition(
    usart: &mut Usart6Controller,
    retry_count: &mut u8,
    direction: DmaDirection,
) -> (result: Result<(), DmaError>)
    ensures
        final(usart).wf() == old(usart).wf(),
        *final(retry_count) == after_fault(*old(retry_count)),
        !fault_tolerated(*old(retry_count)) ==> result == Err::<(), DmaError>(
            DmaError::RetryLimitExceeded,
        ) && *final(usart) == *old(usart),
        fault_tolerated(*old(retry_count)) ==> final(usart)@ == recovered(old(usart)@, direction)
            && (old(usart)@.stream(direction) is Some ==> result is Ok) && (old(usart)@.stream(
            direction,
        ) is None ==> result == Err::<(), DmaError>(DmaError::InitError)),
{
    *retry_count = retry_count.saturating_add(1);

    if *retry_count > MAX_RETRY_COUNT {
        *retry_count = 0;
        return Err(DmaError::RetryLimitExceeded);
    }
    usart.clear_errors();
    let restarted = match direction {
        DmaDirection::Rx => usart.restart_dma_rx(),
        DmaDirection::Tx => usart.restart_dma_tx(),
    };
    match restarted {
        Ok(()) => Ok(()),
        Err(_) => Err(DmaError::InitError),
    }
}

/// Extracts up to `bytes_processed` bytes from the transmit ring buffer into
/// the start of `buffer`: the oldest bytes, at most a hardware buffer full
/// and at most what the ring buffer holds.
///
/// Fails, taking nothing, exactly when more is asked for than both a
/// hardware buffer and the ring buffer hold.
pub fn prepare_tx_data<'a>(
    tx: &mut RingBuffer,
    bytes_processed: usize,
    buffer: &'a mut [u8; DMA_BUFFER_LEN],
) -> (result: Result<&'a [u8], DmaError>)
    requires
        old(tx).wf(),
    ensures
        final(tx).wf(),
        tx_underflow(old(tx)@, bytes_processed) ==> result is Err && result->Err_0
            == DmaError::BufferUnderflow && *final(tx) == *old(tx)
            && final(buffer)@ == old(buffer)@,
        !tx_underflow(old(tx)@, bytes_processed) ==> result is Ok && result->Ok_0@ == popped_by(
            old(tx)@,
            tx_request(bytes_processed),
        ) && final(tx)@ == after_pop(old(tx)@, tx_request(bytes_processed)) && final(buffer)@
            == staged(old(buffer)@, result->Ok_0@),
{
    if bytes_processed > DMA_BUFFER_LEN && tx.len() < bytes_processed {
        return Err(DmaError::BufferUnderflow);
    }
    let request = if bytes_processed < DMA_BUFFER_LEN {
        bytes_processed
    } else {
        DMA_BUFFER_LEN
    };
    let data = tx.pop_n(request);
    let bytes = fixed_vec_as_slice(&data);
    let extracted = bytes.len();
    copy_run(buffer, 0, bytes, 0, extracted);
    let whole: &'a [u8] = buffer;
    let prepared = vstd::slice::slice_subrange(whole, 0, extracted);
    proof {
        assert(prepared@ =~= popped_by(old(tx)@, tx_request(bytes_processed)));
        assert(whole@ =~= staged(old(buffer)@, prepared@));
    }
    Ok(prepared)
}

/// Moves `data` into the hardware transmit buffer and issues the transmit
/// transfer. Where the transfer cannot be issued, the fault flags are
/// cleared and the write fails.
pub fn transfer_to_dma(usart: &mut Usart6Controller, data: &[u8]) -> (result: Result<(), DmaError>)
    requires
        data@.len() <= DMA_BUFFER_LEN,
    ensures
        final(usart).wf() == old(usart).wf(),
        ({
            let loaded = Usart6View {
                tx_buffer: staged(old(usart)@.tx_buffer, data@),
                ..old(usart)@
            };
            &&& old(usart)@.dma_tx is Some ==> result is Ok && final(usart)@ == loaded.restart(
                DmaDirection::Tx,
            )
            &&& old(usart)@.dma_tx is None ==> result == Err::<(), DmaError>(DmaError::WriteError)
                && final(usart)@ == loaded.clear_errors()
        }),
{
    let ghost before = usart@;
    match usart.get_tx_buffer_slice(data.len()) {
        Some(buffer) => {
            copy_run(buffer, 0, data, 0, data.len());
            assert(buffer@ =~= data@);
        },
        None => {
            return Err(DmaError::WriteError);
        },
    }
    proof {
        usart.lemma_wf();
        assert(usart@.tx_buffer =~= staged(before.tx_buffer, data@));
    }
    match usart.write_dma() {
        Ok(()) => Ok(()),
        Err(_) => {
            usart.clear_errors();
            Err(DmaError::WriteError)
        },
    }
}

/// Issues the receive transfer, clears the receive flag, and copies the
/// bytes that the last transfer stored into the start of `buffer`. Their
/// number is the hardware buffer size less what the stream still had to
/// move.
pub fn read_from_dma<'a>(
    usart: &mut Usart6Controller,
    buffer: &'a mut [u8; DMA_BUFFER_LEN],
) -> (result: Result<&'a [u8], DmaError>)
    requires
        old(usart).wf(),
    ensures
        final(usart).wf(),
        old(usart)@.dma_rx is None ==> result is Err && result->Err_0 == DmaError::ReadError
            && final(usart)@ == old(usart)@.clear_errors() && final(buffer)@ == old(buffer)@,
        old(usart)@.dma_rx is Some ==> result is Ok && result->Ok_0@ == rx_received(old(usart)@)
            && final(usart)@ == old(usart)@.restart(DmaDirection::Rx).clear_usart_flags(
            USART_FLAG_RXNE,
        ) && final(buffer)@ == staged(old(buffer)@, result->Ok_0@),
{
    match usart.read_dma() {
        Ok(()) => {},
        Err(_) => {
            usart.clear_errors();
            return Err(DmaError::ReadError);
        },
    }
    usart.clear_usart_flags(UsartFlag::rxne());

    let remaining = match usart.get_dma_rx_length() {
        Ok(remaining) => remaining,
        Err(_) => {
            return Err(DmaError::ReadError);
        },
    };
    let bytes_received = DMA_BUFFER_LEN - remaining;
    let data = match usart.get_rx_buffer_slice(bytes_received) {
        Some(data) => data,
        None => {
            return Err(DmaError::ReadError);
        },
    };
    copy_run(buffer, 0, data, 0, bytes_received);
    let whole: &'a [u8] = buffer;
    let received = vstd::slice::slice_subrange(whole, 0, bytes_received);
    proof {
        assert(received@ =~= data@);
        assert(whole@ =~= staged(old(buffer)@, received@));
    }
    Ok(received)
}

/// Appends received bytes to the receive ring buffer, whole or not at all.
pub fn store_to_buffer(rx: &mut RingBuffer, data: &[u8]) -> (result: Result<(), DmaError>)
    requires
        old(rx).wf(),
    ensures
        final(rx).wf(),
        final(rx)@ == after_push(old(rx)@, data@),
        push_fits(old(rx)@, data@) ==> result is Ok,
        !push_fits(old(rx)@, data@) ==> result == Err::<(), DmaError>(DmaError::BufferOverflow)
            && *final(rx) == *old(rx),
{
    match rx.push(data) {
        Ok(()) => Ok(()),
        Err(_) => Err(DmaError::BufferOverflow),
    }
}

} // verus!
