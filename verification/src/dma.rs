//! The DMA lessons: how a stream's interrupt status flags are answered.

use vstd::prelude::*;

verus! {

/// A stream's interrupt status flags.
#[derive(Clone, Copy, Debug)]
pub struct DmaFlags {
    /// FEIF: FIFO error.
    pub fifo_error: bool,
    /// TEIF: transfer error.
    pub transfer_error: bool,
    /// HTIF: half of the data has been transferred.
    pub half_transfer: bool,
    /// TCIF: the transfer is complete.
    pub transfer_complete: bool,
}

/// An error that stops the lesson.
#[derive(Clone, Copy, Debug, PartialEq, Eq, Structural)]
pub enum DmaFault {
    Fifo,
    Transfer,
}

/// Progress to report and acknowledge: both may come in one interrupt.
#[derive(Clone, Copy, Debug, PartialEq, Eq, Structural)]
pub struct DmaProgress {
    pub half_transfer: bool,
    pub transfer_complete: bool,
}

/// The answer to a stream interrupt: a FIFO error, then a transfer error, is fatal (its
/// flag is cleared and the lesson halts); otherwise the half-transfer and complete flags
/// are cleared and reported.
pub fn stream_outcome(flags: DmaFlags) -> (outcome: Result<DmaProgress, DmaFault>)
    ensures
        flags.fifo_error ==> outcome == Err::<DmaProgress, DmaFault>(DmaFault::Fifo),
        !flags.fifo_error && flags.transfer_error ==> outcome == Err::<DmaProgress, DmaFault>(
            DmaFault::Transfer,
        ),
        !flags.fifo_error && !flags.transfer_error ==> outcome == Ok::<DmaProgress, DmaFault>(
            DmaProgress {
                half_transfer: flags.half_transfer,
                transfer_complete: flags.transfer_complete,
            },
        ),
{
    if flags.fifo_error {
        return Err(DmaFault::Fifo);
    }
    if flags.transfer_error {
        return Err(DmaFault::Transfer);
    }
    Ok(DmaProgress { half_transfer: flags.half_transfer, transfer_complete: flags.transfer_complete })
}

/// The answer of the polling memory-to-memory lesson, which watches only the FIFO error:
/// it is fatal; otherwise the half-transfer and complete flags are acknowledged.
pub fn polled_outcome(flags: DmaFlags) -> (outcome: Result<DmaProgress, DmaFault>)
    ensures
        flags.fifo_error ==> outcome == Err::<DmaProgress, DmaFault>(DmaFault::Fifo),
        !flags.fifo_error ==> outcome == Ok::<DmaProgress, DmaFault>(
            DmaProgress {
                half_transfer: flags.half_transfer,
                transfer_complete: flags.transfer_complete,
            },
        ),
{
    if flags.fifo_error {
        Err(DmaFault::Fifo)
    } else {
        Ok(
            DmaProgress {
                half_transfer: flags.half_transfer,
                transfer_complete: flags.transfer_complete,
            },
        )
    }
}

} // verus!
