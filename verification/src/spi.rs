//! The SPI lessons: the interrupt of the master (SPI1) that sends one word to the slave
//! (SPI2) and then shuts itself down, and the master that feeds a list of bytes to a
//! slave read by DMA.

use vstd::prelude::*;

verus! {

/// The word the master sends to the slave.
pub const MASTER_WORD: u16 = 0xFFAA;

/// Number of bytes the DMA lesson's master feeds to the slave.
pub const FEED_LEN: u8 = 8;

/// What the master's interrupt finds.
#[derive(Clone, Copy, Debug)]
pub struct SpiMasterStatus {
    /// The master is still installed (it has not been shut down).
    pub present: bool,
    /// BSY is set.
    pub busy: bool,
    /// TXE is set.
    pub tx_empty: bool,
    /// The chip-select line of the slave is high (not selected).
    pub cs_high: bool,
    /// The word has already been sent.
    pub already_sent: bool,
}

/// What the master's interrupt does.
#[derive(Clone, Copy, Debug, PartialEq, Eq, Structural)]
pub enum SpiMasterStep {
    /// The master is busy: report it and leave.
    Busy,
    /// The master is gone: mask its interrupt and report it.
    Missing,
    /// Serve the interrupt: select the slave, send the word, and shut down once the word
    /// has gone out (wait for BSY to clear, mask the interrupt, disable and release).
    Serve { pull_cs_low: bool, send_word: Option<u16>, shut_down: bool },
}

/// Decides the master's interrupt.
pub fn spi_master_step(status: SpiMasterStatus) -> (step: SpiMasterStep)
    requires
        !status.present ==> !status.already_sent,
    ensures
        status.present && status.busy ==> step == SpiMasterStep::Busy,
        !status.present ==> step == SpiMasterStep::Missing,
        status.present && !status.busy ==> step == (SpiMasterStep::Serve {
            pull_cs_low: status.tx_empty && status.cs_high,
            send_word: if status.tx_empty {
                Some(MASTER_WORD)
            } else {
                None
            },
            shut_down: status.tx_empty || status.already_sent,
        }),
{
    if status.present {
        if status.busy {
            return SpiMasterStep::Busy;
        }
        let mut sent = status.already_sent;
        let mut pull_cs_low = false;
        let mut send_word: Option<u16> = None;
        if status.tx_empty {
            if status.cs_high {
                pull_cs_low = true;
            }
            send_word = Some(MASTER_WORD);
            sent = true;
        }
        SpiMasterStep::Serve { pull_cs_low, send_word, shut_down: sent }
    } else {
        SpiMasterStep::Missing
    }
}

/// The bytes fed to the slave: 10, 11, ..., 17.
pub open spec fn feed_list() -> Seq<u8> {
    Seq::new(FEED_LEN as nat, |i: int| (10 + i) as u8)
}

/// The list fed to the slave is 10, 11, ..., 17: byte `i` is `10 + i`, so over a run of
/// indices 0..8 every byte goes out once, in increasing order, and only the last index ends
/// the run.
pub proof fn lemma_feed_list_counts_up()
    ensures
        feed_list().len() == FEED_LEN,
        forall|i: int| 0 <= i < FEED_LEN ==> #[trigger] feed_list()[i] == 10 + i,
        forall|i: int, j: int| 0 <= i < j < FEED_LEN ==> feed_list()[i] < feed_list()[j],
{
}

/// The byte the master sends at position `index` of the list, and whether it is the last
/// one (after which the master is switched off).
pub fn feed_byte(index: u8) -> (step: (u8, bool))
    requires
        index < FEED_LEN,
    ensures
        step.0 == feed_list()[index as int],
        step.0 == 10 + index,
        step.1 == (index >= FEED_LEN - 1),
{
    let list: [u8; 8] = [10, 11, 12, 13, 14, 15, 16, 17];
    let byte: u8 = list[index as usize];
    (byte, index >= FEED_LEN - 1)
}

} // verus!
