use stm32_lessons::dma::{polled_outcome, stream_outcome, DmaFault, DmaFlags, DmaProgress};
use stm32_lessons::exti::{ButtonLed, LEDLogicState, PressAction};
use stm32_lessons::memory_map::{bit_band_alias, nvic_enable_position, with_bit_set};
use stm32_lessons::spi::{feed_byte, spi_master_step, SpiMasterStatus, SpiMasterStep, MASTER_WORD};
use stm32_lessons::timers::{
    direction_from_dir_bit, direction_letter, echo_interval, encoder_step, freerun_step,
    periodic_step, qei_position, tick_display, CountDirection, FreerunFlags, FreerunStep,
    PeriodicFlags, PeriodicStep, QEI_START_COUNT,
};

fn flags(fifo_error: bool, transfer_error: bool, half_transfer: bool, transfer_complete: bool) -> DmaFlags {
    DmaFlags { fifo_error, transfer_error, half_transfer, transfer_complete }
}

#[test]
fn dma_outcomes() {
    assert_eq!(stream_outcome(flags(true, true, true, true)), Err(DmaFault::Fifo));
    assert_eq!(stream_outcome(flags(false, true, true, true)), Err(DmaFault::Transfer));
    assert_eq!(
        stream_outcome(flags(false, false, true, true)),
        Ok(DmaProgress { half_transfer: true, transfer_complete: true })
    );
    assert_eq!(polled_outcome(flags(true, false, false, false)), Err(DmaFault::Fifo));
    assert_eq!(
        polled_outcome(flags(false, true, false, true)),
        Ok(DmaProgress { half_transfer: false, transfer_complete: true })
    );
}

#[test]
fn button_toggles_between_off_and_blinking() {
    let mut button = ButtonLed::new();
    assert_eq!(button.state, LEDLogicState::Off);
    assert!(!button.blink_tick());
    assert_eq!(button.press(), PressAction::StartBlinking);
    assert_eq!(button.state, LEDLogicState::On);
    assert!(button.blink_tick());
    assert_eq!(button.press(), PressAction::StopBlinking);
    assert_eq!(button.state, LEDLogicState::Off);
    assert_eq!(button.trigger_count, 2);
}

#[test]
fn memory_map_arithmetic() {
    // GPIOA_ODR is at 0x4002_0014; its bit 15 aliases at 0x4240_02BC.
    assert_eq!(bit_band_alias(0x4002_0014, 15), 0x4240_02BC);
    assert_eq!(bit_band_alias(0x4000_0000, 0), 0x4200_0000);
    assert_eq!(nvic_enable_position(28), (0, 28));
    assert_eq!(nvic_enable_position(41), (1, 9));
    assert_eq!(with_bit_set(0, 28), 1 << 28);
    assert_eq!(with_bit_set(0b101, 1), 0b111);
    assert_eq!(with_bit_set(0b111, 1), 0b111);
}

#[test]
fn spi_master_steps() {
    let status = |present, busy, tx_empty, cs_high, already_sent| SpiMasterStatus {
        present,
        busy,
        tx_empty,
        cs_high,
        already_sent,
    };
    assert_eq!(spi_master_step(status(true, true, true, true, false)), SpiMasterStep::Busy);
    assert_eq!(spi_master_step(status(false, false, true, true, false)), SpiMasterStep::Missing);
    assert_eq!(
        spi_master_step(status(true, false, true, true, false)),
        SpiMasterStep::Serve { pull_cs_low: true, send_word: Some(MASTER_WORD), shut_down: true }
    );
    assert_eq!(
        spi_master_step(status(true, false, false, true, false)),
        SpiMasterStep::Serve { pull_cs_low: false, send_word: None, shut_down: false }
    );
    assert_eq!(
        spi_master_step(status(true, false, false, false, true)),
        SpiMasterStep::Serve { pull_cs_low: false, send_word: None, shut_down: true }
    );
    assert_eq!(MASTER_WORD, 0xFFAA);
}

#[test]
fn spi_feed() {
    let sent: Vec<(u8, bool)> = (0..8).map(feed_byte).collect();
    assert_eq!(sent[0], (10, false));
    assert_eq!(sent[6], (16, false));
    assert_eq!(sent[7], (17, true));
}

#[test]
fn range_finder_steps() {
    let f = |update, rising_edge, falling_edge| FreerunFlags { update, rising_edge, falling_edge };
    assert_eq!(freerun_step(f(true, true, true)), FreerunStep::Overflow { echo_started: true });
    assert_eq!(freerun_step(f(true, false, true)), FreerunStep::Overflow { echo_started: false });
    assert_eq!(freerun_step(f(false, true, true)), FreerunStep::Echo);
    assert_eq!(freerun_step(f(false, true, false)), FreerunStep::Nothing);
    let p = |update, rising_edge, falling_edge| PeriodicFlags { update, rising_edge, falling_edge };
    assert_eq!(periodic_step(p(true, false, true)), PeriodicStep::QuietPeriod);
    assert_eq!(periodic_step(p(true, true, false)), PeriodicStep::Timeout);
    assert_eq!(periodic_step(p(false, false, true)), PeriodicStep::Echo);
    assert_eq!(periodic_step(p(false, true, false)), PeriodicStep::Other);
    assert_eq!(echo_interval(100, 1100), Some(1000));
    assert_eq!(echo_interval(5, 5), Some(0));
    assert_eq!(echo_interval(1100, 100), None);
}

#[test]
fn encoder_counts() {
    assert_eq!(direction_from_dir_bit(true), CountDirection::Down);
    assert_eq!(direction_from_dir_bit(false), CountDirection::Up);
    assert_eq!(direction_letter(CountDirection::Down), b'D');
    assert_eq!(direction_letter(CountDirection::Up), b'U');
    assert_eq!(encoder_step(0, CountDirection::Down), -1);
    assert_eq!(encoder_step(-1, CountDirection::Up), 0);
    assert_eq!(encoder_step(encoder_step(7, CountDirection::Down), CountDirection::Up), 7);
    assert_eq!(qei_position(QEI_START_COUNT), 0);
    assert_eq!(qei_position(QEI_START_COUNT + 5), 5);
    assert_eq!(qei_position(0), -0x7FFF_FFFF);
    assert_eq!(qei_position(u32::MAX), 0x8000_0000);
    assert_eq!(QEI_START_COUNT, 0x7FFF_FFFF);
    assert_eq!(QEI_START_COUNT as u64, (u32::MAX as u64 + 1) / 2 - 1);
}

#[test]
fn master_mode_tick_display() {
    assert_eq!(tick_display(1), b"TIM2 Int Triggered: 1".to_vec());
    assert_eq!(tick_display(2), b"\x1b[1D2".to_vec());
    assert_eq!(tick_display(10), b"\x1b[1D10".to_vec());
    assert_eq!(tick_display(11), b"\x1b[2D11".to_vec());
    assert_eq!(tick_display(1001), b"\x1b[4D1001".to_vec());
    assert_eq!(tick_display(u32::MAX), b"\x1b[10D4294967295".to_vec());
}

#[test]
fn bit_band_aliases_are_distinct_words() {
    let mut seen = std::collections::HashSet::new();
    for register in [0x4000_0000usize, 0x4000_0004, 0x4002_0014, 0x400F_FFFC] {
        for bit in 0..32 {
            let alias = bit_band_alias(register, bit);
            assert_eq!(alias % 4, 0);
            assert!((0x4200_0000..0x4400_0000).contains(&alias));
            assert!(seen.insert(alias));
        }
    }
}
