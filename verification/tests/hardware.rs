use bitaxe_birds_raw::bridge::fan_pwm_config;
use bitaxe_birds_raw::pio_uart::{
    calculate_clk_div, offer_entry, pulled_byte, rx_byte, rx_setup, tx_entry, tx_setup, JoinedFifo,
    ASIC_BAUDRATE,
};
use bitaxe_birds_raw::serial_number::serial_number;

#[test]
fn the_asic_rate_is_met_without_rounding() {
    assert_eq!(ASIC_BAUDRATE, 5_000_000);
    assert_eq!(calculate_clk_div(ASIC_BAUDRATE), 800);
    assert_eq!(800u64 * 8 * 5_000_000, 125_000_000 * 256);
}

#[test]
fn clock_dividers_are_rounded_down() {
    assert_eq!(calculate_clk_div(115_200), 34_722);
    assert_eq!(calculate_clk_div(1), 4_000_000_000);
    assert_eq!(calculate_clk_div(u32::MAX / 8), 7);
}

#[test]
fn both_state_machines_run_at_the_same_rate() {
    let tx = tx_setup(ASIC_BAUDRATE);
    assert!(tx.pin_is_output && !tx.pull_up && !tx.auto_fill);
    assert_eq!((tx.threshold, tx.fifo, tx.clock_divider_bits), (32, JoinedFifo::TxOnly, 800));
    let rx = rx_setup(ASIC_BAUDRATE);
    assert!(!rx.pin_is_output && rx.pull_up && rx.auto_fill);
    assert_eq!((rx.threshold, rx.fifo, rx.clock_divider_bits), (8, JoinedFifo::RxOnly, 800));
}

#[test]
fn fifo_entries_carry_nine_bits_out_and_eight_bits_in() {
    assert_eq!(tx_entry(0x155), 0x155);
    assert_eq!(tx_entry(0xffff), 0x1ff);
    assert_eq!(offer_entry(0x3aa, false), Some(0x1aa));
    assert_eq!(offer_entry(0x3aa, true), None);
    assert_eq!(rx_byte(0xa5ff_1234), 0xa5);
    assert_eq!(pulled_byte(Some(0x7e00_0000)), Some(0x7e));
    assert_eq!(pulled_byte(None), None);
}

#[test]
fn the_fan_is_driven_active_low() {
    let config = fan_pwm_config(400);
    assert_eq!((config.top, config.compare_a, config.compare_b), (1000, 400, 0));
    assert_eq!(config.divider, 5);
    assert!(config.invert_a && !config.phase_correct && config.enable);
}

#[test]
fn serial_numbers_are_sixteen_hexadecimal_digits() {
    let serial = serial_number(&[0x00, 0x1a, 0x2b, 0x9f, 0xde, 0xad, 0xbe, 0xef]);
    assert_eq!(&serial, b"001a2b9fdeadbeef");
    let other = serial_number(&[0x00, 0x1a, 0x2b, 0x9f, 0xde, 0xad, 0xbe, 0xee]);
    assert_ne!(serial, other);
}
