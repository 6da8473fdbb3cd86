//! The 9-bit ASIC UART on a pair of PIO state machines.
//!
//! Both programs spend eight state machine cycles on a bit.

use vstd::prelude::*;

verus! {

/// The system clock.
pub const SYS_CLK_HZ: u32 = 125_000_000;

/// The state machine cycles of one bit.
pub const CYCLES_PER_BIT: u32 = 8;

/// The rate of the ASIC UART.
pub const ASIC_BAUDRATE: u32 = 5_000_000;

/// Which FIFO of a state machine takes over the storage of the other.
#[derive(Clone, Copy, Debug, PartialEq, Eq, Structural)]
pub enum JoinedFifo {
    TxOnly,
    RxOnly,
}

/// Settings of a state machine that shifts the low bit first.
#[derive(Clone, Copy, Debug, PartialEq, Eq, Structural)]
pub struct StateMachineSetup {
    /// Whether the pin is driven.
    pub pin_is_output: bool,
    /// Whether the pin is pulled up, so that an open line idles high.
    pub pull_up: bool,
    /// Whether the FIFO is served by itself after `threshold` bits.
    pub auto_fill: bool,
    pub threshold: u8,
    pub fifo: JoinedFifo,
    /// The clock divider in units of 1/256.
    pub clock_divider_bits: u32,
}

/// The clock divider for a rate, in units of 1/256, rounded down.
pub open spec fn clk_div(baudrate: u32) -> u32 {
    (SYS_CLK_HZ * 256 / (baudrate * CYCLES_PER_BIT)) as u32
}

/// Whether a clock divider exists for a rate.
pub open spec fn supported(baudrate: u32) -> bool {
    0 < baudrate && baudrate * CYCLES_PER_BIT <= u32::MAX
}

/// The clock divider for a rate, in units of 1/256.
pub fn calculate_clk_div(baudrate: u32) -> (clk_div_bits: u32)
    requires
        supported(baudrate),
    ensures
        clk_div_bits == clk_div(baudrate),
        clk_div_bits * (baudrate * CYCLES_PER_BIT) <= SYS_CLK_HZ * 256,
        SYS_CLK_HZ * 256 < (clk_div_bits + 1) * (baudrate * CYCLES_PER_BIT),
        clk_div_bits * (baudrate * 8) <= 32_000_000_000 < (clk_div_bits + 1) * (baudrate * 8),
{
    let divisor: u32 = baudrate * CYCLES_PER_BIT;
    let scaled: u64 = SYS_CLK_HZ as u64 * 256;
    let quotient: u64 = scaled / divisor as u64;
    assert(quotient <= 4_000_000_000) by (nonlinear_arith)
        requires
            quotient == 32_000_000_000u64 / divisor as u64,
            divisor >= 8,
    ;
    assert(quotient * divisor <= 32_000_000_000 < (quotient + 1) * divisor) by (nonlinear_arith)
        requires
            quotient == 32_000_000_000u64 / divisor as u64,
            divisor >= 8,
    ;
    quotient as u32
}

/// The transmitter: words are pulled by the program itself.
pub fn tx_setup(baudrate: u32) -> (setup: StateMachineSetup)
    requires
        supported(baudrate),
    ensures
        setup == (StateMachineSetup {
            pin_is_output: true,
            pull_up: false,
            auto_fill: false,
            threshold: 32,
            fifo: JoinedFifo::TxOnly,
            clock_divider_bits: clk_div(baudrate),
        }),
{
    StateMachineSetup {
        pin_is_output: true,
        pull_up: false,
        auto_fill: false,
        threshold: 32,
        fifo: JoinedFifo::TxOnly,
        clock_divider_bits: calculate_clk_div(baudrate),
    }
}

/// The receiver: eight bits are pushed by themselves, and the ninth is dropped.
pub fn rx_setup(baudrate: u32) -> (setup: StateMachineSetup)
    requires
        supported(baudrate),
    ensures
        setup == (StateMachineSetup {
            pin_is_output: false,
            pull_up: true,
            auto_fill: true,
            threshold: 8,
            fifo: JoinedFifo::RxOnly,
            clock_divider_bits: clk_div(baudrate),
        }),
{
    StateMachineSetup {
        pin_is_output: false,
        pull_up: true,
        auto_fill: true,
        threshold: 8,
        fifo: JoinedFifo::RxOnly,
        clock_divider_bits: calculate_clk_div(baudrate),
    }
}

/// The transmit FIFO entry of a word: its low nine bits.
pub fn tx_entry(data: u16) -> (entry: u32)
    ensures
        entry == data % 512,
{
    assert(data & 0x1ff == data % 512) by (bit_vector);
    (data & 0x1ff) as u32
}

/// The transmit FIFO entry of a word, where the FIFO takes one.
pub fn offer_entry(data: u16, fifo_is_full: bool) -> (entry: Option<u32>)
    ensures
        entry == if fifo_is_full {
            None
        } else {
            Some((data % 512) as u32)
        },
{
    if fifo_is_full {
        None
    } else {
        Some(tx_entry(data))
    }
}

/// The byte of a receive FIFO entry. Eight bits that are shifted in from the top
/// end up in the highest byte.
pub fn rx_byte(entry: u32) -> (byte: u8)
    ensures
        byte == entry / 0x100_0000,
{
    assert((entry >> 24) & 0xff == entry / 0x100_0000) by (bit_vector);
    ((entry >> 24) & 0xff) as u8
}

/// The byte of the receive FIFO entry that was pulled, if any.
pub fn pulled_byte(entry: Option<u32>) -> (byte: Option<u8>)
    ensures
        byte == match entry {
            Some(entry) => Some((entry / 0x100_0000) as u8),
            None => None,
        },
{
    match entry {
        Some(entry) => Some(rx_byte(entry)),
        None => None,
    }
}

/// A divider is the largest that does not make the line slower than asked: a bit takes
/// eight cycles of the 125 MHz clock divided by it, counted in units of 1/256.
pub proof fn law_divider_is_the_largest(baudrate: u32, bits: int)
    requires
        supported(baudrate),
    ensures
        bits <= clk_div(baudrate) <==> bits * (baudrate * 8) <= 125_000_000 * 256,
{
    let divisor: int = baudrate * 8;
    let quotient = 32_000_000_000int / divisor;
    assert(0 <= quotient <= 4_000_000_000 && quotient * divisor <= 32_000_000_000 < (quotient + 1)
        * divisor) by (nonlinear_arith)
        requires
            quotient == 32_000_000_000int / divisor,
            divisor >= 8,
    ;
    assert(clk_div(baudrate) == quotient);
    assert(bits <= quotient <==> bits * divisor <= 32_000_000_000) by (nonlinear_arith)
        requires
            quotient * divisor <= 32_000_000_000 < (quotient + 1) * divisor,
            divisor >= 8,
    ;
}

/// A divider exists for every rate whose cycles per second can be held.
pub proof fn law_rates_are_supported(baudrate: u32)
    ensures
        supported(baudrate) <==> 0 < baudrate && 8 * baudrate <= 0xffff_ffff,
{
}

} // verus!
