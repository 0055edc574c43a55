//! The whole firmware flow over the peripheral models: power-on
//! configuration, clock bring-up, diagnostic blinks, UART set-up, and the
//! relay loop.

use vstd::prelude::*;

use crate::indicator::lemma_pulse_train_extend;
use crate::indicator::pulse;
use crate::indicator::pulse_train;
use crate::indicator::Led;
use crate::indicator::GAP_MS;
use crate::indicator::PULSE_MS;
use crate::sequencer::bringup_writes;
use crate::sequencer::run_full_bringup;
use crate::sequencer::Efc;
use crate::sequencer::Pmc;
use crate::sequencer::FLASH_WAIT_STATES;
use crate::sequencer::MCK_MAX_HZ;
use crate::timer::delay_ms;
use crate::timer::Rtt;
use crate::timer::RTT_PRESCALER;
use crate::uart::batch_views;
use crate::uart::baud_divisor;
use crate::uart::echoed;
use crate::uart::relay_run;
use crate::uart::Pioa;
use crate::uart::Uart;
use crate::uart::TARGET_BAUD;

verus! {

/// Pulses of the power-on self-test blink.
pub const BOOT_BLINKS: u32 = 2;

/// Pulses of the diagnostic blink emitted when the transmitter is not
/// ready after configuration.
pub const TX_DIAG_BLINKS: u32 = 3;

/// Pause between bring-up and the self-test blink.
pub const BOOT_SETTLE_MS: u32 = 200;

/// Pause after the self-test blink before the UART is configured.
pub const BOOT_PAUSE_MS: u32 = 1000;

/// Guard pause on both sides of the diagnostic blink.
pub const DIAG_GUARD_MS: u32 = 500;

/// Bring the board up from reset: open the LED controller's clock gate,
/// configure the timer resolution, configure the LED pin and drive it low,
/// run the full clock bring-up, emit the self-test blink, then gate the
/// UART clock, program the baud divisor from the bus frequency the
/// bring-up reports, enable both directions, route the pins, and emit the
/// diagnostic blink if the transmitter is not ready. Returns the bus
/// frequency.
pub fn startup(
    rtt: &mut Rtt,
    led: &mut Led,
    pmc: &mut Pmc,
    efc0: &mut Efc,
    efc1: &mut Efc,
    pioa: &mut Pioa,
    uart: &mut Uart,
) -> (bus_hz: u32)
    requires
        old(rtt).wf(),
        old(rtt).value + BOOT_SETTLE_MS + BOOT_PAUSE_MS + 2 * DIAG_GUARD_MS + 5 * (PULSE_MS
            + GAP_MS) + 40 * old(rtt).step <= u32::MAX,
        !old(led).level,
        old(pmc).state is ColdRc,
        !old(pmc).crystal_on,
        !old(pmc).crystal_selected,
        !old(pmc).pll_on,
    ensures
        bus_hz == MCK_MAX_HZ,
        final(rtt).configured && final(rtt).prescaler == RTT_PRESCALER,
        final(rtt).step == old(rtt).step,
        final(pmc).piob_clock_on && final(pmc).uart_clock_on,
        final(pmc).writes@ == old(pmc).writes@ + bringup_writes(),
        final(pmc).state is PllSelected,
        final(pmc).mck_hz() == MCK_MAX_HZ,
        final(efc0).fws == FLASH_WAIT_STATES,
        final(efc1).fws == FLASH_WAIT_STATES,
        final(led).output_enabled && final(led).pullup_disabled && !final(led).level,
        old(uart).txrdy ==> final(led).events@.len() == old(led).events@.len() + 2 * BOOT_BLINKS,
        !old(uart).txrdy ==> final(led).events@.len() == old(led).events@.len() + 2 * (BOOT_BLINKS
            + TX_DIAG_BLINKS),
        pulse_train(final(led).events@, old(led).events@.len() as int, BOOT_BLINKS as int),
        !old(uart).txrdy ==> pulse_train(
            final(led).events@,
            old(led).events@.len() + 2 * BOOT_BLINKS,
            TX_DIAG_BLINKS as int,
        ),
        final(uart).cd as int == MCK_MAX_HZ as int / (16 * TARGET_BAUD as int),
        final(uart).rx_enabled && final(uart).tx_enabled,
        final(pioa).uart_pins_routed,
        final(uart).arrivals@ == old(uart).arrivals@,
        final(uart).next == old(uart).next,
        final(uart).rxrdy == old(uart).rxrdy,
        final(uart).transmitted@ == old(uart).transmitted@,
{
    pmc.enable_piob_clock();
    rtt.configure(RTT_PRESCALER);

    led.enable_output();
    led.disable_pullup();
    led.set_low(rtt.value);

    let bus_hz = run_full_bringup(pmc, efc0, efc1);

    delay_ms(rtt, BOOT_SETTLE_MS);
    let ghost boot_base = led.events@.len() as int;
    pulse(led, rtt, BOOT_BLINKS);
    let ghost after_boot_blink = led.events@;
    delay_ms(rtt, BOOT_PAUSE_MS);

    pmc.enable_uart_clock();

    let divisor = baud_divisor(bus_hz, TARGET_BAUD);
    proof {
        assert(divisor <= u16::MAX);
    }
    uart.set_divisor(divisor as u16);
    uart.enable_rx_tx();
    pioa.route_uart_pins();

    let txr = uart.read_txrdy();
    if !txr {
        delay_ms(rtt, DIAG_GUARD_MS);
        pulse(led, rtt, TX_DIAG_BLINKS);
        delay_ms(rtt, DIAG_GUARD_MS);
        proof {
            lemma_pulse_train_extend(after_boot_blink, led.events@, boot_base, BOOT_BLINKS as int);
        }
    }
    bus_hz
}

/// The firmware's whole run: start the board up, then relay bytes until
/// the arrival script is exhausted. What was transmitted is exactly the
/// echo of what arrived.
pub fn run_firmware(
    rtt: &mut Rtt,
    led: &mut Led,
    pmc: &mut Pmc,
    efc0: &mut Efc,
    efc1: &mut Efc,
    pioa: &mut Pioa,
    uart: &mut Uart,
) -> (bus_hz: u32)
    requires
        old(rtt).wf(),
        old(rtt).value + BOOT_SETTLE_MS + BOOT_PAUSE_MS + 2 * DIAG_GUARD_MS + 5 * (PULSE_MS
            + GAP_MS) + 40 * old(rtt).step <= u32::MAX,
        !old(led).level,
        old(pmc).state is ColdRc,
        !old(pmc).crystal_on,
        !old(pmc).crystal_selected,
        !old(pmc).pll_on,
        !old(uart).rxrdy,
        old(uart).next <= old(uart).arrivals@.len(),
    ensures
        bus_hz == MCK_MAX_HZ,
        final(pmc).writes@ == old(pmc).writes@ + bringup_writes(),
        final(pmc).state is PllSelected,
        final(uart).cd as int == MCK_MAX_HZ as int / (16 * TARGET_BAUD as int),
        final(uart).rx_enabled && final(uart).tx_enabled,
        final(pioa).uart_pins_routed,
        final(uart).transmitted@ == old(uart).transmitted@ + echoed(
            batch_views(old(uart).arrivals@).subrange(
                old(uart).next as int,
                old(uart).arrivals@.len() as int,
            ),
        ),
{
    let bus_hz = startup(rtt, led, pmc, efc0, efc1, pioa, uart);
    relay_run(uart);
    bus_hz
}

} // verus!
