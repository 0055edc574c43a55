//! Clock bring-up, status-indicator and UART relay logic for a small
//! microcontroller, verified against a register-level model of the board's
//! peripherals.
//!
//! The hardware itself is reached only through memory-mapped registers, which
//! verified code cannot touch; every peripheral is therefore modelled here as
//! a plain value that records the writes made to it and answers reads the way
//! the hardware's status flags do. The firmware entry point performs the same
//! sequence of register accesses on the real chip.

use vstd::prelude::*;

mod firmware;
mod indicator;
mod sequencer;
mod timer;
mod uart;

pub use firmware::run_firmware;
pub use firmware::startup;
pub use firmware::BOOT_BLINKS;
pub use firmware::BOOT_PAUSE_MS;
pub use firmware::BOOT_SETTLE_MS;
pub use firmware::DIAG_GUARD_MS;
pub use firmware::TX_DIAG_BLINKS;
pub use indicator::lemma_pulse_train_extend;
pub use indicator::pulse;
pub use indicator::pulse_train;
pub use indicator::Led;
pub use indicator::PinEvent;
pub use indicator::GAP_MS;
pub use indicator::PULSE_MS;
pub use sequencer::bringup_writes;
pub use sequencer::detect_prior_selection;
pub use sequencer::run_full_bringup;
pub use sequencer::wait_ready;
pub use sequencer::ClockState;
pub use sequencer::Css;
pub use sequencer::Efc;
pub use sequencer::Flag;
pub use sequencer::Pmc;
pub use sequencer::PmcWrite;
pub use sequencer::Pres;
pub use sequencer::CRYSTAL_STARTUP;
pub use sequencer::FLASH_WAIT_STATES;
pub use sequencer::MCK_MAX_HZ;
pub use sequencer::PLL_DIVA;
pub use sequencer::PLL_LOCK_COUNT;
pub use sequencer::PLL_MULA;
pub use sequencer::RC_HZ;
pub use sequencer::SLOW_CLOCK_HZ;
pub use sequencer::UNLOCK_KEY;
pub use sequencer::XTAL_HZ;
pub use timer::delay_ms;
pub use timer::Rtt;
pub use timer::RTT_PRESCALER;
pub use uart::batch_views;
pub use uart::baud_divisor;
pub use uart::echo_of;
pub use uart::echoed;
pub use uart::relay_run;
pub use uart::relay_step;
pub use uart::Pioa;
pub use uart::Uart;
pub use uart::TARGET_BAUD;

verus! {

} // verus!
