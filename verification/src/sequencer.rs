//! Model of the power-management controller and the clock bring-up
//! sequencer.
//!
//! The controller is modelled at the level the firmware sees it: writes to
//! the oscillator, PLL and master-clock registers change the configuration
//! and arm a status flag that reports ready only after a settle time has
//! been polled away; every configuration write is also recorded, oldest
//! first, so that contracts can state the exact bring-up order. A write to
//! the main-oscillator register without the unlock key is ignored, as it is
//! by the hardware, and a master-clock write that would select a bus
//! frequency above the allowed maximum never reports ready.

use vstd::prelude::*;

verus! {

/// Key that must accompany every main-oscillator register write; a write
/// without it is discarded.
pub const UNLOCK_KEY: u8 = 0x37;

/// Frequency of the external crystal.
pub const XTAL_HZ: u32 = 12000000;

/// Frequency of the on-chip RC oscillator the device wakes up on.
pub const RC_HZ: u32 = 4000000;

/// Frequency of the always-running slow clock.
pub const SLOW_CLOCK_HZ: u32 = 32768;

/// PLL multiplier field value; the hardware multiplies its input by this
/// value plus one, turning the 12 MHz crystal into 168 MHz.
pub const PLL_MULA: u8 = 13;

/// PLL divider field value; a value of zero leaves the PLL disabled.
pub const PLL_DIVA: u8 = 1;

/// Slow-clock cycles the PLL is given to lock.
pub const PLL_LOCK_COUNT: u8 = 0x3f;

/// Slow-clock cycles the crystal start-up is given.
pub const CRYSTAL_STARTUP: u8 = 8;

/// Highest master-clock frequency the bus tolerates; selecting a faster
/// configuration never reports ready.
pub const MCK_MAX_HZ: u32 = 84000000;

/// Flash wait states needed before the bus runs at full speed.
pub const FLASH_WAIT_STATES: u8 = 4;

/// Where the bring-up stands. The states are strictly sequential: each
/// configuration write commits one transition and the matching ready flag
/// confirms it before the next write is attempted.
#[derive(Clone, Copy, PartialEq, Eq, Structural, Debug)]
pub enum ClockState {
    /// Power-on default: running on the on-chip RC oscillator.
    ColdRc,
    /// External crystal powered alongside the RC oscillator.
    CrystalEnabled,
    /// Crystal selected as the main-oscillator source.
    CrystalSelected,
    /// Master clock driven by the main oscillator.
    MainClockSelected,
    /// PLL configured and locked.
    PllLocked,
    /// Master-clock prescaler set to divide by two, source still the main
    /// oscillator.
    PrescalerSet,
    /// Master clock driven by the PLL output.
    PllSelected,
}

/// One accepted configuration write, as recorded in the controller's log.
#[derive(Clone, Copy, PartialEq, Eq, Structural, Debug)]
pub enum PmcWrite {
    /// Main-oscillator register write powering the crystal.
    EnableCrystal,
    /// Main-oscillator register write selecting the crystal as source.
    SelectCrystal,
    /// Master-clock register write selecting the main oscillator.
    SelectMainClock,
    /// PLL register write configuring and enabling the multiplier.
    EnablePll,
    /// Master-clock register write setting the divide-by-two prescaler.
    SetPrescaler,
    /// Master-clock register write switching the source to the PLL.
    SelectPllClock,
}

/// Master-clock source selection.
#[derive(Clone, Copy, PartialEq, Eq, Structural, Debug)]
pub enum Css {
    /// The slow clock.
    SlowClk,
    /// The main oscillator (RC or crystal, whichever is selected).
    MainClk,
    /// The PLL output.
    PllaClk,
}

/// Master-clock prescaler.
#[derive(Clone, Copy, PartialEq, Eq, Structural, Debug)]
pub enum Pres {
    /// Source passed through undivided.
    Clk1,
    /// Source divided by two.
    Clk2,
}

/// A hardware ready flag. A write that starts an asynchronous operation
/// arms the flag with the settle time; each status read of an armed flag
/// polls one tick of that time away and the flag reads as set once none is
/// left. A flag that was never armed never reads as set.
#[derive(Clone, Copy, PartialEq, Eq, Structural, Debug)]
pub struct Flag {
    /// Whether the operation the flag reports on has been started.
    pub armed: bool,
    /// Status reads left before the flag reports ready.
    pub latency: u32,
}

impl Flag {
    /// Read the status bit, re-reading the hardware: each read of an armed
    /// flag consumes one tick of the remaining settle time.
    pub fn read(&mut self) -> (r: bool)
        ensures
            final(self).armed == old(self).armed,
            !old(self).armed ==> !r && final(self).latency == old(self).latency,
            old(self).armed && old(self).latency > 0 ==> !r && final(self).latency == old(
                self,
            ).latency - 1,
            old(self).armed && old(self).latency == 0 ==> r && final(self).latency == 0,
    {
        if !self.armed {
            false
        } else if self.latency > 0 {
            self.latency = self.latency - 1;
            false
        } else {
            true
        }
    }
}

/// Busy-wait on a ready flag until it reports set. Only a flag whose
/// operation has been started can be waited on: polling anything else would
/// never return.
pub fn wait_ready(f: &mut Flag)
    requires
        old(f).armed,
    ensures
        final(f).armed,
        final(f).latency == 0,
{
    loop
        invariant
            f.armed,
        ensures
            f.armed,
            f.latency == 0,
        decreases f.latency,
    {
        let r = f.read();
        if r {
            break;
        }
    }
}

/// One flash controller; its only modelled setting is the wait-state count.
pub struct Efc {
    /// Configured flash wait states.
    pub fws: u8,
}

impl Efc {
    /// Set the flash wait states.
    pub fn set_wait_states(&mut self, fws: u8)
        ensures
            final(self).fws == fws,
    {
        self.fws = fws;
    }
}

/// The power-management controller: oscillator, PLL and master-clock
/// configuration, the ready flags, the peripheral clock gates, and the log
/// of accepted configuration writes.
pub struct Pmc {
    /// Bring-up state committed so far.
    pub state: ClockState,
    /// Crystal oscillator powered.
    pub crystal_on: bool,
    /// Start-up cycle count last written to the main-oscillator register.
    pub crystal_startup: u8,
    /// Crystal selected as the main-oscillator source.
    pub crystal_selected: bool,
    /// PLL enabled.
    pub pll_on: bool,
    /// PLL multiplier field (multiplies by this plus one).
    pub pll_mula: u8,
    /// PLL divider field.
    pub pll_diva: u8,
    /// Master-clock source.
    pub css: Css,
    /// Master-clock prescaler.
    pub pres: Pres,
    /// Crystal-oscillator-stable flag.
    pub moscxts: Flag,
    /// Oscillator-source-selected flag.
    pub moscsels: Flag,
    /// Master-clock-ready flag.
    pub mckrdy: Flag,
    /// PLL-lock flag.
    pub locka: Flag,
    /// Settle time a configuration write arms its flag with.
    pub settle: u32,
    /// Clock gate of the I/O controller that drives the LED.
    pub piob_clock_on: bool,
    /// Clock gate of the UART.
    pub uart_clock_on: bool,
    /// Accepted configuration writes, oldest first.
    pub writes: Vec<PmcWrite>,
}

impl Pmc {
    /// Frequency of the main oscillator: the crystal once it is selected,
    /// the RC oscillator before that.
    pub open spec fn main_hz(self) -> int {
        if self.crystal_selected {
            XTAL_HZ as int
        } else {
            RC_HZ as int
        }
    }

    /// Frequency of the selected master-clock source before prescaling.
    pub open spec fn source_hz(self) -> int {
        match self.css {
            Css::SlowClk => SLOW_CLOCK_HZ as int,
            Css::MainClk => self.main_hz(),
            Css::PllaClk => if self.pll_on && self.pll_diva >= 1 {
                self.main_hz() * (self.pll_mula as int + 1) / (self.pll_diva as int)
            } else {
                0
            },
        }
    }

    /// Prescaler divisor.
    pub open spec fn pres_div(self) -> int {
        match self.pres {
            Pres::Clk1 => 1,
            Pres::Clk2 => 2,
        }
    }

    /// Master-clock (bus) frequency of the current configuration.
    pub open spec fn mck_hz(self) -> int {
        self.source_hz() / self.pres_div()
    }

    /// Compute the master-clock frequency of the current configuration.
    pub fn current_hz(&self) -> (hz: u32)
        ensures
            hz as int == self.mck_hz(),
    {
        let src: u32 = match self.css {
            Css::SlowClk => SLOW_CLOCK_HZ,
            Css::MainClk => if self.crystal_selected {
                XTAL_HZ
            } else {
                RC_HZ
            },
            Css::PllaClk => {
                if self.pll_on && self.pll_diva >= 1 {
                    let main: u32 = if self.crystal_selected {
                        XTAL_HZ
                    } else {
                        RC_HZ
                    };
                    let mult: u32 = (self.pll_mula as u32) + 1;
                    proof {
                        assert(main as int * mult as int <= 12000000int * 256int)
                            by (nonlinear_arith)
                            requires
                                main <= 12000000,
                                mult <= 256,
                        ;
                    }
                    (main * mult) / (self.pll_diva as u32)
                } else {
                    0
                }
            },
        };
        match self.pres {
            Pres::Clk1 => src,
            Pres::Clk2 => src / 2,
        }
    }

    /// Open the clock gate of the I/O controller that drives the LED.
    pub fn enable_piob_clock(&mut self)
        ensures
            *final(self) == (Pmc { piob_clock_on: true, ..*old(self) }),
    {
        self.piob_clock_on = true;
    }

    /// Open the clock gate of the UART.
    pub fn enable_uart_clock(&mut self)
        ensures
            *final(self) == (Pmc { uart_clock_on: true, ..*old(self) }),
    {
        self.uart_clock_on = true;
    }

    /// Main-oscillator register write that powers the external crystal
    /// alongside the on-chip RC oscillator. Without the unlock key the
    /// hardware discards the write; with it the crystal-stable flag is
    /// armed.
    pub fn enable_crystal(&mut self, key: u8, startup: u8)
        ensures
            key != UNLOCK_KEY ==> *final(self) == *old(self),
            key == UNLOCK_KEY ==> *final(self) == (Pmc {
                crystal_on: true,
                crystal_startup: startup,
                moscxts: (Flag { armed: true, latency: old(self).settle }),
                state: if old(self).state is ColdRc {
                    ClockState::CrystalEnabled
                } else {
                    old(self).state
                },
                writes: final(self).writes,
                ..*old(self)
            }),
            key == UNLOCK_KEY ==> final(self).writes@ == old(self).writes@.push(
                PmcWrite::EnableCrystal,
            ),
    {
        if key == UNLOCK_KEY {
            self.crystal_on = true;
            self.crystal_startup = startup;
            self.moscxts = Flag { armed: true, latency: self.settle };
            self.writes.push(PmcWrite::EnableCrystal);
            self.state = match self.state {
                ClockState::ColdRc => ClockState::CrystalEnabled,
                s => s,
            };
        }
    }

    /// Main-oscillator register write that repeats the enable fields and
    /// sets the select bit, switching the main oscillator from the RC to
    /// the crystal. Discarded without the unlock key; the source-selected
    /// flag is armed only if the crystal is powered, so a selection out of
    /// order never reports ready.
    pub fn select_crystal(&mut self, key: u8, startup: u8)
        ensures
            key != UNLOCK_KEY ==> *final(self) == *old(self),
            key == UNLOCK_KEY ==> *final(self) == (Pmc {
                crystal_on: true,
                crystal_startup: startup,
                crystal_selected: old(self).crystal_on,
                moscsels: (Flag {
                    armed: old(self).crystal_on,
                    latency: old(self).settle,
                }),
                state: if old(self).state is CrystalEnabled && old(self).crystal_on {
                    ClockState::CrystalSelected
                } else {
                    old(self).state
                },
                writes: final(self).writes,
                ..*old(self)
            }),
            key == UNLOCK_KEY ==> final(self).writes@ == old(self).writes@.push(
                PmcWrite::SelectCrystal,
            ),
    {
        if key == UNLOCK_KEY {
            let was_on = self.crystal_on;
            self.crystal_on = true;
            self.crystal_startup = startup;
            self.crystal_selected = was_on;
            self.moscsels = Flag { armed: was_on, latency: self.settle };
            self.writes.push(PmcWrite::SelectCrystal);
            self.state = match self.state {
                ClockState::CrystalEnabled => if was_on {
                    ClockState::CrystalSelected
                } else {
                    ClockState::CrystalEnabled
                },
                s => s,
            };
        }
    }

    /// Arm the master-clock-ready flag for the configuration now selected.
    /// The hardware completes a master-clock change only when the resulting
    /// bus frequency is within limits; a hazardous selection never reports
    /// ready.
    fn arm_mckrdy(&mut self)
        ensures
            *final(self) == (Pmc {
                mckrdy: (Flag {
                    armed: old(self).mck_hz() <= MCK_MAX_HZ,
                    latency: old(self).settle,
                }),
                ..*old(self)
            }),
    {
        let hz = self.current_hz();
        self.mckrdy = Flag { armed: hz <= MCK_MAX_HZ, latency: self.settle };
    }

    /// Master-clock register write selecting the main oscillator as source,
    /// prescaler passed through undivided.
    pub fn select_main_clock(&mut self)
        ensures
            *final(self) == (Pmc {
                css: Css::MainClk,
                pres: Pres::Clk1,
                mckrdy: (Flag {
                    armed: final(self).mck_hz() <= MCK_MAX_HZ,
                    latency: old(self).settle,
                }),
                state: if old(self).state is CrystalSelected {
                    ClockState::MainClockSelected
                } else {
                    old(self).state
                },
                writes: final(self).writes,
                ..*old(self)
            }),
            final(self).writes@ == old(self).writes@.push(PmcWrite::SelectMainClock),
    {
        self.css = Css::MainClk;
        self.pres = Pres::Clk1;
        self.arm_mckrdy();
        self.writes.push(PmcWrite::SelectMainClock);
        self.state = match self.state {
            ClockState::CrystalSelected => ClockState::MainClockSelected,
            s => s,
        };
    }

    /// PLL register write configuring the multiplier, divider and lock
    /// count. The always-one bit guards the write like a key; the lock flag
    /// is armed only if the divider actually enables the PLL.
    pub fn enable_pll(&mut self, one: bool, mula: u8, diva: u8, count: u8)
        ensures
            !one ==> *final(self) == *old(self),
            one ==> *final(self) == (Pmc {
                pll_on: true,
                pll_mula: mula,
                pll_diva: diva,
                locka: (Flag { armed: diva >= 1, latency: old(self).settle }),
                state: if old(self).state is MainClockSelected && diva >= 1 {
                    ClockState::PllLocked
                } else {
                    old(self).state
                },
                writes: final(self).writes,
                ..*old(self)
            }),
            one ==> final(self).writes@ == old(self).writes@.push(PmcWrite::EnablePll),
    {
        if one {
            self.pll_on = true;
            self.pll_mula = mula;
            self.pll_diva = diva;
            self.locka = Flag { armed: diva >= 1, latency: self.settle };
            self.writes.push(PmcWrite::EnablePll);
            self.state = match self.state {
                ClockState::MainClockSelected => if diva >= 1 {
                    ClockState::PllLocked
                } else {
                    ClockState::MainClockSelected
                },
                s => s,
            };
        }
    }

    /// Master-clock register write setting the divide-by-two prescaler
    /// while leaving the source untouched.
    pub fn set_prescaler_div2(&mut self)
        ensures
            *final(self) == (Pmc {
                pres: Pres::Clk2,
                mckrdy: (Flag {
                    armed: final(self).mck_hz() <= MCK_MAX_HZ,
                    latency: old(self).settle,
                }),
                state: if old(self).state is PllLocked {
                    ClockState::PrescalerSet
                } else {
                    old(self).state
                },
                writes: final(self).writes,
                ..*old(self)
            }),
            final(self).writes@ == old(self).writes@.push(PmcWrite::SetPrescaler),
    {
        self.pres = Pres::Clk2;
        self.arm_mckrdy();
        self.writes.push(PmcWrite::SetPrescaler);
        self.state = match self.state {
            ClockState::PllLocked => ClockState::PrescalerSet,
            s => s,
        };
    }

    /// Master-clock register write switching the source to the PLL output,
    /// re-asserting the divide-by-two prescaler in the same write.
    pub fn select_pll_clock(&mut self)
        ensures
            *final(self) == (Pmc {
                css: Css::PllaClk,
                pres: Pres::Clk2,
                mckrdy: (Flag {
                    armed: final(self).mck_hz() <= MCK_MAX_HZ,
                    latency: old(self).settle,
                }),
                state: if old(self).state is PrescalerSet {
                    ClockState::PllSelected
                } else {
                    old(self).state
                },
                writes: final(self).writes,
                ..*old(self)
            }),
            final(self).writes@ == old(self).writes@.push(PmcWrite::SelectPllClock),
    {
        self.css = Css::PllaClk;
        self.pres = Pres::Clk2;
        self.arm_mckrdy();
        self.writes.push(PmcWrite::SelectPllClock);
        self.state = match self.state {
            ClockState::PrescalerSet => ClockState::PllSelected,
            s => s,
        };
    }
}

/// Read, without writing anything, whether the crystal was already selected
/// by an earlier run: the diagnostic-read shortcut that lets a caller skip
/// the bring-up.
pub fn detect_prior_selection(pmc: &Pmc) -> (r: bool)
    ensures
        r == pmc.crystal_selected,
{
    pmc.crystal_selected
}

/// The exact order of configuration writes a full bring-up performs.
pub open spec fn bringup_writes() -> Seq<PmcWrite> {
    seq![
        PmcWrite::EnableCrystal,
        PmcWrite::SelectCrystal,
        PmcWrite::SelectMainClock,
        PmcWrite::EnablePll,
        PmcWrite::SetPrescaler,
        PmcWrite::SelectPllClock,
    ]
}

/// Full clock bring-up from the power-on state: raise the flash wait
/// states, power and select the crystal, move the master clock onto the
/// main oscillator, lock the PLL, set the prescaler before switching, and
/// finally select the PLL output. Every step waits for its ready flag, and
/// the write log extends by exactly the six writes in bring-up order, none
/// skipped and none reordered. Returns the resulting bus frequency.
pub fn run_full_bringup(pmc: &mut Pmc, efc0: &mut Efc, efc1: &mut Efc) -> (bus_hz: u32)
    requires
        old(pmc).state is ColdRc,
        !old(pmc).crystal_on,
        !old(pmc).crystal_selected,
        !old(pmc).pll_on,
    ensures
        final(pmc).writes@ == old(pmc).writes@ + bringup_writes(),
        final(pmc).state is PllSelected,
        final(pmc).crystal_on,
        final(pmc).crystal_selected,
        final(pmc).css is PllaClk,
        final(pmc).pres is Clk2,
        final(pmc).pll_on,
        final(pmc).mck_hz() == MCK_MAX_HZ,
        bus_hz == MCK_MAX_HZ,
        final(pmc).mckrdy.armed && final(pmc).mckrdy.latency == 0,
        final(pmc).settle == old(pmc).settle,
        final(pmc).piob_clock_on == old(pmc).piob_clock_on,
        final(pmc).uart_clock_on == old(pmc).uart_clock_on,
        final(efc0).fws == FLASH_WAIT_STATES,
        final(efc1).fws == FLASH_WAIT_STATES,
{
    efc0.set_wait_states(FLASH_WAIT_STATES);
    efc1.set_wait_states(FLASH_WAIT_STATES);

    if !detect_prior_selection(pmc) {
        pmc.enable_crystal(UNLOCK_KEY, CRYSTAL_STARTUP);
        wait_ready(&mut pmc.moscxts);
    }

    pmc.select_crystal(UNLOCK_KEY, CRYSTAL_STARTUP);
    wait_ready(&mut pmc.moscsels);

    pmc.select_main_clock();
    wait_ready(&mut pmc.mckrdy);

    pmc.enable_pll(true, PLL_MULA, PLL_DIVA, PLL_LOCK_COUNT);
    wait_ready(&mut pmc.locka);

    pmc.set_prescaler_div2();
    wait_ready(&mut pmc.mckrdy);

    pmc.select_pll_clock();
    wait_ready(&mut pmc.mckrdy);

    proof {
        assert(pmc.writes@ =~= old(pmc).writes@ + bringup_writes());
    }
    pmc.current_hz()
}

} // verus!
