//! Model of the status LED pin and the pulse-count indicator protocol.
//!
//! The LED is one digital output; the model records every level transition
//! together with the counter value at which it happened, so that contracts
//! can speak about edge counts and pulse timing.

use vstd::prelude::*;

use crate::timer::delay_ms;
use crate::timer::Rtt;

verus! {

/// How long the pin is held high for one pulse, in timer ticks.
pub const PULSE_MS: u32 = 50;

/// Gap between two consecutive pulses, in timer ticks.
pub const GAP_MS: u32 = 200;

/// One level transition of the pin: a rising or falling edge, stamped with
/// the counter value at which it was driven.
#[derive(Clone, Copy, PartialEq, Eq, Structural, Debug)]
pub struct PinEvent {
    /// True for a rising edge, false for a falling one.
    pub rising: bool,
    /// Counter value when the edge was driven.
    pub at: u32,
}

/// The status LED: one output pin whose transitions are recorded.
pub struct Led {
    /// Current pin level; true is lit.
    pub level: bool,
    /// Pin handed to the I/O controller with its output driver on.
    pub output_enabled: bool,
    /// Pull-up resistor switched off.
    pub pullup_disabled: bool,
    /// Every transition driven so far, oldest first.
    pub events: Vec<PinEvent>,
}

impl Led {
    /// Hand the pin to the I/O controller and enable its output driver.
    pub fn enable_output(&mut self)
        ensures
            *final(self) == (Led { output_enabled: true, ..*old(self) }),
    {
        self.output_enabled = true;
    }

    /// Switch the pin's pull-up resistor off.
    pub fn disable_pullup(&mut self)
        ensures
            *final(self) == (Led { pullup_disabled: true, ..*old(self) }),
    {
        self.pullup_disabled = true;
    }

    /// Drive the pin high. A transition is recorded only when the level
    /// actually changes, as on the hardware's set-output register.
    pub fn set_high(&mut self, at: u32)
        ensures
            final(self).level,
            final(self).output_enabled == old(self).output_enabled,
            final(self).pullup_disabled == old(self).pullup_disabled,
            old(self).level ==> final(self).events@ == old(self).events@,
            !old(self).level ==> final(self).events@ == old(self).events@.push(
                (PinEvent { rising: true, at: at }),
            ),
    {
        if !self.level {
            self.level = true;
            self.events.push(PinEvent { rising: true, at: at });
        }
    }

    /// Drive the pin low; the falling edge is recorded only on a change.
    pub fn set_low(&mut self, at: u32)
        ensures
            !final(self).level,
            final(self).output_enabled == old(self).output_enabled,
            final(self).pullup_disabled == old(self).pullup_disabled,
            !old(self).level ==> final(self).events@ == old(self).events@,
            old(self).level ==> final(self).events@ == old(self).events@.push(
                (PinEvent { rising: false, at: at }),
            ),
    {
        if self.level {
            self.level = false;
            self.events.push(PinEvent { rising: false, at: at });
        }
    }
}

/// The events from index `base` on form `count` well-timed pulses: each pair
/// is a rising then a falling edge at least `PULSE_MS` apart, and every pulse
/// after the first starts at least `GAP_MS` after the previous falling edge,
/// so no edge is driven before the preceding gap has completed.
pub open spec fn pulse_train(evs: Seq<PinEvent>, base: int, count: int) -> bool
    decreases count,
{
    count <= 0 || {
        let r = evs[base + 2 * (count - 1)];
        let f = evs[base + 2 * (count - 1) + 1];
        &&& pulse_train(evs, base, count - 1)
        &&& r.rising
        &&& !f.rising
        &&& r.at + PULSE_MS <= f.at
        &&& (count - 1 > 0 ==> evs[base + 2 * (count - 1) - 1].at + GAP_MS <= r.at)
    }
}

/// A pulse train only looks at entries below `base + 2 * count`, so it is
/// unaffected by anything appended after them.
pub proof fn lemma_pulse_train_extend(evs1: Seq<PinEvent>, evs2: Seq<PinEvent>, base: int, count: int)
    requires
        base >= 0,
        count >= 0,
        base + 2 * count <= evs1.len(),
        evs1.len() <= evs2.len(),
        forall|j: int| 0 <= j < evs1.len() ==> evs2[j] == evs1[j],
        pulse_train(evs1, base, count),
    ensures
        pulse_train(evs2, base, count),
    decreases count,
{
    if count > 0 {
        lemma_pulse_train_extend(evs1, evs2, base, count - 1);
    }
}

/// Emit `count` pulses on the LED: high for `PULSE_MS`, low again, with a
/// `GAP_MS` pause before every pulse but the first and no trailing gap.
/// A count of zero drives no edge and consumes no time.
pub fn pulse(led: &mut Led, rtt: &mut Rtt, count: u32)
    requires
        old(rtt).wf(),
        !old(led).level,
        old(rtt).value + count * (PULSE_MS + GAP_MS + 4 * old(rtt).step) <= u32::MAX,
    ensures
        !final(led).level,
        final(led).output_enabled == old(led).output_enabled,
        final(led).pullup_disabled == old(led).pullup_disabled,
        final(led).events@.len() == old(led).events@.len() + 2 * count,
        forall|j: int|
            0 <= j < old(led).events@.len() ==> final(led).events@[j] == old(led).events@[j],
        pulse_train(final(led).events@, old(led).events@.len() as int, count as int),
        final(rtt).wf(),
        final(rtt).step == old(rtt).step,
        final(rtt).configured == old(rtt).configured,
        final(rtt).prescaler == old(rtt).prescaler,
        final(rtt).value <= old(rtt).value + count * (PULSE_MS + GAP_MS + 4 * old(rtt).step),
        count == 0 ==> final(rtt).value == old(rtt).value && final(led).events@ == old(
            led,
        ).events@,
{
    let ghost base = old(led).events@.len() as int;
    let mut i: u32 = 0;
    while i < count
        invariant
            i <= count,
            rtt.wf(),
            rtt.step == old(rtt).step,
            rtt.configured == old(rtt).configured,
            rtt.prescaler == old(rtt).prescaler,
            !led.level,
            led.output_enabled == old(led).output_enabled,
            led.pullup_disabled == old(led).pullup_disabled,
            base == old(led).events@.len(),
            led.events@.len() == base + 2 * i,
            forall|j: int| 0 <= j < base ==> led.events@[j] == old(led).events@[j],
            pulse_train(led.events@, base, i as int),
            i > 0 ==> led.events@[base + 2 * i - 1].at <= rtt.value,
            rtt.value <= old(rtt).value + i * (PULSE_MS + GAP_MS + 4 * rtt.step),
            rtt.value + (count - i) * (PULSE_MS + GAP_MS + 4 * rtt.step) <= u32::MAX,
            i == 0 ==> rtt.value == old(rtt).value,
        decreases count - i,
    {
        proof {
            let k: int = PULSE_MS as int + GAP_MS as int + 4 * (rtt.step as int);
            assert(((count - i) as int) * k >= k) by (nonlinear_arith)
                requires
                    (i as int) < (count as int),
                    k >= 0,
            ;
            assert(((count - i) as int) * k == ((count - (i + 1)) as int) * k + k)
                by (nonlinear_arith)
                requires
                    (i as int) < (count as int),
            ;
            assert(((i + 1) as int) * k == (i as int) * k + k) by (nonlinear_arith);
        }
        let ghost evs0 = led.events@;
        if i > 0 {
            delay_ms(rtt, GAP_MS);
        }
        led.set_high(rtt.value);
        delay_ms(rtt, PULSE_MS);
        led.set_low(rtt.value);
        proof {
            lemma_pulse_train_extend(evs0, led.events@, base, i as int);
        }
        i = i + 1;
    }
    proof {
        if count == 0 {
            assert(led.events@ =~= old(led).events@);
        }
    }
}

} // verus!
