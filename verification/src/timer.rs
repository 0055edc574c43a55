//! Model of the real-time timer: a free-running millisecond counter and the
//! busy-wait delay built on it.

use vstd::prelude::*;

verus! {

/// Prescaler value that gives the counter a resolution of about one
/// millisecond per tick.
pub const RTT_PRESCALER: u16 = 0x20;

/// The real-time timer. The counter runs freely; each read observes a value
/// `step` ticks later than the previous one, standing for the time the
/// polled read itself takes. A positive `step` is what makes every busy-wait
/// on the counter finish.
pub struct Rtt {
    /// Current counter value in ticks.
    pub value: u32,
    /// How far the counter advances between one read and the next.
    pub step: u32,
    /// Whether the tick resolution has been configured.
    pub configured: bool,
    /// The prescaler the resolution was configured with.
    pub prescaler: u16,
}

impl Rtt {
    /// A timer is usable once its counter makes progress between reads.
    pub open spec fn wf(self) -> bool {
        self.step >= 1
    }

    /// Configure the tick resolution. Must happen once during startup,
    /// before the first delay; repeating it is harmless.
    pub fn configure(&mut self, prescaler: u16)
        ensures
            final(self).prescaler == prescaler,
            final(self).configured,
            final(self).value == old(self).value,
            final(self).step == old(self).step,
    {
        self.prescaler = prescaler;
        self.configured = true;
    }

    /// Read the current counter value. The counter has moved on by `step`
    /// since the last observation.
    pub fn now(&mut self) -> (t: u32)
        requires
            old(self).wf(),
            old(self).value + old(self).step <= u32::MAX,
        ensures
            final(self).value == old(self).value + old(self).step,
            t == final(self).value,
            final(self).step == old(self).step,
            final(self).configured == old(self).configured,
            final(self).prescaler == old(self).prescaler,
    {
        self.value = self.value + self.step;
        self.value
    }
}

/// Block until at least `ms` ticks have passed since the call: read the
/// counter once, add the request, and poll until the counter reaches the
/// deadline. The counter must stay below its wrap point for the whole
/// wait; a request that would cross it is excluded rather than silently
/// cut short.
pub fn delay_ms(rtt: &mut Rtt, ms: u32)
    requires
        old(rtt).wf(),
        old(rtt).value + ms + 2 * old(rtt).step <= u32::MAX,
    ensures
        final(rtt).value >= old(rtt).value + ms,
        final(rtt).value <= old(rtt).value + ms + 2 * old(rtt).step,
        final(rtt).step == old(rtt).step,
        final(rtt).configured == old(rtt).configured,
        final(rtt).prescaler == old(rtt).prescaler,
{
    let now = rtt.now();
    let until = now + ms;

    loop
        invariant_except_break
            rtt.value <= until,
        invariant
            rtt.wf(),
            rtt.step == old(rtt).step,
            rtt.configured == old(rtt).configured,
            rtt.prescaler == old(rtt).prescaler,
            until == old(rtt).value + old(rtt).step + ms,
            until + rtt.step <= u32::MAX,
            rtt.value >= old(rtt).value + old(rtt).step,
        ensures
            rtt.step == old(rtt).step,
            rtt.configured == old(rtt).configured,
            rtt.prescaler == old(rtt).prescaler,
            rtt.value >= until,
            rtt.value <= until + rtt.step,
        decreases until - rtt.value,
    {
        let t = rtt.now();
        if t >= until {
            break;
        }
    }
}

} // verus!
