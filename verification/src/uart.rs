//! Model of the UART peripheral and the polled byte-relay loop.
//!
//! The receiver is modelled by a script of arrival batches: the bytes of
//! batch `i` arrive between poll `i` and poll `i + 1`, each overwriting the
//! single receive holding register. A batch with more than one byte is an
//! overrun: only its last byte is still held when the poll sees the
//! receive-ready flag, which is the hardware's accepted silent-drop
//! behaviour. Everything written to the transmit holding register is
//! recorded in order.

use vstd::prelude::*;

verus! {

/// Fixed line rate the relay runs at.
pub const TARGET_BAUD: u32 = 115200;

/// Baud-rate divisor: the bus clock divided by sixteen times the target
/// baud rate, truncated.
pub fn baud_divisor(bus_hz: u32, baud: u32) -> (d: u32)
    requires
        1 <= baud,
        16 * baud <= u32::MAX,
    ensures
        d == bus_hz as int / (16 * baud as int),
{
    bus_hz / (16 * baud)
}

/// The UART: configuration, the one-byte receive holding register, the
/// script of arrivals still to come, and the log of transmitted bytes.
pub struct Uart {
    /// Bytes that arrive between consecutive status polls: batch `i` lands
    /// before poll `i + 1` of the status register.
    pub arrivals: Vec<Vec<u8>>,
    /// Index of the next arrival batch to land.
    pub next: usize,
    /// Receive holding register: the last byte that arrived.
    pub rhr: u8,
    /// Receive-ready flag: a byte has arrived and was not yet read.
    pub rxrdy: bool,
    /// Transmit-ready flag as sampled by the one diagnostic read.
    pub txrdy: bool,
    /// Every byte written to the transmit holding register, oldest first.
    pub transmitted: Vec<u8>,
    /// Configured clock divisor.
    pub cd: u16,
    /// Receiver enabled.
    pub rx_enabled: bool,
    /// Transmitter enabled.
    pub tx_enabled: bool,
}

/// The I/O controller that owns the UART's two pins.
pub struct Pioa {
    /// RX and TX handed from general I/O to the UART.
    pub uart_pins_routed: bool,
}

impl Pioa {
    /// Route the RX and TX pins to the UART.
    pub fn route_uart_pins(&mut self)
        ensures
            final(self).uart_pins_routed,
    {
        self.uart_pins_routed = true;
    }
}

impl Uart {
    /// Write the clock divisor register.
    pub fn set_divisor(&mut self, cd: u16)
        ensures
            *final(self) == (Uart { cd: cd, ..*old(self) }),
    {
        self.cd = cd;
    }

    /// Control-register write enabling receiver and transmitter.
    pub fn enable_rx_tx(&mut self)
        ensures
            *final(self) == (Uart { rx_enabled: true, tx_enabled: true, ..*old(self) }),
    {
        self.rx_enabled = true;
        self.tx_enabled = true;
    }

    /// Sample the transmit-ready flag from the status register.
    pub fn read_txrdy(&self) -> (r: bool)
        ensures
            r == self.txrdy,
    {
        self.txrdy
    }

    /// Poll the status register for receive-ready. The bytes that arrived
    /// since the previous poll land first, each overwriting the holding
    /// register, so of an overrun batch only the last byte remains.
    pub fn poll_rxrdy(&mut self) -> (r: bool)
        ensures
            old(self).next < old(self).arrivals@.len() ==> {
                let batch = old(self).arrivals@[old(self).next as int]@;
                &&& final(self).next == old(self).next + 1
                &&& (batch.len() > 0 ==> final(self).rhr == batch.last() && final(self).rxrdy)
                &&& (batch.len() == 0 ==> final(self).rhr == old(self).rhr && final(self).rxrdy
                    == old(self).rxrdy)
            },
            old(self).next >= old(self).arrivals@.len() ==> final(self).next == old(self).next
                && final(self).rhr == old(self).rhr && final(self).rxrdy == old(self).rxrdy,
            r == final(self).rxrdy,
            final(self).arrivals@ == old(self).arrivals@,
            final(self).transmitted@ == old(self).transmitted@,
            final(self).txrdy == old(self).txrdy,
            final(self).cd == old(self).cd,
            final(self).rx_enabled == old(self).rx_enabled,
            final(self).tx_enabled == old(self).tx_enabled,
    {
        if self.next < self.arrivals.len() {
            let n = self.arrivals[self.next].len();
            if n > 0 {
                let b = self.arrivals[self.next][n - 1];
                self.rhr = b;
                self.rxrdy = true;
            }
            self.next = self.next + 1;
        }
        self.rxrdy
    }

    /// Read the receive holding register, clearing receive-ready.
    pub fn read_rhr(&mut self) -> (b: u8)
        ensures
            *final(self) == (Uart { rxrdy: false, ..*old(self) }),
            b == old(self).rhr,
    {
        self.rxrdy = false;
        self.rhr
    }

    /// Write one byte to the transmit holding register.
    pub fn write_thr(&mut self, b: u8)
        ensures
            final(self).transmitted@ == old(self).transmitted@.push(b),
            *final(self) == (Uart { transmitted: final(self).transmitted, ..*old(self) }),
    {
        self.transmitted.push(b);
    }
}

/// What the relay sends for one arrival batch: the last byte if any
/// arrived, nothing otherwise.
pub open spec fn echo_of(batch: Seq<u8>) -> Seq<u8> {
    if batch.len() > 0 {
        seq![batch.last()]
    } else {
        Seq::empty()
    }
}

/// What the relay sends for a script of arrival batches, in order.
pub open spec fn echoed(batches: Seq<Seq<u8>>) -> Seq<u8>
    decreases batches.len(),
{
    if batches.len() == 0 {
        Seq::empty()
    } else {
        echoed(batches.drop_last()) + echo_of(batches.last())
    }
}

/// The views of a script's batches.
pub open spec fn batch_views(arrivals: Seq<Vec<u8>>) -> Seq<Seq<u8>> {
    arrivals.map_values(|b: Vec<u8>| b@)
}

/// Extending a script by one batch extends its echo by that batch's echo.
pub proof fn lemma_echoed_snoc(s: Seq<Seq<u8>>, a: int, b: int)
    requires
        0 <= a <= b < s.len(),
    ensures
        echoed(s.subrange(a, b + 1)) == echoed(s.subrange(a, b)) + echo_of(s[b]),
{
    assert(s.subrange(a, b + 1).drop_last() =~= s.subrange(a, b));
    assert(s.subrange(a, b + 1).last() == s[b]);
}

/// One iteration of the relay loop: poll receive-ready and, if a byte is
/// held, read it and write it straight to the transmit holding register,
/// before receive-ready is polled again.
pub fn relay_step(uart: &mut Uart)
    requires
        !old(uart).rxrdy,
    ensures
        !final(uart).rxrdy,
        old(uart).next < old(uart).arrivals@.len() ==> {
            &&& final(uart).next == old(uart).next + 1
            &&& final(uart).transmitted@ == old(uart).transmitted@ + echo_of(
                old(uart).arrivals@[old(uart).next as int]@,
            )
        },
        old(uart).next >= old(uart).arrivals@.len() ==> final(uart).next == old(uart).next
            && final(uart).transmitted@ == old(uart).transmitted@,
        final(uart).arrivals@ == old(uart).arrivals@,
        final(uart).txrdy == old(uart).txrdy,
        final(uart).cd == old(uart).cd,
        final(uart).rx_enabled == old(uart).rx_enabled,
        final(uart).tx_enabled == old(uart).tx_enabled,
{
    let r = uart.poll_rxrdy();
    if r {
        let b = uart.read_rhr();
        uart.write_thr(b);
    }
    proof {
        if old(uart).next < old(uart).arrivals@.len() {
            let batch = old(uart).arrivals@[old(uart).next as int]@;
            if batch.len() > 0 {
                assert(uart.transmitted@ =~= old(uart).transmitted@ + echo_of(batch));
            } else {
                assert(uart.transmitted@ =~= old(uart).transmitted@ + echo_of(batch));
            }
        }
    }
}

/// Run the relay until the whole arrival script has been polled. The
/// transmit log extends by exactly the echo of the remaining script: the
/// last byte of every overrun batch, every singleton byte, nothing for the
/// polls where nothing arrived — and nothing else.
pub fn relay_run(uart: &mut Uart)
    requires
        !old(uart).rxrdy,
        old(uart).next <= old(uart).arrivals@.len(),
    ensures
        !final(uart).rxrdy,
        final(uart).next == final(uart).arrivals@.len(),
        final(uart).transmitted@ == old(uart).transmitted@ + echoed(
            batch_views(old(uart).arrivals@).subrange(
                old(uart).next as int,
                old(uart).arrivals@.len() as int,
            ),
        ),
        final(uart).arrivals@ == old(uart).arrivals@,
        final(uart).txrdy == old(uart).txrdy,
        final(uart).cd == old(uart).cd,
        final(uart).rx_enabled == old(uart).rx_enabled,
        final(uart).tx_enabled == old(uart).tx_enabled,
{
    proof {
        assert(uart.transmitted@ =~= uart.transmitted@ + echoed(
            batch_views(uart.arrivals@).subrange(uart.next as int, uart.next as int),
        ));
    }
    while uart.next < uart.arrivals.len()
        invariant
            !uart.rxrdy,
            uart.next <= uart.arrivals@.len(),
            old(uart).next <= uart.next,
            uart.arrivals@ == old(uart).arrivals@,
            uart.txrdy == old(uart).txrdy,
            uart.cd == old(uart).cd,
            uart.rx_enabled == old(uart).rx_enabled,
            uart.tx_enabled == old(uart).tx_enabled,
            uart.transmitted@ == old(uart).transmitted@ + echoed(
                batch_views(old(uart).arrivals@).subrange(old(uart).next as int, uart.next as int),
            ),
        decreases uart.arrivals@.len() - uart.next,
    {
        let ghost prev = uart.next as int;
        relay_step(uart);
        proof {
            let s = batch_views(old(uart).arrivals@);
            lemma_echoed_snoc(s, old(uart).next as int, prev);
            assert(s[prev] == old(uart).arrivals@[prev]@);
            assert(uart.transmitted@ =~= old(uart).transmitted@ + echoed(
                s.subrange(old(uart).next as int, prev + 1),
            ));
        }
    }
    proof {
        assert(batch_views(old(uart).arrivals@).subrange(
            old(uart).next as int,
            uart.next as int,
        ) =~= batch_views(old(uart).arrivals@).subrange(
            old(uart).next as int,
            old(uart).arrivals@.len() as int,
        ));
    }
}

} // verus!
