//! Tests driving the peripheral models through the public operations.

use bringup::baud_divisor;
use bringup::delay_ms;
use bringup::detect_prior_selection;
use bringup::pulse;
use bringup::relay_run;
use bringup::relay_step;
use bringup::run_firmware;
use bringup::run_full_bringup;
use bringup::startup;
use bringup::wait_ready;
use bringup::ClockState;
use bringup::Css;
use bringup::Efc;
use bringup::Flag;
use bringup::Led;
use bringup::Pioa;
use bringup::Pmc;
use bringup::PmcWrite;
use bringup::Pres;
use bringup::Rtt;
use bringup::Uart;
use bringup::GAP_MS;
use bringup::PULSE_MS;
use bringup::RTT_PRESCALER;
use bringup::TARGET_BAUD;
use bringup::UNLOCK_KEY;

fn fresh_rtt(step: u32) -> Rtt {
    Rtt { value: 0, step, configured: false, prescaler: 0 }
}

fn fresh_led() -> Led {
    Led { level: false, output_enabled: false, pullup_disabled: false, events: Vec::new() }
}

fn unarmed() -> Flag {
    Flag { armed: false, latency: 0 }
}

fn fresh_pmc(settle: u32) -> Pmc {
    Pmc {
        state: ClockState::ColdRc,
        crystal_on: false,
        crystal_startup: 0,
        crystal_selected: false,
        pll_on: false,
        pll_mula: 0,
        pll_diva: 0,
        css: Css::MainClk,
        pres: Pres::Clk1,
        moscxts: unarmed(),
        moscsels: unarmed(),
        mckrdy: unarmed(),
        locka: unarmed(),
        settle,
        piob_clock_on: false,
        uart_clock_on: false,
        writes: Vec::new(),
    }
}

fn fresh_uart(arrivals: Vec<Vec<u8>>, txrdy: bool) -> Uart {
    Uart {
        arrivals,
        next: 0,
        rhr: 0,
        rxrdy: false,
        txrdy,
        transmitted: Vec::new(),
        cd: 0,
        rx_enabled: false,
        tx_enabled: false,
    }
}

#[test]
fn delay_reaches_deadline() {
    let mut rtt = fresh_rtt(1);
    let start = rtt.value;
    delay_ms(&mut rtt, 50);
    assert!(rtt.value - start >= 50);
}

#[test]
fn delay_with_coarse_step_still_reaches_deadline() {
    let mut rtt = fresh_rtt(7);
    let start = rtt.value;
    delay_ms(&mut rtt, 100);
    assert!(rtt.value - start >= 100);
    // the wait overshoots by less than two polls
    assert!(rtt.value - start <= 100 + 2 * 7);
}

#[test]
fn delay_zero_is_one_poll() {
    let mut rtt = fresh_rtt(3);
    delay_ms(&mut rtt, 0);
    assert!(rtt.value <= 6);
}

#[test]
fn timer_configuration_is_recorded() {
    let mut rtt = fresh_rtt(1);
    assert!(!rtt.configured);
    rtt.configure(RTT_PRESCALER);
    assert!(rtt.configured);
    assert_eq!(rtt.prescaler, 0x20);
}

#[test]
fn pulse_zero_drives_no_edge_and_takes_no_time() {
    let mut rtt = fresh_rtt(1);
    let mut led = fresh_led();
    pulse(&mut led, &mut rtt, 0);
    assert_eq!(led.events.len(), 0);
    assert_eq!(rtt.value, 0);
}

#[test]
fn pulse_three_drives_three_timed_pairs() {
    let mut rtt = fresh_rtt(1);
    let mut led = fresh_led();
    pulse(&mut led, &mut rtt, 3);
    assert_eq!(led.events.len(), 6);
    for k in 0..3 {
        let rise = led.events[2 * k];
        let fall = led.events[2 * k + 1];
        assert!(rise.rising);
        assert!(!fall.rising);
        assert!(fall.at - rise.at >= PULSE_MS);
        if k > 0 {
            let prev_fall = led.events[2 * k - 1];
            assert!(rise.at - prev_fall.at >= GAP_MS);
        }
    }
    assert!(!led.level);
}

#[test]
fn pulse_one_has_no_gap_around_it() {
    let mut rtt = fresh_rtt(1);
    let mut led = fresh_led();
    let before = rtt.value;
    pulse(&mut led, &mut rtt, 1);
    assert_eq!(led.events.len(), 2);
    // no leading gap: the rising edge comes straight away
    assert!(led.events[0].at - before <= 2);
}

#[test]
fn repeated_pulse_calls_append_in_order() {
    let mut rtt = fresh_rtt(1);
    let mut led = fresh_led();
    pulse(&mut led, &mut rtt, 2);
    pulse(&mut led, &mut rtt, 1);
    assert_eq!(led.events.len(), 6);
    for k in 0..3 {
        assert!(led.events[2 * k].rising);
        assert!(!led.events[2 * k + 1].rising);
    }
}

#[test]
fn flag_reports_ready_after_settle_reads() {
    let mut f = Flag { armed: true, latency: 3 };
    assert!(!f.read());
    assert!(!f.read());
    assert!(!f.read());
    assert!(f.read());
    assert!(f.read());
}

#[test]
fn unarmed_flag_never_reports_ready() {
    let mut f = unarmed();
    for _ in 0..10 {
        assert!(!f.read());
    }
}

#[test]
fn wait_ready_consumes_the_latency() {
    let mut f = Flag { armed: true, latency: 5 };
    wait_ready(&mut f);
    assert_eq!(f.latency, 0);
    assert!(f.armed);
}

#[test]
fn bringup_writes_in_exact_order() {
    let mut pmc = fresh_pmc(4);
    let mut efc0 = Efc { fws: 0 };
    let mut efc1 = Efc { fws: 0 };
    let bus = run_full_bringup(&mut pmc, &mut efc0, &mut efc1);
    assert_eq!(bus, 84_000_000);
    assert_eq!(
        pmc.writes,
        vec![
            PmcWrite::EnableCrystal,
            PmcWrite::SelectCrystal,
            PmcWrite::SelectMainClock,
            PmcWrite::EnablePll,
            PmcWrite::SetPrescaler,
            PmcWrite::SelectPllClock,
        ]
    );
    assert_eq!(pmc.state, ClockState::PllSelected);
    assert_eq!(efc0.fws, 4);
    assert_eq!(efc1.fws, 4);
}

#[test]
fn bringup_ends_on_pll_at_half_speed() {
    let mut pmc = fresh_pmc(0);
    let mut efc0 = Efc { fws: 0 };
    let mut efc1 = Efc { fws: 0 };
    run_full_bringup(&mut pmc, &mut efc0, &mut efc1);
    assert_eq!(pmc.css, Css::PllaClk);
    assert_eq!(pmc.pres, Pres::Clk2);
    assert!(pmc.crystal_selected);
    assert_eq!(pmc.current_hz(), 84_000_000);
}

#[test]
fn prior_selection_is_detected_without_writing() {
    let mut pmc = fresh_pmc(2);
    assert!(!detect_prior_selection(&pmc));
    let mut efc0 = Efc { fws: 0 };
    let mut efc1 = Efc { fws: 0 };
    run_full_bringup(&mut pmc, &mut efc0, &mut efc1);
    let writes_before = pmc.writes.len();
    assert!(detect_prior_selection(&pmc));
    assert_eq!(pmc.writes.len(), writes_before);
}

#[test]
fn mor_write_without_key_is_discarded() {
    let mut pmc = fresh_pmc(2);
    pmc.enable_crystal(0x55, 8);
    assert!(!pmc.crystal_on);
    assert_eq!(pmc.writes.len(), 0);
    assert!(!pmc.moscxts.armed);
    pmc.enable_crystal(UNLOCK_KEY, 8);
    assert!(pmc.crystal_on);
    assert_eq!(pmc.writes, vec![PmcWrite::EnableCrystal]);
}

#[test]
fn selecting_an_unpowered_crystal_never_reports_ready() {
    let mut pmc = fresh_pmc(2);
    pmc.select_crystal(UNLOCK_KEY, 8);
    assert!(!pmc.moscsels.armed);
    for _ in 0..10 {
        assert!(!pmc.moscsels.read());
    }
}

#[test]
fn baud_divisor_example() {
    assert_eq!(baud_divisor(84_000_000, 115_200), 45);
}

#[test]
fn baud_divisor_truncates() {
    assert_eq!(baud_divisor(84_000_000, 9_600), 546);
    assert_eq!(baud_divisor(1_000_000, TARGET_BAUD), 0);
    assert_eq!(baud_divisor(0, 115_200), 0);
}

#[test]
fn relay_echoes_one_byte_before_next_poll() {
    let mut uart = fresh_uart(vec![vec![0x41]], true);
    relay_step(&mut uart);
    // the byte was written to the transmit register within the same
    // iteration, before receive-ready is polled again
    assert_eq!(uart.transmitted, vec![0x41]);
    assert!(!uart.rxrdy);
    relay_step(&mut uart);
    assert_eq!(uart.transmitted, vec![0x41]);
}

#[test]
fn relay_run_echoes_script() {
    let mut uart = fresh_uart(vec![vec![0x41], vec![], vec![0x42], vec![0x43]], true);
    relay_run(&mut uart);
    assert_eq!(uart.transmitted, vec![0x41, 0x42, 0x43]);
}

#[test]
fn overrun_keeps_last_byte_only() {
    // two receive-ready events before any transmit: the second byte
    // overwrites the holding register and the first is silently dropped
    let mut uart = fresh_uart(vec![vec![0x41, 0x42]], true);
    relay_run(&mut uart);
    assert_eq!(uart.transmitted, vec![0x42]);
}

#[test]
fn idle_polls_transmit_nothing() {
    let mut uart = fresh_uart(vec![vec![], vec![], vec![]], true);
    relay_run(&mut uart);
    assert_eq!(uart.transmitted, Vec::<u8>::new());
    assert_eq!(uart.next, 3);
}

#[test]
fn startup_configures_everything() {
    let mut rtt = fresh_rtt(1);
    let mut led = fresh_led();
    let mut pmc = fresh_pmc(3);
    let mut efc0 = Efc { fws: 0 };
    let mut efc1 = Efc { fws: 0 };
    let mut pioa = Pioa { uart_pins_routed: false };
    let mut uart = fresh_uart(Vec::new(), true);
    let bus = startup(&mut rtt, &mut led, &mut pmc, &mut efc0, &mut efc1, &mut pioa, &mut uart);
    assert_eq!(bus, 84_000_000);
    assert!(rtt.configured);
    assert!(pmc.piob_clock_on && pmc.uart_clock_on);
    assert_eq!(uart.cd, 45);
    assert!(uart.rx_enabled && uart.tx_enabled);
    assert!(pioa.uart_pins_routed);
    // transmitter was ready, so only the two self-test pulses
    assert_eq!(led.events.len(), 4);
}

#[test]
fn startup_blinks_diagnostic_when_transmitter_not_ready() {
    let mut rtt = fresh_rtt(1);
    let mut led = fresh_led();
    let mut pmc = fresh_pmc(3);
    let mut efc0 = Efc { fws: 0 };
    let mut efc1 = Efc { fws: 0 };
    let mut pioa = Pioa { uart_pins_routed: false };
    let mut uart = fresh_uart(Vec::new(), false);
    startup(&mut rtt, &mut led, &mut pmc, &mut efc0, &mut efc1, &mut pioa, &mut uart);
    // two self-test pulses, then three diagnostic pulses
    assert_eq!(led.events.len(), 10);
}

#[test]
fn firmware_run_end_to_end() {
    let mut rtt = fresh_rtt(1);
    let mut led = fresh_led();
    let mut pmc = fresh_pmc(2);
    let mut efc0 = Efc { fws: 0 };
    let mut efc1 = Efc { fws: 0 };
    let mut pioa = Pioa { uart_pins_routed: false };
    let mut uart = fresh_uart(vec![vec![b'h'], vec![b'i'], vec![], vec![b'!', b'?']], true);
    let bus = run_firmware(&mut rtt, &mut led, &mut pmc, &mut efc0, &mut efc1, &mut pioa, &mut uart);
    assert_eq!(bus, 84_000_000);
    assert_eq!(pmc.writes.len(), 6);
    assert_eq!(uart.transmitted, vec![b'h', b'i', b'?']);
}
