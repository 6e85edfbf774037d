use vl53l0x::device::ADDRESS_DEFAULT;
use vl53l0x::sim::SimBus;
use vl53l0x::Error;
use vl53l0x::NbError;
use vl53l0x::VL53L0X;

fn ready_device() -> VL53L0X<SimBus> {
    VL53L0X::default(SimBus::new()).unwrap()
}

#[test]
fn construction_succeeds_on_the_simulated_device() {
    let dev = ready_device();
    // the very first transaction is the identification read at the
    // default address
    let log = &dev.bus().log;
    assert!(log.len() > 1);
    assert_eq!(log[0].dev, ADDRESS_DEFAULT);
    assert_eq!(log[0].wrote, vec![0xC0]);
    assert_eq!(log[0].read, vec![0xEE]);
}

#[test]
fn construction_applies_the_recomputed_final_range_timeout() {
    let dev = ready_device();
    // bring-up measures a 28844 us budget over the full sequence, then
    // reapplies it over the reduced sequence: 568 macro-clock ticks,
    // encoded as 0x028D, land in the final-range timeout registers
    assert_eq!(dev.bus().regs[0x71], 0x02);
    assert_eq!(dev.bus().regs[0x72], 0x8D);
}

#[test]
fn construction_fails_with_the_observed_identification_byte() {
    let mut sim = SimBus::new();
    sim.regs[0xC0] = 0x42;
    match VL53L0X::default(sim) {
        Err(Error::InvalidDevice(b)) => assert_eq!(b, 0x42),
        _ => panic!("expected an unrecognized-device failure"),
    }
}

#[test]
fn failed_identification_issues_no_further_transaction() {
    // every transaction after the identification read would fail, so a
    // driver that touched the device again would report a bus error
    let mut sim = SimBus::new();
    sim.regs[0xC0] = 0x42;
    sim.fail_from = 1;
    match VL53L0X::default(sim) {
        Err(Error::InvalidDevice(b)) => assert_eq!(b, 0x42),
        _ => panic!("expected an unrecognized-device failure"),
    }
}

#[test]
fn construction_surfaces_bus_errors() {
    let mut sim = SimBus::new();
    sim.fail_from = 0;
    assert!(matches!(VL53L0X::default(sim), Err(Error::BusError(_))));
}

#[test]
fn who_am_i_reads_the_identification_register() {
    let mut dev = ready_device();
    assert_eq!(dev.who_am_i().unwrap(), 0xEE);
    let log = &dev.bus().log;
    assert_eq!(log[log.len() - 1].wrote, vec![0xC0]);
}

#[test]
fn set_device_address_writes_then_switches() {
    let mut dev = ready_device();
    assert!(dev.set_device_address(0x54).unwrap());
    {
        let log = &dev.bus().log;
        let last = &log[log.len() - 1];
        // the reassignment itself goes to the old address
        assert_eq!(last.dev, ADDRESS_DEFAULT);
        assert_eq!(last.wrote, vec![0x8A, 0x54 & 0x07]);
    }
    // every later transaction uses the new address
    dev.who_am_i().unwrap();
    let log = &dev.bus().log;
    assert_eq!(log[log.len() - 1].dev, 0x54);
}

#[test]
fn signal_rate_limit_quarter_mcps_writes_32() {
    let mut dev = ready_device();
    // 0.25 MCPS in the 9.7 fixed-point register format is 32
    assert_eq!((0.25f32 * 128.0) as u16, 32);
    assert!(dev.set_signal_rate_limit(25).unwrap());
    let log = &dev.bus().log;
    assert_eq!(log[log.len() - 1].wrote, vec![0x44, 0x00, 0x20]);
}

#[test]
fn signal_rate_limit_out_of_range_writes_nothing() {
    let mut dev = ready_device();
    let n0 = dev.bus().log.len();
    assert!(!dev.set_signal_rate_limit(-1).unwrap());
    assert!(!dev.set_signal_rate_limit(51200).unwrap());
    assert_eq!(dev.bus().log.len(), n0);
}

#[test]
fn measured_budget_after_bring_up() {
    let mut dev = ready_device();
    // over the reduced operational sequence (DSS, pre-range and
    // final-range enabled) the measured budget comes to 30044 us
    assert_eq!(dev.get_measurement_timing_budget().unwrap(), 30044);
}

#[test]
fn budget_below_minimum_is_rejected_without_any_transaction() {
    let mut dev = ready_device();
    let n0 = dev.bus().log.len();
    assert!(!dev.set_measurement_timing_budget(19999).unwrap());
    assert_eq!(dev.bus().log.len(), n0);
}

#[test]
fn budget_below_overhead_is_rejected_without_a_write() {
    let mut dev = ready_device();
    // inflate the pre-range timeout so the fixed overhead alone
    // exceeds the request
    dev.bus_mut().regs[0x51] = 0x08;
    dev.bus_mut().regs[0x52] = 0xFF;
    let n0 = dev.bus().log.len();
    assert!(!dev.set_measurement_timing_budget(25000).unwrap());
    let log = &dev.bus().log;
    assert_eq!(log.len(), n0 + 6);
    for t in &log[n0..] {
        // only register reads were issued
        assert_eq!(t.wrote.len(), 1);
    }
}

#[test]
fn budget_at_the_minimum_applies_when_overhead_fits() {
    let mut dev = ready_device();
    // 20000 us is allowed, and the enabled steps' overhead (12959 us)
    // fits, so application is owed
    assert!(dev.set_measurement_timing_budget(20000).unwrap());
}

#[test]
fn budget_application_writes_the_final_range_timeout() {
    let mut dev = ready_device();
    assert!(dev.set_measurement_timing_budget(28844).unwrap());
    let log = &dev.bus().log;
    // six reads, then the encoded 568-tick timeout
    assert_eq!(log[log.len() - 1].wrote, vec![0x71, 0x02, 0x8D]);
}

#[test]
fn start_continuous_back_to_back_replays_the_calibration_byte() {
    let mut dev = ready_device();
    let n0 = dev.bus().log.len();
    dev.start_continuous(0).unwrap();
    let log = &dev.bus().log;
    assert_eq!(log.len(), n0 + 8);
    assert_eq!(log[n0].wrote, vec![0x80, 0x01]);
    assert_eq!(log[n0 + 1].wrote, vec![0xFF, 0x01]);
    assert_eq!(log[n0 + 2].wrote, vec![0x00, 0x00]);
    // the calibration byte captured during bring-up (zero here)
    assert_eq!(log[n0 + 3].wrote, vec![0x91, 0x00]);
    assert_eq!(log[n0 + 4].wrote, vec![0x00, 0x01]);
    assert_eq!(log[n0 + 5].wrote, vec![0xFF, 0x00]);
    assert_eq!(log[n0 + 6].wrote, vec![0x80, 0x00]);
    assert_eq!(log[n0 + 7].wrote, vec![0x00, 0x02]);
}

#[test]
fn start_continuous_timed_scales_by_the_oscillator_calibration() {
    let mut dev = ready_device();
    dev.bus_mut().regs[0xF9] = 0x0D;
    let n0 = dev.bus().log.len();
    dev.start_continuous(20).unwrap();
    let log = &dev.bus().log;
    assert_eq!(log.len(), n0 + 10);
    // the oscillator value is read back big-endian
    assert_eq!(log[n0 + 7].wrote, vec![0xF8]);
    assert_eq!(log[n0 + 7].read, vec![0x00, 0x0D]);
    // 20 ms scaled by 13, written high byte first
    assert_eq!(log[n0 + 8].wrote, vec![0x04, 0x00, 0x00, 0x01, 0x04]);
    assert_eq!(log[n0 + 9].wrote, vec![0x00, 0x04]);
}

#[test]
fn stop_continuous_zeroes_the_calibration_byte() {
    let mut dev = ready_device();
    let n0 = dev.bus().log.len();
    dev.stop_continuous().unwrap();
    let log = &dev.bus().log;
    assert_eq!(log.len(), n0 + 6);
    assert_eq!(log[n0].wrote, vec![0x00, 0x01]);
    assert_eq!(log[n0 + 3].wrote, vec![0x91, 0x00]);
}

#[test]
fn nonblocking_read_returns_range_and_clears_once() {
    let mut dev = ready_device();
    dev.bus_mut().regs[0x1E] = 0x01;
    dev.bus_mut().regs[0x1F] = 0x2A;
    let n0 = dev.bus().log.len();
    assert_eq!(dev.read_range_mm().unwrap(), 298);
    let log = &dev.bus().log;
    assert_eq!(log.len(), n0 + 3);
    assert_eq!(log[n0].wrote, vec![0x13]);
    assert_eq!(log[n0 + 1].wrote, vec![0x1E]);
    assert_eq!(log[n0 + 1].read, vec![0x01, 0x2A]);
    // exactly one interrupt-clear write
    assert_eq!(log[n0 + 2].wrote, vec![0x0B, 0x01]);
}

#[test]
fn nonblocking_read_would_block_while_status_is_clear() {
    let mut dev = ready_device();
    dev.bus_mut().regs[0x13] = 0x00;
    let n0 = dev.bus().log.len();
    assert!(matches!(dev.read_range_mm(), Err(NbError::WouldBlock)));
    let log = &dev.bus().log;
    // only the status read was issued, nothing was written
    assert_eq!(log.len(), n0 + 1);
    assert_eq!(log[n0].wrote, vec![0x13]);
}

#[test]
fn blocking_continuous_read_returns_the_range() {
    let mut dev = ready_device();
    dev.bus_mut().regs[0x1E] = 0x01;
    dev.bus_mut().regs[0x1F] = 0x2A;
    assert_eq!(dev.read_range_continuous_millimeters_blocking().unwrap(), 298);
}

#[test]
fn blocking_read_times_out_after_the_attempt_ceiling() {
    let mut dev = ready_device();
    dev.bus_mut().regs[0x13] = 0x00;
    let n0 = dev.bus().log.len();
    assert!(matches!(
        dev.read_range_continuous_millimeters_blocking(),
        Err(Error::Timeout)
    ));
    // the poll is attempt-bounded at ten thousand reads
    assert_eq!(dev.bus().log.len(), n0 + 10000);
}

#[test]
fn blocking_single_shot_read_returns_the_range() {
    let mut dev = ready_device();
    dev.bus_mut().regs[0x1E] = 0x03;
    dev.bus_mut().regs[0x1F] = 0xE8;
    let n0 = dev.bus().log.len();
    assert_eq!(dev.read_range_single_millimeters_blocking().unwrap(), 1000);
    let log = &dev.bus().log;
    // the calibration byte is replayed before the start command
    assert_eq!(log[n0 + 3].wrote, vec![0x91, 0x00]);
    assert_eq!(log[n0 + 7].wrote, vec![0x00, 0x01]);
}

#[test]
fn bus_errors_surface_from_operations() {
    let mut dev = ready_device();
    let n = dev.bus().log.len();
    dev.bus_mut().fail_from = n;
    assert!(dev.who_am_i().is_err());
    assert!(matches!(
        dev.read_range_continuous_millimeters_blocking(),
        Err(Error::BusError(_))
    ));
    assert!(matches!(dev.read_range_mm(), Err(NbError::Other(Error::BusError(_)))));
}
