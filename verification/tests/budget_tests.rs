use vl53l0x::budget::budget_from;
use vl53l0x::budget::decode_sequence_step_enables;
use vl53l0x::budget::final_range_timeout_for;
use vl53l0x::budget::used_budget_from;
use vl53l0x::budget::SeqStepEnables;
use vl53l0x::budget::SeqStepTimeouts;

fn sample_timeouts() -> SeqStepTimeouts {
    SeqStepTimeouts {
        pre_range_vcselperiod_pclks: 14,
        final_range_vcsel_period_pclks: 10,
        msrc_dss_tcc_mclks: 6,
        pre_range_mclks: 151,
        final_range_mclks: 358,
        msrc_dss_tcc_microseconds: 346,
        pre_range_microseconds: 8087,
        final_range_microseconds: 13669,
    }
}

#[test]
fn sequence_config_bits_decode_to_enables() {
    let e = decode_sequence_step_enables(0xE8);
    assert_eq!(
        e,
        SeqStepEnables { tcc: false, dss: true, msrc: false, pre_range: true, final_range: true }
    );
    let full = decode_sequence_step_enables(0xFF);
    assert!(full.tcc && full.dss && full.msrc && full.pre_range && full.final_range);
    let none = decode_sequence_step_enables(0x00);
    assert!(!none.tcc && !none.dss && !none.msrc && !none.pre_range && !none.final_range);
}

#[test]
fn measured_budget_sums_enabled_steps_with_overheads() {
    let t = sample_timeouts();
    let full = decode_sequence_step_enables(0xFF);
    // 1910 + 960 start/end, TCC 346+590, DSS doubled 2*(346+690)
    // (suppressing MSRC), pre-range 8087+660, final-range 13669+550
    assert_eq!(budget_from(&full, &t), 28844);
    let none = decode_sequence_step_enables(0x00);
    assert_eq!(budget_from(&none, &t), 2870);
    // with DSS off, MSRC contributes singly with its own overhead
    let msrc_only = decode_sequence_step_enables(0x04);
    assert_eq!(budget_from(&msrc_only, &t), 2870 + 346 + 660);
}

#[test]
fn used_budget_has_the_target_start_overhead() {
    let t = sample_timeouts();
    let reduced = decode_sequence_step_enables(0xE8);
    // 1320 + 960, DSS 2*346+690, pre-range 8087+660, final-range 550
    assert_eq!(used_budget_from(&reduced, &t), 12959);
}

#[test]
fn final_range_timeout_covers_the_remaining_budget() {
    let t = sample_timeouts();
    let reduced = decode_sequence_step_enables(0xE8);
    // 28844 - 12959 us left, 417 ticks at the final-range macro period,
    // plus the 151 pre-range ticks the register holds inclusively
    assert_eq!(final_range_timeout_for(28844, &reduced, &t), 568);
}
