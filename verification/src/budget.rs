//! The measurement-timing-budget model: which ranging sub-steps are
//! enabled, their decoded timeouts, and the fixed per-step overhead sums
//! that relate a budget in microseconds to the final-range timeout.

use vstd::prelude::*;

use crate::timing::spec_decode_timeout;
use crate::timing::spec_decode_vcsel_period;
use crate::timing::spec_mclks_to_us;
use crate::timing::spec_us_to_mclks;
use crate::timing::timeout_microseconds_to_mclks;

verus! {

/// Which of the five ranging sub-steps are active, as decoded from the
/// sequence-config register.
#[derive(Debug, Clone, Copy, PartialEq, Eq)]
pub struct SeqStepEnables {
    pub tcc: bool,
    pub dss: bool,
    pub msrc: bool,
    pub pre_range: bool,
    pub final_range: bool,
}

/// Derived timing quantities of the pre-range and final-range sub-steps:
/// macro-clock counts and their microsecond equivalents.
#[derive(Debug, Clone, Copy, PartialEq, Eq)]
pub struct SeqStepTimeouts {
    pub pre_range_vcselperiod_pclks: u8,
    pub final_range_vcsel_period_pclks: u8,
    pub msrc_dss_tcc_mclks: u16,
    pub pre_range_mclks: u16,
    pub final_range_mclks: u16,
    pub msrc_dss_tcc_microseconds: u32,
    pub pre_range_microseconds: u32,
    pub final_range_microseconds: u32,
}

/// Sub-step enables denoted by a sequence-config register value.
pub open spec fn spec_enables(sequence_config: u8) -> SeqStepEnables {
    SeqStepEnables {
        tcc: (sequence_config >> 4u8) & 1 == 1,
        dss: (sequence_config >> 3u8) & 1 == 1,
        msrc: (sequence_config >> 2u8) & 1 == 1,
        pre_range: (sequence_config >> 6u8) & 1 == 1,
        final_range: (sequence_config >> 7u8) & 1 == 1,
    }
}

/// Decodes the sequence-config register into sub-step enables.
pub fn decode_sequence_step_enables(sequence_config: u8) -> (e: SeqStepEnables)
    ensures
        e == spec_enables(sequence_config),
{
    SeqStepEnables {
        tcc: (sequence_config >> 4) & 1 == 1,
        dss: (sequence_config >> 3) & 1 == 1,
        msrc: (sequence_config >> 2) & 1 == 1,
        pre_range: (sequence_config >> 6) & 1 == 1,
        final_range: (sequence_config >> 7) & 1 == 1,
    }
}

/// Sub-step timeouts denoted by the five registers they are derived
/// from.  The final-range timeout register holds the pre-range ticks
/// inclusively, so with pre-range enabled those ticks are subtracted
/// (in 16-bit wrapping arithmetic, as the register sum was formed).
pub open spec fn spec_step_timeouts(
    pre_raw: u16,
    final_raw: u16,
    pre_vcsel_raw: u8,
    msrc_raw: u8,
    final_vcsel_raw: u8,
    pre_en: bool,
) -> SeqStepTimeouts {
    let pre_v = spec_decode_vcsel_period(pre_vcsel_raw);
    let final_v = spec_decode_vcsel_period(final_vcsel_raw);
    let pre_mclks = spec_decode_timeout(pre_raw);
    let final_total = spec_decode_timeout(final_raw);
    let final_mclks = if pre_en {
        ((final_total as int - pre_mclks as int + 0x10000) % 0x10000) as u16
    } else {
        final_total
    };
    let msrc_mclks = ((msrc_raw as int) + 1) as u16;
    SeqStepTimeouts {
        pre_range_vcselperiod_pclks: pre_v,
        final_range_vcsel_period_pclks: final_v,
        msrc_dss_tcc_mclks: msrc_mclks,
        pre_range_mclks: pre_mclks,
        final_range_mclks: final_mclks,
        msrc_dss_tcc_microseconds: spec_mclks_to_us(msrc_mclks, pre_v),
        pre_range_microseconds: spec_mclks_to_us(pre_mclks, pre_v),
        final_range_microseconds: spec_mclks_to_us(final_mclks, final_v),
    }
}

impl SeqStepTimeouts {
    /// Every microsecond field is the conversion of a 16-bit tick count,
    /// so it lies well under 64 million.
    pub open spec fn wf(self) -> bool {
        &&& self.msrc_dss_tcc_microseconds < 64_000_000
        &&& self.pre_range_microseconds < 64_000_000
        &&& self.final_range_microseconds < 64_000_000
    }
}

/// The measured timing budget in microseconds: fixed start and end
/// overheads plus, for each enabled step, its measured timeout and fixed
/// overhead.  DSS contributes twice and suppresses MSRC.
pub open spec fn spec_budget_us(e: SeqStepEnables, t: SeqStepTimeouts) -> int {
    1910 + 960 + (if e.tcc {
        t.msrc_dss_tcc_microseconds + 590
    } else {
        0
    }) + (if e.dss {
        2 * ((t.msrc_dss_tcc_microseconds as int) + 690)
    } else if e.msrc {
        t.msrc_dss_tcc_microseconds + 660
    } else {
        0
    }) + (if e.pre_range {
        t.pre_range_microseconds + 660
    } else {
        0
    }) + (if e.final_range {
        t.final_range_microseconds + 550
    } else {
        0
    })
}

/// Sums the measured timing budget.
pub fn budget_from(e: &SeqStepEnables, t: &SeqStepTimeouts) -> (b: u32)
    requires
        t.wf(),
    ensures
        b == spec_budget_us(*e, *t),
{
    let mut b: u32 = 1910 + 960;
    if e.tcc {
        b = b + t.msrc_dss_tcc_microseconds + 590;
    }
    if e.dss {
        b = b + 2 * (t.msrc_dss_tcc_microseconds + 690);
    } else if e.msrc {
        b = b + t.msrc_dss_tcc_microseconds + 660;
    }
    if e.pre_range {
        b = b + t.pre_range_microseconds + 660;
    }
    if e.final_range {
        b = b + t.final_range_microseconds + 550;
    }
    b
}

/// The overhead a requested budget must cover before the final-range
/// step gets the remainder: like the measured budget, but with the
/// target start overhead, a single DSS contribution, and only the fixed
/// overhead for the final-range step.
pub open spec fn spec_used_budget_us(e: SeqStepEnables, t: SeqStepTimeouts) -> int {
    1320 + 960 + (if e.tcc {
        t.msrc_dss_tcc_microseconds + 590
    } else {
        0
    }) + (if e.dss {
        2 * (t.msrc_dss_tcc_microseconds as int) + 690
    } else if e.msrc {
        t.msrc_dss_tcc_microseconds + 660
    } else {
        0
    }) + (if e.pre_range {
        t.pre_range_microseconds + 660
    } else {
        0
    }) + (if e.final_range {
        550int
    } else {
        0
    })
}

/// Sums the overhead used by a budget-setting request.
pub fn used_budget_from(e: &SeqStepEnables, t: &SeqStepTimeouts) -> (b: u32)
    requires
        t.wf(),
    ensures
        b == spec_used_budget_us(*e, *t),
{
    let mut b: u32 = 1320 + 960;
    if e.tcc {
        b = b + t.msrc_dss_tcc_microseconds + 590;
    }
    if e.dss {
        b = b + 2 * t.msrc_dss_tcc_microseconds + 690;
    } else if e.msrc {
        b = b + t.msrc_dss_tcc_microseconds + 660;
    }
    if e.pre_range {
        b = b + t.pre_range_microseconds + 660;
    }
    if e.final_range {
        b = b + 550;
    }
    b
}

/// The tick count written to the final-range timeout register for a
/// feasible budget request: the microseconds left after overhead,
/// converted at the final-range VCSEL period, truncated to 16 bits, with
/// the pre-range ticks added back (in 16-bit wrapping arithmetic) when
/// pre-range is enabled.
pub open spec fn spec_final_range_timeout_mclks(
    budget_us: u32,
    e: SeqStepEnables,
    t: SeqStepTimeouts,
) -> u16 {
    let remaining = (budget_us - spec_used_budget_us(e, t)) as u32;
    let mclks = spec_us_to_mclks(remaining, t.final_range_vcsel_period_pclks);
    let ticks = (mclks % 0x10000) as u16;
    if e.pre_range {
        ((ticks + t.pre_range_mclks) % 0x10000) as u16
    } else {
        ticks
    }
}

/// Computes the final-range timeout ticks for a feasible budget request.
pub fn final_range_timeout_for(budget_us: u32, e: &SeqStepEnables, t: &SeqStepTimeouts) -> (ticks:
    u16)
    requires
        t.wf(),
        t.final_range_vcsel_period_pclks >= 1,
        spec_used_budget_us(*e, *t) <= budget_us,
    ensures
        ticks == spec_final_range_timeout_mclks(budget_us, *e, *t),
{
    let used = used_budget_from(e, t);
    let remaining: u32 = budget_us - used;
    let mclks = timeout_microseconds_to_mclks(remaining, t.final_range_vcsel_period_pclks);
    let mut ticks: u16 = (mclks % 0x10000) as u16;
    if e.pre_range {
        ticks = (((ticks as u32) + (t.pre_range_mclks as u32)) % 0x10000) as u16;
    }
    ticks
}

} // verus!
