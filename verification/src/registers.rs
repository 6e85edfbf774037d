//! Register addresses of the sensor's documented register map.
//!
//! Undocumented addresses that the bring-up sequence pokes through bank
//! selection appear as raw byte literals at their call sites, as the
//! vendor's reference flow gives them.

use vstd::prelude::*;

verus! {

pub const SYSRANGE_START: u8 = 0x00;

pub const SYSTEM_SEQUENCE_CONFIG: u8 = 0x01;

pub const SYSTEM_INTERMEASUREMENT_PERIOD: u8 = 0x04;

pub const SYSTEM_INTERRUPT_CONFIG_GPIO: u8 = 0x0A;

pub const SYSTEM_INTERRUPT_CLEAR: u8 = 0x0B;

pub const RESULT_INTERRUPT_STATUS: u8 = 0x13;

pub const RESULT_RANGE_STATUS: u8 = 0x14;

pub const RESULT_RANGE_STATUS_PLUS_10: u8 = 0x1E;

pub const CROSSTALK_COMPENSATION_PEAK_RATE_MCPS: u8 = 0x20;

pub const FINAL_RANGE_CONFIG_MIN_COUNT_RATE_RTN_LIMIT: u8 = 0x44;

pub const MSRC_CONFIG_TIMEOUT_MACROP: u8 = 0x46;

pub const DYNAMIC_SPAD_NUM_REQUESTED_REF_SPAD: u8 = 0x4E;

pub const DYNAMIC_SPAD_REF_EN_START_OFFSET: u8 = 0x4F;

pub const PRE_RANGE_CONFIG_VCSEL_PERIOD: u8 = 0x50;

pub const PRE_RANGE_CONFIG_TIMEOUT_MACROP_HI: u8 = 0x51;

pub const PRE_RANGE_CONFIG_TIMEOUT_MACROP_LO: u8 = 0x52;

pub const MSRC_CONFIG_CONTROL: u8 = 0x60;

pub const FINAL_RANGE_CONFIG_VCSEL_PERIOD: u8 = 0x70;

pub const FINAL_RANGE_CONFIG_TIMEOUT_MACROP_HI: u8 = 0x71;

pub const FINAL_RANGE_CONFIG_TIMEOUT_MACROP_LO: u8 = 0x72;

pub const GPIO_HV_MUX_ACTIVE_HIGH: u8 = 0x84;

pub const VHV_CONFIG_PAD_SCL_SDA_EXTSUP_HV: u8 = 0x89;

pub const REG_I2C_SLAVE_DEVICE_ADDRESS: u8 = 0x8A;

pub const GLOBAL_CONFIG_SPAD_ENABLES_REF_0: u8 = 0xB0;

pub const GLOBAL_CONFIG_REF_EN_START_SELECT: u8 = 0xB6;

pub const WHO_AM_I: u8 = 0xC0;

pub const OSC_CALIBRATE_VAL: u8 = 0xF8;

} // verus!
