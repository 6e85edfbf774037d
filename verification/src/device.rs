//! The driver proper: device identification, bring-up and calibration,
//! timing-budget management, and ranging in single-shot, blocking and
//! non-blocking form.
//!
//! Every operation is a sequence of bus transactions; the contracts
//! describe the transactions appended to the transport's history and how
//! the device's cached state relates to them.

use vstd::prelude::*;

use crate::bus::Bus;
use crate::bus::Txn;
use crate::bus::extends;
use crate::bus::is_read;
use crate::bus::is_read1;
use crate::bus::is_read2;
use crate::bus::is_write1;
use crate::bus::is_write2;
use crate::bus::is_write4;
use crate::bus::is_write6;
use crate::bus::read2_value;
use crate::bus::reads_only_from;
use crate::budget::SeqStepEnables;
use crate::budget::SeqStepTimeouts;
use crate::budget::budget_from;
use crate::budget::decode_sequence_step_enables;
use crate::budget::final_range_timeout_for;
use crate::budget::spec_budget_us;
use crate::budget::spec_enables;
use crate::budget::spec_final_range_timeout_mclks;
use crate::budget::spec_step_timeouts;
use crate::budget::spec_used_budget_us;
use crate::budget::used_budget_from;
use crate::registers;
use crate::spad::filter_spad_map;
use crate::spad::spad_bit;
use crate::spad::spad_bit_kept;
use crate::spad::spad_count_set;
use crate::spad::spec_first_spad;
use crate::timing::decode_timeout;
use crate::timing::decode_vcsel_period;
use crate::timing::encode_timeout;
use crate::timing::lemma_mclks_to_us_bound;
use crate::timing::spec_decode_vcsel_period;
use crate::timing::spec_encode_timeout;
use crate::timing::timeout_mclks_to_microseconds;

verus! {

/// Default 7-bit bus address of the sensor.
pub const ADDRESS_DEFAULT: u8 = 0x29;

/// Failure of a driver operation.
#[derive(Debug, Clone, Copy, PartialEq, Eq)]
pub enum Error<E> {
    /// The identification register returned this value instead of the
    /// expected one; the device is not the supported sensor.
    InvalidDevice(u8),
    /// The underlying bus transport failed.
    BusError(E),
    /// A bounded poll exceeded its fixed attempt ceiling.
    Timeout,
}

impl<E> From<E> for Error<E> {
    fn from(error: E) -> (r: Self)
        ensures
            r == Error::<E>::BusError(error),
    {
        Error::BusError(error)
    }
}

impl<E> vstd::std_specs::convert::FromSpecImpl<E> for Error<E> {
    open spec fn obeys_from_spec() -> bool {
        true
    }

    open spec fn from_spec(error: E) -> Self {
        Error::BusError(error)
    }
}

/// Failure of a non-blocking read: either no measurement is ready yet
/// and the caller should retry, or a real error occurred.
#[derive(Debug, Clone, Copy, PartialEq, Eq)]
pub enum NbError<E> {
    /// No completion bit is set yet; retry later.
    WouldBlock,
    /// The operation failed.
    Other(E),
}

/// Which of the two VCSEL pulse periods to query.
#[derive(Debug, Clone, Copy)]
pub enum VcselPeriodType {
    VcselPeriodPreRange,
    VcselPeriodFinalRange,
}

/// One time-of-flight ranging sensor on a caller-supplied bus transport.
pub struct VL53L0X<B: Bus> {
    com: B,
    history: Ghost<Seq<Txn>>,
    io_mode2v8: bool,
    stop_variable: u8,
    measurement_timing_budget_microseconds: u32,
    address: u8,
}

/// The vendor's default tuning table: an opaque, order-significant
/// sequence of banked register pokes, replayed verbatim during
/// bring-up.  Each entry is a register address and the byte poked into
/// it.
pub open spec fn tuning_table() -> Seq<(u8, u8)> {
    seq![
        (0xFFu8, 0x01u8),
        (0x00u8, 0x00u8),
        (0xFFu8, 0x00u8),
        (0x09u8, 0x00u8),
        (0x10u8, 0x00u8),
        (0x11u8, 0x00u8),
        (0x24u8, 0x01u8),
        (0x25u8, 0xFFu8),
        (0x75u8, 0x00u8),
        (0xFFu8, 0x01u8),
        (0x4Eu8, 0x2Cu8),
        (0x48u8, 0x00u8),
        (0x30u8, 0x20u8),
        (0xFFu8, 0x00u8),
        (0x30u8, 0x09u8),
        (0x54u8, 0x00u8),
        (0x31u8, 0x04u8),
        (0x32u8, 0x03u8),
        (0x40u8, 0x83u8),
        (0x46u8, 0x25u8),
        (0x60u8, 0x00u8),
        (0x27u8, 0x00u8),
        (0x50u8, 0x06u8),
        (0x51u8, 0x00u8),
        (0x52u8, 0x96u8),
        (0x56u8, 0x08u8),
        (0x57u8, 0x30u8),
        (0x61u8, 0x00u8),
        (0x62u8, 0x00u8),
        (0x64u8, 0x00u8),
        (0x65u8, 0x00u8),
        (0x66u8, 0xA0u8),
        (0xFFu8, 0x01u8),
        (0x22u8, 0x32u8),
        (0x47u8, 0x14u8),
        (0x49u8, 0xFFu8),
        (0x4Au8, 0x00u8),
        (0xFFu8, 0x00u8),
        (0x7Au8, 0x0Au8),
        (0x7Bu8, 0x00u8),
        (0x78u8, 0x21u8),
        (0xFFu8, 0x01u8),
        (0x23u8, 0x34u8),
        (0x42u8, 0x00u8),
        (0x44u8, 0xFFu8),
        (0x45u8, 0x26u8),
        (0x46u8, 0x05u8),
        (0x40u8, 0x40u8),
        (0x0Eu8, 0x06u8),
        (0x20u8, 0x1Au8),
        (0x43u8, 0x40u8),
        (0xFFu8, 0x00u8),
        (0x34u8, 0x03u8),
        (0x35u8, 0x44u8),
        (0xFFu8, 0x01u8),
        (0x31u8, 0x04u8),
        (0x4Bu8, 0x09u8),
        (0x4Cu8, 0x05u8),
        (0x4Du8, 0x04u8),
        (0xFFu8, 0x00u8),
        (0x44u8, 0x00u8),
        (0x45u8, 0x20u8),
        (0x47u8, 0x08u8),
        (0x48u8, 0x28u8),
        (0x67u8, 0x00u8),
        (0x70u8, 0x04u8),
        (0x71u8, 0x01u8),
        (0x72u8, 0xFEu8),
        (0x76u8, 0x00u8),
        (0x77u8, 0x00u8),
        (0xFFu8, 0x01u8),
        (0x0Du8, 0x01u8),
        (0xFFu8, 0x00u8),
        (0x80u8, 0x01u8),
        (0x01u8, 0xF8u8),
        (0xFFu8, 0x01u8),
        (0x8Eu8, 0x01u8),
        (0x00u8, 0x01u8),
        (0xFFu8, 0x00u8),
        (0x80u8, 0x00u8),
    ]
}

/// Builds the tuning table as a vector, entry for entry.
#[verifier::rlimit(100)]
pub fn tuning_settings() -> (t: Vec<(u8, u8)>)
    ensures
        t@ == tuning_table(),
{
    let mut t: Vec<(u8, u8)> = Vec::new();
        t.push((0xFF, 0x01));
        t.push((0x00, 0x00));
        t.push((0xFF, 0x00));
        t.push((0x09, 0x00));
        t.push((0x10, 0x00));
        t.push((0x11, 0x00));
        t.push((0x24, 0x01));
        t.push((0x25, 0xFF));
        t.push((0x75, 0x00));
        t.push((0xFF, 0x01));
        t.push((0x4E, 0x2C));
        t.push((0x48, 0x00));
        t.push((0x30, 0x20));
        t.push((0xFF, 0x00));
        t.push((0x30, 0x09));
        t.push((0x54, 0x00));
        t.push((0x31, 0x04));
        t.push((0x32, 0x03));
        t.push((0x40, 0x83));
        t.push((0x46, 0x25));
        t.push((0x60, 0x00));
        t.push((0x27, 0x00));
        t.push((0x50, 0x06));
        t.push((0x51, 0x00));
        t.push((0x52, 0x96));
        t.push((0x56, 0x08));
        t.push((0x57, 0x30));
        t.push((0x61, 0x00));
        t.push((0x62, 0x00));
        t.push((0x64, 0x00));
        t.push((0x65, 0x00));
        t.push((0x66, 0xA0));
        t.push((0xFF, 0x01));
        t.push((0x22, 0x32));
        t.push((0x47, 0x14));
        t.push((0x49, 0xFF));
        t.push((0x4A, 0x00));
        t.push((0xFF, 0x00));
        t.push((0x7A, 0x0A));
        t.push((0x7B, 0x00));
        t.push((0x78, 0x21));
        t.push((0xFF, 0x01));
        t.push((0x23, 0x34));
        t.push((0x42, 0x00));
        t.push((0x44, 0xFF));
        t.push((0x45, 0x26));
        t.push((0x46, 0x05));
        t.push((0x40, 0x40));
        t.push((0x0E, 0x06));
        t.push((0x20, 0x1A));
        t.push((0x43, 0x40));
        t.push((0xFF, 0x00));
        t.push((0x34, 0x03));
        t.push((0x35, 0x44));
        t.push((0xFF, 0x01));
        t.push((0x31, 0x04));
        t.push((0x4B, 0x09));
        t.push((0x4C, 0x05));
        t.push((0x4D, 0x04));
        t.push((0xFF, 0x00));
        t.push((0x44, 0x00));
        t.push((0x45, 0x20));
        t.push((0x47, 0x08));
        t.push((0x48, 0x28));
        t.push((0x67, 0x00));
        t.push((0x70, 0x04));
        t.push((0x71, 0x01));
        t.push((0x72, 0xFE));
        t.push((0x76, 0x00));
        t.push((0x77, 0x00));
        t.push((0xFF, 0x01));
        t.push((0x0D, 0x01));
        t.push((0xFF, 0x00));
        t.push((0x80, 0x01));
        t.push((0x01, 0xF8));
        t.push((0xFF, 0x01));
        t.push((0x8E, 0x01));
        t.push((0x00, 0x01));
        t.push((0xFF, 0x00));
        t.push((0x80, 0x00));
    proof {
        assert(t@ =~= tuning_table());
    }
    t
}

impl<B: Bus> VL53L0X<B> {
    /// The transactions the device has performed on its transport
    /// since construction, in order.
    pub closed spec fn hist(&self) -> Seq<Txn> {
        self.history@
    }

    /// The transport the device owns.
    pub closed spec fn spec_bus(&self) -> B {
        self.com
    }

    /// The bus address used for every transaction.
    pub closed spec fn spec_address(&self) -> u8 {
        self.address
    }

    /// Whether the device was configured for 2.8 V I/O at construction.
    pub closed spec fn spec_io_mode2v8(&self) -> bool {
        self.io_mode2v8
    }

    /// The calibration byte captured during bring-up and replayed before
    /// every ranging start and stop.
    pub closed spec fn spec_stop_variable(&self) -> u8 {
        self.stop_variable
    }

    /// The cached measurement timing budget in microseconds.
    pub closed spec fn spec_budget_us(&self) -> u32 {
        self.measurement_timing_budget_microseconds
    }

    /// No cached state of the device changed between the two states.
    pub open spec fn setup_unchanged(pre: &Self, post: &Self) -> bool {
        &&& post.spec_address() == pre.spec_address()
        &&& post.spec_io_mode2v8() == pre.spec_io_mode2v8()
        &&& post.spec_stop_variable() == pre.spec_stop_variable()
        &&& post.spec_budget_us() == pre.spec_budget_us()
    }

    /// Shared access to the transport.
    pub fn bus(&self) -> (r: &B)
        ensures
            *r == self.spec_bus(),
    {
        &self.com
    }

    /// Exclusive access to the transport, for callers that own the
    /// device and need to reach the bus directly.
    pub fn bus_mut(&mut self) -> (r: &mut B)
        ensures
            *r == old(self).spec_bus(),
            final(self).spec_bus() == *final(r),
            final(self).spec_address() == old(self).spec_address(),
            final(self).spec_io_mode2v8() == old(self).spec_io_mode2v8(),
            final(self).spec_stop_variable() == old(self).spec_stop_variable(),
            final(self).spec_budget_us() == old(self).spec_budget_us(),
            final(self).hist() == old(self).hist(),
    {
        &mut self.com
    }

    /// Issues one transaction that writes the register address and reads
    /// back `n` bytes.
    fn read_registers(&mut self, reg: u8, n: usize) -> (r: Result<Vec<u8>, B::Fault>)
        ensures
            Self::setup_unchanged(old(self), final(self)),
            match r {
                Ok(data) => ({
                    &&& data@.len() == n
                    &&& final(self).hist().len() == old(self).hist().len() + 1
                    &&& extends(old(self).hist(), final(self).hist())
                    &&& is_read(
                        final(self).hist().last(),
                        old(self).spec_address(),
                        reg,
                        n as int,
                    )
                    &&& final(self).hist().last().read == data@
                }),
                Err(_) => final(self).hist() == old(self).hist(),
            },
    {
        let mut w: Vec<u8> = Vec::new();
        w.push(reg);
        match self.com.write_read(self.address, &w, n) {
            Ok(data) => {
                self.history = Ghost(
                    self.history@.push(Txn { dev: self.address, wrote: w@, read: data@ }),
                );
                Ok(data)
            },
            Err(e) => Err(e),
        }
    }

    /// Reads one byte from a register.
    fn read_register(&mut self, reg: u8) -> (r: Result<u8, B::Fault>)
        ensures
            Self::setup_unchanged(old(self), final(self)),
            match r {
                Ok(byte) => ({
                    &&& final(self).hist().len() == old(self).hist().len() + 1
                    &&& extends(old(self).hist(), final(self).hist())
                    &&& is_read1(final(self).hist().last(), old(self).spec_address(), reg)
                    &&& final(self).hist().last().read[0] == byte
                }),
                Err(_) => final(self).hist() == old(self).hist(),
            },
    {
        match self.read_registers(reg, 1) {
            Ok(data) => Ok(data[0]),
            Err(e) => Err(e),
        }
    }

    /// Reads one byte from a raw (bank-dependent) register address.
    fn read_byte(&mut self, reg: u8) -> (r: Result<u8, B::Fault>)
        ensures
            Self::setup_unchanged(old(self), final(self)),
            match r {
                Ok(byte) => ({
                    &&& final(self).hist().len() == old(self).hist().len() + 1
                    &&& extends(old(self).hist(), final(self).hist())
                    &&& is_read1(final(self).hist().last(), old(self).spec_address(), reg)
                    &&& final(self).hist().last().read[0] == byte
                }),
                Err(_) => final(self).hist() == old(self).hist(),
            },
    {
        self.read_register(reg)
    }

    /// Reads a 16-bit big-endian register pair.
    fn read_16bit(&mut self, reg: u8) -> (r: Result<u16, B::Fault>)
        ensures
            Self::setup_unchanged(old(self), final(self)),
            match r {
                Ok(v) => ({
                    &&& final(self).hist().len() == old(self).hist().len() + 1
                    &&& extends(old(self).hist(), final(self).hist())
                    &&& is_read2(final(self).hist().last(), old(self).spec_address(), reg)
                    &&& v as int == read2_value(final(self).hist().last())
                }),
                Err(_) => final(self).hist() == old(self).hist(),
            },
    {
        match self.read_registers(reg, 2) {
            Ok(data) => {
                let hi = data[0] as u16;
                let lo = data[1] as u16;
                proof {
                    assert((hi <= 255 && lo <= 255) ==> ((hi << 8u16) == hi * 256 && hi * 256 + lo
                        <= 0xFFFF)) by (bit_vector);
                }
                Ok((hi << 8) + lo)
            },
            Err(e) => Err(e),
        }
    }

    /// Reads a six-byte register block (auto-increment addressing).
    fn read_6bytes(&mut self, reg: u8) -> (r: Result<Vec<u8>, B::Fault>)
        ensures
            Self::setup_unchanged(old(self), final(self)),
            match r {
                Ok(data) => ({
                    &&& data@.len() == 6
                    &&& final(self).hist().len() == old(self).hist().len() + 1
                    &&& extends(old(self).hist(), final(self).hist())
                    &&& is_read(final(self).hist().last(), old(self).spec_address(), reg, 6)
                    &&& final(self).hist().last().read == data@
                }),
                Err(_) => final(self).hist() == old(self).hist(),
            },
    {
        self.read_registers(reg, 6)
    }

    /// Writes one byte to a raw (bank-dependent) register address,
    /// discarding the reply byte.
    fn write_byte(&mut self, reg: u8, byte: u8) -> (r: Result<(), B::Fault>)
        ensures
            Self::setup_unchanged(old(self), final(self)),
            match r {
                Ok(_) => ({
                    &&& final(self).hist().len() == old(self).hist().len() + 1
                    &&& extends(old(self).hist(), final(self).hist())
                    &&& is_write1(final(self).hist().last(), old(self).spec_address(), reg, byte)
                }),
                Err(_) => final(self).hist() == old(self).hist(),
            },
    {
        let mut w: Vec<u8> = Vec::new();
        w.push(reg);
        w.push(byte);
        match self.com.write_read(self.address, &w, 1) {
            Ok(data) => {
                self.history = Ghost(
                    self.history@.push(Txn { dev: self.address, wrote: w@, read: data@ }),
                );
                Ok(())
            },
            Err(e) => Err(e),
        }
    }

    /// Writes one byte to a register.
    fn write_register(&mut self, reg: u8, byte: u8) -> (r: Result<(), B::Fault>)
        ensures
            Self::setup_unchanged(old(self), final(self)),
            match r {
                Ok(_) => ({
                    &&& final(self).hist().len() == old(self).hist().len() + 1
                    &&& extends(old(self).hist(), final(self).hist())
                    &&& is_write1(final(self).hist().last(), old(self).spec_address(), reg, byte)
                }),
                Err(_) => final(self).hist() == old(self).hist(),
            },
    {
        self.write_byte(reg, byte)
    }

    /// Writes a 16-bit value to a register pair, high byte first.
    fn write_16bit(&mut self, reg: u8, word: u16) -> (r: Result<(), B::Fault>)
        ensures
            Self::setup_unchanged(old(self), final(self)),
            match r {
                Ok(_) => ({
                    &&& final(self).hist().len() == old(self).hist().len() + 1
                    &&& extends(old(self).hist(), final(self).hist())
                    &&& is_write2(final(self).hist().last(), old(self).spec_address(), reg, word)
                }),
                Err(_) => final(self).hist() == old(self).hist(),
            },
    {
        let msb = (word >> 8) as u8;
        let lsb = (word & 0xFF) as u8;
        proof {
            assert(word >> 8u16 <= 0xFF && word & 0xFF <= 0xFF) by (bit_vector);
        }
        let mut w: Vec<u8> = Vec::new();
        w.push(reg);
        w.push(msb);
        w.push(lsb);
        match self.com.write_read(self.address, &w, 1) {
            Ok(data) => {
                self.history = Ghost(
                    self.history@.push(Txn { dev: self.address, wrote: w@, read: data@ }),
                );
                Ok(())
            },
            Err(e) => Err(e),
        }
    }

    /// Writes a 32-bit value to a register block, high byte first, as
    /// every multi-byte register value goes over the wire.
    fn write_32bit(&mut self, reg: u8, word: u32) -> (r: Result<(), B::Fault>)
        ensures
            Self::setup_unchanged(old(self), final(self)),
            match r {
                Ok(_) => ({
                    &&& final(self).hist().len() == old(self).hist().len() + 1
                    &&& extends(old(self).hist(), final(self).hist())
                    &&& is_write4(final(self).hist().last(), old(self).spec_address(), reg, word)
                }),
                Err(_) => final(self).hist() == old(self).hist(),
            },
    {
        let v1 = ((word >> 24) & 0xFF) as u8;
        let v2 = ((word >> 16) & 0xFF) as u8;
        let v3 = ((word >> 8) & 0xFF) as u8;
        let v4 = (word & 0xFF) as u8;
        proof {
            assert(word & 0xFF <= 0xFF && (word >> 8u32) & 0xFF <= 0xFF && (word >> 16u32) & 0xFF
                <= 0xFF && (word >> 24u32) & 0xFF <= 0xFF) by (bit_vector);
        }
        let mut w: Vec<u8> = Vec::new();
        w.push(reg);
        w.push(v1);
        w.push(v2);
        w.push(v3);
        w.push(v4);
        match self.com.write_read(self.address, &w, 1) {
            Ok(data) => {
                self.history = Ghost(
                    self.history@.push(Txn { dev: self.address, wrote: w@, read: data@ }),
                );
                Ok(())
            },
            Err(e) => Err(e),
        }
    }

    /// Writes a six-byte register block (auto-increment addressing).
    fn write_6bytes(&mut self, reg: u8, bytes: &Vec<u8>) -> (r: Result<(), B::Fault>)
        requires
            bytes@.len() == 6,
        ensures
            Self::setup_unchanged(old(self), final(self)),
            match r {
                Ok(_) => ({
                    &&& final(self).hist().len() == old(self).hist().len() + 1
                    &&& extends(old(self).hist(), final(self).hist())
                    &&& is_write6(
                        final(self).hist().last(),
                        old(self).spec_address(),
                        reg,
                        bytes@,
                    )
                }),
                Err(_) => final(self).hist() == old(self).hist(),
            },
    {
        let mut w: Vec<u8> = Vec::new();
        w.push(reg);
        w.push(bytes[0]);
        w.push(bytes[1]);
        w.push(bytes[2]);
        w.push(bytes[3]);
        w.push(bytes[4]);
        w.push(bytes[5]);
        match self.com.write_read(self.address, &w, 1) {
            Ok(data) => {
                self.history = Ghost(
                    self.history@.push(Txn { dev: self.address, wrote: w@, read: data@ }),
                );
                Ok(())
            },
            Err(e) => Err(e),
        }
    }

    /// write_byte, with the fault wrapped as a driver error.
    fn write_byte_e(&mut self, reg: u8, byte: u8) -> (r: Result<(), Error<B::Fault>>)
        ensures
            Self::setup_unchanged(old(self), final(self)),
            match r {
                Ok(_) => ({
                    &&& final(self).hist().len() == old(self).hist().len() + 1
                    &&& extends(old(self).hist(), final(self).hist())
                    &&& is_write1(final(self).hist().last(), old(self).spec_address(), reg, byte)
                }),
                Err(e) => e is BusError && final(self).hist() == old(self).hist(),
            },
    {
        match self.write_byte(reg, byte) {
            Ok(_) => Ok(()),
            Err(e) => Err(Error::BusError(e)),
        }
    }

    /// read_byte, with the fault wrapped as a driver error.
    fn read_byte_e(&mut self, reg: u8) -> (r: Result<u8, Error<B::Fault>>)
        ensures
            Self::setup_unchanged(old(self), final(self)),
            match r {
                Ok(byte) => ({
                    &&& final(self).hist().len() == old(self).hist().len() + 1
                    &&& extends(old(self).hist(), final(self).hist())
                    &&& is_read1(final(self).hist().last(), old(self).spec_address(), reg)
                    &&& final(self).hist().last().read[0] == byte
                }),
                Err(e) => e is BusError && final(self).hist() == old(self).hist(),
            },
    {
        match self.read_byte(reg) {
            Ok(byte) => Ok(byte),
            Err(e) => Err(Error::BusError(e)),
        }
    }

    /// read_6bytes, with the fault wrapped as a driver error.
    fn read_6bytes_e(&mut self, reg: u8) -> (r: Result<Vec<u8>, Error<B::Fault>>)
        ensures
            Self::setup_unchanged(old(self), final(self)),
            match r {
                Ok(data) => ({
                    &&& data@.len() == 6
                    &&& final(self).hist().len() == old(self).hist().len() + 1
                    &&& extends(old(self).hist(), final(self).hist())
                    &&& is_read(final(self).hist().last(), old(self).spec_address(), reg, 6)
                    &&& final(self).hist().last().read == data@
                }),
                Err(e) => e is BusError && final(self).hist() == old(self).hist(),
            },
    {
        match self.read_6bytes(reg) {
            Ok(data) => Ok(data),
            Err(e) => Err(Error::BusError(e)),
        }
    }

    /// write_6bytes, with the fault wrapped as a driver error.
    fn write_6bytes_e(&mut self, reg: u8, bytes: &Vec<u8>) -> (r: Result<(), Error<B::Fault>>)
        requires
            bytes@.len() == 6,
        ensures
            Self::setup_unchanged(old(self), final(self)),
            match r {
                Ok(_) => ({
                    &&& final(self).hist().len() == old(self).hist().len() + 1
                    &&& extends(old(self).hist(), final(self).hist())
                    &&& is_write6(
                        final(self).hist().last(),
                        old(self).spec_address(),
                        reg,
                        bytes@,
                    )
                }),
                Err(e) => e is BusError && final(self).hist() == old(self).hist(),
            },
    {
        match self.write_6bytes(reg, bytes) {
            Ok(_) => Ok(()),
            Err(e) => Err(Error::BusError(e)),
        }
    }

    /// Returns the identification register.
    pub fn who_am_i(&mut self) -> (r: Result<u8, B::Fault>)
        ensures
            Self::setup_unchanged(old(self), final(self)),
            match r {
                Ok(byte) => ({
                    &&& final(self).hist().len() == old(self).hist().len() + 1
                    &&& extends(old(self).hist(), final(self).hist())
                    &&& is_read1(
                        final(self).hist().last(),
                        old(self).spec_address(),
                        registers::WHO_AM_I,
                    )
                    &&& final(self).hist().last().read[0] == byte
                }),
                Err(_) => final(self).hist() == old(self).hist(),
            },
    {
        self.read_register(registers::WHO_AM_I)
    }

    /// Assigns a new bus address: one register write at the old address,
    /// then every later transaction uses the new one.
    pub fn set_device_address(&mut self, address: u8) -> (r: Result<bool, B::Fault>)
        ensures
            final(self).spec_io_mode2v8() == old(self).spec_io_mode2v8(),
            final(self).spec_stop_variable() == old(self).spec_stop_variable(),
            final(self).spec_budget_us() == old(self).spec_budget_us(),
            match r {
                Ok(applied) => ({
                    &&& applied
                    &&& final(self).spec_address() == address
                    &&& final(self).hist().len() == old(self).hist().len() + 1
                    &&& extends(old(self).hist(), final(self).hist())
                    &&& is_write1(
                        final(self).hist().last(),
                        old(self).spec_address(),
                        registers::REG_I2C_SLAVE_DEVICE_ADDRESS,
                        address & 0x07,
                    )
                }),
                Err(_) => final(self).hist() == old(self).hist() && final(self).spec_address()
                    == old(self).spec_address(),
            },
    {
        match self.write_register(registers::REG_I2C_SLAVE_DEVICE_ADDRESS, address & 0x07) {
            Ok(_) => {
                self.address = address;
                Ok(true)
            },
            Err(e) => Err(e),
        }
    }

    /// Sets the final-range signal-rate limit, given in hundredths of
    /// MCPS (million counts per second).  Limits outside 0 .. 511.99
    /// MCPS are not applied and nothing is written; otherwise the limit
    /// is written to the rate-limit register in the chip's 9.7
    /// fixed-point format (units of 1/128 MCPS).
    pub fn set_signal_rate_limit(&mut self, limit_centi_mcps: i32) -> (r: Result<bool, B::Fault>)
        ensures
            Self::setup_unchanged(old(self), final(self)),
            (limit_centi_mcps < 0 || limit_centi_mcps > 51199) ==> (r == Ok::<bool, B::Fault>(
                false,
            ) && final(self).hist() == old(self).hist()),
            match r {
                Ok(applied) => ({
                    &&& (applied <==> 0 <= limit_centi_mcps <= 51199)
                    &&& (applied ==> ({
                        &&& final(self).hist().len() == old(self).hist().len() + 1
                        &&& extends(old(self).hist(), final(self).hist())
                        &&& is_write2(
                            final(self).hist().last(),
                            old(self).spec_address(),
                            registers::FINAL_RANGE_CONFIG_MIN_COUNT_RATE_RTN_LIMIT,
                            (limit_centi_mcps * 128 / 100) as u16,
                        )
                    }))
                }),
                Err(_) => final(self).hist() == old(self).hist(),
            },
    {
        if limit_centi_mcps < 0 || limit_centi_mcps > 51199 {
            Ok(false)
        } else {
            let raw: u16 = (limit_centi_mcps * 128 / 100) as u16;
            match self.write_16bit(registers::FINAL_RANGE_CONFIG_MIN_COUNT_RATE_RTN_LIMIT, raw) {
                Ok(_) => Ok(true),
                Err(e) => Err(e),
            }
        }
    }

    /// Stops continuous ranging and leaves the device in standby, the
    /// calibration byte zeroed.
    pub fn stop_continuous(&mut self) -> (r: Result<(), B::Fault>)
        ensures
            Self::setup_unchanged(old(self), final(self)),
            extends(old(self).hist(), final(self).hist()),
            match r {
                Ok(_) => ({
                    let o = old(self).hist().len() as int;
                    let h = final(self).hist();
                    let a = old(self).spec_address();
                    &&& h.len() == o + 6
                    &&& is_write1(h[o], a, registers::SYSRANGE_START, 0x01)
                    &&& is_write1(h[o + 1], a, 0xFF, 0x01)
                    &&& is_write1(h[o + 2], a, 0x00, 0x00)
                    &&& is_write1(h[o + 3], a, 0x91, 0x00)
                    &&& is_write1(h[o + 4], a, 0x00, 0x01)
                    &&& is_write1(h[o + 5], a, 0xFF, 0x00)
                }),
                Err(_) => ({
                    let o = old(self).hist().len() as int;
                    let h = final(self).hist();
                    let a = old(self).spec_address();
                    let n = h.len() as int;
                    &&& n <= o + 6
                    &&& (n > o ==> is_write1(h[o], a, registers::SYSRANGE_START, 0x01))
                    &&& (n > o + 1 ==> is_write1(h[o + 1], a, 0xFF, 0x01))
                    &&& (n > o + 2 ==> is_write1(h[o + 2], a, 0x00, 0x00))
                    &&& (n > o + 3 ==> is_write1(h[o + 3], a, 0x91, 0x00))
                    &&& (n > o + 4 ==> is_write1(h[o + 4], a, 0x00, 0x01))
                    &&& (n > o + 5 ==> is_write1(h[o + 5], a, 0xFF, 0x00))
                }),
            },
    {
        self.write_register(registers::SYSRANGE_START, 0x01)?;
        self.write_byte(0xFF, 0x01)?;
        self.write_byte(0x00, 0x00)?;
        self.write_byte(0x91, 0x00)?;
        self.write_byte(0x00, 0x01)?;
        self.write_byte(0xFF, 0x00)?;

        Ok(())
    }

    /// Starts continuous ranging.  A zero period selects back-to-back
    /// mode; otherwise the period in milliseconds, scaled by the
    /// oscillator-calibration register when that is nonzero, is written
    /// as the inter-measurement period before timed mode is started.
    /// Either way the calibration byte is replayed first.
    pub fn start_continuous(&mut self, period_millis: u32) -> (r: Result<(), B::Fault>)
        ensures
            Self::setup_unchanged(old(self), final(self)),
            extends(old(self).hist(), final(self).hist()),
            match r {
                Ok(_) => ({
                    let o = old(self).hist().len() as int;
                    let h = final(self).hist();
                    let a = old(self).spec_address();
                    &&& is_write1(h[o], a, 0x80, 0x01)
                    &&& is_write1(h[o + 1], a, 0xFF, 0x01)
                    &&& is_write1(h[o + 2], a, 0x00, 0x00)
                    &&& is_write1(h[o + 3], a, 0x91, old(self).spec_stop_variable())
                    &&& is_write1(h[o + 4], a, 0x00, 0x01)
                    &&& is_write1(h[o + 5], a, 0xFF, 0x00)
                    &&& is_write1(h[o + 6], a, 0x80, 0x00)
                    &&& (period_millis == 0 ==> h.len() == o + 8 && is_write1(
                        h[o + 7],
                        a,
                        registers::SYSRANGE_START,
                        0x02,
                    ))
                    &&& (period_millis != 0 ==> ({
                        let osc = read2_value(h[o + 7]);
                        let scaled = if osc == 0 {
                            period_millis as int
                        } else {
                            (period_millis * osc) % 0x1_0000_0000
                        };
                        &&& h.len() == o + 10
                        &&& is_read2(h[o + 7], a, registers::OSC_CALIBRATE_VAL)
                        &&& is_write4(
                            h[o + 8],
                            a,
                            registers::SYSTEM_INTERMEASUREMENT_PERIOD,
                            scaled as u32,
                        )
                        &&& is_write1(h[o + 9], a, registers::SYSRANGE_START, 0x04)
                    }))
                }),
                Err(_) => ({
                    let o = old(self).hist().len() as int;
                    let h = final(self).hist();
                    let a = old(self).spec_address();
                    let n = h.len() as int;
                    &&& n <= o + 10
                    &&& (n > o ==> is_write1(h[o], a, 0x80, 0x01))
                    &&& (n > o + 1 ==> is_write1(h[o + 1], a, 0xFF, 0x01))
                    &&& (n > o + 2 ==> is_write1(h[o + 2], a, 0x00, 0x00))
                    &&& (n > o + 3 ==> is_write1(h[o + 3], a, 0x91, old(self).spec_stop_variable()))
                    &&& (n > o + 4 ==> is_write1(h[o + 4], a, 0x00, 0x01))
                    &&& (n > o + 5 ==> is_write1(h[o + 5], a, 0xFF, 0x00))
                    &&& (n > o + 6 ==> is_write1(h[o + 6], a, 0x80, 0x00))
                    &&& (period_millis == 0 ==> n <= o + 8 && (n > o + 7 ==> is_write1(
                        h[o + 7],
                        a,
                        registers::SYSRANGE_START,
                        0x02,
                    )))
                    &&& (period_millis != 0 ==> (n > o + 7 ==> is_read2(
                        h[o + 7],
                        a,
                        registers::OSC_CALIBRATE_VAL,
                    )) && (n > o + 8 ==> is_write4(
                        h[o + 8],
                        a,
                        registers::SYSTEM_INTERMEASUREMENT_PERIOD,
                        ({
                            let osc = read2_value(h[o + 7]);
                            (if osc == 0 {
                                period_millis as int
                            } else {
                                (period_millis * osc) % 0x1_0000_0000
                            }) as u32
                        }),
                    )) && (n > o + 9 ==> is_write1(h[o + 9], a, registers::SYSRANGE_START, 0x04)))
                }),
            },
    {
        self.write_byte(0x80, 0x01)?;
        self.write_byte(0xFF, 0x01)?;
        self.write_byte(0x00, 0x00)?;
        let sv = self.stop_variable;
        self.write_byte(0x91, sv)?;
        self.write_byte(0x00, 0x01)?;
        self.write_byte(0xFF, 0x00)?;
        self.write_byte(0x80, 0x00)?;

        if period_millis != 0 {
            // continuous timed mode
            let osc_calibrate_value = self.read_16bit(registers::OSC_CALIBRATE_VAL)?;

            let scaled: u32 = if osc_calibrate_value != 0 {
                proof {
                    vstd::arithmetic::mul::lemma_mul_upper_bound(
                        period_millis as int,
                        0xFFFF_FFFF,
                        osc_calibrate_value as int,
                        0xFFFF,
                    );
                }
                (((period_millis as u64) * (osc_calibrate_value as u64)) % 0x1_0000_0000) as u32
            } else {
                period_millis
            };

            self.write_32bit(registers::SYSTEM_INTERMEASUREMENT_PERIOD, scaled)?;
            self.write_register(registers::SYSRANGE_START, 0x04)?;
        } else {
            // back-to-back mode
            self.write_register(registers::SYSRANGE_START, 0x02)?;
        }

        Ok(())
    }

    /// Non-blocking range read: when no completion bit is set in the
    /// interrupt status this signals "would block" and performs nothing
    /// else; once one is set it reads the 16-bit range and clears the
    /// interrupt with exactly one write.
    pub fn read_range_mm(&mut self) -> (r: Result<u16, NbError<Error<B::Fault>>>)
        ensures
            Self::setup_unchanged(old(self), final(self)),
            extends(old(self).hist(), final(self).hist()),
            match r {
                Ok(range) => ({
                    let o = old(self).hist().len() as int;
                    let h = final(self).hist();
                    let a = old(self).spec_address();
                    &&& h.len() == o + 3
                    &&& is_read1(h[o], a, registers::RESULT_INTERRUPT_STATUS)
                    &&& h[o].read[0] & 0x07 != 0
                    &&& is_read2(h[o + 1], a, registers::RESULT_RANGE_STATUS_PLUS_10)
                    &&& range as int == read2_value(h[o + 1])
                    &&& is_write1(h[o + 2], a, registers::SYSTEM_INTERRUPT_CLEAR, 0x01)
                }),
                Err(e) => ({
                    let o = old(self).hist().len() as int;
                    let h = final(self).hist();
                    let a = old(self).spec_address();
                    &&& (e is WouldBlock ==> h.len() == o + 1 && is_read1(
                        h[o],
                        a,
                        registers::RESULT_INTERRUPT_STATUS,
                    ) && h[o].read[0] & 0x07 == 0)
                    &&& (e is Other ==> ({
                        &&& e->Other_0 is BusError
                        &&& h.len() <= o + 3
                        // a successful status read with no completion bit
                        // always yields WouldBlock, never a bus error
                        &&& (h.len() > o ==> is_read1(h[o], a, registers::RESULT_INTERRUPT_STATUS)
                            && h[o].read[0] & 0x07 != 0)
                        &&& (forall|i: int|
                            o + 1 <= i < h.len() ==> (is_read2(
                                h[i],
                                a,
                                registers::RESULT_RANGE_STATUS_PLUS_10,
                            ) || is_write1(h[i], a, registers::SYSTEM_INTERRUPT_CLEAR, 0x01)))
                    }))
                }),
            },
    {
        match self.read_register(registers::RESULT_INTERRUPT_STATUS) {
            Ok(status) => {
                if (status & 0x07) == 0 {
                    Err(NbError::WouldBlock)
                } else {
                    let range_err = self.read_16bit(registers::RESULT_RANGE_STATUS_PLUS_10);
                    let write_err = self.write_register(registers::SYSTEM_INTERRUPT_CLEAR, 0x01);
                    match (range_err, write_err) {
                        (Ok(res), Ok(_)) => Ok(res),
                        (Err(e), _) => Err(NbError::Other(Error::BusError(e))),
                        (_, Err(e)) => Err(NbError::Other(Error::BusError(e))),
                    }
                }
            },
            Err(e) => Err(NbError::Other(Error::BusError(e))),
        }
    }

    /// Reads the VCSEL pulse period of the given ranging stage, in
    /// pulse clocks.
    fn get_vcsel_pulse_period(&mut self, ty: VcselPeriodType) -> (r: Result<u8, B::Fault>)
        ensures
            Self::setup_unchanged(old(self), final(self)),
            match r {
                Ok(pclks) => ({
                    let reg = if ty is VcselPeriodPreRange {
                        registers::PRE_RANGE_CONFIG_VCSEL_PERIOD
                    } else {
                        registers::FINAL_RANGE_CONFIG_VCSEL_PERIOD
                    };
                    &&& final(self).hist().len() == old(self).hist().len() + 1
                    &&& extends(old(self).hist(), final(self).hist())
                    &&& is_read1(final(self).hist().last(), old(self).spec_address(), reg)
                    &&& pclks == spec_decode_vcsel_period(final(self).hist().last().read[0])
                }),
                Err(_) => final(self).hist() == old(self).hist(),
            },
    {
        match ty {
            VcselPeriodType::VcselPeriodPreRange => {
                match self.read_register(registers::PRE_RANGE_CONFIG_VCSEL_PERIOD) {
                    Ok(raw) => Ok(decode_vcsel_period(raw)),
                    Err(e) => Err(e),
                }
            },
            VcselPeriodType::VcselPeriodFinalRange => {
                match self.read_register(registers::FINAL_RANGE_CONFIG_VCSEL_PERIOD) {
                    Ok(raw) => Ok(decode_vcsel_period(raw)),
                    Err(e) => Err(e),
                }
            },
        }
    }

    /// Reads which ranging sub-steps the sequence-config register has
    /// enabled.
    fn get_sequence_step_enables(&mut self) -> (r: Result<SeqStepEnables, B::Fault>)
        ensures
            Self::setup_unchanged(old(self), final(self)),
            match r {
                Ok(e) => ({
                    &&& final(self).hist().len() == old(self).hist().len() + 1
                    &&& extends(old(self).hist(), final(self).hist())
                    &&& is_read1(
                        final(self).hist().last(),
                        old(self).spec_address(),
                        registers::SYSTEM_SEQUENCE_CONFIG,
                    )
                    &&& e == spec_enables(final(self).hist().last().read[0])
                }),
                Err(_) => final(self).hist() == old(self).hist(),
            },
    {
        match self.read_register(registers::SYSTEM_SEQUENCE_CONFIG) {
            Ok(sequence_config) => Ok(decode_sequence_step_enables(sequence_config)),
            Err(e) => Err(e),
        }
    }

    /// Reads the five registers the sub-step timeouts derive from and
    /// computes them.
    fn get_sequence_step_timeouts(&mut self, enables: &SeqStepEnables) -> (r: Result<
        SeqStepTimeouts,
        B::Fault,
    >)
        ensures
            Self::setup_unchanged(old(self), final(self)),
            reads_only_from(old(self).hist(), final(self).hist()),
            match r {
                Ok(t) => ({
                    let o = old(self).hist().len() as int;
                    let h = final(self).hist();
                    let a = old(self).spec_address();
                    &&& h.len() == o + 5
                    &&& is_read2(h[o], a, registers::PRE_RANGE_CONFIG_TIMEOUT_MACROP_HI)
                    &&& is_read2(h[o + 1], a, registers::FINAL_RANGE_CONFIG_TIMEOUT_MACROP_HI)
                    &&& is_read1(h[o + 2], a, registers::PRE_RANGE_CONFIG_VCSEL_PERIOD)
                    &&& is_read1(h[o + 3], a, registers::MSRC_CONFIG_TIMEOUT_MACROP)
                    &&& is_read1(h[o + 4], a, registers::FINAL_RANGE_CONFIG_VCSEL_PERIOD)
                    &&& t == spec_step_timeouts(
                        read2_value(h[o]) as u16,
                        read2_value(h[o + 1]) as u16,
                        h[o + 2].read[0],
                        h[o + 3].read[0],
                        h[o + 4].read[0],
                        enables.pre_range,
                    )
                    &&& t.wf()
                }),
                Err(_) => ({
                    let o = old(self).hist().len() as int;
                    let h = final(self).hist();
                    let a = old(self).spec_address();
                    let n = h.len() as int;
                    &&& n <= o + 5
                    &&& (n > o ==> is_read2(h[o], a, registers::PRE_RANGE_CONFIG_TIMEOUT_MACROP_HI))
                    &&& (n > o + 1 ==> is_read2(
                        h[o + 1],
                        a,
                        registers::FINAL_RANGE_CONFIG_TIMEOUT_MACROP_HI,
                    ))
                    &&& (n > o + 2 ==> is_read1(h[o + 2], a, registers::PRE_RANGE_CONFIG_VCSEL_PERIOD))
                    &&& (n > o + 3 ==> is_read1(h[o + 3], a, registers::MSRC_CONFIG_TIMEOUT_MACROP))
                    &&& (n > o + 4 ==> is_read1(
                        h[o + 4],
                        a,
                        registers::FINAL_RANGE_CONFIG_VCSEL_PERIOD,
                    ))
                }),
            },
    {
        let pre_raw = self.read_16bit(registers::PRE_RANGE_CONFIG_TIMEOUT_MACROP_HI)?;
        let final_raw = self.read_16bit(registers::FINAL_RANGE_CONFIG_TIMEOUT_MACROP_HI)?;
        let pre_range_vcselperiod_pclks = self.get_vcsel_pulse_period(
            VcselPeriodType::VcselPeriodPreRange,
        )?;
        let msrc_raw = self.read_register(registers::MSRC_CONFIG_TIMEOUT_MACROP)?;
        let final_range_vcsel_period_pclks = self.get_vcsel_pulse_period(
            VcselPeriodType::VcselPeriodFinalRange,
        )?;

        let pre_range_mclks = decode_timeout(pre_raw);
        let final_range_total = decode_timeout(final_raw);
        let final_range_mclks: u16 = if enables.pre_range {
            // the register holds the pre-range ticks inclusively
            ((((final_range_total as u32) + 0x10000) - (pre_range_mclks as u32)) % 0x10000) as u16
        } else {
            final_range_total
        };
        let msrc_dss_tcc_mclks: u16 = (msrc_raw as u16) + 1;
        proof {
            lemma_mclks_to_us_bound(msrc_dss_tcc_mclks, pre_range_vcselperiod_pclks);
            lemma_mclks_to_us_bound(pre_range_mclks, pre_range_vcselperiod_pclks);
            lemma_mclks_to_us_bound(final_range_mclks, final_range_vcsel_period_pclks);
        }
        Ok(
            SeqStepTimeouts {
                pre_range_vcselperiod_pclks,
                final_range_vcsel_period_pclks,
                msrc_dss_tcc_mclks,
                pre_range_mclks,
                final_range_mclks,
                msrc_dss_tcc_microseconds: timeout_mclks_to_microseconds(
                    msrc_dss_tcc_mclks,
                    pre_range_vcselperiod_pclks,
                ),
                pre_range_microseconds: timeout_mclks_to_microseconds(
                    pre_range_mclks,
                    pre_range_vcselperiod_pclks,
                ),
                final_range_microseconds: timeout_mclks_to_microseconds(
                    final_range_mclks,
                    final_range_vcsel_period_pclks,
                ),
            },
        )
    }

    /// Reads the measured timing budget in microseconds: fixed start and
    /// end overheads plus each enabled step's measured timeout and fixed
    /// overhead, DSS doubled and suppressing MSRC.
    pub fn get_measurement_timing_budget(&mut self) -> (r: Result<u32, B::Fault>)
        ensures
            Self::setup_unchanged(old(self), final(self)),
            reads_only_from(old(self).hist(), final(self).hist()),
            match r {
                Ok(b) => ({
                    let o = old(self).hist().len() as int;
                    let h = final(self).hist();
                    let a = old(self).spec_address();
                    let e = spec_enables(h[o].read[0]);
                    &&& h.len() == o + 6
                    &&& is_read1(h[o], a, registers::SYSTEM_SEQUENCE_CONFIG)
                    &&& is_read2(h[o + 1], a, registers::PRE_RANGE_CONFIG_TIMEOUT_MACROP_HI)
                    &&& is_read2(h[o + 2], a, registers::FINAL_RANGE_CONFIG_TIMEOUT_MACROP_HI)
                    &&& is_read1(h[o + 3], a, registers::PRE_RANGE_CONFIG_VCSEL_PERIOD)
                    &&& is_read1(h[o + 4], a, registers::MSRC_CONFIG_TIMEOUT_MACROP)
                    &&& is_read1(h[o + 5], a, registers::FINAL_RANGE_CONFIG_VCSEL_PERIOD)
                    &&& b as int == spec_budget_us(
                        e,
                        spec_step_timeouts(
                            read2_value(h[o + 1]) as u16,
                            read2_value(h[o + 2]) as u16,
                            h[o + 3].read[0],
                            h[o + 4].read[0],
                            h[o + 5].read[0],
                            e.pre_range,
                        ),
                    )
                }),
                Err(_) => ({
                    let o = old(self).hist().len() as int;
                    let h = final(self).hist();
                    let a = old(self).spec_address();
                    let n = h.len() as int;
                    &&& n <= o + 6
                    &&& (n > o ==> is_read1(h[o], a, registers::SYSTEM_SEQUENCE_CONFIG))
                    &&& (n > o + 1 ==> is_read2(
                        h[o + 1],
                        a,
                        registers::PRE_RANGE_CONFIG_TIMEOUT_MACROP_HI,
                    ))
                    &&& (n > o + 2 ==> is_read2(
                        h[o + 2],
                        a,
                        registers::FINAL_RANGE_CONFIG_TIMEOUT_MACROP_HI,
                    ))
                    &&& (n > o + 3 ==> is_read1(h[o + 3], a, registers::PRE_RANGE_CONFIG_VCSEL_PERIOD))
                    &&& (n > o + 4 ==> is_read1(h[o + 4], a, registers::MSRC_CONFIG_TIMEOUT_MACROP))
                    &&& (n > o + 5 ==> is_read1(
                        h[o + 5],
                        a,
                        registers::FINAL_RANGE_CONFIG_VCSEL_PERIOD,
                    ))
                }),
            },
    {
        let enables = self.get_sequence_step_enables()?;
        let timeouts = self.get_sequence_step_timeouts(&enables)?;
        Ok(budget_from(&enables, &timeouts))
    }

    /// Applies a measurement timing budget.  Budgets below the 20 ms
    /// minimum are not applied and nothing at all is issued; budgets too
    /// small for the enabled steps' fixed overhead are not applied and
    /// nothing is written.  Otherwise the remaining time is encoded into
    /// the final-range timeout register and the cached budget updated.
    pub fn set_measurement_timing_budget(&mut self, budget_microseconds: u32) -> (r: Result<
        bool,
        B::Fault,
    >)
        ensures
            final(self).spec_address() == old(self).spec_address(),
            final(self).spec_io_mode2v8() == old(self).spec_io_mode2v8(),
            final(self).spec_stop_variable() == old(self).spec_stop_variable(),
            extends(old(self).hist(), final(self).hist()),
            budget_microseconds < 20000 ==> (r == Ok::<bool, B::Fault>(false) && final(self).hist()
                == old(self).hist()),
            budget_microseconds >= 20000 && r is Ok ==> ({
                let o = old(self).hist().len() as int;
                let h = final(self).hist();
                let a = old(self).spec_address();
                let e = spec_enables(h[o].read[0]);
                let t = spec_step_timeouts(
                    read2_value(h[o + 1]) as u16,
                    read2_value(h[o + 2]) as u16,
                    h[o + 3].read[0],
                    h[o + 4].read[0],
                    h[o + 5].read[0],
                    e.pre_range,
                );
                &&& h.len() >= o + 6
                &&& is_read1(h[o], a, registers::SYSTEM_SEQUENCE_CONFIG)
                &&& is_read2(h[o + 1], a, registers::PRE_RANGE_CONFIG_TIMEOUT_MACROP_HI)
                &&& is_read2(h[o + 2], a, registers::FINAL_RANGE_CONFIG_TIMEOUT_MACROP_HI)
                &&& is_read1(h[o + 3], a, registers::PRE_RANGE_CONFIG_VCSEL_PERIOD)
                &&& is_read1(h[o + 4], a, registers::MSRC_CONFIG_TIMEOUT_MACROP)
                &&& is_read1(h[o + 5], a, registers::FINAL_RANGE_CONFIG_VCSEL_PERIOD)
                &&& (r == Ok::<bool, B::Fault>(true) <==> (spec_used_budget_us(e, t)
                    <= budget_microseconds && t.final_range_vcsel_period_pclks != 0))
            }),
            match r {
                Ok(applied) => ({
                    let o = old(self).hist().len() as int;
                    let h = final(self).hist();
                    let a = old(self).spec_address();
                    &&& (!applied ==> final(self).spec_budget_us() == old(self).spec_budget_us()
                        && reads_only_from(old(self).hist(), h) && (budget_microseconds >= 20000
                        ==> h.len() == o + 6))
                    &&& (applied ==> ({
                        let e = spec_enables(h[o].read[0]);
                        let t = spec_step_timeouts(
                            read2_value(h[o + 1]) as u16,
                            read2_value(h[o + 2]) as u16,
                            h[o + 3].read[0],
                            h[o + 4].read[0],
                            h[o + 5].read[0],
                            e.pre_range,
                        );
                        &&& budget_microseconds >= 20000
                        &&& final(self).spec_budget_us() == budget_microseconds
                        &&& h.len() == o + 7
                        &&& is_write2(
                            h[o + 6],
                            a,
                            registers::FINAL_RANGE_CONFIG_TIMEOUT_MACROP_HI,
                            spec_encode_timeout(
                                spec_final_range_timeout_mclks(budget_microseconds, e, t),
                            ),
                        )
                    }))
                }),
                Err(_) => final(self).spec_budget_us() == old(self).spec_budget_us()
                    && reads_only_from(old(self).hist(), final(self).hist()),
            },
    {
        let min_timing_budget: u32 = 20000;
        if budget_microseconds < min_timing_budget {
            return Ok(false);
        }
        let enables = self.get_sequence_step_enables()?;
        let timeouts = self.get_sequence_step_timeouts(&enables)?;

        let use_budget_microseconds = used_budget_from(&enables, &timeouts);
        if use_budget_microseconds > budget_microseconds {
            // the requested budget does not even cover the overhead
            return Ok(false);
        }
        if timeouts.final_range_vcsel_period_pclks == 0 {
            // a degenerate VCSEL period gives a zero macro period, so no
            // remaining time can be converted into ticks
            return Ok(false);
        }

        let final_range_timeout_mclks = final_range_timeout_for(
            budget_microseconds,
            &enables,
            &timeouts,
        );
        match self.write_16bit(
            registers::FINAL_RANGE_CONFIG_TIMEOUT_MACROP_HI,
            encode_timeout(final_range_timeout_mclks),
        ) {
            Ok(_) => {
                self.measurement_timing_budget_microseconds = budget_microseconds;
                Ok(true)
            },
            Err(e) => Err(e),
        }
    }

    /// Queries the reference-SPAD count and pixel type through the
    /// banked sub-protocol: a poll until a status register goes nonzero,
    /// then one read whose low seven bits are the count and whose high
    /// bit tells aperture pixels apart.
    fn get_spad_info(&mut self) -> (r: Result<(u8, u8), Error<B::Fault>>)
        ensures
            Self::setup_unchanged(old(self), final(self)),
            extends(old(self).hist(), final(self).hist()),
            match r {
                Ok((count, type_is_aperture)) => ({
                    let o = old(self).hist().len() as int;
                    let h = final(self).hist();
                    let a = old(self).spec_address();
                    let n = h.len() as int;
                    &&& o + 22 <= n <= o + 11 + 65535 + 10
                    &&& is_write1(h[o], a, 0x80, 0x01)
                    &&& is_write1(h[o + 1], a, 0xFF, 0x01)
                    &&& is_write1(h[o + 2], a, 0x00, 0x00)
                    &&& is_write1(h[o + 3], a, 0xFF, 0x06)
                    &&& is_read1(h[o + 4], a, 0x83)
                    &&& is_write1(h[o + 5], a, 0x83, h[o + 4].read[0] | 0x04)
                    &&& is_write1(h[o + 6], a, 0xFF, 0x07)
                    &&& is_write1(h[o + 7], a, 0x81, 0x01)
                    &&& is_write1(h[o + 8], a, 0x80, 0x01)
                    &&& is_write1(h[o + 9], a, 0x94, 0x6B)
                    &&& is_write1(h[o + 10], a, 0x83, 0x00)
                    &&& (forall|i: int|
                        o + 11 <= i < n - 10 ==> is_read1(h[i], a, 0x83) && (i < n - 11
                            ==> h[i].read[0] == 0))
                    &&& h[n - 11].read[0] != 0
                    &&& is_write1(h[n - 10], a, 0x83, 0x01)
                    &&& is_read1(h[n - 9], a, 0x92)
                    &&& count == h[n - 9].read[0] & 0x7F
                    &&& type_is_aperture == (h[n - 9].read[0] >> 7u8) & 0x01
                    &&& is_write1(h[n - 8], a, 0x81, 0x00)
                    &&& is_write1(h[n - 7], a, 0xFF, 0x06)
                    &&& is_read1(h[n - 6], a, 0x83)
                    &&& is_write1(h[n - 5], a, 0x83, h[n - 6].read[0] & !0x04)
                    &&& is_write1(h[n - 4], a, 0xFF, 0x01)
                    &&& is_write1(h[n - 3], a, 0x00, 0x01)
                    &&& is_write1(h[n - 2], a, 0xFF, 0x00)
                    &&& is_write1(h[n - 1], a, 0x80, 0x00)
                }),
                Err(e) => ({
                    let o = old(self).hist().len() as int;
                    let h = final(self).hist();
                    let a = old(self).spec_address();
                    let n = h.len() as int;
                    &&& !(e is InvalidDevice)
                    &&& (e is Timeout ==> ({
                        &&& n == o + 11 + 65535
                        &&& (forall|i: int|
                            o + 11 <= i < n ==> is_read1(h[i], a, 0x83) && h[i].read[0] == 0)
                    }))
                }),
            },
    {
        self.write_byte_e(0x80, 0x01)?;
        self.write_byte_e(0xFF, 0x01)?;
        self.write_byte_e(0x00, 0x00)?;

        self.write_byte_e(0xFF, 0x06)?;
        let tmp83 = self.read_byte_e(0x83)?;
        self.write_byte_e(0x83, tmp83 | 0x04)?;
        self.write_byte_e(0xFF, 0x07)?;
        self.write_byte_e(0x81, 0x01)?;

        self.write_byte_e(0x80, 0x01)?;

        self.write_byte_e(0x94, 0x6B)?;
        self.write_byte_e(0x83, 0x00)?;

        let mut c: u32 = 0;
        loop
            invariant
                self.spec_address() == old(self).spec_address(),
                self.spec_io_mode2v8() == old(self).spec_io_mode2v8(),
                self.spec_stop_variable() == old(self).spec_stop_variable(),
                self.spec_budget_us() == old(self).spec_budget_us(),
                extends(old(self).hist(), self.hist()),
                self.hist().len() == old(self).hist().len() + 11 + c,
                is_write1(
                    self.hist()[old(self).hist().len() as int],
                    old(self).spec_address(),
                    0x80,
                    0x01,
                ),
                is_write1(
                    self.hist()[old(self).hist().len() as int + 1],
                    old(self).spec_address(),
                    0xFF,
                    0x01,
                ),
                is_write1(
                    self.hist()[old(self).hist().len() as int + 2],
                    old(self).spec_address(),
                    0x00,
                    0x00,
                ),
                is_write1(
                    self.hist()[old(self).hist().len() as int + 3],
                    old(self).spec_address(),
                    0xFF,
                    0x06,
                ),
                is_read1(
                    self.hist()[old(self).hist().len() as int + 4],
                    old(self).spec_address(),
                    0x83,
                ),
                is_write1(
                    self.hist()[old(self).hist().len() as int + 5],
                    old(self).spec_address(),
                    0x83,
                    self.hist()[old(self).hist().len() as int + 4].read[0] | 0x04,
                ),
                is_write1(
                    self.hist()[old(self).hist().len() as int + 6],
                    old(self).spec_address(),
                    0xFF,
                    0x07,
                ),
                is_write1(
                    self.hist()[old(self).hist().len() as int + 7],
                    old(self).spec_address(),
                    0x81,
                    0x01,
                ),
                is_write1(
                    self.hist()[old(self).hist().len() as int + 8],
                    old(self).spec_address(),
                    0x80,
                    0x01,
                ),
                is_write1(
                    self.hist()[old(self).hist().len() as int + 9],
                    old(self).spec_address(),
                    0x94,
                    0x6B,
                ),
                is_write1(
                    self.hist()[old(self).hist().len() as int + 10],
                    old(self).spec_address(),
                    0x83,
                    0x00,
                ),
                forall|i: int|
                    old(self).hist().len() + 11 <= i < self.hist().len() ==> is_read1(
                        self.hist()[i],
                        old(self).spec_address(),
                        0x83,
                    ) && self.hist()[i].read[0] == 0,
                c <= 65534,
            decreases 65535 - c,
        {
            let status = self.read_byte_e(0x83)?;
            if status != 0x00 {
                self.write_byte_e(0x83, 0x01)?;
                let tmp = self.read_byte_e(0x92)?;
                let ghost idx = self.hist().len() as int - 1;

                let count: u8 = tmp & 0x7F;
                let type_is_aperture: u8 = (tmp >> 7) & 0x01;

                self.write_byte_e(0x81, 0x00)?;
                self.write_byte_e(0xFF, 0x06)?;
                let tmp83b = self.read_byte_e(0x83)?;
                self.write_byte_e(0x83, tmp83b & !0x04)?;
                self.write_byte_e(0xFF, 0x01)?;
                self.write_byte_e(0x00, 0x01)?;

                self.write_byte_e(0xFF, 0x00)?;
                self.write_byte_e(0x80, 0x00)?;

                proof {
                    assert(idx == self.hist().len() - 9);
                    assert((tmp >> 7) & 0x01 == (tmp >> 7u8) & 0x01) by (bit_vector);
                }
                return Ok((count, type_is_aperture));
            }
            c = c + 1;
            if c == 65535 {
                return Err(Error::Timeout);
            }
        }
    }

    /// Runs one single-reference calibration: start with the given init
    /// bit, poll the interrupt status until a completion bit appears
    /// (bounded attempts), then clear the interrupt and stop.
    fn perform_single_ref_calibration(&mut self, vhv_init_byte: u8) -> (r: Result<
        (),
        Error<B::Fault>,
    >)
        ensures
            Self::setup_unchanged(old(self), final(self)),
            extends(old(self).hist(), final(self).hist()),
            match r {
                Ok(_) => ({
                    let o = old(self).hist().len() as int;
                    let h = final(self).hist();
                    let a = old(self).spec_address();
                    let n = h.len() as int;
                    &&& o + 4 <= n <= o + 10003
                    &&& is_write1(h[o], a, registers::SYSRANGE_START, 0x01 | vhv_init_byte)
                    &&& (forall|i: int|
                        o + 1 <= i < n - 2 ==> is_read1(
                            h[i],
                            a,
                            registers::RESULT_INTERRUPT_STATUS,
                        ))
                    &&& (forall|i: int| o + 1 <= i < n - 3 ==> h[i].read[0] & 0x07 == 0)
                    &&& h[n - 3].read[0] & 0x07 != 0
                    &&& is_write1(h[n - 2], a, registers::SYSTEM_INTERRUPT_CLEAR, 0x01)
                    &&& is_write1(h[n - 1], a, registers::SYSRANGE_START, 0x00)
                }),
                Err(e) => ({
                    let o = old(self).hist().len() as int;
                    let h = final(self).hist();
                    let a = old(self).spec_address();
                    let n = h.len() as int;
                    &&& !(e is InvalidDevice)
                    &&& (e is Timeout ==> ({
                        &&& n == o + 10001
                        &&& is_write1(h[o], a, registers::SYSRANGE_START, 0x01 | vhv_init_byte)
                        &&& (forall|i: int|
                            o + 1 <= i < n ==> is_read1(
                                h[i],
                                a,
                                registers::RESULT_INTERRUPT_STATUS,
                            ) && h[i].read[0] & 0x07 == 0)
                    }))
                }),
            },
    {
        self.write_byte_e(registers::SYSRANGE_START, 0x01 | vhv_init_byte)?;
        let ghost o = old(self).hist().len() as int;
        let mut c: u32 = 0;
        loop
            invariant
                self.spec_address() == old(self).spec_address(),
                self.spec_io_mode2v8() == old(self).spec_io_mode2v8(),
                self.spec_stop_variable() == old(self).spec_stop_variable(),
                self.spec_budget_us() == old(self).spec_budget_us(),
                extends(old(self).hist(), self.hist()),
                o == old(self).hist().len() as int,
                self.hist().len() == o + 1 + c,
                is_write1(
                    self.hist()[o],
                    old(self).spec_address(),
                    registers::SYSRANGE_START,
                    0x01 | vhv_init_byte,
                ),
                forall|i: int|
                    o + 1 <= i < self.hist().len() ==> is_read1(
                        self.hist()[i],
                        old(self).spec_address(),
                        registers::RESULT_INTERRUPT_STATUS,
                    ) && self.hist()[i].read[0] & 0x07 == 0,
                c <= 9999,
            decreases 10000 - c,
        {
            let status = self.read_byte_e(registers::RESULT_INTERRUPT_STATUS)?;
            if (status & 0x07) != 0 {
                self.write_byte_e(registers::SYSTEM_INTERRUPT_CLEAR, 0x01)?;
                self.write_byte_e(registers::SYSRANGE_START, 0x00)?;
                return Ok(());
            }
            c = c + 1;
            if c == 10000 {
                return Err(Error::Timeout);
            }
        }
    }

    /// Blocking range read while continuous mode is active: polls the
    /// interrupt status (bounded attempts), then reads the range and
    /// clears the interrupt.
    pub fn read_range_continuous_millimeters_blocking(&mut self) -> (r: Result<u16, Error<B::Fault>>)
        ensures
            Self::setup_unchanged(old(self), final(self)),
            extends(old(self).hist(), final(self).hist()),
            match r {
                Ok(range) => ({
                    let o = old(self).hist().len() as int;
                    let h = final(self).hist();
                    let a = old(self).spec_address();
                    let n = h.len() as int;
                    &&& o + 3 <= n <= o + 10002
                    &&& (forall|i: int|
                        o <= i < n - 2 ==> is_read1(h[i], a, registers::RESULT_INTERRUPT_STATUS))
                    &&& (forall|i: int| o <= i < n - 3 ==> h[i].read[0] & 0x07 == 0)
                    &&& h[n - 3].read[0] & 0x07 != 0
                    &&& is_read2(h[n - 2], a, registers::RESULT_RANGE_STATUS_PLUS_10)
                    &&& range as int == read2_value(h[n - 2])
                    &&& is_write1(h[n - 1], a, registers::SYSTEM_INTERRUPT_CLEAR, 0x01)
                }),
                Err(e) => ({
                    &&& !(e is InvalidDevice)
                    &&& (e is Timeout ==> ({
                        let o = old(self).hist().len() as int;
                        let h = final(self).hist();
                        let a = old(self).spec_address();
                        &&& h.len() == o + 10000
                        &&& (forall|i: int|
                            o <= i < h.len() ==> is_read1(
                                h[i],
                                a,
                                registers::RESULT_INTERRUPT_STATUS,
                            ) && h[i].read[0] & 0x07 == 0)
                    }))
                }),
            },
    {
        let ghost o = old(self).hist().len() as int;
        let mut c: u32 = 0;
        loop
            invariant
                self.spec_address() == old(self).spec_address(),
                self.spec_io_mode2v8() == old(self).spec_io_mode2v8(),
                self.spec_stop_variable() == old(self).spec_stop_variable(),
                self.spec_budget_us() == old(self).spec_budget_us(),
                extends(old(self).hist(), self.hist()),
                o == old(self).hist().len() as int,
                self.hist().len() == o + c,
                forall|i: int|
                    o <= i < self.hist().len() ==> is_read1(
                        self.hist()[i],
                        old(self).spec_address(),
                        registers::RESULT_INTERRUPT_STATUS,
                    ) && self.hist()[i].read[0] & 0x07 == 0,
                c <= 9999,
            decreases 10000 - c,
        {
            let status = self.read_byte_e(registers::RESULT_INTERRUPT_STATUS)?;
            if (status & 0x07) != 0 {
                let range_err = self.read_16bit(registers::RESULT_RANGE_STATUS_PLUS_10);
                match self.write_register(registers::SYSTEM_INTERRUPT_CLEAR, 0x01) {
                    Ok(_) => (),
                    Err(e) => {
                        return Err(Error::BusError(e));
                    },
                }

                return match range_err {
                    Ok(range) => Ok(range),
                    Err(e) => Err(Error::BusError(e)),
                };
            }
            c = c + 1;
            if c == 10000 {
                return Err(Error::Timeout);
            }
        }
    }

    /// Blocking single-shot range read: replay the calibration byte,
    /// issue a single-shot start, wait for the start bit to clear
    /// (bounded attempts), then read as in continuous mode.
    pub fn read_range_single_millimeters_blocking(&mut self) -> (r: Result<u16, Error<B::Fault>>)
        ensures
            Self::setup_unchanged(old(self), final(self)),
            extends(old(self).hist(), final(self).hist()),
            match r {
                Ok(range) => ({
                    let o = old(self).hist().len() as int;
                    let h = final(self).hist();
                    let a = old(self).spec_address();
                    let n = h.len() as int;
                    &&& o + 12 <= n <= o + 20010
                    &&& is_write1(h[o], a, 0x80, 0x01)
                    &&& is_write1(h[o + 1], a, 0xFF, 0x01)
                    &&& is_write1(h[o + 2], a, 0x00, 0x00)
                    &&& is_write1(h[o + 3], a, 0x91, old(self).spec_stop_variable())
                    &&& is_write1(h[o + 4], a, 0x00, 0x01)
                    &&& is_write1(h[o + 5], a, 0xFF, 0x00)
                    &&& is_write1(h[o + 6], a, 0x80, 0x00)
                    &&& is_write1(h[o + 7], a, registers::SYSRANGE_START, 0x01)
                    // between the start command and the range read only
                    // the start-bit and completion polls occur
                    &&& (forall|i: int|
                        o + 8 <= i < n - 2 ==> h[i].wrote.len() == 1 && (h[i].wrote[0]
                            == registers::SYSRANGE_START || h[i].wrote[0]
                            == registers::RESULT_INTERRUPT_STATUS))
                    &&& is_read2(h[n - 2], a, registers::RESULT_RANGE_STATUS_PLUS_10)
                    &&& range as int == read2_value(h[n - 2])
                    &&& is_write1(h[n - 1], a, registers::SYSTEM_INTERRUPT_CLEAR, 0x01)
                }),
                Err(e) => ({
                    let o = old(self).hist().len() as int;
                    let h = final(self).hist();
                    let a = old(self).spec_address();
                    let n = h.len() as int;
                    &&& !(e is InvalidDevice)
                    &&& (e is Timeout ==> ({
                        &&& n >= o + 10008
                        &&& ((forall|i: int|
                            n - 10000 <= i < n ==> is_read1(h[i], a, registers::SYSRANGE_START)
                                && h[i].read[0] & 0x01 != 0) || (forall|i: int|
                            n - 10000 <= i < n ==> is_read1(
                                h[i],
                                a,
                                registers::RESULT_INTERRUPT_STATUS,
                            ) && h[i].read[0] & 0x07 == 0))
                    }))
                }),
            },
    {
        self.write_byte_e(0x80, 0x01)?;
        self.write_byte_e(0xFF, 0x01)?;
        self.write_byte_e(0x00, 0x00)?;
        let sv = self.stop_variable;
        self.write_byte_e(0x91, sv)?;
        self.write_byte_e(0x00, 0x01)?;
        self.write_byte_e(0xFF, 0x00)?;
        self.write_byte_e(0x80, 0x00)?;

        self.write_byte_e(registers::SYSRANGE_START, 0x01)?;

        // wait until the start bit has been cleared
        let ghost mid = self.hist().len() as int;
        let mut c: u32 = 0;
        loop
            invariant
                self.spec_address() == old(self).spec_address(),
                self.spec_io_mode2v8() == old(self).spec_io_mode2v8(),
                self.spec_stop_variable() == old(self).spec_stop_variable(),
                self.spec_budget_us() == old(self).spec_budget_us(),
                extends(old(self).hist(), self.hist()),
                self.hist().len() == mid + c,
                mid == old(self).hist().len() + 8,
                is_write1(self.hist()[mid - 8], old(self).spec_address(), 0x80, 0x01),
                is_write1(self.hist()[mid - 7], old(self).spec_address(), 0xFF, 0x01),
                is_write1(self.hist()[mid - 6], old(self).spec_address(), 0x00, 0x00),
                is_write1(
                    self.hist()[mid - 5],
                    old(self).spec_address(),
                    0x91,
                    old(self).spec_stop_variable(),
                ),
                is_write1(self.hist()[mid - 4], old(self).spec_address(), 0x00, 0x01),
                is_write1(self.hist()[mid - 3], old(self).spec_address(), 0xFF, 0x00),
                is_write1(self.hist()[mid - 2], old(self).spec_address(), 0x80, 0x00),
                is_write1(
                    self.hist()[mid - 1],
                    old(self).spec_address(),
                    registers::SYSRANGE_START,
                    0x01,
                ),
                forall|i: int|
                    mid <= i < self.hist().len() ==> is_read1(
                        self.hist()[i],
                        old(self).spec_address(),
                        registers::SYSRANGE_START,
                    ) && self.hist()[i].read[0] & 0x01 != 0,
                c <= 9999,
            decreases 10000 - c,
        {
            let status = self.read_byte_e(registers::SYSRANGE_START)?;
            if (status & 0x01) == 0 {
                return self.read_range_continuous_millimeters_blocking();
            }
            c = c + 1;
            if c == 10000 {
                return Err(Error::Timeout);
            }
        }
    }

    /// First bring-up stage: raise the I/O voltage selection bit when
    /// configured for 2.8 V mode, force standard bus timing, and capture
    /// the calibration byte from its banked register.
    fn init_io_and_stop_variable(&mut self) -> (r: Result<(), Error<B::Fault>>)
        ensures
            final(self).spec_address() == old(self).spec_address(),
            final(self).spec_io_mode2v8() == old(self).spec_io_mode2v8(),
            final(self).spec_budget_us() == old(self).spec_budget_us(),
            extends(old(self).hist(), final(self).hist()),
            match r {
                Ok(_) => ({
                    let o = old(self).hist().len() as int;
                    let h = final(self).hist();
                    let a = old(self).spec_address();
                    let b = o + (if old(self).spec_io_mode2v8() {
                        2int
                    } else {
                        0int
                    });
                    &&& h.len() == b + 8
                    &&& (old(self).spec_io_mode2v8() ==> is_read1(
                        h[o],
                        a,
                        registers::VHV_CONFIG_PAD_SCL_SDA_EXTSUP_HV,
                    ) && is_write1(
                        h[o + 1],
                        a,
                        registers::VHV_CONFIG_PAD_SCL_SDA_EXTSUP_HV,
                        h[o].read[0] | 0x01,
                    ))
                    &&& is_write1(h[b], a, 0x88, 0x00)
                    &&& is_write1(h[b + 1], a, 0x80, 0x01)
                    &&& is_write1(h[b + 2], a, 0xFF, 0x01)
                    &&& is_write1(h[b + 3], a, 0x00, 0x00)
                    &&& is_read1(h[b + 4], a, 0x91)
                    &&& h[b + 4].read[0] == final(self).spec_stop_variable()
                    &&& is_write1(h[b + 5], a, 0x00, 0x01)
                    &&& is_write1(h[b + 6], a, 0xFF, 0x00)
                    &&& is_write1(h[b + 7], a, 0x80, 0x00)
                }),
                Err(e) => e is BusError,
            },
    {
        // the sensor powers up in 1.8 V I/O mode; switch if configured
        if self.io_mode2v8 {
            let ext_sup_hv = self.read_byte_e(registers::VHV_CONFIG_PAD_SCL_SDA_EXTSUP_HV)?;
            self.write_byte_e(registers::VHV_CONFIG_PAD_SCL_SDA_EXTSUP_HV, ext_sup_hv | 0x01)?;
        }

        // set standard bus timing mode
        self.write_byte_e(0x88, 0x00)?;
        self.write_byte_e(0x80, 0x01)?;
        self.write_byte_e(0xFF, 0x01)?;
        self.write_byte_e(0x00, 0x00)?;
        let sv = self.read_byte_e(0x91)?;
        self.stop_variable = sv;
        self.write_byte_e(0x00, 0x01)?;
        self.write_byte_e(0xFF, 0x00)?;
        self.write_byte_e(0x80, 0x00)?;

        Ok(())
    }

    /// Second bring-up stage: disable the two default signal-rate sanity
    /// checks, apply the default final-range rate limit of 0.25 MCPS,
    /// and enable the full ranging sequence.
    fn init_static_config(&mut self) -> (r: Result<(), Error<B::Fault>>)
        ensures
            Self::setup_unchanged(old(self), final(self)),
            extends(old(self).hist(), final(self).hist()),
            match r {
                Ok(_) => ({
                    let o = old(self).hist().len() as int;
                    let h = final(self).hist();
                    let a = old(self).spec_address();
                    &&& h.len() == o + 4
                    &&& is_read1(h[o], a, registers::MSRC_CONFIG_CONTROL)
                    &&& is_write1(h[o + 1], a, registers::MSRC_CONFIG_CONTROL, h[o].read[0] | 0x12)
                    &&& is_write2(
                        h[o + 2],
                        a,
                        registers::FINAL_RANGE_CONFIG_MIN_COUNT_RATE_RTN_LIMIT,
                        32,
                    )
                    &&& is_write1(h[o + 3], a, registers::SYSTEM_SEQUENCE_CONFIG, 0xFF)
                }),
                Err(e) => e is BusError,
            },
    {
        // disable SIGNAL_RATE_MSRC (bit 1) and SIGNAL_RATE_PRE_RANGE
        // (bit 4) limit checks
        let config = self.read_byte_e(registers::MSRC_CONFIG_CONTROL)?;
        self.write_byte_e(registers::MSRC_CONFIG_CONTROL, config | 0x12)?;

        // set the final-range signal rate limit to 0.25 MCPS
        match self.set_signal_rate_limit(25) {
            Ok(_) => (),
            Err(e) => {
                return Err(Error::BusError(e));
            },
        }

        self.write_byte_e(registers::SYSTEM_SEQUENCE_CONFIG, 0xFF)?;
        Ok(())
    }

    /// Third bring-up stage: query the reference-SPAD info, rewrite the
    /// enable bitmap so that only the reported number of reference
    /// pixels stays enabled, and write it back.
    fn init_reference_spads(&mut self) -> (r: Result<(), Error<B::Fault>>)
        ensures
            Self::setup_unchanged(old(self), final(self)),
            extends(old(self).hist(), final(self).hist()),
            match r {
                Ok(_) => ({
                    let o = old(self).hist().len() as int;
                    let h = final(self).hist();
                    let a = old(self).spec_address();
                    let n = h.len() as int;
                    &&& n >= o + 29
                    &&& is_read1(h[n - 16], a, 0x92)
                    &&& is_read(h[n - 7], a, registers::GLOBAL_CONFIG_SPAD_ENABLES_REF_0, 6)
                    &&& is_write1(h[n - 6], a, 0xFF, 0x01)
                    &&& is_write1(h[n - 5], a, registers::DYNAMIC_SPAD_REF_EN_START_OFFSET, 0x00)
                    &&& is_write1(
                        h[n - 4],
                        a,
                        registers::DYNAMIC_SPAD_NUM_REQUESTED_REF_SPAD,
                        0x2C,
                    )
                    &&& is_write1(h[n - 3], a, 0xFF, 0x00)
                    &&& is_write1(h[n - 2], a, registers::GLOBAL_CONFIG_REF_EN_START_SELECT, 0xB4)
                    &&& h[n - 1].dev == a
                    &&& h[n - 1].wrote.len() == 7
                    &&& h[n - 1].wrote[0] == registers::GLOBAL_CONFIG_SPAD_ENABLES_REF_0
                    // the bitmap written back is the filtered rewrite of
                    // the bitmap read, for the reported count and type
                    &&& ({
                        let info = h[n - 16].read[0];
                        let first = spec_first_spad((info >> 7u8) & 0x01);
                        let before = h[n - 7].read;
                        let after = h[n - 1].wrote.subrange(1, 7);
                        &&& (forall|j: int|
                            0 <= j < 48 ==> spad_bit(after, j) == spad_bit_kept(
                                before,
                                first,
                                (info & 0x7F) as int,
                                j,
                            ))
                        &&& spad_count_set(after, 0, 48) == vstd::math::min(
                            (info & 0x7F) as int,
                            spad_count_set(before, first, 48),
                        )
                    })
                }),
                Err(e) => ({
                    let h = final(self).hist();
                    let a = old(self).spec_address();
                    let n = h.len() as int;
                    &&& !(e is InvalidDevice)
                    &&& (e is Timeout ==> n >= 65535 && (forall|i: int|
                        n - 65535 <= i < n ==> is_read1(#[trigger] h[i], a, 0x83)
                            && h[i].read[0] == 0))
                }),
            },
    {
        let (spad_count, spad_type_is_aperture) = self.get_spad_info()?;

        let mut ref_spad_map = self.read_6bytes_e(registers::GLOBAL_CONFIG_SPAD_ENABLES_REF_0)?;
        let ghost raw_map = ref_spad_map@;

        self.write_byte_e(0xFF, 0x01)?;
        self.write_byte_e(registers::DYNAMIC_SPAD_REF_EN_START_OFFSET, 0x00)?;
        self.write_byte_e(registers::DYNAMIC_SPAD_NUM_REQUESTED_REF_SPAD, 0x2C)?;
        self.write_byte_e(0xFF, 0x00)?;
        self.write_byte_e(registers::GLOBAL_CONFIG_REF_EN_START_SELECT, 0xB4)?;

        filter_spad_map(&mut ref_spad_map, spad_count, spad_type_is_aperture);

        self.write_6bytes_e(registers::GLOBAL_CONFIG_SPAD_ENABLES_REF_0, &ref_spad_map)?;
        proof {
            assert(self.hist().last().wrote.subrange(1, 7) =~= ref_spad_map@);
        }
        Ok(())
    }

    /// Fourth bring-up stage: the vendor's default tuning table, an
    /// opaque order-significant sequence of banked register pokes
    /// replayed byte for byte.
    /// Fourth bring-up stage: the vendor's default tuning table,
    /// replayed entry for entry, in order.
    fn load_tuning_settings(&mut self) -> (r: Result<(), Error<B::Fault>>)
        ensures
            Self::setup_unchanged(old(self), final(self)),
            extends(old(self).hist(), final(self).hist()),
            ({
                let o = old(self).hist().len() as int;
                let h = final(self).hist();
                let a = old(self).spec_address();
                &&& h.len() <= o + tuning_table().len()
                &&& (forall|i: int|
                    0 <= i < h.len() - o ==> is_write1(
                        #[trigger] h[o + i],
                        a,
                        tuning_table()[i].0,
                        tuning_table()[i].1,
                    ))
            }),
            match r {
                Ok(_) => final(self).hist().len() == old(self).hist().len()
                    + tuning_table().len(),
                Err(e) => e is BusError,
            },
    {
        let table = tuning_settings();
        let ghost o = old(self).hist().len() as int;
        let mut k: usize = 0;
        while k < table.len()
            invariant
                self.spec_address() == old(self).spec_address(),
                self.spec_io_mode2v8() == old(self).spec_io_mode2v8(),
                self.spec_stop_variable() == old(self).spec_stop_variable(),
                self.spec_budget_us() == old(self).spec_budget_us(),
                extends(old(self).hist(), self.hist()),
                o == old(self).hist().len() as int,
                table@ == tuning_table(),
                k <= table@.len(),
                self.hist().len() == o + k,
                forall|i: int|
                    0 <= i < k ==> is_write1(
                        #[trigger] self.hist()[o + i],
                        old(self).spec_address(),
                        tuning_table()[i].0,
                        tuning_table()[i].1,
                    ),
            decreases table@.len() - k,
        {
            let entry = table[k];
            self.write_byte_e(entry.0, entry.1)?;
            k = k + 1;
        }
        Ok(())
    }

    /// Fifth bring-up stage: configure an active-low interrupt on the
    /// GPIO line and clear any pending interrupt.
    fn init_interrupt_config(&mut self) -> (r: Result<(), Error<B::Fault>>)
        ensures
            Self::setup_unchanged(old(self), final(self)),
            extends(old(self).hist(), final(self).hist()),
            match r {
                Ok(_) => ({
                    let o = old(self).hist().len() as int;
                    let h = final(self).hist();
                    let a = old(self).spec_address();
                    &&& h.len() == o + 4
                    &&& is_write1(h[o], a, registers::SYSTEM_INTERRUPT_CONFIG_GPIO, 0x04)
                    &&& is_read1(h[o + 1], a, registers::GPIO_HV_MUX_ACTIVE_HIGH)
                    &&& is_write1(
                        h[o + 2],
                        a,
                        registers::GPIO_HV_MUX_ACTIVE_HIGH,
                        h[o + 1].read[0] & !0x10,
                    )
                    &&& is_write1(h[o + 3], a, registers::SYSTEM_INTERRUPT_CLEAR, 0x01)
                }),
                Err(e) => e is BusError,
            },
    {
        self.write_byte_e(registers::SYSTEM_INTERRUPT_CONFIG_GPIO, 0x04)?;

        let high = self.read_byte_e(registers::GPIO_HV_MUX_ACTIVE_HIGH)?;
        self.write_byte_e(registers::GPIO_HV_MUX_ACTIVE_HIGH, high & !0x10)?;
        self.write_byte_e(registers::SYSTEM_INTERRUPT_CLEAR, 0x01)?;
        Ok(())
    }

    /// Brings a freshly power-cycled chip to a ranging-ready, calibrated
    /// state: the strictly ordered bring-up stages, then the default
    /// timing budget read back and reapplied over the reduced sequence,
    /// and two single-reference calibrations.
    fn init_hardware(&mut self) -> (r: Result<(), Error<B::Fault>>)
        ensures
            final(self).spec_address() == old(self).spec_address(),
            final(self).spec_io_mode2v8() == old(self).spec_io_mode2v8(),
            extends(old(self).hist(), final(self).hist()),
            match r {
                Ok(_) => ({
                    let o = old(self).hist().len() as int;
                    let h = final(self).hist();
                    let a = old(self).spec_address();
                    let n = h.len() as int;
                    let b = o + (if old(self).spec_io_mode2v8() {
                        2int
                    } else {
                        0int
                    });
                    // the voltage selection bit is raised first, only in
                    // 2.8 V mode
                    &&& (old(self).spec_io_mode2v8() ==> is_read1(
                        h[o],
                        a,
                        registers::VHV_CONFIG_PAD_SCL_SDA_EXTSUP_HV,
                    ) && is_write1(
                        h[o + 1],
                        a,
                        registers::VHV_CONFIG_PAD_SCL_SDA_EXTSUP_HV,
                        h[o].read[0] | 0x01,
                    ))
                    &&& (!old(self).spec_io_mode2v8() ==> is_write1(h[o], a, 0x88, 0x00))
                    // the calibration byte is captured in the
                    // standard-timing step and cached
                    &&& is_write1(h[b], a, 0x88, 0x00)
                    &&& is_read1(h[b + 4], a, 0x91)
                    &&& h[b + 4].read[0] == final(self).spec_stop_variable()
                    // the measured budget is cached: the budget query's
                    // six reads, the forced reduced sequence, and the
                    // cache equal to the measured sum
                    &&& (exists|p: int|
                        {
                            &&& o <= p && p + 6 < n
                            &&& is_read1(#[trigger] h[p], a, registers::SYSTEM_SEQUENCE_CONFIG)
                            &&& is_read2(h[p + 1], a, registers::PRE_RANGE_CONFIG_TIMEOUT_MACROP_HI)
                            &&& is_read2(
                                h[p + 2],
                                a,
                                registers::FINAL_RANGE_CONFIG_TIMEOUT_MACROP_HI,
                            )
                            &&& is_read1(h[p + 3], a, registers::PRE_RANGE_CONFIG_VCSEL_PERIOD)
                            &&& is_read1(h[p + 4], a, registers::MSRC_CONFIG_TIMEOUT_MACROP)
                            &&& is_read1(h[p + 5], a, registers::FINAL_RANGE_CONFIG_VCSEL_PERIOD)
                            &&& is_write1(h[p + 6], a, registers::SYSTEM_SEQUENCE_CONFIG, 0xE8)
                            &&& ({
                                let e2 = spec_enables(h[p].read[0]);
                                final(self).spec_budget_us() as int == spec_budget_us(
                                    e2,
                                    spec_step_timeouts(
                                        read2_value(h[p + 1]) as u16,
                                        read2_value(h[p + 2]) as u16,
                                        h[p + 3].read[0],
                                        h[p + 4].read[0],
                                        h[p + 5].read[0],
                                        e2.pre_range,
                                    ),
                                )
                            })
                        })
                    // the two single-reference calibrations run in
                    // order, each behind its sequence configuration
                    &&& (exists|c1: int, c2: int|
                        {
                            &&& o <= c1 && c1 + 1 < c2 && c2 + 1 < n
                            &&& is_write1(
                                #[trigger] h[c1],
                                a,
                                registers::SYSTEM_SEQUENCE_CONFIG,
                                0x01,
                            )
                            &&& is_write1(h[c1 + 1], a, registers::SYSRANGE_START, 0x41)
                            &&& is_write1(
                                #[trigger] h[c2],
                                a,
                                registers::SYSTEM_SEQUENCE_CONFIG,
                                0x02,
                            )
                            &&& is_write1(h[c2 + 1], a, registers::SYSRANGE_START, 0x01)
                        })
                    // the operational sequence configuration is the
                    // final device state
                    &&& is_write1(h[n - 1], a, registers::SYSTEM_SEQUENCE_CONFIG, 0xE8)
                }),
                Err(e) => ({
                    let h = final(self).hist();
                    let a = old(self).spec_address();
                    let n = h.len() as int;
                    &&& !(e is InvalidDevice)
                    // a timeout is a bounded poll that exhausted its
                    // attempt ceiling; nothing was issued after it
                    &&& (e is Timeout ==> ({
                        ||| (n >= 65535 && (forall|i: int|
                            n - 65535 <= i < n ==> is_read1(#[trigger] h[i], a, 0x83)
                                && h[i].read[0] == 0))
                        ||| (n >= 10000 && (forall|i: int|
                            n - 10000 <= i < n ==> is_read1(
                                #[trigger] h[i],
                                a,
                                registers::RESULT_INTERRUPT_STATUS,
                            ) && h[i].read[0] & 0x07 == 0))
                    }))
                }),
            },
    {
        self.init_io_and_stop_variable()?;
        self.init_static_config()?;
        self.init_reference_spads()?;
        self.load_tuning_settings()?;
        self.init_interrupt_config()?;

        let ghost p = self.hist().len() as int;
        let budget = match self.get_measurement_timing_budget() {
            Ok(b) => b,
            Err(e) => {
                return Err(Error::BusError(e));
            },
        };
        self.measurement_timing_budget_microseconds = budget;

        // force a reduced ranging sequence, then reapply the measured
        // budget so its timeouts are recomputed consistently
        self.write_byte_e(registers::SYSTEM_SEQUENCE_CONFIG, 0xE8)?;
        let mtbm = self.measurement_timing_budget_microseconds;
        match self.set_measurement_timing_budget(mtbm) {
            Ok(_) => (),
            Err(e) => {
                return Err(Error::BusError(e));
            },
        }

        let ghost c1 = self.hist().len() as int;
        self.write_byte_e(registers::SYSTEM_SEQUENCE_CONFIG, 0x01)?;
        proof {
            assert(0x01u8 | 0x40u8 == 0x41u8) by (bit_vector);
        }
        self.perform_single_ref_calibration(0x40)?;

        let ghost c2 = self.hist().len() as int;
        self.write_byte_e(registers::SYSTEM_SEQUENCE_CONFIG, 0x02)?;
        proof {
            assert(0x01u8 | 0x00u8 == 0x01u8) by (bit_vector);
        }
        self.perform_single_ref_calibration(0x00)?;

        // restore the operational sequence configuration
        self.write_byte_e(registers::SYSTEM_SEQUENCE_CONFIG, 0xE8)?;

        proof {
            assert(is_read1(self.hist()[p], old(self).spec_address(), registers::SYSTEM_SEQUENCE_CONFIG));
            assert(is_read2(
                self.hist()[p + 1],
                old(self).spec_address(),
                registers::PRE_RANGE_CONFIG_TIMEOUT_MACROP_HI,
            ));
            assert(is_read2(
                self.hist()[p + 2],
                old(self).spec_address(),
                registers::FINAL_RANGE_CONFIG_TIMEOUT_MACROP_HI,
            ));
            assert(is_read1(
                self.hist()[p + 3],
                old(self).spec_address(),
                registers::PRE_RANGE_CONFIG_VCSEL_PERIOD,
            ));
            assert(is_read1(
                self.hist()[p + 4],
                old(self).spec_address(),
                registers::MSRC_CONFIG_TIMEOUT_MACROP,
            ));
            assert(is_read1(
                self.hist()[p + 5],
                old(self).spec_address(),
                registers::FINAL_RANGE_CONFIG_VCSEL_PERIOD,
            ));
            assert(({
                let e2 = spec_enables(self.hist()[p].read[0]);
                self.spec_budget_us() as int == spec_budget_us(
                    e2,
                    spec_step_timeouts(
                        read2_value(self.hist()[p + 1]) as u16,
                        read2_value(self.hist()[p + 2]) as u16,
                        self.hist()[p + 3].read[0],
                        self.hist()[p + 4].read[0],
                        self.hist()[p + 5].read[0],
                        e2.pre_range,
                    ),
                )
            }));
            assert(is_write1(self.hist()[p + 6], old(self).spec_address(), registers::SYSTEM_SEQUENCE_CONFIG, 0xE8));
            assert(is_write1(self.hist()[c1], old(self).spec_address(), registers::SYSTEM_SEQUENCE_CONFIG, 0x01));
            assert(is_write1(self.hist()[c1 + 1], old(self).spec_address(), registers::SYSRANGE_START, 0x41));
            assert(is_write1(self.hist()[c2], old(self).spec_address(), registers::SYSTEM_SEQUENCE_CONFIG, 0x02));
            assert(is_write1(self.hist()[c2 + 1], old(self).spec_address(), registers::SYSRANGE_START, 0x01));
        }
        Ok(())
    }

    /// Creates a sensor with a specific bus address and I/O voltage
    /// mode.  Identification is checked first: any value but 0xEE from
    /// the identification register fails construction, carrying the
    /// observed byte, before anything is written to the device.
    pub fn new(i2c: B, address: u8, io_mode2v8: bool) -> (r: Result<VL53L0X<B>, Error<B::Fault>>)
        ensures
            match r {
                Ok(chip) => ({
                    let h = chip.hist();
                    let b = 1 + (if io_mode2v8 {
                        2int
                    } else {
                        0int
                    });
                    &&& chip.spec_address() == address
                    &&& chip.spec_io_mode2v8() == io_mode2v8
                    &&& h.len() > 0
                    &&& is_read1(h[0], address, registers::WHO_AM_I)
                    &&& h[0].read[0] == 0xEE
                    // bring-up raises the voltage selection bit first,
                    // only in 2.8 V mode
                    &&& (io_mode2v8 ==> is_read1(
                        h[1],
                        address,
                        registers::VHV_CONFIG_PAD_SCL_SDA_EXTSUP_HV,
                    ) && is_write1(
                        h[2],
                        address,
                        registers::VHV_CONFIG_PAD_SCL_SDA_EXTSUP_HV,
                        h[1].read[0] | 0x01,
                    ))
                    &&& (!io_mode2v8 ==> is_write1(h[1], address, 0x88, 0x00))
                    // the calibration byte is the one captured from its
                    // banked register in the standard-timing step
                    &&& is_read1(h[b + 4], address, 0x91)
                    &&& h[b + 4].read[0] == chip.spec_stop_variable()
                    // the cached budget is the one measured during
                    // bring-up and reapplied over the reduced sequence
                    &&& (exists|p: int|
                        {
                            &&& 0 <= p && p + 6 < h.len()
                            &&& is_read1(#[trigger] h[p], address, registers::SYSTEM_SEQUENCE_CONFIG)
                            &&& is_read2(
                                h[p + 1],
                                address,
                                registers::PRE_RANGE_CONFIG_TIMEOUT_MACROP_HI,
                            )
                            &&& is_read2(
                                h[p + 2],
                                address,
                                registers::FINAL_RANGE_CONFIG_TIMEOUT_MACROP_HI,
                            )
                            &&& is_read1(h[p + 3], address, registers::PRE_RANGE_CONFIG_VCSEL_PERIOD)
                            &&& is_read1(h[p + 4], address, registers::MSRC_CONFIG_TIMEOUT_MACROP)
                            &&& is_read1(
                                h[p + 5],
                                address,
                                registers::FINAL_RANGE_CONFIG_VCSEL_PERIOD,
                            )
                            &&& is_write1(h[p + 6], address, registers::SYSTEM_SEQUENCE_CONFIG, 0xE8)
                            &&& ({
                                let e2 = spec_enables(h[p].read[0]);
                                chip.spec_budget_us() as int == spec_budget_us(
                                    e2,
                                    spec_step_timeouts(
                                        read2_value(h[p + 1]) as u16,
                                        read2_value(h[p + 2]) as u16,
                                        h[p + 3].read[0],
                                        h[p + 4].read[0],
                                        h[p + 5].read[0],
                                        e2.pre_range,
                                    ),
                                )
                            })
                        })
                    // the device is left in the operational sequence
                    // configuration
                    &&& is_write1(
                        h[h.len() as int - 1],
                        address,
                        registers::SYSTEM_SEQUENCE_CONFIG,
                        0xE8,
                    )
                }),
                Err(e) => (e matches Error::InvalidDevice(wai) ==> wai != 0xEE),
            },
    {
        let mut chip = VL53L0X {
            com: i2c,
            history: Ghost(Seq::empty()),
            io_mode2v8,
            stop_variable: 0,
            measurement_timing_budget_microseconds: 0,
            address,
        };

        let wai = match chip.who_am_i() {
            Ok(b) => b,
            Err(e) => {
                return Err(Error::BusError(e));
            },
        };

        if wai == 0xEE {
            match chip.init_hardware() {
                Ok(_) => Ok(chip),
                Err(e) => Err(e),
            }
        } else {
            Err(Error::InvalidDevice(wai))
        }
    }

    /// Creates a sensor with the default bus address and 2.8 V I/O mode.
    pub fn default(i2c: B) -> (r: Result<VL53L0X<B>, Error<B::Fault>>)
        ensures
            match r {
                Ok(chip) => ({
                    &&& chip.spec_address() == ADDRESS_DEFAULT
                    &&& chip.spec_io_mode2v8()
                    &&& chip.hist().len() > 0
                    &&& is_read1(chip.hist()[0], ADDRESS_DEFAULT, registers::WHO_AM_I)
                    &&& chip.hist()[0].read[0] == 0xEE
                    &&& is_read1(chip.hist()[7], ADDRESS_DEFAULT, 0x91)
                    &&& chip.hist()[7].read[0] == chip.spec_stop_variable()
                    &&& is_write1(
                        chip.hist()[chip.hist().len() as int - 1],
                        ADDRESS_DEFAULT,
                        registers::SYSTEM_SEQUENCE_CONFIG,
                        0xE8,
                    )
                }),
                Err(e) => (e matches Error::InvalidDevice(wai) ==> wai != 0xEE),
            },
    {
        VL53L0X::new(i2c, ADDRESS_DEFAULT, true)
    }
}

} // verus!
