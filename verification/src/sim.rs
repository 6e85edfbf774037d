//! A simulated register-map transport, for exercising the driver
//! without hardware.
//!
//! It models 256 byte-wide registers with auto-increment addressing.  A
//! couple of registers behave as the chip's own status lines do — the
//! driver writes them, but reading yields the chip-driven value — so
//! that the bring-up sequence's polls complete.  Every transaction is
//! recorded in a log that tests can inspect.

use vstd::prelude::*;

use crate::bus::Bus;

verus! {

/// One recorded transaction: device address, bytes written, bytes read.
pub struct BusTxn {
    pub dev: u8,
    pub wrote: Vec<u8>,
    pub read: Vec<u8>,
}

/// Fault of the simulated transport.
#[derive(Debug, Clone, Copy, PartialEq, Eq)]
pub struct SimFault;

/// The simulated transport.
pub struct SimBus {
    /// The 256 registers.
    pub regs: Vec<u8>,
    /// Every transaction performed, in order.
    pub log: Vec<BusTxn>,
    /// Transactions from this log index on fail, for exercising the
    /// driver's error paths.
    pub fail_from: usize,
}

impl SimBus {
    /// A simulated device in its power-on state: identification byte in
    /// place, status lines reporting ready, everything else zero.
    pub fn new() -> (r: SimBus)
        ensures
            r.regs@.len() == 256,
            r.log@.len() == 0,
    {
        let mut regs: Vec<u8> = Vec::new();
        let mut i: usize = 0;
        while i < 256
            invariant
                regs@.len() == i,
                i <= 256,
            decreases 256 - i,
        {
            regs.push(0);
            i = i + 1;
        }
        // the identification register, and the status registers the
        // chip itself drives
        regs.set(0xC0, 0xEE);
        regs.set(0x13, 0x07);
        regs.set(0x83, 0x01);
        SimBus { regs, log: Vec::new(), fail_from: usize::MAX }
    }
}

/// Registers whose value is driven by the simulated chip itself: the
/// start register reads back with the start bit already cleared, and
/// the SPAD-info handshake status stays ready.  Writes to them are
/// logged but do not change what is read back.
fn chip_driven(addr: u8) -> (r: bool)
    ensures
        r == (addr == 0x00 || addr == 0x83),
{
    addr == 0x00 || addr == 0x83
}

impl Bus for SimBus {
    type Fault = SimFault;

    fn write_read(&mut self, dev: u8, wrote: &Vec<u8>, read_len: usize) -> (r: Result<
        Vec<u8>,
        SimFault,
    >) {
        if self.log.len() >= self.fail_from {
            return Err(SimFault);
        }
        if self.regs.len() != 256 {
            return Err(SimFault);
        }
        let reg = wrote[0] as usize;

        // payload bytes land at consecutive register addresses
        let mut j: usize = 1;
        while j < wrote.len()
            invariant
                1 <= j,
                self.regs@.len() == 256,
                self.log@ == old(self).log@,
                reg < 256,
                wrote@.len() >= 1,
            decreases wrote@.len() - j,
        {
            let a = (reg + ((j - 1) % 256)) % 256;
            if !chip_driven(a as u8) {
                let v = wrote[j];
                self.regs.set(a, v);
            }
            j = j + 1;
        }

        // read back the requested number of bytes
        let mut data: Vec<u8> = Vec::new();
        let mut recorded: Vec<u8> = Vec::new();
        let mut k: usize = 0;
        while k < read_len
            invariant
                data@.len() == k,
                recorded@ == data@,
                self.regs@.len() == 256,
                self.log@ == old(self).log@,
                reg < 256,
                k <= read_len,
            decreases read_len - k,
        {
            let v = self.regs[(reg + (k % 256)) % 256];
            data.push(v);
            recorded.push(v);
            k = k + 1;
        }

        // record the transaction
        let mut wrote_copy: Vec<u8> = Vec::new();
        let mut m: usize = 0;
        while m < wrote.len()
            invariant
                m <= wrote@.len(),
                wrote_copy@ == wrote@.take(m as int),
                data@.len() == read_len,
                recorded@ == data@,
                self.log@ == old(self).log@,
            decreases wrote@.len() - m,
        {
            wrote_copy.push(wrote[m]);
            m = m + 1;
        }
        self.log.push(BusTxn { dev, wrote: wrote_copy, read: recorded });
        Ok(data)
    }
}

} // verus!
