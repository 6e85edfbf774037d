//! The register-addressed bus transport and its ghost transaction model.
//!
//! A transport performs atomic write-then-read transactions against a bus
//! address.  The trait exposes, as ghost state, the history of transactions
//! performed so far; the driver's contracts are stated over that history.

use vstd::prelude::*;

verus! {

/// One bus transaction: the device address it was issued to, the bytes
/// written (the first is the register address), and the bytes read back.
#[verifier::ext_equal]
pub struct Txn {
    pub dev: u8,
    pub wrote: Seq<u8>,
    pub read: Seq<u8>,
}

/// A register-addressed bus transport, supplied by the caller.
///
/// On success a transaction must read back exactly the requested number
/// of bytes.  The driver records every transaction it issues in its own
/// ghost history, stated in terms of [`Txn`].
pub trait Bus: Sized {
    type Fault;

    /// Writes `wrote` (register address first), then reads `read_len` bytes.
    fn write_read(&mut self, dev: u8, wrote: &Vec<u8>, read_len: usize) -> (r: Result<
        Vec<u8>,
        Self::Fault,
    >)
        requires
            wrote@.len() >= 1,
        ensures
            match r {
                Ok(data) => data@.len() == read_len,
                Err(_) => true,
            },
    ;
}

/// The transaction is a read of `n` bytes from register `reg` of device
/// `dev` (one byte written: the register address).
pub open spec fn is_read(t: Txn, dev: u8, reg: u8, n: int) -> bool {
    &&& t.dev == dev
    &&& t.wrote.len() == 1
    &&& t.wrote[0] == reg
    &&& t.read.len() == n
}

/// A one-byte register read.
pub open spec fn is_read1(t: Txn, dev: u8, reg: u8) -> bool {
    is_read(t, dev, reg, 1)
}

/// A two-byte (big-endian) register read.
pub open spec fn is_read2(t: Txn, dev: u8, reg: u8) -> bool {
    is_read(t, dev, reg, 2)
}

/// The 16-bit value a two-byte read returned, high byte first.
pub open spec fn read2_value(t: Txn) -> int {
    t.read[0] * 256 + t.read[1]
}

/// A one-byte write of `v` to register `reg` of device `dev`.
pub open spec fn is_write1(t: Txn, dev: u8, reg: u8, v: u8) -> bool {
    &&& t.dev == dev
    &&& t.wrote.len() == 2
    &&& t.wrote[0] == reg
    &&& t.wrote[1] == v
}

/// A two-byte write of `v` to register `reg`, high byte first.
pub open spec fn is_write2(t: Txn, dev: u8, reg: u8, v: u16) -> bool {
    &&& t.dev == dev
    &&& t.wrote.len() == 3
    &&& t.wrote[0] == reg
    &&& t.wrote[1] == v >> 8u16
    &&& t.wrote[2] == v & 0xFF
}

/// A four-byte write of `v` to register `reg`, high byte first.
pub open spec fn is_write4(t: Txn, dev: u8, reg: u8, v: u32) -> bool {
    &&& t.dev == dev
    &&& t.wrote.len() == 5
    &&& t.wrote[0] == reg
    &&& t.wrote[1] == (v >> 24u32) & 0xFF
    &&& t.wrote[2] == (v >> 16u32) & 0xFF
    &&& t.wrote[3] == (v >> 8u32) & 0xFF
    &&& t.wrote[4] == v & 0xFF
}

/// A six-byte write of `bytes` to register `reg`.
pub open spec fn is_write6(t: Txn, dev: u8, reg: u8, bytes: Seq<u8>) -> bool {
    &&& t.dev == dev
    &&& t.wrote.len() == 7
    &&& t.wrote[0] == reg
    &&& bytes.len() == 6
    &&& forall|i: int| 0 <= i < 6 ==> t.wrote[i + 1] == bytes[i]
}

/// `post` is `pre` with zero or more transactions appended.
pub open spec fn extends(pre: Seq<Txn>, post: Seq<Txn>) -> bool {
    &&& pre.len() <= post.len()
    &&& forall|i: int| 0 <= i < pre.len() ==> post[i] == pre[i]
}

/// `post` is `pre` with only read transactions appended: no register of
/// the device was written between the two histories.
pub open spec fn reads_only_from(pre: Seq<Txn>, post: Seq<Txn>) -> bool {
    &&& extends(pre, post)
    &&& forall|i: int| pre.len() <= i < post.len() ==> post[i].wrote.len() == 1
}

} // verus!
