//! A simulated register bus.
//!
//! Nothing in the driver core performs physical I/O, so exercising it
//! needs a bus whose registers are plain memory. [`MockBus`] holds one
//! value per register, records every operation, and can be told to fail a
//! scheduled upcoming operation, which is how transport errors and
//! non-converging calibrations are simulated.

use vstd::prelude::*;

verus! {

use crate::bus::{Bus, BusError, BusOp, Reg, poll_reads};

/// The transport diagnostic code a [`MockBus`] reports when a busy-poll
/// condition can never be met because the simulated register value leaves
/// the polled bits clear.
pub const STUCK_POLL_CODE: u8 = 0xFE;

/// The slot of `reg` in the simulated register file.
fn reg_index(reg: Reg) -> (r: usize)
    ensures
        r < 32,
{
    match reg {
        Reg::SysStatus => 0,
        Reg::PllCal => 1,
        Reg::ClkCtrl => 2,
        Reg::SeqCtrl => 3,
        Reg::AonDigCfg => 4,
        Reg::DgcLut0 => 5,
        Reg::DgcLut1 => 6,
        Reg::DgcLut2 => 7,
        Reg::DgcLut3 => 8,
        Reg::DgcLut4 => 9,
        Reg::DgcLut5 => 10,
        Reg::DgcLut6 => 11,
        Reg::DgcCfg0 => 12,
        Reg::DgcCfg1 => 13,
        Reg::DgcCfg => 14,
        Reg::ChanCtrl => 15,
        Reg::RfTxCtrl1 => 16,
        Reg::RfTxCtrl2 => 17,
        Reg::PllCfg => 18,
        Reg::Dtune0 => 19,
        Reg::Dtune3 => 20,
        Reg::LdoRload => 21,
        Reg::LdoCtrl => 22,
        Reg::SysCfg => 23,
        Reg::FfCfg => 24,
        Reg::RxCal => 25,
        Reg::RxCalSts => 26,
        Reg::RxCalResI => 27,
        Reg::RxCalResQ => 28,
        Reg::EvcHpw => 29,
        Reg::TxTime => 30,
        Reg::SysState => 31,
    }
}

/// A simulated register bus: one value per register, a record of every
/// operation performed, and an optional scheduled failure.
pub struct MockBus {
    regs: Vec<u64>,
    seen: Vec<BusOp>,
    pending_fail: Option<(usize, u8)>,
}

impl MockBus {
    /// A fresh bus with every simulated register zero and an empty log.
    pub fn new() -> (r: MockBus)
        ensures
            r.log() == Seq::<BusOp>::empty(),
    {
        let mut regs: Vec<u64> = Vec::new();
        let mut i: usize = 0;
        while i < 32
            invariant
                regs.len() == i,
                i <= 32,
            decreases 32 - i,
        {
            regs.push(0);
            i = i + 1;
        }
        MockBus { regs, seen: Vec::new(), pending_fail: None }
    }

    /// Set a simulated register value.
    pub fn set_reg(&mut self, reg: Reg, value: u64)
        ensures
            final (self).log() == old(self).log(),
    {
        let i = reg_index(reg);
        if i < self.regs.len() {
            self.regs.set(i, value);
        }
    }

    /// The current simulated value of a register.
    pub fn reg_value(&self, reg: Reg) -> u64 {
        let i = reg_index(reg);
        if i < self.regs.len() {
            self.regs[i]
        } else {
            0
        }
    }

    /// Schedule the operation `after` operations from now to fail with
    /// the given transport code (0 fails the very next operation).
    pub fn fail_in(&mut self, after: usize, code: u8)
        ensures
            final (self).log() == old(self).log(),
    {
        self.pending_fail = Some((after, code));
    }

    /// How many operations this bus has performed.
    pub fn ops(&self) -> (r: usize)
        ensures
            r == self.log().len(),
    {
        self.seen.len()
    }

    /// The `i`-th operation performed, oldest first.
    pub fn op_at(&self, i: usize) -> (r: BusOp)
        requires
            i < self.log().len(),
        ensures
            r == self.log()[i as int],
    {
        self.seen[i]
    }

    /// Step the scheduled failure, returning the error if it is due now.
    fn next_failure(&mut self) -> (r: Option<BusError>)
        ensures
            final (self).seen == old(self).seen,
            final (self).regs == old(self).regs,
    {
        match self.pending_fail {
            Some((k, code)) => {
                if k == 0 {
                    self.pending_fail = None;
                    Some(BusError { code })
                } else {
                    self.pending_fail = Some((k - 1, code));
                    None
                }
            },
            None => None,
        }
    }
}

impl Bus for MockBus {
    closed spec fn log(&self) -> Seq<BusOp> {
        self.seen@
    }

    fn read(&mut self, reg: Reg) -> (r: Result<u64, BusError>) {
        match self.next_failure() {
            Some(e) => {
                self.seen.push(BusOp::ReadFail(reg, e));
                Err(e)
            },
            None => {
                let i = reg_index(reg);
                let v = if i < self.regs.len() {
                    self.regs[i]
                } else {
                    0
                };
                self.seen.push(BusOp::ReadOk(reg, v));
                Ok(v)
            },
        }
    }

    fn write(&mut self, reg: Reg, value: u64) -> (r: Result<(), BusError>) {
        match self.next_failure() {
            Some(e) => {
                self.seen.push(BusOp::WriteFail(reg, value, e));
                Err(e)
            },
            None => {
                let i = reg_index(reg);
                if i < self.regs.len() {
                    self.regs.set(i, value);
                }
                self.seen.push(BusOp::WriteOk(reg, value));
                Ok(())
            },
        }
    }

    fn modify(&mut self, reg: Reg, mask: u64, bits: u64) -> (r: Result<(), BusError>) {
        match self.next_failure() {
            Some(e) => {
                self.seen.push(BusOp::ModifyFail(reg, mask, bits, e));
                Err(e)
            },
            None => {
                let i = reg_index(reg);
                if i < self.regs.len() {
                    let v = self.regs[i];
                    self.regs.set(i, (v & !mask) | (bits & mask));
                }
                self.seen.push(BusOp::ModifyOk(reg, mask, bits));
                Ok(())
            },
        }
    }

    fn force_idle(&mut self) -> (r: Result<(), BusError>) {
        match self.next_failure() {
            Some(e) => {
                self.seen.push(BusOp::ForceIdleFail(e));
                Err(e)
            },
            None => {
                self.seen.push(BusOp::ForceIdleOk);
                Ok(())
            },
        }
    }

    fn read_until_set(&mut self, reg: Reg, mask: u64) -> (r: Result<u64, BusError>) {
        match self.next_failure() {
            Some(e) => {
                self.seen.push(BusOp::ReadFail(reg, e));
                Err(e)
            },
            None => {
                let i = reg_index(reg);
                let v = if i < self.regs.len() {
                    self.regs[i]
                } else {
                    0
                };
                if v & mask != 0 {
                    self.seen.push(BusOp::ReadOk(reg, v));
                    proof {
                        let p = seq![BusOp::ReadOk(reg, v)];
                        assert(p.take(p.len() - 1) =~= Seq::<BusOp>::empty());
                        assert(poll_reads(p, reg, mask));
                        assert(self.seen@ =~= old(self).seen@ + p);
                    }
                    Ok(v)
                } else {
                    // The simulated value leaves the polled bits clear, so
                    // the condition can never be met: report a dead
                    // transport on the final read instead of spinning.
                    let e = BusError { code: STUCK_POLL_CODE };
                    self.seen.push(BusOp::ReadFail(reg, e));
                    Err(e)
                }
            },
        }
    }
}

} // verus!
