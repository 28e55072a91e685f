//! The register-access seam of the driver.
//!
//! The chip is reached through a small set of named registers. The physical
//! transport (an SPI-like bus with a chip-select line) is not part of this
//! core: it is abstracted as the [`Bus`] trait, whose implementations record
//! every operation they perform in a ghost log. The driver's contracts are
//! stated over that log, so they pin down exactly which registers are
//! touched, in what order and with which values.

use vstd::prelude::*;

verus! {

/// The named hardware registers this core touches.
#[derive(Clone, Copy, PartialEq, Eq, Structural, Debug)]
pub enum Reg {
    /// System status flags (sticky, write-1-to-clear).
    SysStatus,
    /// PLL calibration control.
    PllCal,
    /// Clock control.
    ClkCtrl,
    /// Auto-sequencing control.
    SeqCtrl,
    /// Always-on block digital configuration.
    AonDigCfg,
    /// Digital gain control lookup table entries.
    DgcLut0,
    DgcLut1,
    DgcLut2,
    DgcLut3,
    DgcLut4,
    DgcLut5,
    DgcLut6,
    /// Fixed digital gain control words.
    DgcCfg0,
    DgcCfg1,
    /// Digital gain control tuning.
    DgcCfg,
    /// Channel control: RF channel, SFD type, preamble codes.
    ChanCtrl,
    /// RF transmit control.
    RfTxCtrl1,
    RfTxCtrl2,
    /// PLL configuration.
    PllCfg,
    /// Receiver digital tuning.
    Dtune0,
    Dtune3,
    /// Low-dropout regulator tuning.
    LdoRload,
    LdoCtrl,
    /// System configuration (frame filtering master bit).
    SysCfg,
    /// Frame filtering subtype enables.
    FfCfg,
    /// Receiver calibration control and status.
    RxCal,
    RxCalSts,
    /// Receiver calibration residuals (in-phase / quadrature).
    RxCalResI,
    RxCalResQ,
    /// Half-period warning event counter.
    EvcHpw,
    /// Transmit timestamp capture.
    TxTime,
    /// Internal state machine observation.
    SysState,
}

/// A transport-level failure of a single register access.
#[derive(Clone, Copy, PartialEq, Eq, Structural, Debug)]
pub struct BusError {
    /// Implementation-defined transport diagnostic code.
    pub code: u8,
}

/// One bus operation, as recorded in the operation log.
///
/// `ModifyOk(reg, mask, bits)` is a read-modify-write that replaces the
/// masked field positions with `bits` and leaves the rest of the register
/// unchanged; `WriteOk(reg, value)` replaces the whole register. Failed
/// attempts are recorded too, carrying the transport error.
#[derive(Clone, Copy, PartialEq, Eq, Structural, Debug)]
pub enum BusOp {
    ReadOk(Reg, u64),
    ReadFail(Reg, BusError),
    WriteOk(Reg, u64),
    WriteFail(Reg, u64, BusError),
    ModifyOk(Reg, u64, u64),
    ModifyFail(Reg, u64, u64, BusError),
    ForceIdleOk,
    ForceIdleFail(BusError),
}

/// The transport error recorded in a failed operation, if the operation is
/// a failed one.
pub open spec fn fail_error(op: BusOp) -> Option<BusError> {
    match op {
        BusOp::ReadFail(_, e) => Some(e),
        BusOp::WriteFail(_, _, e) => Some(e),
        BusOp::ModifyFail(_, _, _, e) => Some(e),
        BusOp::ForceIdleFail(e) => Some(e),
        _ => None,
    }
}

/// A register-access facade over the physical transport.
///
/// Every operation, successful or failed, appends exactly one entry to the
/// log and touches nothing else. Nothing is promised about the values a
/// read returns: the hardware decides those, and the driver is verified for
/// every possible outcome.
pub trait Bus: Sized {
    /// The operations performed on this bus so far, oldest first.
    ///
    /// The default is an empty log; a verified implementation overrides
    /// this with its own account of the operations it performed, and an
    /// unverified transport may leave the default in place.
    open spec fn log(&self) -> Seq<BusOp> {
        Seq::empty()
    }

    /// Read a register.
    fn read(&mut self, reg: Reg) -> (r: Result<u64, BusError>)
        ensures
            match r {
                Ok(v) => final(self).log() == old(self).log().push(BusOp::ReadOk(reg, v)),
                Err(e) => final(self).log() == old(self).log().push(BusOp::ReadFail(reg, e)),
            },
    ;

    /// Overwrite a whole register.
    fn write(&mut self, reg: Reg, value: u64) -> (r: Result<(), BusError>)
        ensures
            match r {
                Ok(_) => final(self).log() == old(self).log().push(BusOp::WriteOk(reg, value)),
                Err(e) => final(self).log() == old(self).log().push(
                    BusOp::WriteFail(reg, value, e),
                ),
            },
    ;

    /// Read-modify-write: replace the field positions selected by `mask`
    /// with `bits`, preserving the rest of the register.
    fn modify(&mut self, reg: Reg, mask: u64, bits: u64) -> (r: Result<(), BusError>)
        ensures
            match r {
                Ok(_) => final(self).log() == old(self).log().push(
                    BusOp::ModifyOk(reg, mask, bits),
                ),
                Err(e) => final(self).log() == old(self).log().push(
                    BusOp::ModifyFail(reg, mask, bits, e),
                ),
            },
    ;

    /// Force the chip's internal state machine to idle, aborting any
    /// in-flight operation.
    fn force_idle(&mut self) -> (r: Result<(), BusError>)
        ensures
            match r {
                Ok(_) => final(self).log() == old(self).log().push(BusOp::ForceIdleOk),
                Err(e) => final(self).log() == old(self).log().push(BusOp::ForceIdleFail(e)),
            },
    ;

    /// Busy-poll `reg` until a read sees some bit of `mask` set, and return
    /// that read's value.
    ///
    /// There is no timeout at this layer: implementations spin on the
    /// transport, and a caller-imposed cancellation policy may make an
    /// implementation give up, which it reports as a transport failure on
    /// the final read. On success the log gains the whole run of reads:
    /// every earlier read saw the `mask` bits clear.
    fn read_until_set(&mut self, reg: Reg, mask: u64) -> (r: Result<u64, BusError>)
        ensures
            final(self).log().len() > old(self).log().len(),
            ({
                let l0 = old(self).log();
                let l1 = final(self).log();
                match r {
                    Ok(v) => v & mask != 0 && exists|p: Seq<BusOp>|
                        #![auto]
                        poll_reads(p, reg, mask) && p.last() == BusOp::ReadOk(reg, v) && l1 == l0
                            + p,
                    Err(e) => l1.last() == BusOp::ReadFail(reg, e) && zero_reads(
                        l1.subrange(l0.len() as int, l1.len() - 1),
                        reg,
                        mask,
                    ),
                }
            }),
    ;
}

/// Every entry of `s` is a successful read of `reg` whose value has all
/// `mask` bits clear.
pub open spec fn zero_reads(s: Seq<BusOp>, reg: Reg, mask: u64) -> bool {
    forall|i: int|
        0 <= i < s.len() ==> ((#[trigger] s[i]) matches BusOp::ReadOk(r, v) && r == reg && v
            & mask == 0)
}

/// A busy-poll run: reads of `reg` that saw the `mask` bits clear, ended by
/// one read that saw some of them set.
pub open spec fn poll_reads(s: Seq<BusOp>, reg: Reg, mask: u64) -> bool {
    &&& s.len() >= 1
    &&& zero_reads(s.take(s.len() - 1), reg, mask)
    &&& (s.last() matches BusOp::ReadOk(r, v) && r == reg && v & mask != 0)
}

// Field positions inside the registers above. The driver only depends on
// these through the named constants; the values mirror the chip's register
// map.

/// All bit positions of a register; a `modify` with this mask overwrites it.
pub const FULL_MASK: u64 = 0xFFFF_FFFF_FFFF_FFFF;

/// SYS_STATUS: clock PLL lock flag.
pub const CPLOCK_MASK: u64 = 0x2;
/// SYS_STATUS: idle-RC clock ready flag.
pub const RCINIT_MASK: u64 = 0x1_0000;
/// SYS_STATUS: transmit frame begins flag.
pub const TXFRB_MASK: u64 = 0x10;
/// SYS_STATUS: transmit preamble sent flag.
pub const TXPRS_MASK: u64 = 0x20;
/// SYS_STATUS: transmit PHY header sent flag.
pub const TXPHS_MASK: u64 = 0x40;
/// SYS_STATUS: transmit frame sent flag.
pub const TXFRS_MASK: u64 = 0x80;
/// SYS_STATUS: the four sticky transmit-progress flags together.
pub const TX_FLAGS_MASK: u64 = 0xF0;

/// PLL_CAL: calibration tuning value field (8 bits from bit 4).
pub const PLL_CFG_LD_MASK: u64 = 0xFF0;
pub const PLL_CFG_LD_SHIFT: u64 = 4;

/// CLK_CTRL: system clock selection field.
pub const SYS_CLK_MASK: u64 = 0x3;

/// SEQ_CTRL: automatic initial-to-idle clock transition enable.
pub const AINIT2IDLE_MASK: u64 = 0x100;

/// AON_DIG_CFG: on-wake go-to-idle-PLL enable.
pub const ONW_GO2IDLE_MASK: u64 = 0x800;

/// DGC_CFG: receive tuning enable bit.
pub const RX_TUNE_EN_MASK: u64 = 0x1;
/// DGC_CFG: fixed threshold field (6 bits from bit 9).
pub const THR_64_MASK: u64 = 0x7E00;
pub const THR_64_SHIFT: u64 = 9;
/// DGC_CFG: both tuned fields together.
pub const DGC_CFG_MASK: u64 = 0x7E01;

/// CHAN_CTRL: RF channel select bit.
pub const RF_CHAN_MASK: u64 = 0x1;
/// CHAN_CTRL: start-of-frame-delimiter type field.
pub const SFD_TYPE_MASK: u64 = 0x6;
pub const SFD_TYPE_SHIFT: u64 = 1;
/// CHAN_CTRL: transmit preamble code field.
pub const TX_PCODE_MASK: u64 = 0xF8;
pub const TX_PCODE_SHIFT: u64 = 3;
/// CHAN_CTRL: receive preamble code field.
pub const RX_PCODE_MASK: u64 = 0x1F00;
pub const RX_PCODE_SHIFT: u64 = 8;
/// CHAN_CTRL: all four configured fields together.
pub const CHAN_CTRL_FIELDS_MASK: u64 = 0x1FFF;

/// DTUNE0: preamble acquisition chunk size field.
pub const PAC_MASK: u64 = 0x3;
/// DTUNE0: tuning sub-field cleared during configuration.
pub const DT0B4_MASK: u64 = 0x10;
/// DTUNE0: both configured fields together.
pub const DTUNE0_FIELDS_MASK: u64 = 0x13;

/// SYS_CFG: frame filtering master enable.
pub const FFEN_MASK: u64 = 0x1;

/// FF_CFG: allow beacon frames.
pub const FFAB_MASK: u64 = 0x1;
/// FF_CFG: allow data frames.
pub const FFAD_MASK: u64 = 0x2;
/// FF_CFG: allow acknowledgement frames.
pub const FFAA_MASK: u64 = 0x4;
/// FF_CFG: allow MAC command frames.
pub const FFAM_MASK: u64 = 0x8;
/// FF_CFG: the four accepted frame subtypes together.
pub const FF_CFG_FIELDS_MASK: u64 = 0xF;

/// RX_CAL: calibration mode field.
pub const CAL_MODE_MASK: u64 = 0x3;
/// RX_CAL: calibration enable bit.
pub const CAL_EN_MASK: u64 = 0x10;
/// RX_CAL: comparator delay field (4 bits from bit 16).
pub const COMP_DLY_MASK: u64 = 0xF_0000;
pub const COMP_DLY_SHIFT: u64 = 16;

/// SYS_STATE: transmitter state field (4 bits from bit 8).
pub const TX_STATE_MASK: u64 = 0xF00;
pub const TX_STATE_SHIFT: u64 = 8;

/// Calibration residual sentinel: this value in either residual register
/// means the receiver calibration did not converge.
pub const CAL_RES_SENTINEL: u64 = 0x1FFF_FFFF;

} // verus!
