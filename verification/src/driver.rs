//! The phase-tagged driver handle and its lifecycle state machine.
//!
//! A [`DW3000`] handle owns the register bus, a per-frame sequence counter
//! and a phase tag. The phase tag decides which operations are available;
//! transitions consume the handle and produce one tagged with the new
//! phase, so a stale phase cannot be used. Contracts are stated over the
//! bus's operation log: they give, operation by operation, the register
//! protocol each phase function performs.

use vstd::prelude::*;

verus! {

use crate::bus::{Bus, BusError, BusOp, Reg, fail_error, poll_reads};
use crate::bus::{
    AINIT2IDLE_MASK, CAL_EN_MASK, CAL_MODE_MASK, CAL_RES_SENTINEL, CHAN_CTRL_FIELDS_MASK,
    COMP_DLY_MASK, COMP_DLY_SHIFT, CPLOCK_MASK, DGC_CFG_MASK, DTUNE0_FIELDS_MASK, FFEN_MASK,
    FF_CFG_FIELDS_MASK, FULL_MASK, ONW_GO2IDLE_MASK, PLL_CFG_LD_MASK, PLL_CFG_LD_SHIFT,
    RCINIT_MASK, RX_PCODE_SHIFT, SFD_TYPE_SHIFT, SYS_CLK_MASK, THR_64_SHIFT, TXFRS_MASK,
    TX_FLAGS_MASK, TX_PCODE_SHIFT, TX_STATE_MASK, TX_STATE_SHIFT,
};
use crate::configs::Config;
use crate::time::{Instant, TIME_MAX};

/// Phase tag: power-up/reset condition, clock not guaranteed locked.
pub struct Uninitialized;

/// Phase tag: clock locked and calibrated; the chip can send and receive.
pub struct Ready;

/// Phase tag: one transmission is in flight. `finished` is set once
/// completion has been positively observed and is never reset afterwards.
pub struct Sending {
    finished: bool,
}

/// Error surfaced by the driver core.
#[derive(Clone, Copy, PartialEq, Eq, Structural, Debug)]
pub enum Error {
    /// A register access failed at the transport level.
    Bus(BusError),
    /// A scheduled transmission fired after its programmed deadline.
    DelayedSendTooLate,
    /// The hardware reported frame-sent but the captured timestamp is not
    /// inside the legal timestamp domain.
    Fcs,
    /// The receiver calibration residuals did not converge.
    InvalidConfiguration,
}

/// Three-way outcome of polling an in-flight transmission.
#[derive(Clone, Copy, PartialEq, Eq, Structural, Debug)]
pub enum PendingResult {
    /// The transmission is still in flight; nothing was mutated.
    Pending,
    /// The frame was sent; carries the validated transmit timestamp.
    Done(Instant),
    /// The attempt failed with the carried error.
    Failed(Error),
}

/// The driver handle. Exactly one exists per physical chip; it is moved,
/// not copied, across phase transitions, and its fields are sealed so a
/// handle in one phase cannot be forged or coerced into another phase.
pub struct DW3000<B, STATE> {
    bus: B,
    seq_number: u8,
    state: STATE,
}

/// `l1` is `l0` extended by exactly the operations `d`, in order.
pub open spec fn appended(l0: Seq<BusOp>, l1: Seq<BusOp>, d: Seq<BusOp>) -> bool {
    l1 == l0 + d
}

impl<B: Bus, STATE> DW3000<B, STATE> {
    /// The operation log of the owned bus.
    pub closed spec fn log(&self) -> Seq<BusOp> {
        self.bus.log()
    }

    /// The per-frame sequence counter.
    pub closed spec fn seq_num(&self) -> u8 {
        self.seq_number
    }

    /// The phase tag value.
    pub closed spec fn phase(&self) -> STATE {
        self.state
    }

    /// Executable view of [`Self::seq_num`].
    pub fn sequence_number(&self) -> (r: u8)
        ensures
            r == self.seq_num(),
    {
        self.seq_number
    }

    /// Borrow the owned bus, e.g. to reach a simulated bus's test surface.
    pub fn bus_mut(&mut self) -> (r: &mut B)
        ensures
            final (self).log() == final (r).log(),
            final (self).seq_num() == old(self).seq_num(),
            final (self).phase() == old(self).phase(),
    {
        &mut self.bus
    }
}

/// Read a register, mapping a transport failure into the driver error.
fn rd<B: Bus>(bus: &mut B, reg: Reg) -> (r: Result<u64, Error>)
    ensures
        match r {
            Ok(v) => final (bus).log() == old(bus).log().push(BusOp::ReadOk(reg, v)),
            Err(e) => e matches Error::Bus(be) && final (bus).log() == old(bus).log().push(
                BusOp::ReadFail(reg, be),
            ),
        },
{
    match bus.read(reg) {
        Ok(v) => Ok(v),
        Err(e) => Err(Error::Bus(e)),
    }
}

/// Overwrite a register, mapping a transport failure into the driver error.
fn wr<B: Bus>(bus: &mut B, reg: Reg, value: u64) -> (r: Result<(), Error>)
    ensures
        match r {
            Ok(_) => final (bus).log() == old(bus).log().push(BusOp::WriteOk(reg, value)),
            Err(e) => e matches Error::Bus(be) && final (bus).log() == old(bus).log().push(
                BusOp::WriteFail(reg, value, be),
            ),
        },
{
    match bus.write(reg, value) {
        Ok(_) => Ok(()),
        Err(e) => Err(Error::Bus(e)),
    }
}

/// Read-modify-write a register, mapping a transport failure into the
/// driver error.
fn mdf<B: Bus>(bus: &mut B, reg: Reg, mask: u64, bits: u64) -> (r: Result<(), Error>)
    ensures
        match r {
            Ok(_) => final (bus).log() == old(bus).log().push(BusOp::ModifyOk(reg, mask, bits)),
            Err(e) => e matches Error::Bus(be) && final (bus).log() == old(bus).log().push(
                BusOp::ModifyFail(reg, mask, bits, be),
            ),
        },
{
    match bus.modify(reg, mask, bits) {
        Ok(_) => Ok(()),
        Err(e) => Err(Error::Bus(e)),
    }
}

/// Busy-poll `reg` until some bit of `mask` reads as set, mapping a
/// transport failure into the driver error.
fn poll_set<B: Bus>(bus: &mut B, reg: Reg, mask: u64) -> (r: Result<u64, Error>)
    ensures
        final (bus).log().len() > old(bus).log().len(),
        match r {
            Ok(v) => v & mask != 0 && exists|p: Seq<BusOp>|
                #![auto]
                poll_reads(p, reg, mask) && p.last() == BusOp::ReadOk(reg, v) && appended(
                    old(bus).log(),
                    final (bus).log(),
                    p,
                ),
            Err(e) => e matches Error::Bus(be) && fail_error(final (bus).log().last()) == Some(be),
        },
{
    match bus.read_until_set(reg, mask) {
        Ok(v) => Ok(v),
        Err(e) => Err(Error::Bus(e)),
    }
}

/// Abort whatever the chip is doing, mapping a transport failure into the
/// driver error.
fn idle<B: Bus>(bus: &mut B) -> (r: Result<(), Error>)
    ensures
        match r {
            Ok(_) => final (bus).log() == old(bus).log().push(BusOp::ForceIdleOk),
            Err(e) => e matches Error::Bus(be) && final (bus).log() == old(bus).log().push(
                BusOp::ForceIdleFail(be),
            ),
        },
{
    match bus.force_idle() {
        Ok(_) => Ok(()),
        Err(e) => Err(Error::Bus(e)),
    }
}

// --- Initialization sequencer -------------------------------------------

/// The fixed middle section of the initialization sequence: corrected PLL
/// calibration tuning, explicit clear of the sticky lock flag, automatic
/// PLL mode, automatic initial-to-idle clock transition, and on-wake
/// go-to-idle-PLL behavior.
pub open spec fn init_mid_ops() -> Seq<BusOp> {
    seq![
        BusOp::ModifyOk(Reg::PllCal, PLL_CFG_LD_MASK, 0x81u64 << PLL_CFG_LD_SHIFT),
        BusOp::WriteOk(Reg::SysStatus, CPLOCK_MASK),
        BusOp::ModifyOk(Reg::ClkCtrl, SYS_CLK_MASK, 0),
        BusOp::ModifyOk(Reg::SeqCtrl, AINIT2IDLE_MASK, AINIT2IDLE_MASK),
        BusOp::ModifyOk(Reg::AonDigCfg, ONW_GO2IDLE_MASK, ONW_GO2IDLE_MASK),
    ]
}

/// The complete register trace of a successful initialization: a busy-poll
/// until the ready-clock flag is set, the fixed middle section, and a
/// busy-poll until the PLL lock flag is set.
pub open spec fn init_trace(l0: Seq<BusOp>, p1: Seq<BusOp>, p2: Seq<BusOp>) -> Seq<BusOp> {
    l0 + p1 + init_mid_ops() + p2
}

/// Drive the chip from its power-up/reset condition into a clocked,
/// PLL-locked condition, performing the initialization protocol on `bus`.
///
/// Every step is an absolute register write, so the sequence may be
/// retried after a failure; partial state is left as-is.
pub fn run_init<B: Bus>(bus: &mut B) -> (r: Result<(), Error>)
    ensures
        final (bus).log().len() > old(bus).log().len(),
        match r {
            Ok(_) => exists|p1: Seq<BusOp>, p2: Seq<BusOp>|
                poll_reads(p1, Reg::SysStatus, RCINIT_MASK) && poll_reads(
                    p2,
                    Reg::SysStatus,
                    CPLOCK_MASK,
                ) && final (bus).log() == #[trigger] init_trace(old(bus).log(), p1, p2),
            Err(e) => e matches Error::Bus(be) && fail_error(final (bus).log().last()) == Some(be),
        },
{
    let ghost l0 = bus.log();
    // Wait for the idle-RC clock condition.
    let v1 = match poll_set(bus, Reg::SysStatus, RCINIT_MASK) {
        Ok(v) => v,
        Err(e) => {
            return Err(e);
        },
    };
    let ghost p1 = choose|p: Seq<BusOp>|
        #![auto]
        poll_reads(p, Reg::SysStatus, RCINIT_MASK) && p.last() == BusOp::ReadOk(Reg::SysStatus, v1)
            && appended(l0, bus.log(), p);
    // Corrected PLL calibration tuning value.
    match mdf(bus, Reg::PllCal, PLL_CFG_LD_MASK, 0x81u64 << PLL_CFG_LD_SHIFT) {
        Ok(_) => (),
        Err(e) => {
            return Err(e);
        },
    };
    // Clear the sticky PLL lock flag before re-arming.
    match wr(bus, Reg::SysStatus, CPLOCK_MASK) {
        Ok(_) => (),
        Err(e) => {
            return Err(e);
        },
    };
    // Automatic PLL mode.
    match mdf(bus, Reg::ClkCtrl, SYS_CLK_MASK, 0) {
        Ok(_) => (),
        Err(e) => {
            return Err(e);
        },
    };
    // Automatic transition from the initial to the idle clock domain.
    match mdf(bus, Reg::SeqCtrl, AINIT2IDLE_MASK, AINIT2IDLE_MASK) {
        Ok(_) => (),
        Err(e) => {
            return Err(e);
        },
    };
    // On wake, go to idle-PLL.
    match mdf(bus, Reg::AonDigCfg, ONW_GO2IDLE_MASK, ONW_GO2IDLE_MASK) {
        Ok(_) => (),
        Err(e) => {
            return Err(e);
        },
    };
    let ghost lmid = bus.log();
    proof {
        assert(lmid =~= l0 + p1 + init_mid_ops());
    }
    // Wait for the PLL lock flag.
    let v2 = match poll_set(bus, Reg::SysStatus, CPLOCK_MASK) {
        Ok(v) => v,
        Err(e) => {
            return Err(e);
        },
    };
    proof {
        let p2 = choose|p: Seq<BusOp>|
            #![auto]
            poll_reads(p, Reg::SysStatus, CPLOCK_MASK) && p.last() == BusOp::ReadOk(
                Reg::SysStatus,
                v2,
            ) && appended(lmid, bus.log(), p);
        assert(bus.log() == init_trace(l0, p1, p2));
    }
    Ok(())
}

// --- Configuration sequencer --------------------------------------------

/// The receive-tuning bits written to the digital gain control register:
/// the PRF-dependent tuning enable and the fixed threshold constant.
pub open spec fn dgc_cfg_bits(c: Config) -> u64 {
    c.pulse_repetition_frequency.spec_rx_tune_en() | (0x32u64 << THR_64_SHIFT)
}

/// The channel control fields: RF channel, SFD type, and the transmit and
/// receive preamble codes derived from channel and PRF.
pub open spec fn chan_ctrl_bits(c: Config) -> u64 {
    c.channel.spec_bits() | (c.sfd_sequence.spec_bits() << SFD_TYPE_SHIFT) | (
    c.channel.spec_preamble_code(c.pulse_repetition_frequency) << TX_PCODE_SHIFT) | (
    c.channel.spec_preamble_code(c.pulse_repetition_frequency) << RX_PCODE_SHIFT)
}

/// The front section of the configuration sequence: gain-control lookup
/// table and fixed gain constants, receive tuning, channel control, RF
/// transmit and PLL constants, receive digital tuning, regulator and PLL
/// calibration load constants, and the frame filtering choice.
pub open spec fn config_front_ops(c: Config) -> Seq<BusOp> {
    let base = seq![
        BusOp::ModifyOk(Reg::DgcLut0, FULL_MASK, c.channel.spec_dgc_lut_0()),
        BusOp::ModifyOk(Reg::DgcLut1, FULL_MASK, c.channel.spec_dgc_lut_1()),
        BusOp::ModifyOk(Reg::DgcLut2, FULL_MASK, c.channel.spec_dgc_lut_2()),
        BusOp::ModifyOk(Reg::DgcLut3, FULL_MASK, c.channel.spec_dgc_lut_3()),
        BusOp::ModifyOk(Reg::DgcLut4, FULL_MASK, c.channel.spec_dgc_lut_4()),
        BusOp::ModifyOk(Reg::DgcLut5, FULL_MASK, c.channel.spec_dgc_lut_5()),
        BusOp::ModifyOk(Reg::DgcLut6, FULL_MASK, c.channel.spec_dgc_lut_6()),
        BusOp::ModifyOk(Reg::DgcCfg0, FULL_MASK, 0x10000240),
        BusOp::ModifyOk(Reg::DgcCfg1, FULL_MASK, 0x1B6DA489),
        BusOp::ModifyOk(Reg::DgcCfg, DGC_CFG_MASK, dgc_cfg_bits(c)),
        BusOp::ModifyOk(Reg::ChanCtrl, CHAN_CTRL_FIELDS_MASK, chan_ctrl_bits(c)),
        BusOp::ModifyOk(Reg::RfTxCtrl1, FULL_MASK, 0x0E),
        BusOp::ModifyOk(Reg::RfTxCtrl2, FULL_MASK, c.channel.spec_rf_tx_ctrl_2()),
        BusOp::ModifyOk(Reg::PllCfg, FULL_MASK, c.channel.spec_pll_conf()),
        BusOp::ModifyOk(Reg::Dtune0, DTUNE0_FIELDS_MASK, c.preamble_length.spec_pac_size()),
        BusOp::ModifyOk(Reg::Dtune3, FULL_MASK, 0xAF5F35CC),
        BusOp::WriteOk(Reg::LdoRload, 0x14),
        BusOp::WriteOk(Reg::PllCal, 0x1u64 << PLL_CFG_LD_SHIFT),
    ];
    if c.frame_filtering {
        base + seq![
            BusOp::ModifyOk(Reg::SysCfg, FFEN_MASK, FFEN_MASK),
            BusOp::ModifyOk(Reg::FfCfg, FF_CFG_FIELDS_MASK, FF_CFG_FIELDS_MASK),
        ]
    } else {
        base + seq![BusOp::ModifyOk(Reg::SysCfg, FFEN_MASK, 0)]
    }
}

/// The calibration prelude: capture of the low-dropout-control value
/// (`ldo`), the transient calibration-enable bits, the delay/mode fields,
/// and the calibration enable.
pub open spec fn config_cal_open(ldo: u64) -> Seq<BusOp> {
    seq![
        BusOp::ReadOk(Reg::LdoCtrl, ldo),
        BusOp::ModifyOk(Reg::LdoCtrl, FULL_MASK, ldo | 0x105),
        BusOp::ModifyOk(
            Reg::RxCal,
            COMP_DLY_MASK | CAL_MODE_MASK,
            (0x2u64 << COMP_DLY_SHIFT) | 0x1,
        ),
        BusOp::ModifyOk(Reg::RxCal, CAL_EN_MASK, CAL_EN_MASK),
    ]
}

/// The calibration close: clear of the mode/enable fields and the
/// clear-acknowledge write to the calibration status register.
pub open spec fn config_cal_close() -> Seq<BusOp> {
    seq![
        BusOp::ModifyOk(Reg::RxCal, CAL_MODE_MASK | CAL_EN_MASK, 0),
        BusOp::WriteOk(Reg::RxCalSts, 1),
    ]
}

/// The register trace of a configuration run up to and including the
/// calibration close, with `p` the busy-poll run on the calibration
/// status register.
pub open spec fn config_cal_trace(l0: Seq<BusOp>, c: Config, ldo: u64, p: Seq<BusOp>) -> Seq<
    BusOp,
> {
    l0 + config_front_ops(c) + config_cal_open(ldo) + p + config_cal_close()
}

/// The complete register trace of a successful configuration: both
/// residuals were read back off-sentinel and the captured
/// low-dropout-control value was restored.
pub open spec fn config_success_trace(
    l0: Seq<BusOp>,
    c: Config,
    ldo: u64,
    p: Seq<BusOp>,
    ri: u64,
    rq: u64,
) -> Seq<BusOp> {
    config_cal_trace(l0, c, ldo, p) + seq![
        BusOp::ReadOk(Reg::RxCalResI, ri),
        BusOp::ReadOk(Reg::RxCalResQ, rq),
        BusOp::WriteOk(Reg::LdoCtrl, ldo),
    ]
}

/// The register trace of a configuration that failed validation on the
/// in-phase residual: it ends at the sentinel read, and the
/// low-dropout-control value is deliberately not restored.
pub open spec fn config_fail_i_trace(l0: Seq<BusOp>, c: Config, ldo: u64, p: Seq<BusOp>) -> Seq<
    BusOp,
> {
    config_cal_trace(l0, c, ldo, p) + seq![BusOp::ReadOk(Reg::RxCalResI, CAL_RES_SENTINEL)]
}

/// The register trace of a configuration that failed validation on the
/// quadrature residual: it ends at the sentinel read, and the
/// low-dropout-control value is deliberately not restored.
pub open spec fn config_fail_q_trace(
    l0: Seq<BusOp>,
    c: Config,
    ldo: u64,
    p: Seq<BusOp>,
    ri: u64,
) -> Seq<BusOp> {
    config_cal_trace(l0, c, ldo, p) + seq![
        BusOp::ReadOk(Reg::RxCalResI, ri),
        BusOp::ReadOk(Reg::RxCalResQ, CAL_RES_SENTINEL),
    ]
}

/// The front section of the configuration protocol, in its strict order.
fn config_front<B: Bus>(bus: &mut B, c: Config) -> (r: Result<(), Error>)
    ensures
        final (bus).log().len() > old(bus).log().len(),
        match r {
            Ok(_) => appended(old(bus).log(), final (bus).log(), config_front_ops(c)),
            Err(e) => e matches Error::Bus(be) && fail_error(final (bus).log().last()) == Some(be),
        },
{
    let ghost l0 = bus.log();
    // Gain-control lookup table for the selected channel.
    match mdf(bus, Reg::DgcLut0, FULL_MASK, c.channel.get_recommended_dgc_lut_0()) {
        Ok(_) => (),
        Err(e) => {
            return Err(e);
        },
    };
    match mdf(bus, Reg::DgcLut1, FULL_MASK, c.channel.get_recommended_dgc_lut_1()) {
        Ok(_) => (),
        Err(e) => {
            return Err(e);
        },
    };
    match mdf(bus, Reg::DgcLut2, FULL_MASK, c.channel.get_recommended_dgc_lut_2()) {
        Ok(_) => (),
        Err(e) => {
            return Err(e);
        },
    };
    match mdf(bus, Reg::DgcLut3, FULL_MASK, c.channel.get_recommended_dgc_lut_3()) {
        Ok(_) => (),
        Err(e) => {
            return Err(e);
        },
    };
    match mdf(bus, Reg::DgcLut4, FULL_MASK, c.channel.get_recommended_dgc_lut_4()) {
        Ok(_) => (),
        Err(e) => {
            return Err(e);
        },
    };
    match mdf(bus, Reg::DgcLut5, FULL_MASK, c.channel.get_recommended_dgc_lut_5()) {
        Ok(_) => (),
        Err(e) => {
            return Err(e);
        },
    };
    match mdf(bus, Reg::DgcLut6, FULL_MASK, c.channel.get_recommended_dgc_lut_6()) {
        Ok(_) => (),
        Err(e) => {
            return Err(e);
        },
    };
    // Fixed gain-control constants.
    match mdf(bus, Reg::DgcCfg0, FULL_MASK, 0x10000240) {
        Ok(_) => (),
        Err(e) => {
            return Err(e);
        },
    };
    match mdf(bus, Reg::DgcCfg1, FULL_MASK, 0x1B6DA489) {
        Ok(_) => (),
        Err(e) => {
            return Err(e);
        },
    };
    // PRF-dependent receive tuning enable plus the fixed threshold.
    let tune = c.pulse_repetition_frequency.get_recommended_rx_tune_en();
    match mdf(bus, Reg::DgcCfg, DGC_CFG_MASK, tune | (0x32u64 << THR_64_SHIFT)) {
        Ok(_) => (),
        Err(e) => {
            return Err(e);
        },
    };
    // Channel, SFD type, and both preamble codes.
    let pcode = c.channel.get_recommended_preamble_code(c.pulse_repetition_frequency);
    let chan_bits = c.channel.bits() | (c.sfd_sequence.bits() << SFD_TYPE_SHIFT) | (pcode
        << TX_PCODE_SHIFT) | (pcode << RX_PCODE_SHIFT);
    match mdf(bus, Reg::ChanCtrl, CHAN_CTRL_FIELDS_MASK, chan_bits) {
        Ok(_) => (),
        Err(e) => {
            return Err(e);
        },
    };
    // Fixed and channel-dependent RF transmit and PLL constants.
    match mdf(bus, Reg::RfTxCtrl1, FULL_MASK, 0x0E) {
        Ok(_) => (),
        Err(e) => {
            return Err(e);
        },
    };
    match mdf(bus, Reg::RfTxCtrl2, FULL_MASK, c.channel.get_recommended_rf_tx_ctrl_2()) {
        Ok(_) => (),
        Err(e) => {
            return Err(e);
        },
    };
    match mdf(bus, Reg::PllCfg, FULL_MASK, c.channel.get_recommended_pll_conf()) {
        Ok(_) => (),
        Err(e) => {
            return Err(e);
        },
    };
    // Receive digital tuning: preamble acquisition chunk size, and the
    // tuning sub-field cleared.
    match mdf(bus, Reg::Dtune0, DTUNE0_FIELDS_MASK, c.preamble_length.get_recommended_pac_size()) {
        Ok(_) => (),
        Err(e) => {
            return Err(e);
        },
    };
    match mdf(bus, Reg::Dtune3, FULL_MASK, 0xAF5F35CC) {
        Ok(_) => (),
        Err(e) => {
            return Err(e);
        },
    };
    // Fixed regulator and PLL-calibration-load constants.
    match wr(bus, Reg::LdoRload, 0x14) {
        Ok(_) => (),
        Err(e) => {
            return Err(e);
        },
    };
    match wr(bus, Reg::PllCal, 0x1u64 << PLL_CFG_LD_SHIFT) {
        Ok(_) => (),
        Err(e) => {
            return Err(e);
        },
    };
    // Frame filtering: enable the master bit and the accepted subtypes, or
    // clear the master bit only.
    if c.frame_filtering {
        match mdf(bus, Reg::SysCfg, FFEN_MASK, FFEN_MASK) {
            Ok(_) => (),
            Err(e) => {
                return Err(e);
            },
        };
        match mdf(bus, Reg::FfCfg, FF_CFG_FIELDS_MASK, FF_CFG_FIELDS_MASK) {
            Ok(_) => (),
            Err(e) => {
                return Err(e);
            },
        };
    } else {
        match mdf(bus, Reg::SysCfg, FFEN_MASK, 0) {
            Ok(_) => (),
            Err(e) => {
                return Err(e);
            },
        };
    }
    proof {
        assert(bus.log() =~= l0 + config_front_ops(c));
    }
    Ok(())
}

/// The calibration middle section of the configuration protocol: capture
/// the low-dropout-control value, set the transient enable bits, run the
/// calibration, busy-poll its status, and acknowledge it. Returns the
/// captured low-dropout-control value.
fn config_calibrate<B: Bus>(bus: &mut B) -> (r: Result<u64, Error>)
    ensures
        final (bus).log().len() > old(bus).log().len(),
        match r {
            Ok(ldo) => exists|p: Seq<BusOp>|
                #![auto]
                poll_reads(p, Reg::RxCalSts, FULL_MASK) && appended(
                    old(bus).log(),
                    final (bus).log(),
                    config_cal_open(ldo) + p + config_cal_close(),
                ),
            Err(e) => e matches Error::Bus(be) && fail_error(final (bus).log().last()) == Some(be),
        },
{
    let ghost l0 = bus.log();
    // Capture the low-dropout-control value and set the transient
    // calibration-enable bits.
    let ldo = match rd(bus, Reg::LdoCtrl) {
        Ok(v) => v,
        Err(e) => {
            return Err(e);
        },
    };
    match mdf(bus, Reg::LdoCtrl, FULL_MASK, ldo | 0x105) {
        Ok(_) => (),
        Err(e) => {
            return Err(e);
        },
    };
    match mdf(bus, Reg::RxCal, COMP_DLY_MASK | CAL_MODE_MASK, (0x2u64 << COMP_DLY_SHIFT) | 0x1) {
        Ok(_) => (),
        Err(e) => {
            return Err(e);
        },
    };
    match mdf(bus, Reg::RxCal, CAL_EN_MASK, CAL_EN_MASK) {
        Ok(_) => (),
        Err(e) => {
            return Err(e);
        },
    };
    let ghost lcal = bus.log();
    proof {
        assert(lcal =~= l0 + config_cal_open(ldo));
    }
    // Wait for the calibration status register to report completion.
    let sts = match poll_set(bus, Reg::RxCalSts, FULL_MASK) {
        Ok(v) => v,
        Err(e) => {
            return Err(e);
        },
    };
    let ghost p = choose|q: Seq<BusOp>|
        #![auto]
        poll_reads(q, Reg::RxCalSts, FULL_MASK) && q.last() == BusOp::ReadOk(Reg::RxCalSts, sts)
            && appended(lcal, bus.log(), q);
    // Leave calibration mode and acknowledge the status.
    match mdf(bus, Reg::RxCal, CAL_MODE_MASK | CAL_EN_MASK, 0) {
        Ok(_) => (),
        Err(e) => {
            return Err(e);
        },
    };
    match wr(bus, Reg::RxCalSts, 1) {
        Ok(_) => (),
        Err(e) => {
            return Err(e);
        },
    };
    proof {
        assert(bus.log() =~= l0 + (config_cal_open(ldo) + p + config_cal_close()));
    }
    Ok(ldo)
}

/// The validation tail of the configuration protocol: read both
/// calibration residuals and, if neither is the sentinel, restore the
/// captured low-dropout-control value.
fn config_validate<B: Bus>(bus: &mut B, ldo: u64) -> (r: Result<(), Error>)
    ensures
        final (bus).log().len() > old(bus).log().len(),
        match r {
            Ok(_) => exists|ri: u64, rq: u64|
                #![auto]
                ri != CAL_RES_SENTINEL && rq != CAL_RES_SENTINEL && appended(
                    old(bus).log(),
                    final (bus).log(),
                    seq![
                        BusOp::ReadOk(Reg::RxCalResI, ri),
                        BusOp::ReadOk(Reg::RxCalResQ, rq),
                        BusOp::WriteOk(Reg::LdoCtrl, ldo),
                    ],
                ),
            Err(e) => match e {
                Error::InvalidConfiguration => appended(
                    old(bus).log(),
                    final (bus).log(),
                    seq![BusOp::ReadOk(Reg::RxCalResI, CAL_RES_SENTINEL)],
                ) || (exists|ri: u64|
                    #![auto]
                    ri != CAL_RES_SENTINEL && appended(
                        old(bus).log(),
                        final (bus).log(),
                        seq![
                            BusOp::ReadOk(Reg::RxCalResI, ri),
                            BusOp::ReadOk(Reg::RxCalResQ, CAL_RES_SENTINEL),
                        ],
                    )),
                Error::Bus(be) => fail_error(final (bus).log().last()) == Some(be),
                _ => false,
            },
        },
{
    let ghost l0 = bus.log();
    // Validation: a sentinel residual means calibration did not converge.
    // In that case the low-dropout-control value is deliberately not
    // restored, so the mis-calibrated state stays diagnosable.
    let ri = match rd(bus, Reg::RxCalResI) {
        Ok(v) => v,
        Err(e) => {
            return Err(e);
        },
    };
    if ri == CAL_RES_SENTINEL {
        proof {
            assert(bus.log() =~= l0 + seq![BusOp::ReadOk(Reg::RxCalResI, CAL_RES_SENTINEL)]);
        }
        return Err(Error::InvalidConfiguration);
    }
    let rq = match rd(bus, Reg::RxCalResQ) {
        Ok(v) => v,
        Err(e) => {
            return Err(e);
        },
    };
    if rq == CAL_RES_SENTINEL {
        proof {
            assert(bus.log() =~= l0 + seq![
                BusOp::ReadOk(Reg::RxCalResI, ri),
                BusOp::ReadOk(Reg::RxCalResQ, CAL_RES_SENTINEL),
            ]);
        }
        return Err(Error::InvalidConfiguration);
    }
    // Restore the captured low-dropout-control value: the calibration
    // enable bits are transient and must not persist.
    match wr(bus, Reg::LdoCtrl, ldo) {
        Ok(_) => (),
        Err(e) => {
            return Err(e);
        },
    };
    proof {
        assert(bus.log() =~= l0 + seq![
            BusOp::ReadOk(Reg::RxCalResI, ri),
            BusOp::ReadOk(Reg::RxCalResQ, rq),
            BusOp::WriteOk(Reg::LdoCtrl, ldo),
        ]);
    }
    Ok(())
}

/// Apply the channel/PRF-dependent calibration values and run the RF
/// receiver calibration loop on `bus`, performing the configuration
/// protocol in its strict order.
///
/// On success the whole successful trace was performed. A calibration
/// residual equal to the sentinel aborts with `InvalidConfiguration`,
/// leaving the registers as they were at failure (no rollback, so the chip
/// can be diagnosed); a transport failure aborts immediately with the
/// failing operation last in the log.
pub fn apply_config<B: Bus>(bus: &mut B, c: Config) -> (r: Result<(), Error>)
    ensures
        final (bus).log().len() > old(bus).log().len(),
        match r {
            Ok(_) => exists|ldo: u64, p: Seq<BusOp>, ri: u64, rq: u64|
                poll_reads(p, Reg::RxCalSts, FULL_MASK) && ri != CAL_RES_SENTINEL && rq
                    != CAL_RES_SENTINEL && final (bus).log() == #[trigger] config_success_trace(
                    old(bus).log(),
                    c,
                    ldo,
                    p,
                    ri,
                    rq,
                ),
            Err(e) => match e {
                Error::InvalidConfiguration => (exists|ldo: u64, p: Seq<BusOp>|
                    poll_reads(p, Reg::RxCalSts, FULL_MASK) && final (bus).log()
                        == #[trigger] config_fail_i_trace(old(bus).log(), c, ldo, p)) || (exists|
                    ldo: u64,
                    p: Seq<BusOp>,
                    ri: u64,
                |
                    poll_reads(p, Reg::RxCalSts, FULL_MASK) && ri != CAL_RES_SENTINEL && final (
                    bus).log() == #[trigger] config_fail_q_trace(old(bus).log(), c, ldo, p, ri)),
                Error::Bus(be) => fail_error(final (bus).log().last()) == Some(be),
                _ => false,
            },
        },
{
    let ghost l0 = bus.log();
    match config_front(bus, c) {
        Ok(_) => (),
        Err(e) => {
            return Err(e);
        },
    };
    let ghost lfront = bus.log();
    let ldo = match config_calibrate(bus) {
        Ok(v) => v,
        Err(e) => {
            return Err(e);
        },
    };
    let ghost p = choose|q: Seq<BusOp>|
        #![auto]
        poll_reads(q, Reg::RxCalSts, FULL_MASK) && appended(
            lfront,
            bus.log(),
            config_cal_open(ldo) + q + config_cal_close(),
        );
    let ghost lcal = bus.log();
    proof {
        assert(lcal =~= config_cal_trace(l0, c, ldo, p));
    }
    match config_validate(bus, ldo) {
        Ok(_) => {
            proof {
                let (ri, rq) = choose|ri: u64, rq: u64|
                    #![auto]
                    ri != CAL_RES_SENTINEL && rq != CAL_RES_SENTINEL && appended(
                        lcal,
                        bus.log(),
                        seq![
                            BusOp::ReadOk(Reg::RxCalResI, ri),
                            BusOp::ReadOk(Reg::RxCalResQ, rq),
                            BusOp::WriteOk(Reg::LdoCtrl, ldo),
                        ],
                    );
                assert(bus.log() =~= config_success_trace(l0, c, ldo, p, ri, rq));
            }
            Ok(())
        },
        Err(e) => {
            proof {
                if e == Error::InvalidConfiguration {
                    if bus.log() == lcal + seq![BusOp::ReadOk(Reg::RxCalResI, CAL_RES_SENTINEL)] {
                        assert(bus.log() =~= config_fail_i_trace(l0, c, ldo, p));
                    } else {
                        let ri = choose|ri: u64|
                            #![auto]
                            ri != CAL_RES_SENTINEL && appended(
                                lcal,
                                bus.log(),
                                seq![
                                    BusOp::ReadOk(Reg::RxCalResI, ri),
                                    BusOp::ReadOk(Reg::RxCalResQ, CAL_RES_SENTINEL),
                                ],
                            );
                        assert(bus.log() =~= config_fail_q_trace(l0, c, ldo, p, ri));
                    }
                }
            }
            Err(e)
        },
    }
}

// --- Phase: Uninitialized -----------------------------------------------

impl<B: Bus> DW3000<B, Uninitialized> {
    /// Create a new driver handle in the `Uninitialized` phase, binding
    /// the register-access bus connected to the chip.
    pub fn new(bus: B) -> (r: DW3000<B, Uninitialized>)
        ensures
            r.log() == bus.log(),
            r.seq_num() == 0,
    {
        DW3000 { bus, seq_number: 0, state: Uninitialized }
    }

    /// Initialize the chip: wait for the ready-clock condition, apply the
    /// corrected PLL calibration tuning, clear and re-arm the PLL lock
    /// flag, select automatic PLL mode and wake behavior, and wait for
    /// PLL lock.
    ///
    /// The phase stays `Uninitialized`: configuration is a separate,
    /// explicit step. Every step is an absolute register write, so `init`
    /// may be retried after a failure.
    pub fn init(self) -> (r: Result<DW3000<B, Uninitialized>, Error>)
        ensures
            match r {
                Ok(h) => h.seq_num() == self.seq_num() && exists|p1: Seq<BusOp>, p2: Seq<BusOp>|
                    poll_reads(p1, Reg::SysStatus, RCINIT_MASK) && poll_reads(
                        p2,
                        Reg::SysStatus,
                        CPLOCK_MASK,
                    ) && h.log() == #[trigger] init_trace(self.log(), p1, p2),
                Err(e) => e matches Error::Bus(_),
            },
    {
        let mut this = self;
        match run_init(&mut this.bus) {
            Ok(_) => (),
            Err(e) => {
                return Err(e);
            },
        };
        proof {
            let (p1, p2) = choose|p1: Seq<BusOp>, p2: Seq<BusOp>|
                poll_reads(p1, Reg::SysStatus, RCINIT_MASK) && poll_reads(
                    p2,
                    Reg::SysStatus,
                    CPLOCK_MASK,
                ) && this.bus.log() == #[trigger] init_trace(self.bus.log(), p1, p2);
            assert(this.log() == init_trace(self.log(), p1, p2));
        }
        Ok(this)
    }

    /// Configure the chip for the given channel, PRF, SFD, preamble
    /// length and frame filtering choice, and run the RF receiver
    /// calibration. On success the handle becomes `Ready`.
    ///
    /// `InvalidConfiguration` means the calibration residuals did not
    /// converge; a transport failure surfaces as a bus error. Register
    /// state is left as it was at the failure.
    pub fn config(self, config: Config) -> (r: Result<DW3000<B, Ready>, Error>)
        ensures
            match r {
                Ok(h) => h.seq_num() == self.seq_num() && exists|
                    ldo: u64,
                    p: Seq<BusOp>,
                    ri: u64,
                    rq: u64,
                |
                    poll_reads(p, Reg::RxCalSts, FULL_MASK) && ri != CAL_RES_SENTINEL && rq
                        != CAL_RES_SENTINEL && h.log() == #[trigger] config_success_trace(
                        self.log(),
                        config,
                        ldo,
                        p,
                        ri,
                        rq,
                    ),
                Err(e) => e matches Error::Bus(_) || e == Error::InvalidConfiguration,
            },
    {
        let mut this = self;
        match apply_config(&mut this.bus, config) {
            Ok(_) => (),
            Err(e) => {
                return Err(e);
            },
        };
        proof {
            let (ldo, p, ri, rq) = choose|ldo: u64, p: Seq<BusOp>, ri: u64, rq: u64|
                poll_reads(p, Reg::RxCalSts, FULL_MASK) && ri != CAL_RES_SENTINEL && rq
                    != CAL_RES_SENTINEL && this.bus.log() == #[trigger] config_success_trace(
                    self.bus.log(),
                    config,
                    ldo,
                    p,
                    ri,
                    rq,
                );
            assert(this.log() == config_success_trace(self.log(), config, ldo, p, ri, rq));
        }
        Ok(DW3000 { bus: this.bus, seq_number: this.seq_number, state: Ready })
    }
}

// --- Phase: Ready -------------------------------------------------------

impl<B: Bus> DW3000<B, Ready> {
    /// Enter the `Sending` phase for a transmission that has just been
    /// issued, stepping the per-frame sequence counter.
    ///
    /// Programming the frame itself is host-side framing logic outside
    /// this core; the issue is assumed atomic. Consuming the `Ready`
    /// handle is what makes a second in-flight send impossible.
    pub fn start_sending(self) -> (r: DW3000<B, Sending>)
        ensures
            r.log() == self.log(),
            r.seq_num() as int == (self.seq_num() as int + 1) % 256,
            !r.finished(),
    {
        let next: u8 = if self.seq_number == 255 {
            0
        } else {
            self.seq_number + 1
        };
        DW3000 { bus: self.bus, seq_number: next, state: Sending { finished: false } }
    }
}

// --- Sequence counter law -----------------------------------------------

/// The sequence counter after `n` completed send cycles starting from
/// counter value `start`: each cycle steps it once, wrapping modulo 256.
pub open spec fn seq_after_cycles(start: u8, n: nat) -> int
    decreases n,
{
    if n == 0 {
        start as int
    } else {
        (seq_after_cycles(start, (n - 1) as nat) + 1) % 256
    }
}

/// Law: after `n` consecutive send cycles the sequence counter equals the
/// initial value plus `n`, modulo 256. Each cycle contributes exactly the
/// single step that `start_sending` ensures; `s_wait` and
/// `finish_sending` leave the counter untouched.
pub proof fn lemma_sequence_counter(start: u8, n: nat)
    ensures
        seq_after_cycles(start, n) == (start + n) % 256,
    decreases n,
{
    if n == 0 {
        assert((start + 0) % 256 == start as int) by (nonlinear_arith)
            requires
                0 <= start < 256,
        ;
    } else {
        lemma_sequence_counter(start, (n - 1) as nat);
        assert(((start + (n - 1)) % 256 + 1) % 256 == (start + n) % 256) by (nonlinear_arith)
            requires
                n >= 1,
        ;
    }
}

// --- Phase: Sending -----------------------------------------------------

impl<B: Bus> DW3000<B, Sending> {
    /// Whether completion of the in-flight transmission has been
    /// positively observed.
    pub closed spec fn finished(&self) -> bool {
        self.state.finished
    }

    /// Executable view of [`Self::finished`].
    pub fn is_finished(&self) -> (r: bool)
        ensures
            r == self.finished(),
    {
        self.state.finished
    }

    /// Observe the transmitter section of the chip's internal state
    /// machine.
    pub fn tx_state(&mut self) -> (r: Result<u8, Error>)
        ensures
            final (self).seq_num() == old(self).seq_num(),
            final (self).finished() == old(self).finished(),
            match r {
                Ok(v) => exists|s: u64|
                    #![auto]
                    appended(
                        old(self).log(),
                        final (self).log(),
                        seq![BusOp::ReadOk(Reg::SysState, s)],
                    ) && v as u64 == (s & TX_STATE_MASK) >> TX_STATE_SHIFT,
                Err(e) => e matches Error::Bus(be) && appended(
                    old(self).log(),
                    final (self).log(),
                    seq![BusOp::ReadFail(Reg::SysState, be)],
                ),
            },
    {
        let s = match rd(&mut self.bus, Reg::SysState) {
            Ok(v) => v,
            Err(e) => {
                proof {
                    assert(self.bus.log() =~= old(self).bus.log() + seq![self.bus.log().last()]);
                }
                return Err(e);
            },
        };
        proof {
            assert(self.bus.log() =~= old(self).bus.log() + seq![self.bus.log().last()]);
            assert(((s & TX_STATE_MASK) >> TX_STATE_SHIFT) <= 0xF) by (bit_vector);
        }
        Ok(((s & TX_STATE_MASK) >> TX_STATE_SHIFT) as u8)
    }

    /// Clear the four sticky transmit-progress flags (frame begins,
    /// preamble sent, PHY header sent, frame sent) by writing one-bits to
    /// each.
    fn reset_flags(&mut self) -> (r: Result<(), Error>)
        ensures
            final (self).seq_num() == old(self).seq_num(),
            final (self).finished() == old(self).finished(),
            match r {
                Ok(_) => appended(
                    old(self).log(),
                    final (self).log(),
                    seq![BusOp::WriteOk(Reg::SysStatus, TX_FLAGS_MASK)],
                ),
                Err(e) => e matches Error::Bus(be) && appended(
                    old(self).log(),
                    final (self).log(),
                    seq![BusOp::WriteFail(Reg::SysStatus, TX_FLAGS_MASK, be)],
                ),
            },
    {
        let r = wr(&mut self.bus, Reg::SysStatus, TX_FLAGS_MASK);
        proof {
            assert(self.bus.log() =~= old(self).bus.log() + seq![self.bus.log().last()]);
        }
        r
    }

    /// Poll the in-flight transmission once: at most one register
    /// round-trip, never blocking beyond it, so callers can interleave
    /// work or impose their own timeout.
    ///
    /// A nonzero half-period warning counter is fatal
    /// (`DelayedSendTooLate`). Otherwise, a clear transmit-frame-sent flag
    /// reports `Pending` and mutates nothing. A set flag clears the four
    /// sticky transmit-progress flags once, marks the handle finished,
    /// and validates the captured timestamp: in-domain reports `Done`,
    /// out-of-domain reports `Fcs`.
    pub fn s_wait(&mut self) -> (r: PendingResult)
        ensures
            final (self).seq_num() == old(self).seq_num(),
            old(self).finished() ==> final (self).finished(),
            !old(self).finished() && final (self).finished() ==> exists|s: u64|
                #![auto]
                s & TXFRS_MASK != 0 && final (self).log().contains(
                    BusOp::ReadOk(Reg::SysStatus, s),
                ),
            match r {
                PendingResult::Pending => final (self).finished() == old(self).finished()
                    && exists|s: u64|
                    #![auto]
                    s & TXFRS_MASK == 0 && appended(
                        old(self).log(),
                        final (self).log(),
                        seq![BusOp::ReadOk(Reg::EvcHpw, 0), BusOp::ReadOk(Reg::SysStatus, s)],
                    ),
                PendingResult::Done(ts) => final (self).finished() && ts@ <= TIME_MAX && exists|
                    s: u64,
                |
                    #![auto]
                    s & TXFRS_MASK != 0 && appended(
                        old(self).log(),
                        final (self).log(),
                        seq![
                            BusOp::ReadOk(Reg::EvcHpw, 0),
                            BusOp::ReadOk(Reg::SysStatus, s),
                            BusOp::WriteOk(Reg::SysStatus, TX_FLAGS_MASK),
                            BusOp::ReadOk(Reg::TxTime, ts@),
                        ],
                    ),
                PendingResult::Failed(e) => match e {
                    Error::DelayedSendTooLate => final (self).finished() == old(self).finished()
                        && exists|h: u64|
                        #![auto]
                        h != 0 && appended(
                            old(self).log(),
                            final (self).log(),
                            seq![BusOp::ReadOk(Reg::EvcHpw, h)],
                        ),
                    Error::Fcs => final (self).finished() && exists|s: u64, t: u64|
                        #![auto]
                        s & TXFRS_MASK != 0 && t > TIME_MAX && appended(
                            old(self).log(),
                            final (self).log(),
                            seq![
                                BusOp::ReadOk(Reg::EvcHpw, 0),
                                BusOp::ReadOk(Reg::SysStatus, s),
                                BusOp::WriteOk(Reg::SysStatus, TX_FLAGS_MASK),
                                BusOp::ReadOk(Reg::TxTime, t),
                            ],
                        ),
                    Error::Bus(be) => fail_error(final (self).log().last()) == Some(be) && final (
                    self).log().len() > old(self).log().len(),
                    Error::InvalidConfiguration => false,
                },
            },
    {
        let ghost l0 = self.bus.log();
        // Check the half-period warning counter: a nonzero value means a
        // delayed transmission fired too late relative to its programmed
        // delay, which is fatal for this attempt.
        let hpw = match rd(&mut self.bus, Reg::EvcHpw) {
            Ok(v) => v,
            Err(e) => {
                return PendingResult::Failed(e);
            },
        };
        if hpw != 0 {
            proof {
                assert(self.bus.log() =~= l0 + seq![BusOp::ReadOk(Reg::EvcHpw, hpw)]);
            }
            return PendingResult::Failed(Error::DelayedSendTooLate);
        }
        // Has the frame been sent?
        let status = match rd(&mut self.bus, Reg::SysStatus) {
            Ok(v) => v,
            Err(e) => {
                return PendingResult::Failed(e);
            },
        };
        if status & TXFRS_MASK == 0 {
            proof {
                assert(self.bus.log() =~= l0 + seq![
                    BusOp::ReadOk(Reg::EvcHpw, 0),
                    BusOp::ReadOk(Reg::SysStatus, status),
                ]);
            }
            return PendingResult::Pending;
        }
        // Frame sent: clear the sticky progress flags and record the
        // positive observation.
        match self.reset_flags() {
            Ok(_) => (),
            Err(e) => {
                return PendingResult::Failed(e);
            },
        };
        self.state.finished = true;
        // Capture and validate the transmit timestamp.
        let t = match rd(&mut self.bus, Reg::TxTime) {
            Ok(v) => v,
            Err(e) => {
                proof {
                    assert(self.bus.log()[l0.len() as int + 1] == BusOp::ReadOk(
                        Reg::SysStatus,
                        status,
                    ));
                    assert(self.bus.log().contains(BusOp::ReadOk(Reg::SysStatus, status)));
                }
                return PendingResult::Failed(e);
            },
        };
        proof {
            assert(self.bus.log()[l0.len() as int + 1] == BusOp::ReadOk(Reg::SysStatus, status));
            assert(self.bus.log().contains(BusOp::ReadOk(Reg::SysStatus, status)));
        }
        proof {
            assert(self.bus.log() =~= l0 + seq![
                BusOp::ReadOk(Reg::EvcHpw, 0),
                BusOp::ReadOk(Reg::SysStatus, status),
                BusOp::WriteOk(Reg::SysStatus, TX_FLAGS_MASK),
                BusOp::ReadOk(Reg::TxTime, t),
            ]);
        }
        match Instant::new(t) {
            Some(ts) => PendingResult::Done(ts),
            None => PendingResult::Failed(Error::Fcs),
        }
    }

    /// Finish sending and return to the `Ready` phase.
    ///
    /// If completion was positively observed this is a pure phase
    /// relabeling: no register access happens. Otherwise the chip is
    /// forced to idle, aborting the in-flight transmission, and the four
    /// sticky transmit-progress flags are cleared; if either step fails
    /// the still-usable `Sending` handle is returned together with the
    /// error, so the caller keeps the resource and may retry.
    pub fn finish_sending(self) -> (r: Result<
        DW3000<B, Ready>,
        (DW3000<B, Sending>, Error),
    >)
        ensures
            self.finished() ==> r is Ok,
            match r {
                Ok(h) => h.seq_num() == self.seq_num() && (if self.finished() {
                    h.log() == self.log()
                } else {
                    appended(
                        self.log(),
                        h.log(),
                        seq![BusOp::ForceIdleOk, BusOp::WriteOk(Reg::SysStatus, TX_FLAGS_MASK)],
                    )
                }),
                Err((h, e)) => !self.finished() && h.seq_num() == self.seq_num() && !h.finished()
                    && (e matches Error::Bus(be) && (appended(
                    self.log(),
                    h.log(),
                    seq![BusOp::ForceIdleFail(be)],
                ) || appended(
                    self.log(),
                    h.log(),
                    seq![
                        BusOp::ForceIdleOk,
                        BusOp::WriteFail(Reg::SysStatus, TX_FLAGS_MASK, be),
                    ],
                ))),
            },
    {
        let mut this = self;
        if !this.state.finished {
            // Avoid an indeterminate transmit condition: force idle, then
            // clear the sticky transmit-progress flags.
            match idle(&mut this.bus) {
                Ok(_) => (),
                Err(e) => {
                    proof {
                        assert(this.bus.log() =~= self.bus.log() + seq![
                            this.bus.log().last(),
                        ]);
                    }
                    return Err((this, e));
                },
            };
            match this.reset_flags() {
                Ok(_) => (),
                Err(e) => {
                    proof {
                        assert(this.bus.log() =~= self.bus.log() + seq![
                            BusOp::ForceIdleOk,
                            this.bus.log().last(),
                        ]);
                    }
                    return Err((this, e));
                },
            };
            proof {
                assert(this.bus.log() =~= self.bus.log() + seq![
                    BusOp::ForceIdleOk,
                    BusOp::WriteOk(Reg::SysStatus, TX_FLAGS_MASK),
                ]);
            }
        }
        Ok(DW3000 { bus: this.bus, seq_number: this.seq_number, state: Ready })
    }
}

} // verus!
