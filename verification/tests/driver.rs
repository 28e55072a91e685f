//! Exercises the driver's lifecycle state machine against the simulated
//! register bus.

use dw3000::bus::{BusError, BusOp, Reg};
use dw3000::mock::{MockBus, STUCK_POLL_CODE};
use dw3000::{
    apply_config, Channel, Config, Error, Instant, PendingResult, PreambleLength,
    PulseRepetitionFrequency, Ready, Sending, SfdSequence, DW3000,
};

const RCINIT_AND_CPLOCK: u64 = 0x1_0002;
const SENTINEL: u64 = 0x1FFF_FFFF;
const TIME_MAX: u64 = 0xFF_FFFF_FFFF;

/// A bus whose status registers let init and config run straight through.
fn ready_bus() -> MockBus {
    let mut b = MockBus::new();
    b.set_reg(Reg::SysStatus, RCINIT_AND_CPLOCK);
    b.set_reg(Reg::RxCalSts, 1);
    b.set_reg(Reg::RxCalResI, 0x100);
    b.set_reg(Reg::RxCalResQ, 0x200);
    b.set_reg(Reg::LdoCtrl, 0x22);
    b
}

fn base_config() -> Config {
    Config {
        channel: Channel::Ch5,
        sfd_sequence: SfdSequence::Decawave8,
        pulse_repetition_frequency: PulseRepetitionFrequency::Mhz64,
        preamble_length: PreambleLength::Symbols128,
        frame_filtering: false,
    }
}

fn make_ready() -> DW3000<MockBus, Ready> {
    let dw = DW3000::new(ready_bus());
    let dw = dw.init().unwrap();
    dw.config(base_config()).unwrap()
}

fn make_sending() -> DW3000<MockBus, Sending> {
    make_ready().start_sending()
}

#[test]
fn init_performs_the_documented_sequence() {
    let dw = DW3000::new(ready_bus());
    let mut dw = dw.init().unwrap();
    let b = dw.bus_mut();
    assert_eq!(b.ops(), 7);
    assert_eq!(b.op_at(0), BusOp::ReadOk(Reg::SysStatus, RCINIT_AND_CPLOCK));
    assert_eq!(b.op_at(1), BusOp::ModifyOk(Reg::PllCal, 0xFF0, 0x810));
    assert_eq!(b.op_at(2), BusOp::WriteOk(Reg::SysStatus, 0x2));
    assert_eq!(b.op_at(3), BusOp::ModifyOk(Reg::ClkCtrl, 0x3, 0));
    assert_eq!(b.op_at(4), BusOp::ModifyOk(Reg::SeqCtrl, 0x100, 0x100));
    assert_eq!(b.op_at(5), BusOp::ModifyOk(Reg::AonDigCfg, 0x800, 0x800));
    // The lock-flag clear wrote the whole status register, so the final
    // poll sees only the lock bit.
    assert_eq!(b.op_at(6), BusOp::ReadOk(Reg::SysStatus, 0x2));
}

#[test]
fn init_surfaces_a_bus_error() {
    let mut b = ready_bus();
    b.fail_in(0, 4);
    let dw = DW3000::new(b);
    match dw.init() {
        Err(Error::Bus(e)) => assert_eq!(e.code, 4),
        _ => panic!("expected a bus error"),
    }
}

#[test]
fn init_reports_a_poll_that_cannot_finish() {
    // All-zero registers: the ready-clock flag never sets, and the
    // simulated bus reports the dead poll as a transport failure.
    let dw = DW3000::new(MockBus::new());
    match dw.init() {
        Err(Error::Bus(e)) => assert_eq!(e.code, STUCK_POLL_CODE),
        _ => panic!("expected a bus error"),
    }
}

#[test]
fn config_returns_a_ready_handle() {
    let mut dw = make_ready();
    let b = dw.bus_mut();
    // 7 init operations, 19 front operations, 4 calibration opens, 1
    // status poll read, 2 calibration closes, 2 residual reads, 1
    // restore.
    assert_eq!(b.ops(), 36);
    // The captured low-dropout-control value is restored last.
    assert_eq!(b.op_at(35), BusOp::WriteOk(Reg::LdoCtrl, 0x22));
    // The transient calibration-enable bits were OR-ed into the captured
    // value.
    assert_eq!(b.op_at(27), BusOp::ModifyOk(Reg::LdoCtrl, u64::MAX, 0x127));
}

#[test]
fn config_writes_the_channel_dependent_constants() {
    let mut dw = make_ready();
    let b = dw.bus_mut();
    // The seven lookup-table entries, then the two fixed gain constants.
    assert_eq!(b.op_at(7), BusOp::ModifyOk(Reg::DgcLut0, u64::MAX, 0x1C0FD));
    assert_eq!(b.op_at(13), BusOp::ModifyOk(Reg::DgcLut6, u64::MAX, 0x1CFF5));
    assert_eq!(b.op_at(14), BusOp::ModifyOk(Reg::DgcCfg0, u64::MAX, 0x10000240));
    assert_eq!(b.op_at(15), BusOp::ModifyOk(Reg::DgcCfg1, u64::MAX, 0x1B6DA489));
    // Receive tuning: enabled for the 64 MHz PRF, threshold 0x32 at bit 9.
    assert_eq!(b.op_at(16), BusOp::ModifyOk(Reg::DgcCfg, 0x7E01, 0x1 | (0x32 << 9)));
    // Channel control: channel 5 (bit 0), SFD type 1 (bit 1), preamble
    // code 9 for both transmitter and receiver.
    assert_eq!(
        b.op_at(17),
        BusOp::ModifyOk(Reg::ChanCtrl, 0x1FFF, (1 << 1) | (9 << 3) | (9 << 8))
    );
    // Frame filtering disabled: the master bit is cleared, nothing else.
    assert_eq!(b.op_at(25), BusOp::ModifyOk(Reg::SysCfg, 0x1, 0));
}

#[test]
fn config_enables_frame_filtering_subtypes() {
    let mut cfg = base_config();
    cfg.frame_filtering = true;
    let dw = DW3000::new(ready_bus());
    let dw = dw.init().unwrap();
    let mut dw = dw.config(cfg).unwrap();
    let b = dw.bus_mut();
    assert_eq!(b.ops(), 37);
    assert_eq!(b.op_at(25), BusOp::ModifyOk(Reg::SysCfg, 0x1, 0x1));
    assert_eq!(b.op_at(26), BusOp::ModifyOk(Reg::FfCfg, 0xF, 0xF));
}

#[test]
fn config_rejects_a_sentinel_in_phase_residual() {
    let mut b = ready_bus();
    b.set_reg(Reg::RxCalResI, SENTINEL);
    assert!(run_init_ok(&mut b));
    let r = apply_config(&mut b, base_config());
    assert_eq!(r, Err(Error::InvalidConfiguration));
    // The trace stops at the sentinel read: the quadrature residual is
    // not read and the low-dropout-control value is not restored.
    assert_eq!(b.ops(), 7 + 27);
    assert_eq!(b.op_at(33), BusOp::ReadOk(Reg::RxCalResI, SENTINEL));
}

#[test]
fn config_rejects_a_sentinel_quadrature_residual() {
    let mut b = ready_bus();
    b.set_reg(Reg::RxCalResQ, SENTINEL);
    assert!(run_init_ok(&mut b));
    let r = apply_config(&mut b, base_config());
    assert_eq!(r, Err(Error::InvalidConfiguration));
    assert_eq!(b.ops(), 7 + 28);
    assert_eq!(b.op_at(33), BusOp::ReadOk(Reg::RxCalResI, 0x100));
    assert_eq!(b.op_at(34), BusOp::ReadOk(Reg::RxCalResQ, SENTINEL));
}

#[test]
fn config_surfaces_a_bus_error_mid_sequence() {
    let mut b = ready_bus();
    assert!(run_init_ok(&mut b));
    b.fail_in(3, 5);
    match apply_config(&mut b, base_config()) {
        Err(Error::Bus(e)) => assert_eq!(e.code, 5),
        _ => panic!("expected a bus error"),
    }
    assert_eq!(b.op_at(b.ops() - 1), BusOp::ModifyFail(Reg::DgcLut3, u64::MAX, 0x1C77E, BusError { code: 5 }));
}

fn run_init_ok(b: &mut MockBus) -> bool {
    dw3000::run_init(b).is_ok()
}

#[test]
fn s_wait_reports_pending_without_writing() {
    let mut dw = make_sending();
    let before = dw.bus_mut().ops();
    // Half-period warning zero, transmit-frame-sent clear.
    let r = dw.s_wait();
    assert_eq!(r, PendingResult::Pending);
    assert!(!dw.is_finished());
    let b = dw.bus_mut();
    assert_eq!(b.ops(), before + 2);
    assert_eq!(b.op_at(before), BusOp::ReadOk(Reg::EvcHpw, 0));
    assert_eq!(b.op_at(before + 1), BusOp::ReadOk(Reg::SysStatus, 0x2));
}

#[test]
fn s_wait_fails_fatally_on_half_period_warning() {
    let mut dw = make_sending();
    dw.bus_mut().set_reg(Reg::EvcHpw, 7);
    // The warning wins regardless of the transmit-frame-sent bit.
    dw.bus_mut().set_reg(Reg::SysStatus, 0x82);
    let before = dw.bus_mut().ops();
    let r = dw.s_wait();
    assert_eq!(r, PendingResult::Failed(Error::DelayedSendTooLate));
    assert!(!dw.is_finished());
    let b = dw.bus_mut();
    assert_eq!(b.ops(), before + 1);
    assert_eq!(b.op_at(before), BusOp::ReadOk(Reg::EvcHpw, 7));
}

#[test]
fn s_wait_accepts_a_timestamp_at_the_domain_boundary() {
    let mut dw = make_sending();
    dw.bus_mut().set_reg(Reg::SysStatus, 0x82);
    dw.bus_mut().set_reg(Reg::TxTime, TIME_MAX);
    let before = dw.bus_mut().ops();
    let r = dw.s_wait();
    match r {
        PendingResult::Done(ts) => assert_eq!(ts.value(), TIME_MAX),
        _ => panic!("expected a completed transmission"),
    }
    assert!(dw.is_finished());
    let b = dw.bus_mut();
    // The four sticky flags are cleared exactly once, by one write.
    assert_eq!(b.ops(), before + 4);
    assert_eq!(b.op_at(before), BusOp::ReadOk(Reg::EvcHpw, 0));
    assert_eq!(b.op_at(before + 1), BusOp::ReadOk(Reg::SysStatus, 0x82));
    assert_eq!(b.op_at(before + 2), BusOp::WriteOk(Reg::SysStatus, 0xF0));
    assert_eq!(b.op_at(before + 3), BusOp::ReadOk(Reg::TxTime, TIME_MAX));
}

#[test]
fn s_wait_rejects_a_timestamp_past_the_domain_boundary() {
    let mut dw = make_sending();
    dw.bus_mut().set_reg(Reg::SysStatus, 0x82);
    dw.bus_mut().set_reg(Reg::TxTime, TIME_MAX + 1);
    let r = dw.s_wait();
    assert_eq!(r, PendingResult::Failed(Error::Fcs));
    // The hardware did report frame-sent, so the observation stands even
    // though the timestamp was rejected.
    assert!(dw.is_finished());
}

#[test]
fn finish_after_completion_touches_no_register() {
    let mut dw = make_sending();
    dw.bus_mut().set_reg(Reg::SysStatus, 0x82);
    dw.bus_mut().set_reg(Reg::TxTime, 0x1234);
    match dw.s_wait() {
        PendingResult::Done(_) => (),
        _ => panic!("expected a completed transmission"),
    }
    let before = dw.bus_mut().ops();
    match dw.finish_sending() {
        Ok(mut ready) => assert_eq!(ready.bus_mut().ops(), before),
        Err(_) => panic!("expected a pure phase relabeling"),
    }
}

#[test]
fn finish_without_completion_forces_idle_then_clears_flags() {
    let mut dw = make_sending();
    let before = dw.bus_mut().ops();
    match dw.finish_sending() {
        Ok(mut ready) => {
            let b = ready.bus_mut();
            assert_eq!(b.ops(), before + 2);
            assert_eq!(b.op_at(before), BusOp::ForceIdleOk);
            assert_eq!(b.op_at(before + 1), BusOp::WriteOk(Reg::SysStatus, 0xF0));
        },
        Err(_) => panic!("expected the abort sequence to succeed"),
    }
}

#[test]
fn finish_failure_returns_the_still_usable_handle() {
    let mut dw = make_sending();
    dw.bus_mut().fail_in(0, 9);
    let before = dw.bus_mut().ops();
    let mut dw = match dw.finish_sending() {
        Err((h, e)) => {
            assert_eq!(e, Error::Bus(BusError { code: 9 }));
            h
        },
        Ok(_) => panic!("expected the forced idle to fail"),
    };
    {
        let b = dw.bus_mut();
        assert_eq!(b.ops(), before + 1);
        assert_eq!(b.op_at(before), BusOp::ForceIdleFail(BusError { code: 9 }));
    }
    // The returned handle retries cleanly.
    match dw.finish_sending() {
        Ok(mut ready) => {
            let b = ready.bus_mut();
            assert_eq!(b.ops(), before + 3);
            assert_eq!(b.op_at(before + 1), BusOp::ForceIdleOk);
            assert_eq!(b.op_at(before + 2), BusOp::WriteOk(Reg::SysStatus, 0xF0));
        },
        Err(_) => panic!("expected the retry to succeed"),
    }
}

#[test]
fn finish_flag_clear_failure_returns_the_handle() {
    let mut dw = make_sending();
    dw.bus_mut().fail_in(1, 9);
    let before = dw.bus_mut().ops();
    match dw.finish_sending() {
        Err((mut h, e)) => {
            assert_eq!(e, Error::Bus(BusError { code: 9 }));
            let b = h.bus_mut();
            assert_eq!(b.ops(), before + 2);
            assert_eq!(b.op_at(before), BusOp::ForceIdleOk);
            assert_eq!(
                b.op_at(before + 1),
                BusOp::WriteFail(Reg::SysStatus, 0xF0, BusError { code: 9 })
            );
        },
        Ok(_) => panic!("expected the flag clear to fail"),
    }
}

#[test]
fn tx_state_reads_the_state_machine_field() {
    let mut dw = make_sending();
    dw.bus_mut().set_reg(Reg::SysState, 0x300);
    assert_eq!(dw.tx_state(), Ok(3));
}

#[test]
fn sequence_counter_steps_once_per_cycle_and_wraps() {
    let mut dw = make_ready();
    assert_eq!(dw.sequence_number(), 0);
    dw.bus_mut().set_reg(Reg::SysStatus, 0x82);
    dw.bus_mut().set_reg(Reg::TxTime, 0x1234);
    let mut i: u32 = 0;
    while i < 300 {
        let mut sending = dw.start_sending();
        assert_eq!(sending.sequence_number() as u32, (i + 1) % 256);
        match sending.s_wait() {
            PendingResult::Done(ts) => assert_eq!(ts.value(), 0x1234),
            _ => panic!("expected a completed transmission"),
        }
        dw = match sending.finish_sending() {
            Ok(ready) => ready,
            Err(_) => panic!("expected a pure phase relabeling"),
        };
        i += 1;
    }
    // 300 modulo 256.
    assert_eq!(dw.sequence_number(), 44);
}

#[test]
fn instant_is_constructible_only_inside_the_domain() {
    assert!(Instant::new(0).is_some());
    let at_max = Instant::new(TIME_MAX).unwrap();
    assert_eq!(at_max.value(), TIME_MAX);
    assert!(Instant::new(TIME_MAX + 1).is_none());
    assert!(Instant::new(u64::MAX).is_none());
}

#[test]
fn config_follows_the_channel_nine_lookups() {
    let cfg = Config {
        channel: Channel::Ch9,
        sfd_sequence: SfdSequence::Ieee4a,
        pulse_repetition_frequency: PulseRepetitionFrequency::Mhz16,
        preamble_length: PreambleLength::Symbols64,
        frame_filtering: false,
    };
    let dw = DW3000::new(ready_bus());
    let dw = dw.init().unwrap();
    let mut dw = dw.config(cfg).unwrap();
    let b = dw.bus_mut();
    assert_eq!(b.op_at(7), BusOp::ModifyOk(Reg::DgcLut0, u64::MAX, 0x2A8FE));
    // Receive tuning disabled for the 16 MHz PRF.
    assert_eq!(b.op_at(16), BusOp::ModifyOk(Reg::DgcCfg, 0x7E01, 0x32 << 9));
    // Channel 9 (bit 0 set), IEEE SFD (0), preamble code 3 both ways.
    assert_eq!(
        b.op_at(17),
        BusOp::ModifyOk(Reg::ChanCtrl, 0x1FFF, 0x1 | (3 << 3) | (3 << 8))
    );
    assert_eq!(b.op_at(19), BusOp::ModifyOk(Reg::RfTxCtrl2, u64::MAX, 0x1C010034));
    assert_eq!(b.op_at(20), BusOp::ModifyOk(Reg::PllCfg, u64::MAX, 0x0A3C));
    // Preamble 64: chunk size code 1, sub-field cleared.
    assert_eq!(b.op_at(21), BusOp::ModifyOk(Reg::Dtune0, 0x13, 1));
}

#[test]
fn s_wait_can_be_repeated_until_completion() {
    let mut dw = make_sending();
    assert_eq!(dw.s_wait(), PendingResult::Pending);
    assert_eq!(dw.s_wait(), PendingResult::Pending);
    dw.bus_mut().set_reg(Reg::SysStatus, 0x82);
    dw.bus_mut().set_reg(Reg::TxTime, 0x42);
    match dw.s_wait() {
        PendingResult::Done(ts) => assert_eq!(ts.value(), 0x42),
        _ => panic!("expected a completed transmission"),
    }
}

#[test]
fn s_wait_surfaces_a_bus_error_without_marking_finished() {
    let mut dw = make_sending();
    dw.bus_mut().set_reg(Reg::SysStatus, 0x82);
    // Fail the flag-clear write, the third operation of the attempt.
    dw.bus_mut().fail_in(2, 6);
    let r = dw.s_wait();
    assert_eq!(r, PendingResult::Failed(Error::Bus(BusError { code: 6 })));
    // The completion was not positively recorded, so a later attempt can
    // still observe it.
    assert!(!dw.is_finished());
    dw.bus_mut().set_reg(Reg::TxTime, 0x42);
    match dw.s_wait() {
        PendingResult::Done(ts) => assert_eq!(ts.value(), 0x42),
        _ => panic!("expected a completed transmission"),
    }
}

#[test]
fn tx_state_surfaces_a_bus_error() {
    let mut dw = make_sending();
    dw.bus_mut().fail_in(0, 8);
    assert_eq!(dw.tx_state(), Err(Error::Bus(BusError { code: 8 })));
}

#[test]
fn lookup_constants_follow_the_channel() {
    assert_eq!(Channel::Ch9.get_recommended_rf_tx_ctrl_2(), 0x1C010034);
    assert_eq!(Channel::Ch5.get_recommended_pll_conf(), 0x1F3C);
    assert_eq!(
        Channel::Ch5.get_recommended_preamble_code(PulseRepetitionFrequency::Mhz16),
        4
    );
    assert_eq!(PreambleLength::Symbols4096.get_recommended_pac_size(), 3);
}
