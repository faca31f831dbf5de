use hpet::action::{Action, ClockReadings};
use hpet::state::{timer_handler, HPETState};

const CAP: u64 = 0x000;
const CFG: u64 = 0x010;
const STATUS: u64 = 0x020;
const COUNTER: u64 = 0x0f0;
const LEVEL: u64 = 1 << 1;
const INT_ENABLE: u64 = 1 << 2;

fn block() -> HPETState {
    let mut state = HPETState::new(3, 0, 4, true);
    state.realize(0, &mut Vec::new());
    state.reset_hold(0xfed0_0000, &mut Vec::new());
    state
}

fn timer_addr(timer: u64, offset: u64) -> u64 {
    0x100 + 0x20 * timer + offset
}

fn write(state: &mut HPETState, addr: u64, value: u64, now: u64) -> Vec<Action> {
    let mut out = Vec::new();
    state.write(addr, value, 8, &ClockReadings::at(now), &mut out);
    out
}

#[test]
fn realize_sets_up_the_block() {
    let mut state = HPETState::new(3, 0, 0, true);
    let mut out = Vec::new();
    state.realize(2, &mut out);
    assert_eq!(state.hpet_id, 2);
    assert_eq!(state.num_timers, 3);
    assert_eq!(state.capability, 0x0098_9680_8086_a201);
    assert_eq!(out.len(), 33);
    assert_eq!(out[0], Action::WarnIntRouteCapUnset);
    assert_eq!(out[1], Action::CreateTimer { index: 0 });
    assert_eq!(out[32], Action::CreateTimer { index: 31 });
    for i in 0..32 {
        assert_eq!(state.timers[i].index, i);
        assert!(state.timers[i].timer_created);
    }
    let mut quiet = HPETState::new(3, 0, 4, true);
    let mut out = Vec::new();
    quiet.realize(0, &mut out);
    assert_eq!(out.len(), 32);
}

#[test]
fn number_of_timers_is_clamped() {
    let mut few = HPETState::new(0, 0, 4, true);
    few.realize(0, &mut Vec::new());
    assert_eq!(few.num_timers, 3);
    let mut many = HPETState::new(255, 0, 4, true);
    many.realize(0, &mut Vec::new());
    assert_eq!(many.num_timers, 32);
    assert_eq!(many.capability, 0x0098_9680_8086_bf01);
    let mut some = HPETState::new(7, 0, 4, true);
    some.realize(0, &mut Vec::new());
    assert_eq!(some.num_timers, 7);
}

#[test]
fn reset_puts_everything_back() {
    let mut state = block();
    write(&mut state, CFG, 3, 1000);
    state.rtc_irq_level = 1;
    state.timers[0].config = LEVEL | INT_ENABLE;
    state.timers[1].config = INT_ENABLE;
    state.int_status = 3;
    let mut out = Vec::new();
    state.reset_hold(0xfed0_0000, &mut out);
    assert_eq!((state.config, state.counter, state.hpet_offset, state.rtc_irq_level), (0, 0, 0, 0));
    // Only the level-triggered interrupt is still active.
    assert_eq!(state.int_status, 1);
    assert_eq!(
        out,
        vec![
            Action::DeleteTimer { index: 0 },
            Action::LowerIrq { line: 0 },
            Action::DeleteTimer { index: 1 },
            Action::PulseIrq { line: 8 },
            Action::DeleteTimer { index: 2 },
            Action::SetPitEnabled { level: true },
            Action::UpdateFirmwareConfig {
                hpet_id: 0,
                block_id: 0x8086_a201,
                address: 0xfed0_0000,
            },
        ]
    );
    for i in 0..3 {
        assert_eq!(state.timers[i].config, 0x4_0000_0030);
        assert_eq!(state.timers[i].cmp, u64::MAX);
    }
    assert_eq!(state.timers[3].config, 0);
    assert_eq!(state.read(COUNTER, 8, 12345), 0);
}

#[test]
fn small_accessors() {
    let mut state = block();
    assert!(!state.has_msi_flag());
    state.flags = 1;
    assert!(state.has_msi_flag());
    state.flags = 2;
    assert!(!state.has_msi_flag());
    assert!(!state.is_hpet_enabled() && !state.is_legacy_mode());
    state.config = 1;
    assert!(state.is_hpet_enabled() && !state.is_legacy_mode());
    state.config = 2;
    assert!(!state.is_hpet_enabled() && state.is_legacy_mode());
    state.update_int_status(31, true);
    assert_eq!(state.int_status, 0x8000_0000);
    assert!(state.is_timer_int_active(31));
    state.update_int_status(31, false);
    assert!(!state.is_timer_int_active(31));
}

#[test]
fn offset_may_be_negative() {
    let mut state = block();
    state.hpet_offset = 0u64.wrapping_sub(5000);
    assert_eq!(state.get_ticks(5100), 10);
    assert_eq!(state.get_ns(10), 5100);
    assert_eq!(state.get_ticks(state.get_ns(77)), 77);
}

#[test]
fn counter_runs_halts_and_resumes() {
    let mut state = block();
    write(&mut state, COUNTER, 100, 0);
    assert_eq!(state.read(COUNTER, 8, 999), 100);
    write(&mut state, CFG, 1, 1_000_000);
    assert_eq!(state.read(COUNTER, 8, 1_000_000), 100);
    assert_eq!(state.read(COUNTER, 8, 1_000_009), 100);
    assert_eq!(state.read(COUNTER, 8, 1_000_010), 101);
    assert_eq!(state.read(COUNTER, 8, 2_000_000), 100_100);
    write(&mut state, CFG, 0, 2_000_000);
    assert_eq!(state.read(COUNTER, 8, 5_000_000), 100_100);
    write(&mut state, CFG, 1, 7_000_000);
    assert_eq!(state.read(COUNTER, 8, 7_000_020), 100_102);
    assert_eq!(state.read(COUNTER + 4, 4, 7_000_020), 0);
}

#[test]
fn counter_write_while_enabled_does_not_affect_the_ticks() {
    let mut state = block();
    write(&mut state, CFG, 1, 0);
    write(&mut state, COUNTER, 0x1234, 0);
    assert_eq!(state.read(COUNTER, 8, 500), 50);
    assert_eq!(state.counter, 0x1234);
}

#[test]
fn each_timer_sees_its_own_clock_reading() {
    let mut state = block();
    for i in 0..3 {
        state.timers[i].config |= 1 << 8;
        state.timers[i].cmp = 5;
    }
    let mut clock = ClockReadings::at(1000);
    clock.timers[1] = 1050;
    clock.timers[2] = 1060;
    let mut out = Vec::new();
    state.write(CFG, 1, 8, &clock, &mut out);
    assert_eq!(state.timers[0].cmp64, 5);
    assert_eq!(state.timers[1].cmp64, 5);
    assert_eq!(state.timers[2].cmp64, 0x1_0000_0005);
    assert_eq!(
        out,
        vec![
            Action::ArmTimer { index: 0, expire_ns: 1050 },
            Action::ArmTimer { index: 1, expire_ns: 1050 },
            Action::ArmTimer { index: 2, expire_ns: 1000 + 0xa_0000_0000 },
        ]
    );
    assert_eq!(state.timers[2].wrap_flag, 1);
}

#[test]
fn enabling_brings_pending_interrupts() {
    let mut state = block();
    state.int_status = 7;
    state.timers[0].config = LEVEL | INT_ENABLE | 4 << 9;
    state.timers[1].config = INT_ENABLE | 5 << 9;
    state.timers[2].config = LEVEL | 6 << 9;
    for i in 0..3 {
        state.timers[i].cmp = 100;
    }
    let out = write(&mut state, CFG, 1, 0);
    assert_eq!(
        out,
        vec![
            Action::RaiseIrq { line: 4 },
            Action::ArmTimer { index: 0, expire_ns: 1000 },
            Action::PulseIrq { line: 5 },
            Action::ArmTimer { index: 1, expire_ns: 1000 },
            Action::ArmTimer { index: 2, expire_ns: 1000 },
        ]
    );
    assert_eq!(state.int_status, 5);
}

#[test]
fn disabling_stops_the_timers_and_lowers_their_lines() {
    let mut state = block();
    write(&mut state, CFG, 1, 0);
    state.int_status = 3;
    state.timers[0].config = LEVEL | INT_ENABLE | 4 << 9;
    state.timers[1].config = INT_ENABLE | 5 << 9;
    let out = write(&mut state, CFG, 0, 70);
    assert_eq!(
        out,
        vec![
            Action::DeleteTimer { index: 0 },
            Action::LowerIrq { line: 4 },
            Action::DeleteTimer { index: 1 },
            Action::LowerIrq { line: 5 },
            Action::DeleteTimer { index: 2 },
        ]
    );
    assert_eq!(state.int_status, 1);
    assert_eq!(state.counter, 7);
}

#[test]
fn reserved_configuration_bits_stay_clear() {
    let mut state = block();
    write(&mut state, CFG, u64::MAX, 0);
    assert_eq!(state.read(CFG, 8, 0), 3);
    write(&mut state, CFG, 0xfffc, 0);
    assert_eq!(state.read(CFG, 8, 0), 0);
}

#[test]
fn legacy_replacement_keeps_pit_and_rtc_away() {
    let mut state = block();
    let mut out = Vec::new();
    state.handle_legacy_irq(0, 1, &mut out);
    state.handle_legacy_irq(1, 1, &mut out);
    assert_eq!(
        out,
        vec![
            Action::SetIrq { line: 0, level: true },
            Action::SetIrq { line: 8, level: true },
        ]
    );
    assert_eq!(state.rtc_irq_level, 1);

    let out = write(&mut state, CFG, 2, 0);
    assert_eq!(
        out,
        vec![
            Action::SetPitEnabled { level: false },
            Action::LowerIrq { line: 0 },
            Action::LowerIrq { line: 8 },
        ]
    );

    let mut out = Vec::new();
    state.handle_legacy_irq(0, 0, &mut out);
    state.handle_legacy_irq(1, 0, &mut out);
    state.handle_legacy_irq(1, 5, &mut out);
    assert_eq!(out, vec![]);

    let out = write(&mut state, CFG, 0, 0);
    assert_eq!(
        out,
        vec![
            Action::LowerIrq { line: 0 },
            Action::SetPitEnabled { level: true },
            Action::SetIrq { line: 8, level: true },
        ]
    );
}

#[test]
fn rtc_level_may_be_low_when_legacy_replacement_ends() {
    let mut state = block();
    write(&mut state, CFG, 2, 0);
    let out = write(&mut state, CFG, 0, 0);
    assert_eq!(out[2], Action::SetIrq { line: 8, level: false });
}

#[test]
fn status_bits_are_cleared_by_ones() {
    let mut state = block();
    state.int_status = 0xf;
    state.timers[1].config = LEVEL | INT_ENABLE | 7 << 9;
    let out = write(&mut state, STATUS, 0x2, 0);
    assert_eq!(state.read(STATUS, 8, 0), 0xd);
    assert_eq!(out, vec![Action::LowerIrq { line: 7 }]);
    let out = write(&mut state, STATUS, 0, 0);
    assert_eq!((state.int_status, out), (0xd, vec![]));
    // Timer 3 is not among the three timers of the block.
    let out = write(&mut state, STATUS, u64::MAX, 0);
    assert_eq!(state.int_status, 0x8);
    assert_eq!(out, vec![Action::LowerIrq { line: 0 }, Action::LowerIrq { line: 0 }]);
    let mut out = Vec::new();
    state.write(STATUS + 4, 0xf, 4, &ClockReadings::at(0), &mut out);
    assert_eq!((state.int_status, out), (0x8, vec![]));
}

#[test]
fn capability_register_is_read_only() {
    let mut state = block();
    let before = state.clone();
    let out = write(&mut state, CAP, u64::MAX, 0);
    assert_eq!(out, vec![]);
    assert_eq!(state, before);
    assert_eq!(state.read(CAP, 8, 0), 0x0098_9680_8086_a201);
    assert_eq!(state.read(CAP + 4, 4, 0), 10_000_000);
}

#[test]
fn reserved_addresses_do_nothing() {
    for addr in [0x008, 0x018, 0x028, 0x0e8, 0x0f8, 0x011, 0x118, 0x138, 0x3e0, 0x400, u64::MAX] {
        let mut state = block();
        let before = state.clone();
        let out = write(&mut state, addr, u64::MAX, 0);
        assert_eq!(out, vec![]);
        assert_eq!(state, before);
        assert_eq!(state.read(addr, 8, 0), 0);
    }
}

#[test]
fn timer_addresses() {
    let state = block();
    assert_eq!(state.timer_and_addr(0x100), Some((0, 0)));
    assert_eq!(state.timer_and_addr(0x128), Some((1, 8)));
    assert_eq!(state.timer_and_addr(0x15c), Some((2, 0x1c)));
    // The timer after the last one answers, too.
    assert_eq!(state.timer_and_addr(0x160), Some((3, 0)));
    assert_eq!(state.timer_and_addr(0x180), None);
    assert_eq!(state.timer_and_addr(0x3ff), None);
    assert_eq!(state.timer_and_addr(0x1_0000), None);
}

#[test]
fn timer_registers_read_back() {
    let mut state = block();
    write(&mut state, timer_addr(1, 0), 0x104, 0);
    assert_eq!(state.read(timer_addr(1, 0), 8, 0), 0x4_0000_0134);
    write(&mut state, timer_addr(1, 8), 0x9_0000_0007, 0);
    assert_eq!(state.read(timer_addr(1, 8), 8, 0), 7);
    write(&mut state, timer_addr(2, 8), 0x9_0000_0007, 0);
    assert_eq!(state.read(timer_addr(2, 8), 8, 0), 0x9_0000_0007);
    assert_eq!(state.read(timer_addr(2, 12), 4, 0), 9);
    write(&mut state, timer_addr(2, 16), 0xfee0_0000_0000_0041, 0);
    assert_eq!(state.read(timer_addr(2, 16), 8, 0), 0xfee0_0000_0000_0041);
    assert_eq!(state.timers[0].cmp, u64::MAX);
}

fn write_half(state: &mut HPETState, addr: u64, value: u64) -> Vec<Action> {
    let mut out = Vec::new();
    state.write(addr, value, 4, &ClockReadings::at(0), &mut out);
    out
}

#[test]
fn halves_of_registers_read_back() {
    let mut state = block();
    write_half(&mut state, CFG, 0xffff_ffff);
    assert_eq!(state.read(CFG, 8, 0), 3);
    write_half(&mut state, CFG + 4, 0xffff_ffff);
    assert_eq!(state.read(CFG, 8, 0), 3);
    write_half(&mut state, CFG, 0);
    assert_eq!(state.read(CFG, 8, 0), 0);

    write_half(&mut state, timer_addr(1, 8), 0x1111);
    assert_eq!(state.read(timer_addr(1, 8), 8, 0), 0xffff_ffff_0000_1111);
    write_half(&mut state, timer_addr(1, 12), 0x2222);
    assert_eq!(state.read(timer_addr(1, 8), 8, 0), 0x2222_0000_1111);
    write_half(&mut state, timer_addr(1, 20), 0x3333);
    assert_eq!(state.read(timer_addr(1, 16), 8, 0), 0x3333_0000_0000);
    write_half(&mut state, timer_addr(1, 0), 0x100);
    assert_eq!(state.read(timer_addr(1, 0), 8, 0), 0x4_0000_0130);
    let before = state.clone();
    write_half(&mut state, timer_addr(1, 4), 0xffff_ffff);
    assert_eq!(state, before);
    // The timer is in 32-bit mode now, so its comparator has no high half.
    assert_eq!(state.read(timer_addr(1, 8), 8, 0), 0x1111);
    let out = write_half(&mut state, timer_addr(1, 12), 0x2222);
    assert_eq!((state.clone(), out), (before, vec![]));
}

#[test]
fn counter_runs_across_a_wrap_of_the_clock() {
    let mut state = block();
    write(&mut state, COUNTER, 100, 0);
    write(&mut state, CFG, 1, u64::MAX - 9);
    assert_eq!(state.read(COUNTER, 8, u64::MAX), 100);
    assert_eq!(state.read(COUNTER, 8, 0), 101);
    assert_eq!(state.read(COUNTER, 8, 25), 103);
}

#[test]
fn running_timer_is_set_anew_by_a_write() {
    let mut state = block();
    write(&mut state, CFG, 1, 1000);
    let out = write(&mut state, timer_addr(0, 8), 500, 1000);
    assert_eq!(out, vec![Action::ArmTimer { index: 0, expire_ns: 6000 }]);
    assert_eq!(state.timers[0].last, 6000);
}

#[test]
fn periodic_timer_from_the_guest_side() {
    let mut state = block();
    write(&mut state, timer_addr(0, 0), 0x4e | 2 << 9, 0);
    write(&mut state, timer_addr(0, 8), 1000, 0);
    let out = write(&mut state, CFG, 1, 0);
    assert_eq!(out[0], Action::ArmTimer { index: 0, expire_ns: 10_000 });

    let mut out = Vec::new();
    timer_handler(&mut state, 0, 10_000, &mut out);
    // The timer expires on the very tick of its match, so it is armed for it again.
    assert_eq!(
        out,
        vec![
            Action::ArmTimer { index: 0, expire_ns: 11_000 },
            Action::RaiseIrq { line: 2 },
        ]
    );
    assert_eq!(state.read(STATUS, 8, 10_000), 1);

    let mut out = Vec::new();
    timer_handler(&mut state, 0, 11_000, &mut out);
    assert_eq!(out[0], Action::ArmTimer { index: 0, expire_ns: 20_000 });
    assert_eq!(state.read(timer_addr(0, 8), 8, 11_000), 2000);

    let out = write(&mut state, STATUS, 1, 11_000);
    assert_eq!(out, vec![Action::LowerIrq { line: 2 }]);
    assert_eq!(state.int_status, 0);
}

#[test]
fn expiration_touches_its_own_timer_only() {
    let mut state = block();
    write(&mut state, CFG, 1, 0);
    let before = state.clone();
    let mut out = Vec::new();
    timer_handler(&mut state, 2, 5000, &mut out);
    assert_eq!(state.timers[0], before.timers[0]);
    assert_eq!(state.timers[1], before.timers[1]);
    assert_eq!(out, vec![Action::LowerIrq { line: 0 }]);
}

#[test]
fn any_sequence_of_writes_keeps_the_block_in_order() {
    let mut state = HPETState::new(5, 1, 0xffff_ffff, true);
    state.realize(0, &mut Vec::new());
    state.reset_hold(0, &mut Vec::new());
    let capability = state.capability;
    let mut seed: u64 = 1;
    let mut now: u64 = 0;
    for _ in 0..20_000 {
        seed = seed.wrapping_mul(6364136223846793005).wrapping_add(1442695040888963407);
        let addr = (seed >> 20) % 0x1c0 & !3;
        let value = seed.rotate_left(17) ^ (seed >> 7);
        let size = if seed >> 63 == 0 { 4 } else { 8 };
        now += (seed >> 40) % 5000;
        let configs: Vec<u64> = state.timers.iter().map(|t| t.config & !0x7f4e).collect();
        let mut out = Vec::new();
        state.write(addr, value, size, &ClockReadings::at(now), &mut out);

        assert!(state.config <= 3);
        assert!(state.int_status <= 0xffff_ffff);
        assert_eq!(state.capability, capability);
        for (i, t) in state.timers.iter().enumerate() {
            assert_eq!(t.index, i);
            assert!(t.wrap_flag <= 1);
            assert_eq!(t.config & !0x7f4e, configs[i]);
            if t.is_32bit_mod() {
                assert!(t.cmp <= 0xffff_ffff && t.period <= 0xffff_ffff);
            }
        }
        for action in out {
            match action {
                Action::RaiseIrq { line } | Action::PulseIrq { line } => {
                    assert!(line < 32 && state.is_hpet_enabled());
                }
                Action::LowerIrq { line } | Action::SetIrq { line, .. } => assert!(line < 32),
                Action::ArmTimer { index, expire_ns } => {
                    assert!(state.is_hpet_enabled());
                    assert_eq!(state.timers[index].last, expire_ns);
                }
                Action::DeleteTimer { index } => assert!(index < 32),
                Action::StoreMessage { .. } => assert!(state.is_hpet_enabled()),
                _ => {}
            }
        }
    }
}
