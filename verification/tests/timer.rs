use hpet::action::Action;
use hpet::state::HPETState;
use hpet::timer::HPETTimer;

const LEVEL: u64 = 1 << 1;
const INT_ENABLE: u64 = 1 << 2;
const PERIODIC: u64 = 1 << 3;
const SETVAL: u64 = 1 << 6;
const MODE_32BIT: u64 = 1 << 8;
const FSB: u64 = 1 << 14;

/// A realized block whose counter runs without an offset.
fn enabled_block() -> HPETState {
    let mut state = HPETState::new(3, 0, 4, true);
    state.realize(0, &mut Vec::new());
    state.config = 1;
    state
}

fn halted_block() -> HPETState {
    let mut state = enabled_block();
    state.config = 0;
    state
}

fn timer(index: usize, config: u64) -> HPETTimer {
    let mut t = HPETTimer::default();
    t.init(index);
    t.timer_created = true;
    t.config = config;
    t
}

fn route(line: u64) -> u64 {
    line << 9
}

#[test]
fn default_timer_is_blank() {
    let t = HPETTimer::default();
    assert_eq!((t.index, t.timer_created, t.config, t.cmp, t.fsb), (0, false, 0, 0, 0));
    assert_eq!((t.cmp64, t.period, t.wrap_flag, t.last), (0, 0, 0, 0));
}

#[test]
fn init_clears_all_but_the_index() {
    let mut t = timer(1, u64::MAX);
    t.cmp = 9;
    t.last = 9;
    let mut out = Vec::new();
    t.init(7).init_timer_with_state(&mut out);
    let mut expected = HPETTimer::default();
    expected.index = 7;
    expected.timer_created = true;
    assert_eq!(t, expected);
    assert_eq!(out, vec![Action::CreateTimer { index: 7 }]);
}

#[test]
fn configuration_bits() {
    assert!(timer(0, FSB).is_fsb_route_enabled());
    assert!(timer(0, PERIODIC).is_periodic());
    assert!(timer(0, INT_ENABLE).is_int_enabled());
    assert!(timer(0, MODE_32BIT).is_32bit_mod());
    assert!(timer(0, SETVAL).is_valset_enabled());
    assert!(timer(0, LEVEL).is_int_level_triggered());
    let none = timer(0, !(FSB | PERIODIC | INT_ENABLE | MODE_32BIT | SETVAL | LEVEL));
    assert!(!none.is_fsb_route_enabled());
    assert!(!none.is_periodic());
    assert!(!none.is_int_enabled());
    assert!(!none.is_32bit_mod());
    assert!(!none.is_valset_enabled());
    assert!(!none.is_int_level_triggered());
    let mut all = timer(0, u64::MAX);
    all.clear_valset();
    assert_eq!(all.config, !SETVAL);
}

#[test]
fn next_match_in_both_modes() {
    let wide = timer(0, 0);
    assert_eq!(wide.calculate_cmp64(0x5_0000_0010, 0x20), 0x20);
    let narrow = timer(0, MODE_32BIT);
    assert_eq!(narrow.calculate_cmp64(0x5_0000_0010, 0x20), 0x5_0000_0020);
    assert_eq!(narrow.calculate_cmp64(0x5_0000_0010, 0x10), 0x5_0000_0010);
    assert_eq!(narrow.calculate_cmp64(0x5_0000_0010, 0x0f), 0x6_0000_000f);
    assert_eq!(narrow.calculate_cmp64(0x5_0000_0010, 0x9_0000_0020), 0x5_0000_0020);
    assert_eq!(narrow.calculate_cmp64(u64::MAX, 0), 0);
}

#[test]
fn routes() {
    let mut state = enabled_block();
    assert_eq!(timer(2, route(31)).get_individual_route(), 31);
    assert_eq!(timer(2, !route(31)).get_individual_route(), 0);
    assert_eq!(timer(0, route(20)).get_int_route(&state), 20);
    assert_eq!(timer(1, route(21)).get_int_route(&state), 21);
    state.config = 3;
    assert_eq!(timer(0, route(20)).get_int_route(&state), 0);
    assert_eq!(timer(1, route(21)).get_int_route(&state), 8);
    assert_eq!(timer(2, route(22)).get_int_route(&state), 22);
}

#[test]
fn level_interrupt_is_raised_and_stays_in_the_status() {
    let mut state = enabled_block();
    let mut out = Vec::new();
    timer(2, LEVEL | INT_ENABLE | route(5)).update_irq(&mut state, true, &mut out);
    assert_eq!(out, vec![Action::RaiseIrq { line: 5 }]);
    assert_eq!(state.int_status, 4);
}

#[test]
fn edge_interrupt_is_pulsed_and_leaves_no_status() {
    let mut state = enabled_block();
    state.int_status = 7;
    let mut out = Vec::new();
    timer(2, INT_ENABLE | route(5)).update_irq(&mut state, true, &mut out);
    assert_eq!(out, vec![Action::PulseIrq { line: 5 }]);
    assert_eq!(state.int_status, 3);
}

#[test]
fn fsb_interrupt_is_a_message() {
    let mut state = enabled_block();
    let mut t = timer(0, FSB | INT_ENABLE);
    t.fsb = 0xfee0_1000_0000_4051;
    let mut out = Vec::new();
    t.update_irq(&mut state, true, &mut out);
    assert_eq!(out, vec![Action::StoreMessage { addr: 0xfee0_1000, value: 0x4051 }]);
    out.clear();
    t.update_irq(&mut state, false, &mut out);
    assert_eq!(out, vec![]);
}

#[test]
fn legacy_replacement_overrides_fsb_routing_of_timers_0_and_1() {
    let mut state = enabled_block();
    state.config = 3;
    for (index, line) in [(0, 0), (1, 8)] {
        let mut t = timer(index, FSB | INT_ENABLE | route(20));
        t.fsb = 0xfee0_1000_0000_4051;
        let mut out = Vec::new();
        t.set_irq(&state, true, &mut out);
        t.set_irq(&state, false, &mut out);
        t.config |= LEVEL;
        t.set_irq(&state, true, &mut out);
        assert_eq!(
            out,
            vec![
                Action::PulseIrq { line },
                Action::LowerIrq { line },
                Action::RaiseIrq { line },
            ]
        );
        assert!(!t.is_fsb_routed(&state));
    }
    let mut t = timer(2, FSB | INT_ENABLE | route(20));
    t.fsb = 0xfee0_1000_0000_4051;
    let mut out = Vec::new();
    t.set_irq(&state, true, &mut out);
    assert_eq!(out, vec![Action::StoreMessage { addr: 0xfee0_1000, value: 0x4051 }]);
    assert!(t.is_fsb_routed(&state));
}

#[test]
fn disabled_interrupt_only_shows_in_the_status() {
    let mut state = enabled_block();
    let mut out = Vec::new();
    timer(1, LEVEL | route(6)).update_irq(&mut state, true, &mut out);
    assert_eq!(out, vec![Action::LowerIrq { line: 6 }]);
    assert_eq!(state.int_status, 2);
    assert!(timer(1, 0).is_int_active(&state));
    assert!(!timer(0, 0).is_int_active(&state));
}

#[test]
fn one_shot_timer_expires_on_its_tick() {
    let mut state = enabled_block();
    state.hpet_offset = 500;
    let mut t = timer(2, 0);
    t.cmp = 1000;
    let mut out = Vec::new();
    t.set_timer(&state, 0, &mut out);
    assert_eq!(out, vec![Action::ArmTimer { index: 2, expire_ns: 9500 }]);
    assert_eq!((t.cmp64, t.last, t.wrap_flag), (1000, 9500, 0));
    assert_eq!(state.get_ticks(t.last), 1000);
    assert_eq!(state.get_ticks(t.last - 1), 999);
}

#[test]
fn periodic_timer_is_not_armed_too_soon() {
    let state = enabled_block();
    let mut t = timer(0, PERIODIC);
    t.last = 10_000;
    let mut out = Vec::new();
    t.arm_timer(&state, 1_050, &mut out);
    assert_eq!(t.last, 11_000);
    t.arm_timer(&state, 1_200, &mut out);
    assert_eq!(t.last, 12_000);
    // A time that is over is not put off.
    t.arm_timer(&state, 100, &mut out);
    assert_eq!(t.last, 1_000);
    let mut once = timer(0, 0);
    once.last = 10_000;
    once.arm_timer(&state, 1_050, &mut out);
    assert_eq!(once.last, 10_500);
}

#[test]
fn narrow_one_shot_timer_expires_at_the_wrap_and_at_the_match() {
    let mut state = enabled_block();
    let mut t = timer(0, MODE_32BIT | INT_ENABLE | route(3));
    t.cmp = 0x10;
    let mut out = Vec::new();
    // The counter is at 0x20, so the match lies past the wrap.
    t.set_timer(&state, 0x140, &mut out);
    assert_eq!(t.cmp64, 0x1_0000_0010);
    assert_eq!(t.wrap_flag, 1);
    assert_eq!(out, vec![Action::ArmTimer { index: 0, expire_ns: 0xa_0000_0000 }]);

    out.clear();
    t.callback(&mut state, 0xa_0000_0000, &mut out);
    assert_eq!(t.wrap_flag, 0);
    assert_eq!(
        out,
        vec![
            Action::ArmTimer { index: 0, expire_ns: 0xa_0000_00a0 },
            Action::PulseIrq { line: 3 },
        ]
    );

    out.clear();
    t.callback(&mut state, 0xa_0000_00a0, &mut out);
    assert_eq!(out, vec![Action::PulseIrq { line: 3 }]);
}

#[test]
fn narrow_match_at_the_wrap_itself_needs_no_extra_expiration() {
    let state = enabled_block();
    let mut t = timer(0, MODE_32BIT);
    t.cmp = 0;
    let mut out = Vec::new();
    t.set_timer(&state, 0x140, &mut out);
    assert_eq!((t.cmp64, t.wrap_flag), (0x1_0000_0000, 0));
}

#[test]
fn periodic_expiration_catches_up() {
    let mut state = enabled_block();
    let mut t = timer(1, PERIODIC | LEVEL | INT_ENABLE | route(9));
    t.period = 1000;
    t.cmp64 = 5000;
    t.cmp = 5000;
    t.last = 50_000;
    let mut out = Vec::new();
    t.callback(&mut state, 72_000, &mut out);
    assert_eq!((t.cmp64, t.cmp, t.last), (8000, 8000, 80_000));
    assert_eq!(
        out,
        vec![
            Action::ArmTimer { index: 1, expire_ns: 80_000 },
            Action::RaiseIrq { line: 9 },
        ]
    );
    assert_eq!(state.int_status, 2);
}

#[test]
fn narrow_periodic_expiration_truncates_the_comparator() {
    let mut state = enabled_block();
    let mut t = timer(1, PERIODIC | MODE_32BIT);
    t.period = 0x20;
    t.cmp64 = 0xffff_fff0;
    let mut out = Vec::new();
    t.callback(&mut state, 0xffff_fff1 * 10, &mut out);
    assert_eq!(t.cmp64, 0x1_0000_0010);
    assert_eq!(t.cmp, 0x10);
}

#[test]
fn periodic_timer_without_a_period_is_done() {
    let mut state = enabled_block();
    let mut t = timer(1, PERIODIC | INT_ENABLE | route(2));
    let before = t;
    let mut out = Vec::new();
    t.callback(&mut state, 72_000, &mut out);
    assert_eq!(t, before);
    assert_eq!(out, vec![Action::PulseIrq { line: 2 }]);
}

#[test]
fn stopping_lowers_a_pending_level_interrupt_of_a_disabled_block() {
    let mut state = halted_block();
    state.int_status = 4;
    let mut out = Vec::new();
    timer(2, LEVEL | INT_ENABLE | route(5)).del_timer(&mut state, &mut out);
    assert_eq!(state.int_status, 4);
    assert_eq!(out, vec![Action::DeleteTimer { index: 2 }, Action::LowerIrq { line: 5 }]);
    out.clear();
    timer(1, LEVEL).del_timer(&mut state, &mut out);
    assert_eq!(out, vec![Action::DeleteTimer { index: 1 }]);
}

#[test]
fn stopping_lowers_a_pending_level_interrupt_of_an_enabled_block() {
    let mut state = enabled_block();
    state.int_status = 7;
    let mut out = Vec::new();
    timer(2, LEVEL | INT_ENABLE | route(5)).del_timer(&mut state, &mut out);
    assert_eq!(state.int_status, 7);
    assert_eq!(out, vec![Action::DeleteTimer { index: 2 }, Action::LowerIrq { line: 5 }]);
    // An edge-triggered interrupt is driven once more, and a message sent.
    out.clear();
    timer(1, INT_ENABLE | route(6)).del_timer(&mut state, &mut out);
    assert_eq!(state.int_status, 5);
    assert_eq!(out, vec![Action::DeleteTimer { index: 1 }, Action::PulseIrq { line: 6 }]);
    out.clear();
    let mut t = timer(0, FSB | LEVEL | INT_ENABLE);
    t.fsb = 0x10_0000_0020;
    t.del_timer(&mut state, &mut out);
    assert_eq!(state.int_status, 5);
    assert_eq!(
        out,
        vec![
            Action::DeleteTimer { index: 0 },
            Action::StoreMessage { addr: 0x10, value: 0x20 },
        ]
    );
}

#[test]
fn configuration_keeps_read_only_bits() {
    let mut state = halted_block();
    let mut t = timer(0, 0xf0_0000_8030);
    let mut out = Vec::new();
    t.set_tn_cfg_reg(&mut state, 0, 64, u64::MAX, 0, &mut out);
    assert_eq!(t.config, 0xf0_0000_ff7e);
    t.set_tn_cfg_reg(&mut state, 0, 32, 0, 0, &mut out);
    assert_eq!(t.config, 0xf0_0000_8030);
    t.set_tn_cfg_reg(&mut state, 32, 32, u64::MAX, 0, &mut out);
    assert_eq!(t.config, 0xf0_0000_8030);
    assert_eq!(out, vec![]);
}

#[test]
fn leaving_level_mode_lowers_the_line() {
    let mut state = halted_block();
    state.int_status = 1;
    let mut t = timer(0, LEVEL | INT_ENABLE | route(4));
    let mut out = Vec::new();
    t.set_tn_cfg_reg(&mut state, 0, 32, FSB | INT_ENABLE | route(7), 0, &mut out);
    assert_eq!(state.int_status, 0);
    assert_eq!(out, vec![Action::LowerIrq { line: 4 }]);
    assert_eq!(t.config, FSB | INT_ENABLE | route(7));
}

#[test]
fn enabling_the_interrupt_brings_the_pending_one() {
    let mut state = enabled_block();
    state.int_status = 1;
    let mut t = timer(0, LEVEL | route(4));
    t.cmp = 100;
    let mut out = Vec::new();
    t.set_tn_cfg_reg(&mut state, 0, 32, LEVEL | INT_ENABLE | route(4), 0, &mut out);
    assert_eq!(
        out,
        vec![
            Action::RaiseIrq { line: 4 },
            Action::ArmTimer { index: 0, expire_ns: 1000 },
        ]
    );
    assert_eq!(state.int_status, 1);
}

#[test]
fn narrowing_drops_the_high_halves() {
    let mut state = halted_block();
    let mut t = timer(0, 0);
    t.cmp = 0x1_0000_0002;
    t.period = 0x3_0000_0004;
    let mut out = Vec::new();
    t.set_tn_cfg_reg(&mut state, 0, 32, MODE_32BIT, 0, &mut out);
    assert_eq!((t.cmp, t.period), (2, 4));
}

#[test]
fn one_shot_comparator_is_written() {
    let state = halted_block();
    let mut t = timer(0, SETVAL);
    let mut out = Vec::new();
    t.set_tn_cmp_reg(&state, 0, 32, 0x1234, 0, &mut out);
    t.set_tn_cmp_reg(&state, 32, 32, 0x5678, 0, &mut out);
    assert_eq!((t.cmp, t.period, t.config), (0x5678_0000_1234, 0, 0));
    assert_eq!(out, vec![]);
}

#[test]
fn periodic_comparator_is_written_with_value_set_only() {
    let state = enabled_block();
    let mut t = timer(0, PERIODIC | SETVAL);
    let mut out = Vec::new();
    t.set_tn_cmp_reg(&state, 0, 64, 5000, 0, &mut out);
    assert_eq!((t.cmp, t.period, t.config), (5000, 5000, PERIODIC));
    t.set_tn_cmp_reg(&state, 0, 64, 700, 0, &mut out);
    assert_eq!((t.cmp, t.period), (5000, 700));
    assert_eq!(
        out,
        vec![
            Action::ArmTimer { index: 0, expire_ns: 50_000 },
            Action::ArmTimer { index: 0, expire_ns: 51_000 },
        ]
    );
}

#[test]
fn narrow_comparator_has_no_high_half() {
    let state = halted_block();
    let mut t = timer(0, MODE_32BIT | SETVAL);
    let mut out = Vec::new();
    t.set_tn_cmp_reg(&state, 32, 32, 0x5678, 0, &mut out);
    assert_eq!((t.cmp, t.config), (0, MODE_32BIT | SETVAL));
    t.set_tn_cmp_reg(&state, 0, 32, 0x9_0000_1234, 0, &mut out);
    assert_eq!((t.cmp, t.config), (0x1234, MODE_32BIT));
}

#[test]
fn reset_timer_tells_what_it_can_do() {
    let mut state = halted_block();
    state.int_status = 2;
    let mut t = timer(1, LEVEL | route(3));
    t.period = 5;
    t.wrap_flag = 1;
    t.fsb = 6;
    let mut out = Vec::new();
    t.reset(&mut state, &mut out);
    assert_eq!((t.config, t.cmp, t.period, t.wrap_flag, t.fsb), (0x4_0000_0030, u64::MAX, 0, 0, 6));
    assert_eq!(out, vec![Action::DeleteTimer { index: 1 }, Action::LowerIrq { line: 3 }]);
    state.flags = 1;
    t.reset(&mut state, &mut out);
    assert_eq!(t.config, 0x4_0000_8030);
}

#[test]
fn timer_registers_are_read_and_written() {
    let mut state = halted_block();
    let mut t = timer(0, 0);
    let mut out = Vec::new();
    t.write(&mut state, 0x00, 0x7f4e, 4, 0, &mut out);
    assert_eq!(t.read(0x00, 4), 0x7f4e);
    t.write(&mut state, 0x00, 0, 4, 0, &mut out);
    t.write(&mut state, 0x08, 0x1122_3344_5566_7788, 8, 0, &mut out);
    assert_eq!(t.read(0x08, 8), 0x1122_3344_5566_7788);
    assert_eq!(t.read(0x0c, 4), 0x1122_3344);
    t.write(&mut state, 0x14, 0xfee0_0000, 4, 0, &mut out);
    t.write(&mut state, 0x10, 0x41, 4, 0, &mut out);
    assert_eq!(t.read(0x10, 8), 0xfee0_0000_0000_0041);
    let before = t;
    t.write(&mut state, 0x18, 1, 4, 0, &mut out);
    assert_eq!(t, before);
    assert_eq!(t.read(0x18, 4), 0);
    assert_eq!(t.read(0x02, 4), 0);
}
