use lib348::button::{check_btn, init_pins, read_pin, States};
use lib348::debounce::{debounce_input, fsm, SwitchStatus, DEBOUNCE_RELEASE, PRESSED, RELEASED, WAITING};
use lib348::regs::RegOp;

#[test]
fn the_state_table() {
    assert_eq!(fsm(WAITING).next, [WAITING, PRESSED]);
    assert_eq!(fsm(PRESSED).next, [DEBOUNCE_RELEASE, PRESSED]);
    assert_eq!(fsm(DEBOUNCE_RELEASE).next, [RELEASED, RELEASED]);
    assert_eq!(fsm(RELEASED).out, 1);
    assert_eq!(fsm(PRESSED).min_time, 5);
}

#[test]
fn a_press_and_release_is_reported_once() {
    let mut s = SwitchStatus { pin: 2, cur_state: WAITING, next_change: 0 };
    assert!(!debounce_input(&mut s, 0, 0));
    assert_eq!(s.cur_state, WAITING);
    assert!(!debounce_input(&mut s, 1, 1));
    assert_eq!((s.cur_state, s.next_change), (PRESSED, 6));
    // Bounces inside the bounce time are ignored.
    assert!(!debounce_input(&mut s, 3, 0));
    assert_eq!((s.cur_state, s.next_change), (PRESSED, 6));
    assert!(!debounce_input(&mut s, 6, 0));
    assert_eq!((s.cur_state, s.next_change), (DEBOUNCE_RELEASE, 11));
    assert!(!debounce_input(&mut s, 8, 1));
    assert!(debounce_input(&mut s, 11, 1));
    assert_eq!((s.cur_state, s.next_change), (RELEASED, 11));
    assert!(!debounce_input(&mut s, 11, 0));
    assert_eq!(s.cur_state, WAITING);
    assert_eq!(s.pin, 2);
}

#[test]
fn check_btn_needs_the_press_and_release_to_last() {
    let mut counter: u64 = 1;
    let mut state = States::WAITING;
    assert!(!check_btn(&mut counter, &mut state, 1));
    assert_eq!((state, counter), (States::PRESSED, 0));
    for t in 1..=7u64 {
        counter = t;
        assert!(!check_btn(&mut counter, &mut state, 0));
        assert_eq!(state, States::PRESSED);
    }
    counter = 8;
    assert!(!check_btn(&mut counter, &mut state, 0));
    assert_eq!((state, counter), (States::DEBOUNCE_RELEASE, 0));
    counter = 3;
    assert!(!check_btn(&mut counter, &mut state, 1));
    counter = 4;
    assert!(check_btn(&mut counter, &mut state, 1));
    assert_eq!((state, counter), (States::RELEASED, 0));
    counter = 1;
    assert!(!check_btn(&mut counter, &mut state, 1));
    assert_eq!((state, counter), (States::PRESSED, 0));
}

#[test]
fn read_pin_extracts_one_bit() {
    assert_eq!(read_pin(1 << 15, 15), 1);
    assert_eq!(read_pin(!(1u32 << 15), 15), 0);
    assert_eq!(read_pin(0x8000_0000, 31), 1);
    assert_eq!(read_pin(0xffff_ffff, 0), 1);
    assert_eq!(read_pin(0, 7), 0);
}

#[test]
fn init_pins_for_led_25_and_button_15() {
    let ops = init_pins(25, 15);
    assert_eq!(ops.len(), 12);
    assert_eq!(ops[4], RegOp::Write { addr: 0x4001_c000 + 26 * 4, value: 0 });
    assert_eq!(ops[5], RegOp::Write { addr: 0x4001_c000 + 16 * 4 + 0x2000, value: 0xc0 });
    assert_eq!(ops[6], RegOp::Write { addr: 0x4001_c000 + 16 * 4 + 0x2000, value: 0x04 });
    assert_eq!(ops[7], RegOp::Write { addr: 0x4001_c000 + 16 * 4 + 0x3000, value: 0x08 });
    assert_eq!(ops[8], RegOp::Write { addr: 0x4001_4000 + 25 * 8 + 4, value: 5 });
    assert_eq!(ops[9], RegOp::Write { addr: 0x4001_4000 + 15 * 8 + 4, value: 5 });
    assert_eq!(ops[10], RegOp::Write { addr: 0xd000_0024, value: 1 << 25 });
    assert_eq!(ops[11], RegOp::Write { addr: 0xd000_0028, value: 1 << 15 });
}

#[test]
fn the_input_is_not_read_before_the_state_has_lasted() {
    // While the count has not passed the state's least time the input is
    // not looked at, so any value may be passed.
    let mut counter: u64 = 7;
    let mut state = States::PRESSED;
    assert!(!check_btn(&mut counter, &mut state, 99));
    assert_eq!((state, counter), (States::PRESSED, 7));
    let mut counter: u64 = 0;
    let mut state = States::WAITING;
    assert!(!check_btn(&mut counter, &mut state, usize::MAX));
    assert_eq!((state, counter), (States::WAITING, 0));
}
