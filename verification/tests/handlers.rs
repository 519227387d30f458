use lib348::dog::{age_dog, Dog};
use lib348::interrupts::IO_IRQ_BANK0;
use lib348::regs::RegOp;
use lib348::tasks::{add_u64_i32_saturating, adjust_delay, input_reader_step, PressPhase, Wait};

#[test]
fn each_rising_edge_is_counted_and_acknowledged() {
    let mut counter = Some(0u32);
    let ops = IO_IRQ_BANK0(1 << 11, &mut counter);
    assert_eq!(counter, Some(1));
    assert_eq!(
        ops,
        vec![
            RegOp::Write { addr: 0x4001_40f0, value: 0x800 },
            RegOp::Write { addr: 0xd000_001c, value: 1 << 25 },
        ]
    );
    let ops = IO_IRQ_BANK0(0xffff_ffff, &mut counter);
    assert_eq!(counter, Some(2));
    assert_eq!(ops.len(), 2);
}

#[test]
fn other_interrupts_are_ignored() {
    let mut counter = Some(7u32);
    assert!(IO_IRQ_BANK0(1 << 10, &mut counter).is_empty());
    assert!(IO_IRQ_BANK0(0, &mut counter).is_empty());
    assert_eq!(counter, Some(7));
    let mut unset: Option<u32> = None;
    assert_eq!(IO_IRQ_BANK0(1 << 11, &mut unset).len(), 2);
    assert_eq!(unset, None);
}

#[test]
fn delay_changes_saturate() {
    assert_eq!(add_u64_i32_saturating(1000, 100), 1100);
    assert_eq!(add_u64_i32_saturating(1000, -100), 900);
    assert_eq!(add_u64_i32_saturating(50, -100), 0);
    assert_eq!(add_u64_i32_saturating(u64::MAX - 1, 5), u64::MAX);
    assert_eq!(add_u64_i32_saturating(7, i32::MAX), 7 + i32::MAX as u64);
    assert_eq!(add_u64_i32_saturating(u64::MAX, -i32::MAX), u64::MAX - i32::MAX as u64);
    // Undone by the opposite change unless a bound was hit.
    assert_eq!(add_u64_i32_saturating(add_u64_i32_saturating(1000, 100), -100), 1000);
}

#[test]
fn adjust_delay_updates_the_shared_value() {
    let mut delay = Some(1000u64);
    assert_eq!(adjust_delay(&mut delay, -100), 900);
    assert_eq!(delay, Some(900));
    assert_eq!(adjust_delay(&mut delay, -1000), 0);
    assert_eq!(delay, Some(0));
}

#[test]
fn a_button_task_acts_after_four_waits() {
    let mut phase = PressPhase::AwaitHigh;
    let mut waits = Vec::new();
    let mut acted = Vec::new();
    for _ in 0..8 {
        waits.push(phase.wait());
        let (next, act) = phase.advance();
        acted.push(act);
        phase = next;
    }
    assert_eq!(
        &waits[..4],
        &[Wait::High, Wait::Millis(5), Wait::Low, Wait::Millis(5)]
    );
    assert_eq!(acted, vec![false, false, false, true, false, false, false, true]);
    assert_eq!(phase, PressPhase::AwaitHigh);
}

#[test]
fn a_dog_ages_by_one_year() {
    let mut dog = Dog { name: String::from("Fido"), age: 5 };
    age_dog(&mut dog);
    assert_eq!(dog.age, 6);
    assert_eq!(dog.name, "Fido");
}

#[test]
fn the_most_negative_change_is_accepted() {
    assert_eq!(add_u64_i32_saturating(u64::MAX, i32::MIN), u64::MAX - 2_147_483_648);
    assert_eq!(add_u64_i32_saturating(5, i32::MIN), 0);
    assert_eq!(add_u64_i32_saturating(3_000_000_000, i32::MIN), 3_000_000_000 - 2_147_483_648);
    let mut delay = Some(1000u64);
    assert_eq!(adjust_delay(&mut delay, i32::MIN), 0);
    assert_eq!(delay, Some(0));
}

#[test]
fn each_cycle_changes_the_delay_once() {
    let mut delay = Some(1000u64);
    let mut phase = PressPhase::AwaitHigh;
    let mut seen = Vec::new();
    for _ in 0..9 {
        phase = input_reader_step(phase, &mut delay, -100);
        seen.push(delay.unwrap());
    }
    assert_eq!(seen, vec![1000, 1000, 1000, 900, 900, 900, 900, 800, 800]);
    assert_eq!(phase, PressPhase::SettleHigh);
}

#[test]
fn counting_edges_over_a_run_of_interrupts() {
    let mut counter = Some(10u32);
    let statuses = [1 << 11, 0, 1 << 10, 0xffff_ffff, 1 << 11, 1 << 3];
    for s in statuses {
        let _ = IO_IRQ_BANK0(s, &mut counter);
    }
    assert_eq!(counter, Some(13));
}
