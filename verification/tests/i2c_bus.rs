use lib348::i2c::{set_cnts, I2C1};
use lib348::pin_io::Pin;
use lib348::regs::RegOp;

const DATA_CMD: u32 = 0x4004_8010;
const STATUS: u32 = 0x4004_8070;

fn bus() -> I2C1 {
    I2C1::new(Pin { pin_num: 14 }, Pin { pin_num: 15 })
}

fn target(addr: u8) -> Vec<RegOp> {
    vec![
        RegOp::Write { addr: 0x4004_806c + 0x3000, value: 1 },
        RegOp::Write { addr: 0x4004_8004, value: addr as u32 },
        RegOp::Write { addr: 0x4004_806c + 0x2000, value: 1 },
    ]
}

#[test]
fn a_new_bus_targets_address_zero() {
    assert_eq!(bus().address(), 0);
}

#[test]
fn write_to_a_new_device_selects_it_first() {
    let mut i2c = bus();
    let ops = i2c.write(0x0d, 0x0a, 0x80);
    let mut expected = target(0x0d);
    expected.extend(vec![
        RegOp::Write { addr: DATA_CMD, value: 0x400 | 0x0a },
        RegOp::Write { addr: DATA_CMD, value: 0x200 | 0x80 },
        RegOp::WaitUntil { addr: STATUS, mask: 1, expected: 0 },
    ]);
    assert_eq!(ops, expected);
    assert_eq!(i2c.address(), 0x0d);
}

#[test]
fn write_to_the_same_device_does_not_reprogram_the_target() {
    let mut i2c = bus();
    let _ = i2c.write(0x0d, 0x0a, 0x80);
    let ops = i2c.write(0x0d, 0x0b, 0x01);
    assert_eq!(
        ops,
        vec![
            RegOp::Write { addr: DATA_CMD, value: 0x40b },
            RegOp::Write { addr: DATA_CMD, value: 0x201 },
            RegOp::WaitUntil { addr: STATUS, mask: 1, expected: 0 },
        ]
    );
    // Back to address 0 is a change of device again.
    let ops = i2c.write(0, 1, 2);
    assert_eq!(ops.len(), 6);
    assert_eq!(ops[1], RegOp::Write { addr: 0x4004_8004, value: 0 });
}

#[test]
fn read_fetches_each_byte_once_and_stops_after_the_last() {
    let mut i2c = bus();
    let ops = i2c.read(0x0d, 0x00, 3);
    let mut expected = target(0x0d);
    expected.push(RegOp::Write { addr: DATA_CMD, value: 0x400 });
    for i in 0..3usize {
        let stop = if i == 2 { 0x200 } else { 0 };
        expected.push(RegOp::Write { addr: DATA_CMD, value: 0x100 | stop });
        expected.push(RegOp::WaitUntil { addr: STATUS, mask: 8, expected: 8 });
        expected.push(RegOp::ReadByte { addr: DATA_CMD, slot: i });
    }
    assert_eq!(ops, expected);
    let stops = ops
        .iter()
        .filter(|op| matches!(op, RegOp::Write { addr, value } if *addr == DATA_CMD && value & 0x200 != 0))
        .count();
    assert_eq!(stops, 1);
}

#[test]
fn read_of_no_bytes_sends_only_the_register_address() {
    let mut i2c = bus();
    let _ = i2c.read(0x0d, 6, 1);
    let ops = i2c.read(0x0d, 6, 0);
    assert_eq!(ops, vec![RegOp::Write { addr: DATA_CMD, value: 0x406 }]);
}

#[test]
fn timing_for_400_khz_at_125_mhz() {
    let ops = set_cnts(125_000_000, 400_000);
    assert_eq!(
        ops,
        vec![
            RegOp::Write { addr: 0x4004_801c, value: 126 },
            RegOp::Write { addr: 0x4004_8020, value: 187 },
            RegOp::Write { addr: 0x4004_80a0, value: 11 },
            RegOp::Update { addr: 0x4004_807c, keep: 0xffff_0000, set: 38 },
        ]
    );
}

#[test]
fn timing_for_fast_mode_plus_and_for_a_slow_clock() {
    let ops = set_cnts(125_000_000, 1_000_000);
    assert_eq!(ops[0], RegOp::Write { addr: 0x4004_801c, value: 50 });
    assert_eq!(ops[1], RegOp::Write { addr: 0x4004_8020, value: 75 });
    assert_eq!(ops[2], RegOp::Write { addr: 0x4004_80a0, value: 4 });
    assert_eq!(ops[3], RegOp::Update { addr: 0x4004_807c, keep: 0xffff_0000, set: 19 });

    let ops = set_cnts(1_000_000, 400_000);
    assert_eq!(ops[0], RegOp::Write { addr: 0x4004_801c, value: 2 });
    assert_eq!(ops[1], RegOp::Write { addr: 0x4004_8020, value: 1 });
    assert_eq!(ops[2], RegOp::Write { addr: 0x4004_80a0, value: 1 });
    assert_eq!(ops[3], RegOp::Update { addr: 0x4004_807c, keep: 0xffff_0000, set: 1 });
}

#[test]
fn init_routes_the_pins_and_enables_the_controller() {
    let i2c = bus();
    let ops = i2c.init();
    assert_eq!(ops.len(), 13);
    assert_eq!(ops[0], RegOp::Write { addr: 0x4000_e000, value: 0x10 });
    assert_eq!(ops[1], RegOp::Write { addr: 0x4000_f000, value: 0x10 });
    assert_eq!(ops[2], RegOp::Write { addr: 0x4001_c000 + 15 * 4, value: 0x4a });
    assert_eq!(ops[3], RegOp::Write { addr: 0x4001_c000 + 16 * 4, value: 0x4a });
    assert_eq!(ops[4], RegOp::Write { addr: 0x4001_4000 + 14 * 8 + 4, value: 3 });
    assert_eq!(ops[5], RegOp::Write { addr: 0x4001_4000 + 15 * 8 + 4, value: 3 });
    assert_eq!(ops[6], RegOp::Write { addr: 0x4004_806c + 0x3000, value: 1 });
    assert_eq!(ops[7], RegOp::Write { addr: 0x4004_8000, value: 0x43 });
    assert_eq!(ops[8], RegOp::Write { addr: 0x4004_801c, value: 126 });
    assert_eq!(ops[12], RegOp::Write { addr: 0x4004_806c + 0x2000, value: 1 });
}

#[test]
fn over_a_session_the_target_register_follows_the_device() {
    let mut i2c = bus();
    let mut all = Vec::new();
    all.extend(i2c.write(0x0d, 0x0a, 0x80));
    all.extend(i2c.read(0x0d, 0x00, 6));
    all.extend(i2c.write(0x1e, 0x02, 0x00));
    all.extend(i2c.read(0x1e, 0x03, 2));
    all.extend(i2c.write(0x0d, 0x09, 0x11));
    let tar_writes: Vec<(usize, u32)> = all
        .iter()
        .enumerate()
        .filter_map(|(i, op)| match op {
            RegOp::Write { addr: 0x4004_8004, value } => Some((i, *value)),
            _ => None,
        })
        .collect();
    assert_eq!(tar_writes.iter().map(|t| t.1).collect::<Vec<_>>(), vec![0x0d, 0x1e, 0x0d]);
    assert_eq!(i2c.address(), 0x0d);
    for (i, _) in tar_writes {
        assert_eq!(all[i - 1], RegOp::Write { addr: 0x4004_806c + 0x3000, value: 1 });
        assert_eq!(all[i + 1], RegOp::Write { addr: 0x4004_806c + 0x2000, value: 1 });
    }
}
