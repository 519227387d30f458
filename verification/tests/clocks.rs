use lib348::regs::RegOp;
use lib348::sys_clock::{init_clocks, init_pll, RESET_PLL_SYS};

#[test]
fn pll_bring_up_for_125_mhz() {
    let ops = init_pll(0x4002_8000, RESET_PLL_SYS, 1, 125, 6, 2);
    assert_eq!(
        ops,
        vec![
            RegOp::Write { addr: 0x4000_e000, value: 1 << 12 },
            RegOp::Write { addr: 0x4000_f000, value: 1 << 12 },
            RegOp::Write { addr: 0x4002_8000, value: 1 },
            RegOp::Write { addr: 0x4002_8008, value: 125 },
            RegOp::Write { addr: 0x4002_b004, value: 0x21 },
            RegOp::WaitUntil { addr: 0x4002_8000, mask: 0x8000_0000, expected: 0x8000_0000 },
            RegOp::Write { addr: 0x4002_800c, value: 0x62000 },
            RegOp::Write { addr: 0x4002_b004, value: 0x08 },
        ]
    );
}

#[test]
fn clock_bring_up_sequence() {
    let ops = init_clocks();
    assert_eq!(ops.len(), 38);
    assert_eq!(ops[0], RegOp::Write { addr: 0x4002_4000, value: 0x00fa_baa0 });
    assert_eq!(ops[1], RegOp::WaitUntil { addr: 0x4002_4004, mask: 0x8000_0000, expected: 0x8000_0000 });
    assert_eq!(ops[2], RegOp::Write { addr: 0x4000_b03c, value: 1 });
    assert_eq!(ops[3], RegOp::WaitUntil { addr: 0x4000_8044, mask: 0xffff_ffff, expected: 1 });
    // The USB PLL: fbdiv 100, post dividers 5 and 5.
    assert_eq!(ops[14], RegOp::Write { addr: 0x4000_e000, value: 1 << 13 });
    assert_eq!(ops[17], RegOp::Write { addr: 0x4002_c008, value: 100 });
    assert_eq!(ops[20], RegOp::Write { addr: 0x4002_c00c, value: 0x55000 });
    assert_eq!(ops[22], RegOp::Write { addr: 0x4000_8034, value: 0x100 });
    assert_eq!(ops[23], RegOp::Write { addr: 0x4000_8030, value: 2 });
    assert_eq!(ops[25], RegOp::Write { addr: 0x4000_b03c, value: 0xe0 });
    assert_eq!(ops[26], RegOp::Write { addr: 0x4000_a03c, value: 1 });
    assert_eq!(ops[27], RegOp::Write { addr: 0x4000_8054, value: 0 });
    assert_eq!(ops[28], RegOp::Touch { addr: 0x4000_8000 });
    assert_eq!(ops[29], RegOp::Write { addr: 0x4000_a054, value: 0x800 });
    assert_eq!(ops[36], RegOp::Write { addr: 0x4005_802c, value: 0x20c });
    assert_eq!(ops[37], RegOp::Write { addr: 0x4005_402c, value: 0 });
}

#[test]
fn the_plls_run_at_125_and_48_mhz() {
    let ops = init_clocks();
    let hz = |refdiv: u64, fbdiv: u64, post: u32| {
        let pd1 = ((post >> 16) & 7) as u64;
        let pd2 = ((post >> 12) & 7) as u64;
        12_000_000 / refdiv * fbdiv / (pd1 * pd2)
    };
    match (ops[8], ops[9], ops[12]) {
        (RegOp::Write { value: r, .. }, RegOp::Write { value: f, .. }, RegOp::Write { addr, value }) => {
            assert_eq!(addr, 0x4002_800c);
            assert_eq!(hz(r as u64, f as u64, value), 125_000_000);
        }
        _ => panic!("unexpected operations"),
    }
    match (ops[16], ops[17], ops[20]) {
        (RegOp::Write { value: r, .. }, RegOp::Write { value: f, .. }, RegOp::Write { addr, value }) => {
            assert_eq!(addr, 0x4002_c00c);
            assert_eq!(hz(r as u64, f as u64, value), 48_000_000);
        }
        _ => panic!("unexpected operations"),
    }
}
