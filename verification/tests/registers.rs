use lib348::pin_io::io_reset;
use lib348::regs::{clear_bits, set_bits, write_reg, RegOp, RESETS_BASE};

#[test]
fn set_and_clear_bits_use_the_atomic_aliases() {
    assert_eq!(set_bits(RESETS_BASE, 1 << 5), RegOp::Write { addr: 0x4000_e000, value: 0x20 });
    assert_eq!(clear_bits(RESETS_BASE, 1 << 5), RegOp::Write { addr: 0x4000_f000, value: 0x20 });
    assert_eq!(write_reg(0xd000_0014, 7), RegOp::Write { addr: 0xd000_0014, value: 7 });
}

#[test]
fn io_reset_pulses_both_gpio_blocks() {
    assert_eq!(
        io_reset(),
        vec![
            RegOp::Write { addr: 0x4000_e000, value: 0x20 },
            RegOp::Write { addr: 0x4000_f000, value: 0x20 },
            RegOp::Write { addr: 0x4000_e000, value: 0x100 },
            RegOp::Write { addr: 0x4000_f000, value: 0x100 },
        ]
    );
}
