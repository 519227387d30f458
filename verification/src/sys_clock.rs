//! Bringing the RP2040 clocks up: crystal oscillator, both PLLs, and the
//! system, reference, USB, ADC and peripheral clocks.
use vstd::prelude::*;
use crate::regs::{
    RegOp, spec_set_bits, spec_clear_bits, set_bits, clear_bits, write_reg, RESETS_BASE, XOSC_BASE,
    CLOCKS_BASE, PLL_SYS_BASE, PLL_USB_BASE, WATCHDOG_BASE, TIMER_BASE,
};

verus! {

/// Reset bit of PLL_SYS.
pub const RESET_PLL_SYS: u32 = 12u32;
/// Reset bit of PLL_USB.
pub const RESET_PLL_USB: u32 = 13u32;

/// The PLL registers of `pll_base`, with their set and clear aliases, have
/// addresses that fit in 32 bits.
pub open spec fn pll_regs_fit(pll_base: u32) -> bool {
    pll_base + 0x3000 + 0x04 <= u32::MAX
}

/// The bring-up of the PLL at `pll_base` (reset bit `peri_num`) with reference
/// divider `refdiv`, feedback divider `fbdiv` and post dividers `pd1`, `pd2`:
/// reset pulse, dividers, power-up, wait for lock, post dividers, post dividers on.
pub open spec fn pll_ops(pll_base: u32, peri_num: u32, refdiv: u32, fbdiv: u32, pd1: u32, pd2: u32) -> Seq<RegOp> {
    seq![
        spec_set_bits(RESETS_BASE, 1u32 << peri_num),
        spec_clear_bits(RESETS_BASE, 1u32 << peri_num),
        RegOp::Write { addr: pll_base, value: refdiv },
        RegOp::Write { addr: (pll_base + 0x08) as u32, value: fbdiv },
        spec_clear_bits((pll_base + 0x04) as u32, 0x21),
        RegOp::WaitUntil { addr: pll_base, mask: 0x8000_0000, expected: 0x8000_0000 },
        RegOp::Write { addr: (pll_base + 0x0C) as u32, value: (pd1 << 16u32) | (pd2 << 12u32) },
        spec_clear_bits((pll_base + 0x04) as u32, 0x08),
    ]
}

/// The register traffic that starts the PLL at `pll_base`.
pub fn init_pll(pll_base: u32, peri_num: u32, refdiv: u32, fbdiv: u32, pd1: u32, pd2: u32) -> (ops: Vec<RegOp>)
    requires
        peri_num < 32,
        pll_regs_fit(pll_base),
    ensures
        ops@ == pll_ops(pll_base, peri_num, refdiv, fbdiv, pd1, pd2),
{
    let mut ops: Vec<RegOp> = Vec::new();
    // Reset, then release the PLL.
    ops.push(set_bits(RESETS_BASE, 1u32 << peri_num));
    ops.push(clear_bits(RESETS_BASE, 1u32 << peri_num));

    // Load refdiv and fbdiv.
    ops.push(write_reg(pll_base + 0x00, refdiv));
    ops.push(write_reg(pll_base + 0x08, fbdiv));

    // Clear the PD and VCOPD bits to power the PLL up, then wait for lock.
    let pd_bits: u32 = 1u32 << 0u32 | 1u32 << 5u32;
    assert(1u32 << 0u32 | 1u32 << 5u32 == 0x21u32) by (bit_vector);
    ops.push(clear_bits(pll_base + 0x04, pd_bits));
    let lock: u32 = 1u32 << 31u32;
    assert(1u32 << 31u32 == 0x8000_0000u32) by (bit_vector);
    ops.push(RegOp::WaitUntil { addr: pll_base + 0x00, mask: lock, expected: lock });

    // The post dividers, then the post divider power-up.
    ops.push(write_reg(pll_base + 0x0C, pd1 << 16u32 | pd2 << 12u32));
    let postdiv_pd: u32 = 1u32 << 3u32;
    assert(1u32 << 3u32 == 0x08u32) by (bit_vector);
    ops.push(clear_bits(pll_base + 0x04, postdiv_pd));
    ops
}

/// Disable, stall, enable: the restart of the clock whose control register is
/// at offset `ctrl` of the clocks block, on its first auxiliary source.
pub open spec fn clock_restart_ops(ctrl: u32) -> Seq<RegOp> {
    seq![
        RegOp::Write { addr: (CLOCKS_BASE + ctrl) as u32, value: 0 },
        RegOp::Touch { addr: CLOCKS_BASE },
        spec_set_bits((CLOCKS_BASE + ctrl) as u32, 0x800),
    ]
}

/// The whole clock bring-up: the crystal oscillator, then the system clock and
/// reference clock off the PLLs, PLL_SYS at 125 MHz and PLL_USB at 48 MHz,
/// the reference clock on the crystal, the system clock on PLL_SYS, the USB,
/// ADC and peripheral clocks restarted, a 1 µs watchdog tick, and the timer
/// kept running while debugging.
pub open spec fn clock_init_ops() -> Seq<RegOp> {
    seq![
        RegOp::Write { addr: XOSC_BASE, value: 0x00fabaa0 },
        RegOp::WaitUntil { addr: (XOSC_BASE + 0x04) as u32, mask: 0x8000_0000, expected: 0x8000_0000 },
        spec_clear_bits((CLOCKS_BASE + 0x3c) as u32, 0x1),
        RegOp::WaitUntil { addr: (CLOCKS_BASE + 0x44) as u32, mask: 0xffff_ffff, expected: 1 },
        spec_clear_bits((CLOCKS_BASE + 0x30) as u32, 0x3),
        RegOp::WaitUntil { addr: (CLOCKS_BASE + 0x38) as u32, mask: 0xffff_ffff, expected: 1 },
    ] + pll_ops(PLL_SYS_BASE, RESET_PLL_SYS, 1, 125, 6, 2) + pll_ops(PLL_USB_BASE, RESET_PLL_USB, 1, 100, 5, 5)
        + seq![
        RegOp::Write { addr: (CLOCKS_BASE + 0x34) as u32, value: 0x100 },
        RegOp::Write { addr: (CLOCKS_BASE + 0x30) as u32, value: 0x2 },
        RegOp::Write { addr: (CLOCKS_BASE + 0x40) as u32, value: 0x100 },
        spec_clear_bits((CLOCKS_BASE + 0x3c) as u32, 0xe0),
        spec_set_bits((CLOCKS_BASE + 0x3c) as u32, 0x1),
    ] + clock_restart_ops(0x54) + clock_restart_ops(0x60) + clock_restart_ops(0x48) + seq![
        RegOp::Write { addr: (WATCHDOG_BASE + 0x2c) as u32, value: 0x20c },
        RegOp::Write { addr: (TIMER_BASE + 0x2c) as u32, value: 0 },
    ]
}

/// Frequency of the crystal oscillator.
pub const XOSC_HZ: u32 = 12_000_000u32;

/// Output frequency of a PLL fed by the crystal oscillator.
pub open spec fn pll_output_hz(refdiv: int, fbdiv: int, pd1: int, pd2: int) -> int {
    (XOSC_HZ as int) / refdiv * fbdiv / (pd1 * pd2)
}

/// First post divider held in a value of the PLL post-divider register.
pub open spec fn postdiv1(v: u32) -> u32 {
    (v >> 16u32) & 7
}

/// Second post divider held in a value of the PLL post-divider register.
pub open spec fn postdiv2(v: u32) -> u32 {
    (v >> 12u32) & 7
}

/// Law: the clock bring-up runs PLL_SYS at 125 MHz and PLL_USB at 48 MHz:
/// the dividers it writes into each PLL give those frequencies from the
/// 12 MHz crystal.
pub proof fn lemma_clock_frequencies()
    ensures
        clock_init_ops()[8] == (RegOp::Write { addr: PLL_SYS_BASE, value: 1 }),
        clock_init_ops()[9] == (RegOp::Write { addr: (PLL_SYS_BASE + 8) as u32, value: 125 }),
        clock_init_ops()[12] matches RegOp::Write { addr, value } && addr == PLL_SYS_BASE + 0x0C
            && pll_output_hz(1, 125, postdiv1(value) as int, postdiv2(value) as int) == 125_000_000,
        clock_init_ops()[16] == (RegOp::Write { addr: PLL_USB_BASE, value: 1 }),
        clock_init_ops()[17] == (RegOp::Write { addr: (PLL_USB_BASE + 8) as u32, value: 100 }),
        clock_init_ops()[20] matches RegOp::Write { addr, value } && addr == PLL_USB_BASE + 0x0C
            && pll_output_hz(1, 100, postdiv1(value) as int, postdiv2(value) as int) == 48_000_000,
{
    let ops = clock_init_ops();
    let sys = pll_ops(PLL_SYS_BASE, RESET_PLL_SYS, 1, 125, 6, 2);
    let usb = pll_ops(PLL_USB_BASE, RESET_PLL_USB, 1, 100, 5, 5);
    assert(ops[8] == sys[2] && ops[9] == sys[3] && ops[12] == sys[6]);
    assert(ops[16] == usb[2] && ops[17] == usb[3] && ops[20] == usb[6]);
    assert((((6u32 << 16u32) | (2u32 << 12u32)) >> 16u32) & 7 == 6u32) by (bit_vector);
    assert((((6u32 << 16u32) | (2u32 << 12u32)) >> 12u32) & 7 == 2u32) by (bit_vector);
    assert((((5u32 << 16u32) | (5u32 << 12u32)) >> 16u32) & 7 == 5u32) by (bit_vector);
    assert((((5u32 << 16u32) | (5u32 << 12u32)) >> 12u32) & 7 == 5u32) by (bit_vector);
    assert(pll_output_hz(1, 100, 5, 5) == 48_000_000) by (nonlinear_arith);
}

/// Law: the PLL bring-up, for every PLL and every divider setting: the PLL is
/// reset and released (its bit `peri_num` of RESETS); the reference divider
/// and the feedback divider are loaded; only the power-down (bit 0) and VCO
/// power-down (bit 5) bits are cleared; the sequence waits for the lock bit
/// (bit 31); the post-divider register then holds `pd1` and `pd2` in its
/// fields at bits 18..16 and 14..12 (for dividers below 8); and only the
/// post-divider power-down bit (bit 3) is cleared last.
pub proof fn lemma_pll_sequence(pll_base: u32, peri_num: u32, refdiv: u32, fbdiv: u32, pd1: u32, pd2: u32)
    requires
        peri_num < 32,
        pll_regs_fit(pll_base),
    ensures
        ({
            let ops = pll_ops(pll_base, peri_num, refdiv, fbdiv, pd1, pd2);
            &&& ops.len() == 8
            &&& ops[0] == spec_set_bits(RESETS_BASE, 1u32 << peri_num)
            &&& ops[1] == spec_clear_bits(RESETS_BASE, 1u32 << peri_num)
            &&& ops[2] == RegOp::Write { addr: pll_base, value: refdiv }
            &&& ops[3] == RegOp::Write { addr: (pll_base + 8) as u32, value: fbdiv }
            &&& ops[4] matches RegOp::Write { addr, value } && addr == pll_base + 0x3000 + 4
                && value & 1u32 != 0 && value & (1u32 << 5u32) != 0 && value & !0x21u32 == 0
            &&& ops[5] == RegOp::WaitUntil { addr: pll_base, mask: 1u32 << 31u32, expected: 1u32 << 31u32 }
            &&& ops[6] matches RegOp::Write { addr, value } && addr == pll_base + 0x0C
                && (pd1 < 8 && pd2 < 8 ==> postdiv1(value) == pd1 && postdiv2(value) == pd2)
            &&& ops[7] matches RegOp::Write { addr, value } && addr == pll_base + 0x3000 + 4
                && value == 1u32 << 3u32
        }),
{
    assert(0x21u32 & 1u32 != 0 && 0x21u32 & (1u32 << 5u32) != 0 && 0x21u32 & !0x21u32 == 0) by (bit_vector);
    assert(1u32 << 31u32 == 0x8000_0000u32 && 1u32 << 3u32 == 0x08u32) by (bit_vector);
    if pd1 < 8 && pd2 < 8 {
        let v = (pd1 << 16u32) | (pd2 << 12u32);
        assert((v >> 16u32) & 7 == pd1 && (v >> 12u32) & 7 == pd2) by (bit_vector)
            requires
                v == (pd1 << 16u32) | (pd2 << 12u32),
                pd1 < 8,
                pd2 < 8,
        ;
    }
}

/// Law: the clock tree the bring-up leaves behind.  The reference clock runs
/// from the crystal (source 2) with integer divider 1, so at 12 MHz.  The
/// system clock runs from its auxiliary source with auxiliary source 0
/// (PLL_SYS) and integer divider 1, fraction 0, so at the 125 MHz of PLL_SYS.
/// The USB, ADC and peripheral clocks are each stopped, switched to source 0
/// (PLL_USB, PLL_USB, the system clock) and enabled (bit 11).  The watchdog
/// tick divides the 12 MHz crystal by 12 and is enabled (bit 9): one tick per
/// microsecond.
pub proof fn lemma_clock_tree()
    ensures
        clock_init_ops()[22] matches RegOp::Write { addr, value } && addr == CLOCKS_BASE + 0x34
            && value >> 8u32 == 1 && value & 0xffu32 == 0,
        clock_init_ops()[23] == (RegOp::Write { addr: (CLOCKS_BASE + 0x30) as u32, value: 2 }),
        clock_init_ops()[24] matches RegOp::Write { addr, value } && addr == CLOCKS_BASE + 0x40
            && value >> 8u32 == 1 && value & 0xffu32 == 0
            && pll_output_hz(1, 125, 6, 2) / ((value >> 8u32) as int) == 125_000_000,
        clock_init_ops()[25] == spec_clear_bits((CLOCKS_BASE + 0x3c) as u32, 0xe0),
        clock_init_ops()[26] == spec_set_bits((CLOCKS_BASE + 0x3c) as u32, 1),
        forall|k: int| 0 <= k < 3 ==> {
            let ctrl = if k == 0 { 0x54u32 } else if k == 1 { 0x60u32 } else { 0x48u32 };
            &&& #[trigger] clock_init_ops()[27 + 3 * k] == RegOp::Write { addr: (CLOCKS_BASE + ctrl) as u32, value: 0 }
            &&& clock_init_ops()[28 + 3 * k] == RegOp::Touch { addr: CLOCKS_BASE }
            &&& clock_init_ops()[29 + 3 * k] == spec_set_bits((CLOCKS_BASE + ctrl) as u32, 1u32 << 11u32)
        },
        clock_init_ops()[36] matches RegOp::Write { addr, value } && addr == WATCHDOG_BASE + 0x2c
            && value & 0x1ffu32 == 12 && value & (1u32 << 9u32) != 0
            && XOSC_HZ / (value & 0x1ffu32) == 1_000_000,
        clock_init_ops().len() == 38,
{
    let ops = clock_init_ops();
    assert(0x100u32 >> 8u32 == 1 && 0x100u32 & 0xffu32 == 0) by (bit_vector);
    assert(0x20cu32 & 0x1ffu32 == 12 && 0x20cu32 & (1u32 << 9u32) != 0) by (bit_vector);
    assert(1u32 << 11u32 == 0x800u32) by (bit_vector);
    assert(pll_output_hz(1, 125, 6, 2) == 125_000_000) by (nonlinear_arith);
    assert forall|k: int| 0 <= k < 3 implies {
        let ctrl = if k == 0 { 0x54u32 } else if k == 1 { 0x60u32 } else { 0x48u32 };
        &&& #[trigger] clock_init_ops()[27 + 3 * k] == RegOp::Write { addr: (CLOCKS_BASE + ctrl) as u32, value: 0 }
        &&& clock_init_ops()[28 + 3 * k] == RegOp::Touch { addr: CLOCKS_BASE }
        &&& clock_init_ops()[29 + 3 * k] == spec_set_bits((CLOCKS_BASE + ctrl) as u32, 1u32 << 11u32)
    } by {
        assert(k == 0 || k == 1 || k == 2);
    }
}

/// Restarts the clock whose control register is at offset `ctrl`.
fn restart_clock(ops: &mut Vec<RegOp>, ctrl: u32)
    requires
        ctrl <= 0x60,
    ensures
        final(ops)@ == old(ops)@ + clock_restart_ops(ctrl),
{
    // Disable the clock by clearing bit 11 (this also selects auxiliary source 0).
    ops.push(write_reg(CLOCKS_BASE + ctrl, 0));
    // A read, only to stall until the clock has really stopped.
    ops.push(RegOp::Touch { addr: CLOCKS_BASE });
    // Enable it again.
    let enable: u32 = 1u32 << 11u32;
    assert(1u32 << 11u32 == 0x800u32) by (bit_vector);
    ops.push(set_bits(CLOCKS_BASE + ctrl, enable));
}

/// The register traffic that configures the system clock to 125 MHz from the
/// crystal and PLL_SYS, and the USB and ADC clocks to 48 MHz from PLL_USB.
pub fn init_clocks() -> (ops: Vec<RegOp>)
    ensures
        ops@ == clock_init_ops(),
{
    let mut ops: Vec<RegOp> = Vec::new();
    // Enable the crystal oscillator and wait until it is stable.
    ops.push(write_reg(XOSC_BASE + 0x00, 0x00fabaa0));
    ops.push(RegOp::WaitUntil { addr: XOSC_BASE + 0x04, mask: 0x8000_0000u32, expected: 0x8000_0000u32 });

    // CLK_SYS glitchless mux to CLK_REF, so that its sources can change safely.
    ops.push(clear_bits(CLOCKS_BASE + 0x3c, 0x1));
    ops.push(RegOp::WaitUntil { addr: CLOCKS_BASE + 0x44, mask: 0xffff_ffffu32, expected: 0x1 });

    // CLK_REF glitchless mux to the ring oscillator.
    ops.push(clear_bits(CLOCKS_BASE + 0x30, 0x3));
    ops.push(RegOp::WaitUntil { addr: CLOCKS_BASE + 0x38, mask: 0xffff_ffffu32, expected: 1 });

    // PLL_SYS: refdiv 1, fbdiv 125, post dividers 6 and 2: 125 MHz.
    let mut pll = init_pll(PLL_SYS_BASE, RESET_PLL_SYS, 1, 125, 6, 2);
    ops.append(&mut pll);
    // PLL_USB: refdiv 1, fbdiv 100, post dividers 5 and 5: 48 MHz.
    let mut pll = init_pll(PLL_USB_BASE, RESET_PLL_USB, 1, 100, 5, 5);
    ops.append(&mut pll);

    // CLK_REF onto the crystal oscillator, divider 1.
    let div_one: u32 = 1u32 << 8u32;
    assert(1u32 << 8u32 == 0x100u32) by (bit_vector);
    ops.push(write_reg(CLOCKS_BASE + 0x34, div_one));
    ops.push(write_reg(CLOCKS_BASE + 0x30, 0x2));

    // CLK_SYS onto its auxiliary source PLL_SYS, divider 1.
    ops.push(write_reg(CLOCKS_BASE + 0x40, div_one));
    let auxsrc: u32 = 0b111u32 << 5u32;
    assert(0b111u32 << 5u32 == 0xe0u32) by (bit_vector);
    ops.push(clear_bits(CLOCKS_BASE + 0x3c, auxsrc));
    ops.push(set_bits(CLOCKS_BASE + 0x3c, 0x0000_0001));

    // USB clock, ADC clock and peripheral clock.
    restart_clock(&mut ops, 0x54);
    restart_clock(&mut ops, 0x60);
    restart_clock(&mut ops, 0x48);

    // Watchdog tick divider 12 and enabled: one tick per microsecond.
    let tick: u32 = 12u32 | 1u32 << 9u32;
    assert(12u32 | 1u32 << 9u32 == 0x20cu32) by (bit_vector);
    ops.push(write_reg(WATCHDOG_BASE + 0x2c, tick));

    // Keep the timer running while the processor is halted by a debugger.
    ops.push(write_reg(TIMER_BASE + 0x2c, 0));
    assert(ops@ =~= clock_init_ops());
    ops
}

} // verus!
