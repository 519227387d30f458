//! Memory-mapped register accesses of the RP2040, described as values.
//!
//! A driver in this crate does not touch the hardware itself: it returns the
//! exact sequence of register operations that the hardware has to see, and the
//! caller performs them in order (see `RegOp` for what each one means).
use vstd::prelude::*;

verus! {

/* Base addresses of the RP2040 peripherals. */
pub const ROM_BASE: u32 = 0x0000_0000u32;
pub const XIP_BASE: u32 = 0x1000_0000u32;
pub const XIP_MAIN_BASE: u32 = 0x1000_0000u32;
pub const XIP_NOALLOC_BASE: u32 = 0x1100_0000u32;
pub const XIP_NOCACHE_BASE: u32 = 0x1200_0000u32;
pub const XIP_NOCACHE_NOALLOC_BASE: u32 = 0x1300_0000u32;
pub const XIP_CTRL_BASE: u32 = 0x1400_0000u32;
pub const XIP_SRAM_BASE: u32 = 0x1500_0000u32;
pub const XIP_SRAM_END: u32 = 0x1500_4000u32;
pub const XIP_SSI_BASE: u32 = 0x1800_0000u32;
pub const SRAM_BASE: u32 = 0x2000_0000u32;
pub const SRAM_STRIPED_BASE: u32 = 0x2000_0000u32;
pub const SRAM_STRIPED_END: u32 = 0x2004_0000u32;
pub const SRAM4_BASE: u32 = 0x2004_0000u32;
pub const SRAM5_BASE: u32 = 0x2004_1000u32;
pub const SRAM_END: u32 = 0x2004_2000u32;
pub const SRAM0_BASE: u32 = 0x2100_0000u32;
pub const SRAM1_BASE: u32 = 0x2101_0000u32;
pub const SRAM2_BASE: u32 = 0x2102_0000u32;
pub const SRAM3_BASE: u32 = 0x2103_0000u32;
pub const SYSINFO_BASE: u32 = 0x4000_0000u32;
pub const SYSCFG_BASE: u32 = 0x4000_4000u32;
pub const CLOCKS_BASE: u32 = 0x4000_8000u32;
pub const RESETS_BASE: u32 = 0x4000_c000u32;
pub const PSM_BASE: u32 = 0x4001_0000u32;
pub const IO_BANK0_BASE: u32 = 0x4001_4000u32;
pub const IO_QSPI_BASE: u32 = 0x4001_8000u32;
pub const PADS_BANK0_BASE: u32 = 0x4001_c000u32;
pub const PADS_QSPI_BASE: u32 = 0x4002_0000u32;
pub const XOSC_BASE: u32 = 0x4002_4000u32;
pub const PLL_SYS_BASE: u32 = 0x4002_8000u32;
pub const PLL_USB_BASE: u32 = 0x4002_c000u32;
pub const BUSCTRL_BASE: u32 = 0x4003_0000u32;
pub const UART0_BASE: u32 = 0x4003_4000u32;
pub const UART1_BASE: u32 = 0x4003_8000u32;
pub const SPI0_BASE: u32 = 0x4003_c000u32;
pub const SPI1_BASE: u32 = 0x4004_0000u32;
pub const I2C0_BASE: u32 = 0x4004_4000u32;
pub const I2C1_BASE: u32 = 0x4004_8000u32;
pub const ADC_BASE: u32 = 0x4004_c000u32;
pub const PWM_BASE: u32 = 0x4005_0000u32;
pub const TIMER_BASE: u32 = 0x4005_4000u32;
pub const WATCHDOG_BASE: u32 = 0x4005_8000u32;
pub const RTC_BASE: u32 = 0x4005_c000u32;
pub const ROSC_BASE: u32 = 0x4006_0000u32;
pub const VREG_AND_CHIP_RESET_BASE: u32 = 0x4006_4000u32;
pub const TBMAN_BASE: u32 = 0x4006_c000u32;
pub const DMA_BASE: u32 = 0x5000_0000u32;
pub const USBCTRL_DPRAM_BASE: u32 = 0x5010_0000u32;
pub const USBCTRL_BASE: u32 = 0x5010_0000u32;
pub const USBCTRL_REGS_BASE: u32 = 0x5011_0000u32;
pub const PIO0_BASE: u32 = 0x5020_0000u32;
pub const PIO1_BASE: u32 = 0x5030_0000u32;
pub const XIP_AUX_BASE: u32 = 0x5040_0000u32;
pub const SIO_BASE: u32 = 0xd000_0000u32;
pub const PPB_BASE: u32 = 0xe000_0000u32;

/* Register offsets inside a peripheral. */
pub const IC_CON: u32 = 0x00u32;
pub const IC_TAR: u32 = 0x04u32;
pub const IC_DATA_CMD: u32 = 0x10u32;
pub const IC_FS_SCL_HCNT: u32 = 0x1cu32;
pub const IC_FS_SCL_LCNT: u32 = 0x20u32;
pub const IC_ENABLE: u32 = 0x6cu32;
pub const IC_STATUS: u32 = 0x70u32;
pub const IC_TXFLR: u32 = 0x74u32;
pub const IC_SDA_HOLD: u32 = 0x7cu32;
pub const IC_FS_SPKLEN: u32 = 0xa0u32;
pub const TIMEHR: u32 = 0x08u32;
pub const TIMELR: u32 = 0x0cu32;
pub const RESET_DONE: u32 = 0x08u32;
pub const SIO_GPIO_IN: u32 = 0x04u32;
pub const SIO_GPIO_OUT: u32 = 0x10u32;
pub const SIO_GPIO_OUT_SET: u32 = 0x14u32;
pub const SIO_GPIO_OUT_CLR: u32 = 0x18u32;
pub const SIO_GPIO_OUT_XOR: u32 = 0x1cu32;
pub const SIO_GPIO_OE_SET: u32 = 0x24u32;
pub const SIO_GPIO_OE_CLR: u32 = 0x28u32;

/// Offset of the atomic "set bits on write" alias of a peripheral register.
pub const SET_ALIAS: u32 = 0x2000u32;
/// Offset of the atomic "clear bits on write" alias of a peripheral register.
pub const CLEAR_ALIAS: u32 = 0x3000u32;

/// One access to a memory-mapped peripheral register.
#[derive(Clone, Copy, Debug, PartialEq, Eq, Structural)]
pub enum RegOp {
    /// Store `value` in the register at `addr`.
    Write { addr: u32, value: u32 },
    /// Read the register at `addr` once and drop the value (a deliberate stall).
    Touch { addr: u32 },
    /// Read the register at `addr` again and again until `value & mask == expected`.
    WaitUntil { addr: u32, mask: u32, expected: u32 },
    /// Read the register at `addr`, then store `(value & keep) | set` in it.
    Update { addr: u32, keep: u32, set: u32 },
    /// Read the register at `addr` and store its low byte in entry `slot` of the
    /// receive buffer of the transfer.
    ReadByte { addr: u32, slot: usize },
}

/// The operation that stores `value` in the register at `addr`.
pub fn write_reg(addr: u32, value: u32) -> (op: RegOp)
    ensures
        op == (RegOp::Write { addr, value }),
{
    RegOp::Write { addr, value }
}

/// The write that atomically sets the bits of `mask` in the register at `addr`
/// (a write of `mask` to the register's set alias).
pub open spec fn spec_set_bits(addr: u32, mask: u32) -> RegOp {
    RegOp::Write { addr: (addr + SET_ALIAS) as u32, value: mask }
}

/// The write that atomically clears the bits of `mask` in the register at `addr`
/// (a write of `mask` to the register's clear alias).
pub open spec fn spec_clear_bits(addr: u32, mask: u32) -> RegOp {
    RegOp::Write { addr: (addr + CLEAR_ALIAS) as u32, value: mask }
}

/// Law: an atomic bit set or clear is a single write of the mask to the
/// register's alias 0x2000 (set) or 0x3000 (clear) bytes above it, so it
/// touches no other register and no other bit.
pub proof fn lemma_atomic_aliases(addr: u32, mask: u32)
    requires
        addr + 0x3000 <= u32::MAX,
    ensures
        spec_set_bits(addr, mask) == (RegOp::Write { addr: (addr + 0x2000) as u32, value: mask }),
        spec_clear_bits(addr, mask) == (RegOp::Write { addr: (addr + 0x3000) as u32, value: mask }),
{
}

/// The operation that atomically sets the bits of `mask` in the register at `addr`.
pub fn set_bits(addr: u32, mask: u32) -> (op: RegOp)
    requires
        addr + SET_ALIAS <= u32::MAX,
    ensures
        op == spec_set_bits(addr, mask),
{
    RegOp::Write { addr: addr + SET_ALIAS, value: mask }
}

/// The operation that atomically clears the bits of `mask` in the register at `addr`.
pub fn clear_bits(addr: u32, mask: u32) -> (op: RegOp)
    requires
        addr + CLEAR_ALIAS <= u32::MAX,
    ensures
        op == spec_clear_bits(addr, mask),
{
    RegOp::Write { addr: addr + CLEAR_ALIAS, value: mask }
}

/// Whether `op` is a write to the register at `addr`.
pub open spec fn is_write_to(op: RegOp, addr: u32) -> bool {
    match op {
        RegOp::Write { addr: a, .. } => a == addr,
        _ => false,
    }
}

/// Whether `ops` holds a write to the register at `addr`.
pub open spec fn writes_to(ops: Seq<RegOp>, addr: u32) -> bool {
    exists|i: int| 0 <= i < ops.len() && #[trigger] is_write_to(ops[i], addr)
}

} // verus!
