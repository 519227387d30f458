//! GPIO pins: handing out each pin at most once, and configuring a pin as an output.
use vstd::prelude::*;
use crate::regs::{RegOp, spec_set_bits, spec_clear_bits, set_bits, clear_bits, IO_BANK0_BASE, PADS_BANK0_BASE, RESETS_BASE, SIO_BASE};

verus! {

/// Number of user GPIO pins of the RP2040.
pub const NUM_PINS: u32 = 30u32;

/// Address of the pad control register of GPIO `pin`.
pub open spec fn pad_ctrl_addr(pin: u32) -> int {
    PADS_BANK0_BASE + (pin + 1) * 4
}

/// Address of the `GPIOn_CTRL` register (function select) of GPIO `pin`.
pub open spec fn gpio_ctrl_addr(pin: u32) -> int {
    IO_BANK0_BASE + pin * 8 + 4
}

/// Both per-pin configuration registers of `pin` have an address that fits in 32 bits.
pub open spec fn pin_regs_fit(pin: u32) -> bool {
    &&& pad_ctrl_addr(pin) <= u32::MAX
    &&& gpio_ctrl_addr(pin) <= u32::MAX
}

/// The address of the pad control register of `pin`.
pub fn pad_ctrl_reg(pin: u32) -> (addr: u32)
    requires
        pad_ctrl_addr(pin) <= u32::MAX,
    ensures
        addr == pad_ctrl_addr(pin),
{
    PADS_BANK0_BASE + (pin + 1) * 4
}

/// The address of the function-select register of `pin`.
pub fn gpio_ctrl_reg(pin: u32) -> (addr: u32)
    requires
        gpio_ctrl_addr(pin) <= u32::MAX,
    ensures
        addr == gpio_ctrl_addr(pin),
{
    IO_BANK0_BASE + (pin * 8 + 4)
}

/// The reset pulses of IO_BANK0 and PADS_BANK0 that bring the GPIO blocks out of reset.
pub open spec fn io_reset_ops() -> Seq<RegOp> {
    seq![
        spec_set_bits(RESETS_BASE, 0x20),
        spec_clear_bits(RESETS_BASE, 0x20),
        spec_set_bits(RESETS_BASE, 0x100),
        spec_clear_bits(RESETS_BASE, 0x100),
    ]
}

/// The register writes that reset IO_BANK0 and PADS_BANK0 and release them again.
pub fn io_reset() -> (ops: Vec<RegOp>)
    ensures
        ops@ == io_reset_ops(),
{
    let io_bank0: u32 = 1u32 << 5u32;
    let pads_bank0: u32 = 1u32 << 8u32;
    assert(1u32 << 5u32 == 0x20u32 && 1u32 << 8u32 == 0x100u32) by (bit_vector);
    let mut ops: Vec<RegOp> = Vec::new();
    ops.push(set_bits(RESETS_BASE, io_bank0));  // write 1 to reset
    ops.push(clear_bits(RESETS_BASE, io_bank0));  // write 0 to release the reset
    ops.push(set_bits(RESETS_BASE, pads_bank0));
    ops.push(clear_bits(RESETS_BASE, pads_bank0));
    assert(ops@ =~= io_reset_ops());
    ops
}

/// Which pins have been handed out.  Entry `p` is `true` once pin `p` is taken.
pub struct PinRegistry {
    taken: [bool; 30],
}

impl View for PinRegistry {
    type V = Seq<bool>;

    closed spec fn view(&self) -> Seq<bool> {
        self.taken@
    }
}

/// Pin `p` can still be handed out.
pub open spec fn pin_available(taken: Seq<bool>, p: u32) -> bool {
    p < NUM_PINS && !taken[p as int]
}

/// The record of taken pins after pin `p` is handed out.
pub open spec fn after_take(taken: Seq<bool>, p: u32) -> Seq<bool> {
    if pin_available(taken, p) {
        taken.update(p as int, true)
    } else {
        taken
    }
}

impl PinRegistry {
    /// A registry in which no pin is taken yet.
    pub fn new() -> (r: Self)
        ensures
            r@ == Seq::new(NUM_PINS as nat, |i: int| false),
    {
        let r = PinRegistry { taken: [false; 30] };
        assert(r@ =~= Seq::new(NUM_PINS as nat, |i: int| false));
        r
    }
}

/// Hands out pin `pin_number` unless it is no GPIO pin or was handed out before.
pub fn get_pin(registry: &mut PinRegistry, pin_number: u32) -> (r: Option<Pin>)
    ensures
        r == (if pin_available(old(registry)@, pin_number) {
            Some(Pin { pin_num: pin_number })
        } else {
            None::<Pin>
        }),
        final(registry)@ == after_take(old(registry)@, pin_number),
        old(registry)@.len() == NUM_PINS,
{
    if pin_number < NUM_PINS {
        if registry.taken[pin_number as usize] == false {
            registry.taken[pin_number as usize] = true;
            Some(Pin { pin_num: pin_number })
        } else {
            None
        }
    } else {
        None
    }
}

/// Law: a pin is handed out at most once, and taking one pin changes nothing
/// about any other pin.
pub proof fn lemma_pin_handed_out_once(taken: Seq<bool>, p: u32, q: u32)
    requires
        taken.len() == NUM_PINS,
    ensures
        !pin_available(after_take(taken, p), p),
        after_take(taken, p).len() == NUM_PINS,
        q != p ==> (pin_available(after_take(taken, p), q) == pin_available(taken, q)),
{
}

/// The record of taken pins after the requests `ps`, in order.
pub open spec fn after_takes(taken: Seq<bool>, ps: Seq<u32>) -> Seq<bool>
    decreases ps.len(),
{
    if ps.len() == 0 {
        taken
    } else {
        after_take(after_takes(taken, ps.drop_last()), ps.last())
    }
}

/// A taken pin stays taken, whatever pins are asked for later.
pub proof fn lemma_taken_stays_taken(taken: Seq<bool>, ps: Seq<u32>, p: u32)
    requires
        taken.len() == NUM_PINS,
        p < NUM_PINS,
        !pin_available(taken, p),
    ensures
        after_takes(taken, ps).len() == NUM_PINS,
        !pin_available(after_takes(taken, ps), p),
    decreases ps.len(),
{
    if ps.len() > 0 {
        lemma_taken_stays_taken(taken, ps.drop_last(), p);
    }
}

/// Law: over any run of requests `ps` from any record `taken`, at most one
/// request for a pin is granted: if request `j` for pin `p` is granted, every
/// later request `k` for `p` is refused.  So no two pins handed out share a number.
pub proof fn lemma_pin_granted_at_most_once(taken: Seq<bool>, ps: Seq<u32>, j: int, k: int)
    requires
        taken.len() == NUM_PINS,
        0 <= j < k < ps.len(),
        ps[j] == ps[k],
        pin_available(after_takes(taken, ps.take(j)), ps[j]),
    ensures
        !pin_available(after_takes(taken, ps.take(k)), ps[k]),
{
    let p = ps[j];
    lemma_len_kept(taken, ps.take(j));
    assert(ps.take(j + 1).drop_last() =~= ps.take(j));
    let mid = after_takes(taken, ps.take(j + 1));
    assert(!pin_available(mid, p));
    assert(ps.take(k) =~= ps.take(j + 1) + ps.subrange(j + 1, k));
    lemma_after_takes_concat(taken, ps.take(j + 1), ps.subrange(j + 1, k));
    lemma_len_kept(taken, ps.take(j + 1));
    lemma_taken_stays_taken(mid, ps.subrange(j + 1, k), p);
}

proof fn lemma_len_kept(taken: Seq<bool>, ps: Seq<u32>)
    requires
        taken.len() == NUM_PINS,
    ensures
        after_takes(taken, ps).len() == NUM_PINS,
    decreases ps.len(),
{
    if ps.len() > 0 {
        lemma_len_kept(taken, ps.drop_last());
    }
}

proof fn lemma_after_takes_concat(taken: Seq<bool>, a: Seq<u32>, b: Seq<u32>)
    ensures
        after_takes(taken, a + b) == after_takes(after_takes(taken, a), b),
    decreases b.len(),
{
    if b.len() == 0 {
        assert(a + b =~= a);
    } else {
        assert((a + b).drop_last() =~= a + b.drop_last());
        lemma_after_takes_concat(taken, a, b.drop_last());
    }
}

/// Law: the per-pin registers: the pad control register of GPIO `p` is word
/// `p + 1` of PADS_BANK0 (word 0 is the voltage select), and its function
/// select register is the second word of its 8-byte slot in IO_BANK0.
pub proof fn lemma_pin_register_addresses(p: u32)
    ensures
        pad_ctrl_addr(p) == 0x4001_c000 + 4 + 4 * p,
        gpio_ctrl_addr(p) == 0x4001_4000 + 8 * p + 4,
{
}

/// Law: the rules of the registry, for every record of 30 pins: pins 30 and
/// above never exist; a pin below 30 can be had exactly when it is not
/// taken; taking an available pin marks exactly that pin, and taking an
/// unavailable one changes nothing.  A fresh registry offers exactly pins 0
/// to 29.
pub proof fn lemma_registry_rules(taken: Seq<bool>, p: u32)
    requires
        taken.len() == 30,
    ensures
        p >= 30 ==> !pin_available(taken, p),
        p < 30 ==> (pin_available(taken, p) <==> !taken[p as int]),
        pin_available(taken, p) ==> after_take(taken, p) == taken.update(p as int, true),
        !pin_available(taken, p) ==> after_take(taken, p) == taken,
        pin_available(Seq::new(30, |i: int| false), p) <==> p < 30,
{
}

/// Law: the GPIO reset pulses reset IO_BANK0 (bit 5 of RESETS), release it,
/// then reset and release PADS_BANK0 (bit 8).
pub proof fn lemma_io_reset_pulses()
    ensures
        io_reset_ops() == seq![
            spec_set_bits(RESETS_BASE, 1u32 << 5u32),
            spec_clear_bits(RESETS_BASE, 1u32 << 5u32),
            spec_set_bits(RESETS_BASE, 1u32 << 8u32),
            spec_clear_bits(RESETS_BASE, 1u32 << 8u32),
        ],
{
    assert(1u32 << 5u32 == 0x20u32 && 1u32 << 8u32 == 0x100u32) by (bit_vector);
}

/// Law: making a pin an output clears its whole pad register (output
/// disable, bit 7, and input enable, bit 6, off), gives the pin to SIO
/// (function 5), and turns on the output driver of that pin only.
pub proof fn lemma_into_output_effect(pin: u32)
    requires
        pin < 32,
    ensures
        ({
            let ops = into_output_ops(pin);
            &&& ops.len() == 3
            &&& ops[0] == RegOp::Write { addr: (0x4001_c000 + 4 + 4 * pin) as u32, value: 0 }
            &&& ops[1] == RegOp::Write { addr: (0x4001_4000 + 8 * pin + 4) as u32, value: 5 }
            &&& ops[2] matches RegOp::Write { addr, value } && addr == 0xd000_0024
                && value & (1u32 << pin) != 0 && value & !(1u32 << pin) == 0
        }),
{
    let v = 1u32 << pin;
    assert(v & (1u32 << pin) != 0 && v & !(1u32 << pin) == 0) by (bit_vector)
        requires
            v == 1u32 << pin,
            pin < 32,
    ;
}

/// An unconfigured GPIO pin.
pub struct Pin {
    pub pin_num: u32,
}

/// The writes that make `pin` a software-controlled output: pad with output
/// enabled and input disabled, function SIO, output driver enabled.
pub open spec fn into_output_ops(pin: u32) -> Seq<RegOp> {
    seq![
        RegOp::Write { addr: pad_ctrl_addr(pin) as u32, value: 0 },
        RegOp::Write { addr: gpio_ctrl_addr(pin) as u32, value: 5 },
        RegOp::Write { addr: (SIO_BASE + 0x024) as u32, value: 1u32 << pin },
    ]
}

impl Pin {
    /// Configures the pin as an output; returns the output pin and the register
    /// writes that do it.
    pub fn into_output(self) -> (r: (OutputPin, Vec<RegOp>))
        requires
            self.pin_num < 32,
        ensures
            r.0.spec_pin() == self.pin_num,
            r.1@ == into_output_ops(self.pin_num),
    {
        let mut ops: Vec<RegOp> = Vec::new();
        ops.push(RegOp::Write { addr: pad_ctrl_reg(self.pin_num), value: 0 });
        ops.push(RegOp::Write { addr: gpio_ctrl_reg(self.pin_num), value: 5 });
        ops.push(RegOp::Write { addr: SIO_BASE + 0x024, value: 1u32 << self.pin_num });
        (OutputPin { pin: self }, ops)
    }

    /// Leaves the pin as it is: an input needs no configuration here.
    pub fn into_input(&self) {
    }
}

/// A GPIO pin configured as an output.
pub struct OutputPin {
    pin: Pin,
}

impl OutputPin {
    #[verifier::type_invariant]
    closed spec fn wf(self) -> bool {
        self.pin.pin_num < 32
    }

    /// The number of the pin.
    pub closed spec fn spec_pin(&self) -> u32 {
        self.pin.pin_num
    }

    /// The number of the pin.
    pub fn pin_num(&self) -> (n: u32)
        ensures
            n == self.spec_pin(),
            n < 32,
    {
        proof {
            use_type_invariant(self);
        }
        self.pin.pin_num
    }

    /// The write that drives the pin high.
    pub fn set_hi(&self) -> (op: RegOp)
        ensures
            self.spec_pin() < 32,
            op == (RegOp::Write { addr: (SIO_BASE + 0x014) as u32, value: 1u32 << self.spec_pin() }),
    {
        proof {
            use_type_invariant(self);
        }
        RegOp::Write { addr: SIO_BASE + 0x014, value: 1u32 << self.pin.pin_num }
    }

    /// The write that inverts the level the pin drives.
    pub fn toggle(&self) -> (op: RegOp)
        ensures
            self.spec_pin() < 32,
            op == (RegOp::Write { addr: (SIO_BASE + 0x01c) as u32, value: 1u32 << self.spec_pin() }),
    {
        proof {
            use_type_invariant(self);
        }
        RegOp::Write { addr: SIO_BASE + 0x01c, value: 1u32 << self.pin.pin_num }
    }

    /// The write that drives the pin low.
    pub fn set_lo(&self) -> (op: RegOp)
        ensures
            self.spec_pin() < 32,
            op == (RegOp::Write { addr: (SIO_BASE + 0x018) as u32, value: 1u32 << self.spec_pin() }),
    {
        proof {
            use_type_invariant(self);
        }
        RegOp::Write { addr: SIO_BASE + 0x018, value: 1u32 << self.pin.pin_num }
    }
}

} // verus!
