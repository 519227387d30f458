//! Counting rising edges on a GPIO with the IO_BANK0 interrupt.
use vstd::prelude::*;
use crate::regs::{RegOp, IO_BANK0_BASE, SIO_BASE, SIO_GPIO_OUT_XOR};

verus! {

/// The LED pin.
pub const LED_PIN: u32 = 25u32;
/// The input pin whose rising edges are counted.
pub const INP_PIN: u32 = 2u32;

/// The bit of the rising-edge event of GPIO 2 in the interrupt registers
/// (four event bits per pin: level low, level high, edge low, edge high).
pub const GPIO2_EDGE_HIGH: u32 = 0x800u32;

/// Address of the raw interrupt register INTR0 (write 1 to clear an edge event).
pub const IO_BANK0_INTR0: u32 = IO_BANK0_BASE + 0x0f0;
/// Address of the interrupt enable register PROC0_INTE0.
pub const IO_BANK0_INTE0: u32 = IO_BANK0_BASE + 0x100;
/// Address of the interrupt status register PROC0_INTS0.
pub const IO_BANK0_INTS0: u32 = IO_BANK0_BASE + 0x120;

/// The status `status` of PROC0_INTS0 shows a rising edge on GPIO 2.
pub open spec fn edge_seen(status: u32) -> bool {
    status & GPIO2_EDGE_HIGH != 0
}

/// The writes that acknowledge the edge event and toggle the LED.
pub open spec fn irq_ops() -> Seq<RegOp> {
    seq![
        RegOp::Write { addr: IO_BANK0_INTR0, value: GPIO2_EDGE_HIGH },
        RegOp::Write { addr: (SIO_BASE + SIO_GPIO_OUT_XOR) as u32, value: 1u32 << LED_PIN },
    ]
}

/// The counter after the handler ran on `status`.
pub open spec fn counted(status: u32, counter: Option<u32>) -> Option<u32> {
    if edge_seen(status) {
        match counter {
            Some(n) => Some((n + 1) as u32),
            None => None,
        }
    } else {
        counter
    }
}

/// The IO_BANK0 interrupt handler, given the interrupt status `status`: on a
/// rising edge of GPIO 2 it counts the edge in `counter` (if the counter is
/// set up), acknowledges the event and toggles the LED.  Returns the register
/// writes to perform.
#[allow(non_snake_case)]
pub fn IO_IRQ_BANK0(status: u32, counter: &mut Option<u32>) -> (ops: Vec<RegOp>)
    requires
        edge_seen(status) && *old(counter) is Some ==> old(counter).unwrap() < u32::MAX,
    ensures
        *final(counter) == counted(status, *old(counter)),
        ops@ == (if edge_seen(status) { irq_ops() } else { Seq::<RegOp>::empty() }),
{
    let mut ops: Vec<RegOp> = Vec::new();
    let edge: u32 = 1u32 << 11u32;
    assert(1u32 << 11u32 == 0x800u32) by (bit_vector);
    // Was this an interrupt from pin 2?
    if (status & edge) != 0 {
        // Count the edge.
        if let Some(data) = counter {
            *data = *data + 1;
        }
        // Clear the rising-edge event.
        ops.push(RegOp::Write { addr: IO_BANK0_BASE + 0x0f0, value: edge });
        // Toggle the LED.
        ops.push(RegOp::Write { addr: SIO_BASE + 0x1c, value: 1u32 << LED_PIN });
        assert(ops@ =~= irq_ops());
    }
    ops
}

/// Law: the handler reacts to the rising-edge event of the input pin, which
/// is bit `4 * pin + 3` of the interrupt registers (four events per pin:
/// level low, level high, edge low, edge high); it acknowledges that event
/// alone in INTR0 and toggles the LED alone through the output XOR register.
pub proof fn lemma_irq_targets()
    ensures
        GPIO2_EDGE_HIGH == 1u32 << (4 * INP_PIN + 3) as u32,
        edge_seen(0) == false,
        forall|status: u32| edge_seen(status) == (status & (1u32 << 11u32) != 0),
        irq_ops() == seq![
            RegOp::Write { addr: 0x4001_40f0, value: 1u32 << 11u32 },
            RegOp::Write { addr: 0xd000_001c, value: 1u32 << 25u32 },
        ],
{
    assert(1u32 << 11u32 == 0x800u32) by (bit_vector);
    assert(0u32 & 0x800u32 == 0) by (bit_vector);
}

/// The number of statuses in `ss` that show a rising edge.
pub open spec fn count_edges(ss: Seq<u32>) -> nat
    decreases ss.len(),
{
    if ss.len() == 0 {
        0
    } else {
        count_edges(ss.drop_last()) + if edge_seen(ss.last()) { 1nat } else { 0nat }
    }
}

/// The counter after the handler ran on each status of `ss`, in order.
pub open spec fn counted_run(counter: Option<u32>, ss: Seq<u32>) -> Option<u32>
    decreases ss.len(),
{
    if ss.len() == 0 {
        counter
    } else {
        counted(ss.last(), counted_run(counter, ss.drop_last()))
    }
}

/// Law: every rising edge is counted exactly once: after the handler ran on
/// the statuses `ss`, a set-up counter has grown by the number of statuses
/// that show an edge, and a counter never set up stays unset.
pub proof fn lemma_each_edge_counted_once(n: u32, ss: Seq<u32>)
    requires
        n + count_edges(ss) <= u32::MAX,
    ensures
        counted_run(Some(n), ss) == Some((n + count_edges(ss)) as u32),
        counted_run(None, ss) == None::<u32>,
    decreases ss.len(),
{
    if ss.len() > 0 {
        lemma_each_edge_counted_once(n, ss.drop_last());
    }
}

} // verus!
