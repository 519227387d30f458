//! A push button that toggles a LED: pin setup, reading the button's input
//! bit, and a debouncing state machine that counts ticks in its state.
use vstd::prelude::*;
use crate::regs::{RegOp, spec_set_bits, spec_clear_bits, set_bits, clear_bits, write_reg, SIO_BASE, SIO_GPIO_OE_SET, SIO_GPIO_OE_CLR};
use crate::pin_io::{io_reset, io_reset_ops, pad_ctrl_addr, gpio_ctrl_addr, pad_ctrl_reg, gpio_ctrl_reg};

verus! {

/// The states of the button.
#[allow(non_camel_case_types)]
#[derive(Clone, Copy, Debug, PartialEq, Eq, Structural)]
pub enum States {
    WAITING,
    PRESSED,
    DEBOUNCE_RELEASE,
    RELEASED,
}

/// One row of the state table.
pub struct StateTableEntry {
    /// The next state for input 0 and for input 1.
    pub next: [States; 2],
    /// Whether this state produces output.
    pub output: bool,
    /// The number of ticks the machine must have spent in this state before it
    /// may move on (it moves on once the count exceeds this).
    pub min_time: u64,
}

/// The next state from `state` on input `inp`.
pub open spec fn spec_next(state: States, inp: int) -> States {
    match state {
        States::WAITING => if inp == 0 { States::WAITING } else { States::PRESSED },
        States::PRESSED => if inp == 0 { States::DEBOUNCE_RELEASE } else { States::PRESSED },
        States::DEBOUNCE_RELEASE => States::RELEASED,
        States::RELEASED => if inp == 0 { States::WAITING } else { States::PRESSED },
    }
}

/// Whether `state` produces output.
pub open spec fn spec_output(state: States) -> bool {
    state == States::RELEASED
}

/// The ticks `state` has to last.
pub open spec fn spec_min_time(state: States) -> u64 {
    match state {
        States::PRESSED => 7,
        States::DEBOUNCE_RELEASE => 3,
        _ => 0,
    }
}

/// The row of the state table for `state`.
pub fn state_table(state: States) -> (row: StateTableEntry)
    ensures
        row.next@ == seq![spec_next(state, 0), spec_next(state, 1)],
        row.output == spec_output(state),
        row.min_time == spec_min_time(state),
{
    let row = match state {
        States::WAITING => StateTableEntry {
            next: [States::WAITING, States::PRESSED],
            output: false,
            min_time: 0,
        },
        States::PRESSED => StateTableEntry {
            next: [States::DEBOUNCE_RELEASE, States::PRESSED],
            output: false,
            min_time: 7,
        },
        States::DEBOUNCE_RELEASE => StateTableEntry {
            next: [States::RELEASED, States::RELEASED],
            output: false,
            min_time: 3,
        },
        States::RELEASED => StateTableEntry {
            next: [States::WAITING, States::PRESSED],
            output: true,
            min_time: 0,
        },
    };
    assert(row.next@ =~= seq![spec_next(state, 0), spec_next(state, 1)]);
    row
}

/// The state after one step with `time_counter` ticks spent in `cur_state`.
pub open spec fn spec_btn_state(time_counter: u64, cur_state: States, inp: int) -> States {
    if time_counter > spec_min_time(cur_state) { spec_next(cur_state, inp) } else { cur_state }
}

/// The tick count after that step: reset to 0 on a change of state.
pub open spec fn spec_btn_counter(time_counter: u64, cur_state: States, inp: int) -> u64 {
    if spec_btn_state(time_counter, cur_state, inp) != cur_state { 0 } else { time_counter }
}

/// One step of the button's state machine with input `inp` (1 pressed, 0 not);
/// returns whether the machine is now in a state with output.
pub fn check_btn(time_counter: &mut u64, cur_state: &mut States, inp: usize) -> (out: bool)
    requires
        *old(time_counter) > spec_min_time(*old(cur_state)) ==> inp < 2,
    ensures
        *final(cur_state) == spec_btn_state(*old(time_counter), *old(cur_state), inp as int),
        *final(time_counter) == spec_btn_counter(*old(time_counter), *old(cur_state), inp as int),
        out == spec_output(*final(cur_state)),
{
    // Have we been in this state long enough to move on?
    if *time_counter > state_table(*cur_state).min_time {
        let new_state = state_table(*cur_state).next[inp];
        // Restart the count on a change of state.
        if *cur_state != new_state {
            *time_counter = 0;
        }
        *cur_state = new_state;
    }
    state_table(*cur_state).output
}

/// Law: the button reports a press and release only after the press lasted
/// longer than 7 ticks and the release longer than 3: the released state is
/// entered only from the debounce state, after more than its 3 ticks, and the
/// debounce state only from the pressed state on a released input after more
/// than 7 ticks.
pub proof fn lemma_btn_release_needs_debounce(time_counter: u64, cur_state: States, inp: int)
    requires
        0 <= inp < 2,
    ensures
        spec_btn_state(time_counter, cur_state, inp) == States::RELEASED && cur_state != States::RELEASED
            ==> cur_state == States::DEBOUNCE_RELEASE && time_counter > 3,
        spec_btn_state(time_counter, cur_state, inp) == States::DEBOUNCE_RELEASE && cur_state
            != States::DEBOUNCE_RELEASE ==> cur_state == States::PRESSED && time_counter > 7 && inp == 0,
{
}

/// Law: a report is never repeated: right after the machine enters the
/// released state its count is 0, and the next step (one tick later) leaves it.
pub proof fn lemma_btn_release_reported_once(time_counter: u64, cur_state: States, inp1: int, inp2: int)
    requires
        0 <= inp1 < 2,
        0 <= inp2 < 2,
        cur_state != States::RELEASED,
        spec_btn_state(time_counter, cur_state, inp1) == States::RELEASED,
    ensures
        spec_btn_counter(time_counter, cur_state, inp1) == 0,
        spec_btn_state(1, States::RELEASED, inp2) != States::RELEASED,
{
}

/// Law: what one step does, for every tick count and input.  A waiting button
/// stays waiting while not pressed and becomes pressed on the first tick it is;
/// a pressed button stays pressed while held, and once it has been pressed
/// for more than 7 ticks a release starts the debounce; the debounce ends in
/// the released state after more than 3 ticks, whatever the input; from the
/// released state the button waits again, or is pressed again.  The count
/// restarts at 0 exactly when the state changes, and only the released state
/// reports.
pub proof fn lemma_btn_step(time_counter: u64, cur_state: States, inp: int)
    requires
        0 <= inp < 2,
    ensures
        ({
            let s = spec_btn_state(time_counter, cur_state, inp);
            let c = spec_btn_counter(time_counter, cur_state, inp);
            &&& cur_state == States::WAITING && inp == 0 ==> s == States::WAITING
            &&& cur_state == States::WAITING && inp == 1 ==> s == (if time_counter > 0 {
                States::PRESSED
            } else {
                States::WAITING
            })
            &&& cur_state == States::PRESSED && inp == 1 ==> s == States::PRESSED
            &&& cur_state == States::PRESSED && inp == 0 ==> s == (if time_counter > 7 {
                States::DEBOUNCE_RELEASE
            } else {
                States::PRESSED
            })
            &&& cur_state == States::DEBOUNCE_RELEASE ==> s == (if time_counter > 3 {
                States::RELEASED
            } else {
                States::DEBOUNCE_RELEASE
            })
            &&& cur_state == States::RELEASED && time_counter > 0 ==> s == (if inp == 0 {
                States::WAITING
            } else {
                States::PRESSED
            })
            &&& cur_state == States::RELEASED && time_counter == 0 ==> s == States::RELEASED
            &&& c == (if s != cur_state { 0 } else { time_counter })
            &&& spec_output(s) == (s == States::RELEASED)
        }),
{
}

/// The state after steps with input 0 and the tick counts `counts`, from `state`.
pub open spec fn btn_idle_run(state: States, counts: Seq<u64>) -> States
    decreases counts.len(),
{
    if counts.len() == 0 {
        state
    } else {
        spec_btn_state(counts.last(), btn_idle_run(state, counts.drop_last()), 0)
    }
}

/// Law: an idle button never reports: from the waiting state, steps whose
/// input is always 0 leave it waiting, whatever the tick counts, so no step
/// of such a run returns true.
pub proof fn lemma_idle_button_never_reports(counts: Seq<u64>)
    ensures
        btn_idle_run(States::WAITING, counts) == States::WAITING,
        !spec_output(btn_idle_run(States::WAITING, counts)),
    decreases counts.len(),
{
    if counts.len() > 0 {
        lemma_idle_button_never_reports(counts.drop_last());
    }
}

/// The input bit of `pin` in the GPIO input register value `gpio_in`.
pub open spec fn spec_pin_bit(gpio_in: u32, pin: u32) -> u32 {
    (gpio_in >> pin) & 1
}

/// The level (0 or 1) of `pin`, given the value `gpio_in` of the GPIO input register.
pub fn read_pin(gpio_in: u32, pin: u32) -> (level: usize)
    requires
        pin < 32,
    ensures
        level == spec_pin_bit(gpio_in, pin),
        level < 2,
{
    let val = gpio_in & (1u32 << pin);  // keep only the wanted pin
    let val = val >> pin;  // shift its bit to the ones position
    let val = val & 0x1;  // drop anything else
    assert(((gpio_in & (1u32 << pin)) >> pin) & 1 == (gpio_in >> pin) & 1) by (bit_vector)
        requires
            pin < 32,
    ;
    assert((gpio_in >> pin) & 1 < 2) by (bit_vector);
    val as usize
}

/// Law: the input level of `pin` is bit `pin` of the input register: 1
/// exactly when that bit is set, and never more than 1.
pub proof fn lemma_pin_bit(gpio_in: u32, pin: u32)
    requires
        pin < 32,
    ensures
        spec_pin_bit(gpio_in, pin) < 2,
        (spec_pin_bit(gpio_in, pin) == 1) == (gpio_in & (1u32 << pin) != 0),
{
    assert((gpio_in >> pin) & 1 < 2 && (((gpio_in >> pin) & 1 == 1) == (gpio_in & (1u32 << pin) != 0)))
        by (bit_vector)
        requires
            pin < 32,
    ;
}

/// Law: the pin setup resets the GPIO blocks first; then the output pin's pad
/// is cleared (output on, input off); the input pin's pad gets output
/// disable (bit 7) and input enable (bit 6), pull-down on (bit 2) and pull-up
/// off (bit 3); both pins go to SIO (function 5); the output driver is turned
/// on for the output pin only and off for the input pin only.
pub proof fn lemma_init_pins_effect(output_pin: u32, input_pin: u32)
    requires
        output_pin < 32,
        input_pin < 32,
    ensures
        ({
            let ops = init_pins_ops(output_pin, input_pin);
            let in_pad = (0x4001_c000 + 4 + 4 * input_pin) as u32;
            &&& ops.len() == 12
            &&& ops.subrange(0, 4) == io_reset_ops()
            &&& ops[4] == RegOp::Write { addr: (0x4001_c000 + 4 + 4 * output_pin) as u32, value: 0 }
            &&& ops[5] == spec_set_bits(in_pad, (1u32 << 7u32) | (1u32 << 6u32))
            &&& ops[6] == spec_set_bits(in_pad, 1u32 << 2u32)
            &&& ops[7] == spec_clear_bits(in_pad, 1u32 << 3u32)
            &&& ops[8] == RegOp::Write { addr: (0x4001_4000 + 8 * output_pin + 4) as u32, value: 5 }
            &&& ops[9] == RegOp::Write { addr: (0x4001_4000 + 8 * input_pin + 4) as u32, value: 5 }
            &&& ops[10] == RegOp::Write { addr: 0xd000_0024, value: 1u32 << output_pin }
            &&& ops[11] == RegOp::Write { addr: 0xd000_0028, value: 1u32 << input_pin }
        }),
{
    let ops = init_pins_ops(output_pin, input_pin);
    assert(ops.subrange(0, 4) =~= io_reset_ops());
    assert((1u32 << 7u32) | (1u32 << 6u32) == 0xc0u32 && 1u32 << 2u32 == 4u32 && 1u32 << 3u32 == 8u32) by (bit_vector);
}

/// The GPIO reset pulses, then `output_pin` as an output and `input_pin` as
/// an input with pull-down, both driven by SIO.
pub open spec fn init_pins_ops(output_pin: u32, input_pin: u32) -> Seq<RegOp> {
    io_reset_ops() + seq![
        RegOp::Write { addr: pad_ctrl_addr(output_pin) as u32, value: 0 },
        spec_set_bits(pad_ctrl_addr(input_pin) as u32, 0xc0),
        spec_set_bits(pad_ctrl_addr(input_pin) as u32, 0x04),
        spec_clear_bits(pad_ctrl_addr(input_pin) as u32, 0x08),
        RegOp::Write { addr: gpio_ctrl_addr(output_pin) as u32, value: 5 },
        RegOp::Write { addr: gpio_ctrl_addr(input_pin) as u32, value: 5 },
        RegOp::Write { addr: (SIO_BASE + SIO_GPIO_OE_SET) as u32, value: 1u32 << output_pin },
        RegOp::Write { addr: (SIO_BASE + SIO_GPIO_OE_CLR) as u32, value: 1u32 << input_pin },
    ]
}

/// The register writes that configure `output_pin` as an output and
/// `input_pin` as a pulled-down input.
pub fn init_pins(output_pin: u32, input_pin: u32) -> (ops: Vec<RegOp>)
    requires
        output_pin < 32,
        input_pin < 32,
    ensures
        ops@ == init_pins_ops(output_pin, input_pin),
{
    let mut ops = io_reset();

    // Output pad: input disabled, output enabled.
    ops.push(write_reg(pad_ctrl_reg(output_pin), 0));

    // Input pad: output disable and input enable.
    let in_pad = pad_ctrl_reg(input_pin);
    let od_ie: u32 = 1u32 << 7u32 | 1u32 << 6u32;
    let pde: u32 = 1u32 << 2u32;
    let pue: u32 = 1u32 << 3u32;
    assert(1u32 << 7u32 | 1u32 << 6u32 == 0xc0u32 && 1u32 << 2u32 == 4u32 && 1u32 << 3u32 == 8u32) by (bit_vector);
    ops.push(set_bits(in_pad, od_ie));
    // Pull-down on, pull-up off.
    ops.push(set_bits(in_pad, pde));
    ops.push(clear_bits(in_pad, pue));

    // Both pins driven by SIO (function 5).
    ops.push(write_reg(gpio_ctrl_reg(output_pin), 5));
    ops.push(write_reg(gpio_ctrl_reg(input_pin), 5));

    // Output driver on for the output pin, off for the input pin.
    ops.push(write_reg(SIO_BASE + SIO_GPIO_OE_SET, 1u32 << output_pin));
    ops.push(write_reg(SIO_BASE + SIO_GPIO_OE_CLR, 1u32 << input_pin));
    assert(ops@ =~= init_pins_ops(output_pin, input_pin));
    ops
}

} // verus!
