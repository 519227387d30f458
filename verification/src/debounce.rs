//! Debouncing a push button with a table-driven state machine and a time
//! stamp of the earliest allowed state change.
use vstd::prelude::*;

verus! {

/// Waiting for a press.
pub const WAITING: u8 = 0x00u8;
/// Pressed; released only after the bounce time.
pub const PRESSED: u8 = 0x01u8;
/// Released, waiting out the bounce time.
pub const DEBOUNCE_RELEASE: u8 = 0x02u8;
/// A complete press and release: the one state with output.
pub const RELEASED: u8 = 0x03u8;

/// One row of the state table.
pub struct StateTable {
    /// The next state for input 0 (not pressed) and input 1 (pressed).
    pub next: [u8; 2],
    /// The output in this state.
    pub out: u8,
    /// How long, in ms, the machine stays at least in this state.
    pub min_time: u32,
}

/// The next state from `state` on input `inp`.
pub open spec fn spec_next(state: u8, inp: int) -> u8 {
    if state == WAITING {
        if inp == 0 { WAITING } else { PRESSED }
    } else if state == PRESSED {
        if inp == 0 { DEBOUNCE_RELEASE } else { PRESSED }
    } else if state == DEBOUNCE_RELEASE {
        RELEASED
    } else {
        if inp == 0 { WAITING } else { PRESSED }
    }
}

/// The output in `state`.
pub open spec fn spec_out(state: u8) -> u8 {
    if state == RELEASED { 1 } else { 0 }
}

/// The least time in `state`.
pub open spec fn spec_min_time(state: u8) -> u32 {
    if state == PRESSED || state == DEBOUNCE_RELEASE { 5 } else { 0 }
}

/// The row of the state table for `state`.
pub fn fsm(state: u8) -> (row: StateTable)
    requires
        state < 4,
    ensures
        row.next@ == seq![spec_next(state, 0), spec_next(state, 1)],
        row.out == spec_out(state),
        row.min_time == spec_min_time(state),
{
    let row = if state == WAITING {
        StateTable { next: [WAITING, PRESSED], out: 0x00, min_time: 0 }
    } else if state == PRESSED {
        StateTable { next: [DEBOUNCE_RELEASE, PRESSED], out: 0x00, min_time: 5 }
    } else if state == DEBOUNCE_RELEASE {
        StateTable { next: [RELEASED, RELEASED], out: 0x00, min_time: 5 }
    } else {
        StateTable { next: [WAITING, PRESSED], out: 0x01, min_time: 0 }
    };
    assert(row.next@ =~= seq![spec_next(state, 0), spec_next(state, 1)]);
    row
}

/// The state of one switch.
pub struct SwitchStatus {
    /// The pin of the switch.
    pub pin: u32,
    /// The current state of the machine.
    pub cur_state: u8,
    /// The earliest time (ms) at which the state may change.
    pub next_change: u64,
}

/// The state of the machine after a step at time `cur_time` with input `inp`.
pub open spec fn spec_step_state(cur_state: u8, next_change: u64, cur_time: u64, inp: int) -> u8 {
    if cur_time >= next_change { spec_next(cur_state, inp) } else { cur_state }
}

/// The earliest time of the next state change after that step.
pub open spec fn spec_step_next_change(cur_state: u8, next_change: u64, cur_time: u64, inp: int) -> int {
    if cur_time >= next_change && spec_next(cur_state, inp) != cur_state {
        cur_time + spec_min_time(spec_next(cur_state, inp))
    } else {
        next_change as int
    }
}

/// The step at `cur_time` with input `inp` is defined: the state is one of
/// the four, the input 0 or 1, and the next change time fits in 64 bits.
pub open spec fn step_in_range(cur_state: u8, next_change: u64, cur_time: u64, inp: int) -> bool {
    &&& cur_state < 4
    &&& 0 <= inp < 2
    &&& spec_step_next_change(cur_state, next_change, cur_time, inp) <= u64::MAX
}

/// One step of the debouncer at time `cur_time` (ms) with the switch input
/// `inp` (1 pressed, 0 not): the state moves on only once it has lasted its
/// least time.  Returns whether a complete press and release was just seen.
pub fn debounce_input(debounce_status: &mut SwitchStatus, cur_time: u64, inp: usize) -> (released: bool)
    requires
        step_in_range(old(debounce_status).cur_state, old(debounce_status).next_change, cur_time, inp as int),
    ensures
        final(debounce_status).pin == old(debounce_status).pin,
        final(debounce_status).cur_state == spec_step_state(
            old(debounce_status).cur_state,
            old(debounce_status).next_change,
            cur_time,
            inp as int,
        ),
        final(debounce_status).next_change == spec_step_next_change(
            old(debounce_status).cur_state,
            old(debounce_status).next_change,
            cur_time,
            inp as int,
        ),
        final(debounce_status).cur_state < 4,
        released == (final(debounce_status).cur_state == RELEASED),
{
    // Have we been in the current state long enough?
    if cur_time >= debounce_status.next_change {
        let next_state = fsm(debounce_status.cur_state).next[inp];
        if debounce_status.cur_state != next_state {
            debounce_status.cur_state = next_state;
            debounce_status.next_change = cur_time + (fsm(debounce_status.cur_state).min_time as u64);
        }
    }
    fsm(debounce_status.cur_state).out == 1
}

/// The released state never waits: whenever the machine is in it, a step at
/// time `now` may leave it.  True of the starting state and kept by every
/// step on non-decreasing times (`lemma_released_never_waits`).
pub open spec fn released_never_waits(cur_state: u8, next_change: u64, now: u64) -> bool {
    cur_state == RELEASED ==> next_change <= now
}

/// Law: the released state never waits, at every step of a run whose times
/// do not decrease.
pub proof fn lemma_released_never_waits(cur_state: u8, next_change: u64, t1: u64, inp: int, t2: u64)
    requires
        step_in_range(cur_state, next_change, t1, inp),
        released_never_waits(cur_state, next_change, t1),
        t1 <= t2,
    ensures
        released_never_waits(
            spec_step_state(cur_state, next_change, t1, inp),
            spec_step_next_change(cur_state, next_change, t1, inp) as u64,
            t2,
        ),
{
}

/// Law: a press and release is reported once: the step after a report, at the
/// same or a later time, reports nothing, whatever the input.
pub proof fn lemma_release_reported_once(
    cur_state: u8,
    next_change: u64,
    t1: u64,
    inp1: int,
    t2: u64,
    inp2: int,
)
    requires
        step_in_range(cur_state, next_change, t1, inp1),
        0 <= inp2 < 2,
        t1 <= t2,
        released_never_waits(cur_state, next_change, t1),
        spec_step_state(cur_state, next_change, t1, inp1) == RELEASED,
    ensures
        ({
            let s1 = spec_step_state(cur_state, next_change, t1, inp1);
            let n1 = spec_step_next_change(cur_state, next_change, t1, inp1) as u64;
            spec_step_state(s1, n1, t2, inp2) != RELEASED
        }),
{
}

/// Law: a report comes only after the switch was pressed and then let go for
/// the bounce time: the released state is entered only from the debounce
/// state, which is entered only from the pressed state on a released input.
pub proof fn lemma_release_follows_press(cur_state: u8, next_change: u64, cur_time: u64, inp: int)
    requires
        step_in_range(cur_state, next_change, cur_time, inp),
    ensures
        spec_step_state(cur_state, next_change, cur_time, inp) == RELEASED && cur_state != RELEASED
            ==> cur_state == DEBOUNCE_RELEASE,
        spec_step_state(cur_state, next_change, cur_time, inp) == DEBOUNCE_RELEASE && cur_state
            != DEBOUNCE_RELEASE ==> cur_state == PRESSED && inp == 0,
{
}

/// Law: once the machine enters a state it stays there for at least that
/// state's least time: no step before the recorded time changes anything.
pub proof fn lemma_state_held_until_next_change(cur_state: u8, next_change: u64, cur_time: u64, inp: int)
    requires
        step_in_range(cur_state, next_change, cur_time, inp),
    ensures
        cur_time < next_change ==> spec_step_state(cur_state, next_change, cur_time, inp) == cur_state
            && spec_step_next_change(cur_state, next_change, cur_time, inp) == next_change,
        spec_step_state(cur_state, next_change, cur_time, inp) != cur_state ==> spec_step_next_change(
            cur_state,
            next_change,
            cur_time,
            inp,
        ) == cur_time + spec_min_time(spec_step_state(cur_state, next_change, cur_time, inp)),
{
}

/// Law: what one step does, for every state, input and time.  Before the
/// recorded time nothing changes.  Once it is reached: a waiting switch stays
/// waiting while not pressed and becomes pressed when pressed; a pressed
/// switch stays pressed while held and starts the release debounce when let
/// go; the release debounce always ends in the released state; from the
/// released state the switch waits again, or is pressed again.  Entering the
/// pressed or the debounce state locks the state for 5 ms; entering the
/// waiting or the released state locks nothing; staying keeps the recorded time.
pub proof fn lemma_debounce_step(cur_state: u8, next_change: u64, cur_time: u64, inp: int)
    requires
        step_in_range(cur_state, next_change, cur_time, inp),
    ensures
        ({
            let s = spec_step_state(cur_state, next_change, cur_time, inp);
            let n = spec_step_next_change(cur_state, next_change, cur_time, inp);
            &&& cur_time < next_change ==> s == cur_state && n == next_change
            &&& cur_time >= next_change ==> {
                &&& cur_state == WAITING && inp == 0 ==> s == WAITING
                &&& cur_state == WAITING && inp == 1 ==> s == PRESSED
                &&& cur_state == PRESSED && inp == 0 ==> s == DEBOUNCE_RELEASE
                &&& cur_state == PRESSED && inp == 1 ==> s == PRESSED
                &&& cur_state == DEBOUNCE_RELEASE ==> s == RELEASED
                &&& cur_state == RELEASED && inp == 0 ==> s == WAITING
                &&& cur_state == RELEASED && inp == 1 ==> s == PRESSED
            }
            &&& s != cur_state && (s == PRESSED || s == DEBOUNCE_RELEASE) ==> n == cur_time + 5
            &&& s != cur_state && (s == WAITING || s == RELEASED) ==> n == cur_time
            &&& s == cur_state ==> n == next_change
        }),
{
}

/// Law: the waiting state never delays a press: a step that enters the
/// waiting state at time `t` records `t`, so a press at `t` or later is taken
/// at once.
pub proof fn lemma_waiting_takes_press_at_once(cur_state: u8, next_change: u64, t: u64, inp: int, t2: u64)
    requires
        step_in_range(cur_state, next_change, t, inp),
        cur_state != WAITING,
        spec_step_state(cur_state, next_change, t, inp) == WAITING,
        t <= t2,
    ensures
        spec_step_next_change(cur_state, next_change, t, inp) == t,
        spec_step_state(WAITING, t, t2, 1) == PRESSED,
{
}

/// Law: an idle switch never reports: from the waiting state, steps whose
/// input is always 0 leave it waiting, whatever the times.
pub proof fn lemma_idle_switch_never_reports(next_change: u64, times: Seq<u64>)
    ensures
        idle_run(next_change, times) == (WAITING, next_change),
    decreases times.len(),
{
    if times.len() > 0 {
        lemma_idle_switch_never_reports(next_change, times.drop_last());
    }
}

/// The state and recorded time after steps at `times` with input 0, from the
/// waiting state with recorded time `next_change`.
pub open spec fn idle_run(next_change: u64, times: Seq<u64>) -> (u8, u64)
    decreases times.len(),
{
    if times.len() == 0 {
        (WAITING, next_change)
    } else {
        let prev = idle_run(next_change, times.drop_last());
        (
            spec_step_state(prev.0, prev.1, times.last(), 0),
            spec_step_next_change(prev.0, prev.1, times.last(), 0) as u64,
        )
    }
}

} // verus!
