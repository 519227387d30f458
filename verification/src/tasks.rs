//! The decisions of the cooperative tasks that share a blink delay: the
//! press-and-release sequence a button task waits through, and the saturating
//! change of the shared delay.
use vstd::prelude::*;

verus! {

/// `a + b`, clamped to the range of `u64`.
pub open spec fn spec_add_saturating(a: u64, b: i32) -> int {
    if a + b < 0 {
        0
    } else if a + b > u64::MAX {
        u64::MAX as int
    } else {
        a + b
    }
}

/// Adds the signed `b` to `a`, saturating at 0 and at `u64::MAX`.
pub fn add_u64_i32_saturating(a: u64, b: i32) -> (r: u64)
    ensures
        r == spec_add_saturating(a, b),
{
    if b >= 0 {
        a.saturating_add(b as u64)
    } else {
        // The magnitude of b, negated in 64 bits so that even i32::MIN has one,
        // then a subtraction that stops at 0.
        let magnitude = (-(b as i64)) as u64;
        a.saturating_sub(magnitude)
    }
}

/// Law: a change of the delay moves it by exactly `b` when that stays within
/// `0..=u64::MAX`, and otherwise stops at the bound it would pass: it never
/// goes the wrong way and never wraps around.
pub proof fn lemma_add_saturating_clamps(a: u64, b: i32)
    ensures
        0 <= spec_add_saturating(a, b) <= u64::MAX,
        0 <= a + b <= u64::MAX ==> spec_add_saturating(a, b) == a + b,
        a + b < 0 ==> spec_add_saturating(a, b) == 0,
        a + b > u64::MAX ==> spec_add_saturating(a, b) == u64::MAX,
        b >= 0 ==> spec_add_saturating(a, b) >= a,
        b <= 0 ==> spec_add_saturating(a, b) <= a,
{
}

/// Law: a change by `b` followed by a change by `-b` gives the delay back
/// unless the first change hit a bound.
pub proof fn lemma_add_saturating_undone(a: u64, b: i32)
    requires
        b != i32::MIN,
        0 <= a + b <= u64::MAX,
    ensures
        spec_add_saturating(spec_add_saturating(a, b) as u64, (-b) as i32) == a,
{
}

/// Changes the shared delay by `val` ms, saturating; returns the new delay.
pub fn adjust_delay(delay: &mut Option<u64>, val: i32) -> (new: u64)
    requires
        *old(delay) is Some,
    ensures
        new == spec_add_saturating(old(delay).unwrap(), val),
        *final(delay) == Some(new),
{
    let cur = delay.unwrap();
    let new = add_u64_i32_saturating(cur, val);
    *delay = Some(new);
    new
}

/// Where a button task is in one debounced press and release.
#[derive(Clone, Copy, Debug, PartialEq, Eq, Structural)]
pub enum PressPhase {
    /// Waiting for the input to go high.
    AwaitHigh,
    /// The input went high; letting it settle.
    SettleHigh,
    /// Waiting for the input to go low.
    AwaitLow,
    /// The input went low; letting it settle.
    SettleLow,
}

/// What a button task waits for.
#[derive(Clone, Copy, Debug, PartialEq, Eq, Structural)]
pub enum Wait {
    /// The input to be high.
    High,
    /// The input to be low.
    Low,
    /// A number of milliseconds.
    Millis(u64),
}

/// How long a task lets the input settle after an edge, in ms.
pub const SETTLE_MS: u64 = 5u64;

/// What is awaited in `phase`.
pub open spec fn spec_wait(phase: PressPhase) -> Wait {
    match phase {
        PressPhase::AwaitHigh => Wait::High,
        PressPhase::SettleHigh => Wait::Millis(SETTLE_MS),
        PressPhase::AwaitLow => Wait::Low,
        PressPhase::SettleLow => Wait::Millis(SETTLE_MS),
    }
}

/// The phase after the wait of `phase` is over.
pub open spec fn spec_advance(phase: PressPhase) -> PressPhase {
    match phase {
        PressPhase::AwaitHigh => PressPhase::SettleHigh,
        PressPhase::SettleHigh => PressPhase::AwaitLow,
        PressPhase::AwaitLow => PressPhase::SettleLow,
        PressPhase::SettleLow => PressPhase::AwaitHigh,
    }
}

impl PressPhase {
    /// What to await next.
    pub fn wait(&self) -> (w: Wait)
        ensures
            w == spec_wait(*self),
    {
        match self {
            PressPhase::AwaitHigh => Wait::High,
            PressPhase::SettleHigh => Wait::Millis(SETTLE_MS),
            PressPhase::AwaitLow => Wait::Low,
            PressPhase::SettleLow => Wait::Millis(SETTLE_MS),
        }
    }

    /// The wait is over: the next phase, and whether a whole debounced press
    /// and release has just been seen (the moment to act on the button).
    pub fn advance(self) -> (r: (PressPhase, bool))
        ensures
            r.0 == spec_advance(self),
            r.1 == (self == PressPhase::SettleLow),
    {
        match self {
            PressPhase::AwaitHigh => (PressPhase::SettleHigh, false),
            PressPhase::SettleHigh => (PressPhase::AwaitLow, false),
            PressPhase::AwaitLow => (PressPhase::SettleLow, false),
            PressPhase::SettleLow => (PressPhase::AwaitHigh, true),
        }
    }
}

/// Law: from waiting for a press, the task acts after exactly four waits —
/// high, settle, low, settle — and is then waiting for the next press.
pub proof fn lemma_press_cycle()
    ensures
        spec_wait(PressPhase::AwaitHigh) == Wait::High,
        spec_wait(spec_advance(PressPhase::AwaitHigh)) == Wait::Millis(SETTLE_MS),
        spec_wait(spec_advance(spec_advance(PressPhase::AwaitHigh))) == Wait::Low,
        spec_wait(spec_advance(spec_advance(spec_advance(PressPhase::AwaitHigh)))) == Wait::Millis(SETTLE_MS),
        spec_advance(spec_advance(spec_advance(spec_advance(PressPhase::AwaitHigh)))) == PressPhase::AwaitHigh,
        spec_advance(PressPhase::AwaitHigh) != PressPhase::AwaitHigh,
        spec_advance(spec_advance(PressPhase::AwaitHigh)) != PressPhase::AwaitHigh,
        spec_advance(spec_advance(spec_advance(PressPhase::AwaitHigh))) == PressPhase::SettleLow,
{
}

/// The phase and shared delay after the step of a button task that changes
/// the delay by `val`, taken when the wait of `phase` is over.
pub open spec fn spec_reader_step(phase: PressPhase, delay: u64, val: i32) -> (PressPhase, u64) {
    (
        spec_advance(phase),
        if phase == PressPhase::SettleLow { spec_add_saturating(delay, val) as u64 } else { delay },
    )
}

/// One step of a button task that changes the shared delay by `val` ms after
/// each debounced press and release; taken when the wait of `phase` is over.
/// Returns the next phase.
pub fn input_reader_step(phase: PressPhase, delay: &mut Option<u64>, val: i32) -> (next: PressPhase)
    requires
        phase == PressPhase::SettleLow ==> *old(delay) is Some,
    ensures
        next == spec_advance(phase),
        phase == PressPhase::SettleLow ==> *final(delay) == Some(
            spec_reader_step(phase, old(delay).unwrap(), val).1,
        ),
        phase != PressPhase::SettleLow ==> *final(delay) == *old(delay),
{
    let (next, done) = phase.advance();
    if done {
        adjust_delay(delay, val);
    }
    next
}

/// The phase and delay after `n` steps of a button task.
pub open spec fn spec_reader_run(phase: PressPhase, delay: u64, val: i32, n: nat) -> (PressPhase, u64)
    decreases n,
{
    if n == 0 {
        (phase, delay)
    } else {
        let prev = spec_reader_run(phase, delay, val, (n - 1) as nat);
        spec_reader_step(prev.0, prev.1, val)
    }
}

/// The delay after `k` changes by `val`.
pub open spec fn spec_repeat_change(delay: u64, val: i32, k: nat) -> u64
    decreases k,
{
    if k == 0 {
        delay
    } else {
        spec_add_saturating(spec_repeat_change(delay, val, (k - 1) as nat), val) as u64
    }
}

/// The phase after `n` steps from waiting for a press.
pub open spec fn phase_after(n: nat) -> PressPhase {
    if n % 4 == 0 {
        PressPhase::AwaitHigh
    } else if n % 4 == 1 {
        PressPhase::SettleHigh
    } else if n % 4 == 2 {
        PressPhase::AwaitLow
    } else {
        PressPhase::SettleLow
    }
}

/// Law: each completed press-and-release cycle changes the shared delay
/// exactly once: after `n` steps from waiting for a press, a button task is
/// in phase `n mod 4` and has changed the delay `n / 4` times.
pub proof fn lemma_one_change_per_cycle(delay: u64, val: i32, n: nat)
    ensures
        spec_reader_run(PressPhase::AwaitHigh, delay, val, n) == (phase_after(n), spec_repeat_change(delay, val, n / 4)),
    decreases n,
{
    if n > 0 {
        let m = (n - 1) as nat;
        lemma_one_change_per_cycle(delay, val, m);
        if m % 4 == 3 {
            assert(n / 4 == m / 4 + 1);
            assert(n % 4 == 0);
        } else {
            assert(n / 4 == m / 4);
            assert(n % 4 == m % 4 + 1);
        }
    }
}

} // verus!
