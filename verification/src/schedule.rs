use vstd::prelude::*;
use crate::event::{all_wf, WindowEvent};
use crate::input::Input;
use crate::state::{found, made, replay, Outcome, StateManager, TState};
use crate::window::{UpdateCap, Window};

verus! {

/// Nanoseconds in one second.
pub const NANOS_PER_SECOND: u64 = 1_000_000_000;

/// Whether a frame may run when `elapsed` nanoseconds have passed since the
/// last one: always without a cap, and under `Cap(n)` once at least one
/// n-th of a second has passed.
pub open spec fn eligible(cap: UpdateCap, elapsed: u64) -> bool {
    match cap {
        UpdateCap::Cap(n) => elapsed as int * n as int >= NANOS_PER_SECOND as int,
        _ => true,
    }
}

pub fn can_update(cap: UpdateCap, elapsed: u64) -> (r: bool)
    ensures
        r == eligible(cap, elapsed),
{
    match cap {
        UpdateCap::Cap(n) => {
            assert(elapsed as int * n as int <= 0xFFFF_FFFF_FFFF_FFFF * 0xFFFF_FFFF)
                by (nonlinear_arith)
                requires
                    0 <= elapsed as int <= 0xFFFF_FFFF_FFFF_FFFF,
                    0 <= n as int <= 0xFFFF_FFFF,
            ;
            let product: u128 = (elapsed as u128) * (n as u128);
            product >= 1_000_000_000u128
        },
        _ => true,
    }
}

/// What the main loop does in one iteration.
#[derive(Copy, Clone, Eq, PartialEq, Debug, Structural)]
pub enum LoopAction {
    /// Too early for the next frame: do nothing and look again.
    Idle,
    /// Run a frame: pump the events, update the current state with the
    /// elapsed nanoseconds given here, present.
    Frame(u64),
    /// The window was asked to close: leave the loop and dispose.
    Shutdown,
}

/// Nanoseconds from `last` to `now`, and zero where the clock has not moved
/// on.
pub open spec fn elapsed_between(last: u64, now: u64) -> u64 {
    if now >= last {
        (now - last) as u64
    } else {
        0
    }
}

/// The decision of one iteration of the main loop.
pub open spec fn next_action(last: u64, now: u64, should_close: bool, cap: UpdateCap) -> LoopAction {
    if should_close {
        LoopAction::Shutdown
    } else if eligible(cap, elapsed_between(last, now)) {
        LoopAction::Frame(elapsed_between(last, now))
    } else {
        LoopAction::Idle
    }
}

/// The reference sample of the monotonic clock, in nanoseconds: the moment at
/// which the last frame ran.
pub struct FrameClock {
    last: u64,
}

impl FrameClock {
    pub closed spec fn last(&self) -> u64 {
        self.last
    }

    /// A clock whose reference sample is `now`.
    pub fn new(now: u64) -> (r: FrameClock)
        ensures
            r.last() == now,
    {
        FrameClock { last: now }
    }

    /// Moves the reference sample to `now`: the frame that just ran is over.
    pub fn reset(&mut self, now: u64)
        ensures
            final(self).last() == now,
    {
        self.last = now;
    }

    /// One iteration of the main loop at clock sample `now`. The reference
    /// sample moves to `now` exactly when a frame runs.
    pub fn tick(&mut self, now: u64, should_close: bool, cap: UpdateCap) -> (r: LoopAction)
        ensures
            r == next_action(old(self).last(), now, should_close, cap),
            final(self).last() == (if r is Frame {
                now
            } else {
                old(self).last()
            }),
    {
        if should_close {
            return LoopAction::Shutdown;
        }
        let elapsed: u64 = if now >= self.last {
            now - self.last
        } else {
            0
        };
        if can_update(cap, elapsed) {
            self.last = now;
            LoopAction::Frame(elapsed)
        } else {
            LoopAction::Idle
        }
    }
}

/// Start of the main loop: initializes the state manager and takes `now` as
/// the first reference sample of the clock.
pub fn start<S: TState>(states: &mut StateManager<S>, now: u64) -> (r: (FrameClock, Outcome))
    requires
        old(states).wf(),
    ensures
        r.0.last() == now,
        final(states).wf(),
        final(states)@ == old(states)@.after_init(),
        r.1.callbacks@ == old(states)@.init_plan(),
        r.1.warning == old(states)@.init_warning(),
        exists|refs: Seq<&mut S>, left: Seq<S>|
            #![trigger refs.len(), left.len()]
            {
                &&& refs.len() == r.1.callbacks@.len()
                &&& left.len() == r.1.callbacks@.len()
                &&& final(states).states() == replay(old(states).states(), r.1.callbacks@, left)
                &&& forall|i: int|
                    0 <= i < r.1.callbacks@.len() ==> {
                        &&& made(r.1.callbacks@[i], #[trigger] refs[i], None::<&Input>)
                        &&& mut_ref_current(refs[i]) == found(old(states).states(), r.1.callbacks@, left, i)
                        &&& mut_ref_future(refs[i]) == left[i]
                    }
            },
        r.1.callbacks@.len() == 0 ==> final(states).states() == old(states).states(),
{
    let outcome = states.init();
    (FrameClock::new(now), outcome)
}

/// One frame of the main loop, once `tick` has decided on it: pumps the
/// events into the window record and the input aggregator, then updates the
/// current state with the new input and the elapsed nanoseconds.
pub fn run_frame<S: TState>(
    window: &mut Window,
    input: &mut Input,
    states: &mut StateManager<S>,
    events: &Vec<WindowEvent>,
    delta: u64,
) -> (r: Outcome)
    requires
        all_wf(events@),
        old(states).wf(),
    ensures
        final(window)@ == old(window)@.after_frame(events@),
        final(input)@ == old(input)@.after_frame(events@),
        final(states).wf(),
        final(states)@ == old(states)@,
        r.warning is None,
        r.callbacks@ == old(states)@.update_calls(delta),
        exists|refs: Seq<&mut S>, left: Seq<S>|
            #![trigger refs.len(), left.len()]
            {
                &&& refs.len() == r.callbacks@.len()
                &&& left.len() == r.callbacks@.len()
                &&& final(states).states() == replay(old(states).states(), r.callbacks@, left)
                &&& forall|i: int|
                    0 <= i < r.callbacks@.len() ==> {
                        &&& made(r.callbacks@[i], #[trigger] refs[i], Some(&*final(input)))
                        &&& mut_ref_current(refs[i]) == found(old(states).states(), r.callbacks@, left, i)
                        &&& mut_ref_future(refs[i]) == left[i]
                    }
            },
        r.callbacks@.len() == 0 ==> final(states).states() == old(states).states(),
{
    window.process_events(input, events);
    states.update(input, delta)
}

/// Under a cap of `n` frames per second, with `n` positive, a frame runs
/// exactly when the nanoseconds elapsed reach the n-th part of a second,
/// rounded up; without a cap every iteration runs one.
pub proof fn lemma_cap_threshold(n: u32, elapsed: u64)
    requires
        n > 0,
    ensures
        eligible(UpdateCap::Cap(n), elapsed) <==> elapsed as int >= (NANOS_PER_SECOND as int + n
            as int - 1) / (n as int),
        eligible(UpdateCap::Vsync, elapsed),
        eligible(UpdateCap::Unlimited, elapsed),
{
    let e = elapsed as int;
    let m = n as int;
    let t = (1_000_000_000 + m - 1) / m;
    assert((e * m >= 1_000_000_000) <==> (e >= t)) by (nonlinear_arith)
        requires
            m > 0,
            e >= 0,
            t == (1_000_000_000 + m - 1) / m,
    ;
}

} // verus!
