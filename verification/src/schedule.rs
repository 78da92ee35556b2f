//! When state and visualization messages go out.
//!
//! The publishing loop runs one step every `TICK_MILLIS` milliseconds. A
//! message kind with frequency `f` (messages per second) goes out on the step
//! where its counter times `TICK_MILLIS` first exceeds `1000 / f`.
use vstd::prelude::*;

use vstd::arithmetic::div_mod::lemma_fundamental_div_mod_converse;

verus! {

/// Milliseconds between two steps of the publishing loop.
pub const TICK_MILLIS: u64 = 50;

/// Whether a message kind with frequency `frequency` goes out on the step that
/// follows a counter of `counter`.
pub open spec fn publishes_after(counter: nat, frequency: nat) -> bool {
    (counter + 1) * 50 > 1000nat / frequency
}

/// The counter after one step.
pub open spec fn counter_step(counter: nat, frequency: nat) -> nat {
    if publishes_after(counter, frequency) {
        0
    } else {
        counter + 1
    }
}

/// The counter after `n` steps from zero.
pub open spec fn counter_after(n: nat, frequency: nat) -> nat
    decreases n,
{
    if n == 0 {
        0
    } else {
        counter_step(counter_after((n - 1) as nat, frequency), frequency)
    }
}

/// Whether the `n`-th step (counted from one) sends a message.
pub open spec fn publishes_on_step(n: nat, frequency: nat) -> bool {
    n >= 1 && publishes_after(counter_after((n - 1) as nat, frequency), frequency)
}

/// Number of steps from one message of a kind to the next.
pub open spec fn period(frequency: nat) -> nat {
    (1000nat / frequency) / 50 + 1
}

/// Whether the two messages go out on a step.
#[derive(Clone, Copy, PartialEq, Eq, Structural, Debug)]
pub struct PublishDecision {
    /// Send a state message.
    pub state: bool,
    /// Send a visualization message.
    pub visualization: bool,
}

/// Step counters of the publishing loop.
#[derive(Clone, Copy, Debug)]
pub struct PublishSchedule {
    /// Steps since the last state message.
    pub state_counter: u64,
    /// Steps since the last visualization message.
    pub visualization_counter: u64,
    /// State messages per second.
    pub state_frequency: u64,
    /// Visualization messages per second.
    pub visualization_frequency: u64,
}

impl PublishSchedule {
    /// Frequencies are positive and no counter has passed its threshold.
    pub open spec fn wf(self) -> bool {
        &&& self.state_frequency > 0
        &&& self.visualization_frequency > 0
        &&& self.state_counter * 50 <= 1000nat / (self.state_frequency as nat)
        &&& self.visualization_counter * 50 <= 1000nat / (self.visualization_frequency as nat)
    }

    /// A schedule with both counters at zero.
    pub fn new(state_frequency: u64, visualization_frequency: u64) -> (r: PublishSchedule)
        requires
            state_frequency > 0,
            visualization_frequency > 0,
        ensures
            r.wf(),
            r.state_counter == 0,
            r.visualization_counter == 0,
            r.state_frequency == state_frequency,
            r.visualization_frequency == visualization_frequency,
    {
        PublishSchedule { state_counter: 0, visualization_counter: 0, state_frequency, visualization_frequency }
    }

    /// Advances both counters by one step and tells which messages go out;
    /// the counter of a kind that goes out is reset to zero.
    pub fn step(&mut self) -> (r: PublishDecision)
        requires
            old(self).wf(),
        ensures
            final(self).wf(),
            final(self).state_frequency == old(self).state_frequency,
            final(self).visualization_frequency == old(self).visualization_frequency,
            r.state == publishes_after(old(self).state_counter as nat, old(self).state_frequency as nat),
            r.visualization == publishes_after(
                old(self).visualization_counter as nat,
                old(self).visualization_frequency as nat,
            ),
            final(self).state_counter == counter_step(
                old(self).state_counter as nat,
                old(self).state_frequency as nat,
            ),
            final(self).visualization_counter == counter_step(
                old(self).visualization_counter as nat,
                old(self).visualization_frequency as nat,
            ),
    {
        let (state_counter, state) = Self::advance(self.state_counter, self.state_frequency);
        let (visualization_counter, visualization) = Self::advance(
            self.visualization_counter,
            self.visualization_frequency,
        );
        self.state_counter = state_counter;
        self.visualization_counter = visualization_counter;
        PublishDecision { state, visualization }
    }

    fn advance(counter: u64, frequency: u64) -> (r: (u64, bool))
        requires
            frequency > 0,
            counter * 50 <= 1000nat / (frequency as nat),
        ensures
            r.1 == publishes_after(counter as nat, frequency as nat),
            r.0 == counter_step(counter as nat, frequency as nat),
            r.0 * 50 <= 1000nat / (frequency as nat),
    {
        let next = counter + 1;
        if next * TICK_MILLIS > 1000 / frequency {
            (0, true)
        } else {
            (next, false)
        }
    }
}

/// One step from a counter of `n % period` leads to `(n + 1) % period`, and
/// sends a message exactly when `n + 1` is a multiple of the period.
proof fn lemma_step_follows_period(frequency: nat, n: nat)
    requires
        frequency > 0,
    ensures
        counter_step(n % period(frequency), frequency) == (n + 1) % period(frequency),
        publishes_after(n % period(frequency), frequency) <==> (n + 1) % period(frequency) == 0,
{
    let p = period(frequency);
    let t = 1000nat / frequency;
    vstd::arithmetic::div_mod::lemma_fundamental_div_mod(n as int, p as int);
    let c = n % p;
    let q = n / p;
    assert(n == q * p + c);
    assert(publishes_after(c, frequency) <==> c + 1 == p) by {
        assert((c + 1) * 50 == c * 50 + 50);
        assert(t / 50 * 50 <= t < t / 50 * 50 + 50);
    }
    if c + 1 == p {
        assert(n + 1 == (q + 1) * p) by (nonlinear_arith)
            requires
                n == q * p + c,
                c + 1 == p,
        ;
        lemma_fundamental_div_mod_converse((n + 1) as int, p as int, (q + 1) as int, 0);
    } else {
        assert(n + 1 == q * p + (c + 1));
        lemma_fundamental_div_mod_converse((n + 1) as int, p as int, q as int, (c + 1) as int);
    }
}

/// A message kind goes out on exactly every `period(frequency)`-th step of the
/// publishing loop, counted from its start, and the counter after `n` steps is
/// `n` modulo that period.
pub proof fn lemma_publish_period(frequency: nat, n: nat)
    requires
        frequency > 0,
    ensures
        counter_after(n, frequency) == n % period(frequency),
        publishes_on_step(n + 1, frequency) <==> (n + 1) % period(frequency) == 0,
    decreases n,
{
    let p = period(frequency);
    if n == 0 {
        lemma_fundamental_div_mod_converse(0, p as int, 0, 0);
    } else {
        lemma_publish_period(frequency, (n - 1) as nat);
        lemma_step_follows_period(frequency, (n - 1) as nat);
    }
    lemma_step_follows_period(frequency, n);
}

}
