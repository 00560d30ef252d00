//! A loop that polls at every tick until it is shut down. It bears some errors in
//! a row, further and further apart, and then gives up.

use vstd::prelude::*;

verus! {

/// How long to wait after the first error in a row.
pub const FIRST_BACKOFF_MS: u64 = 500;

/// How often the wait is doubled at most.
pub const MAX_DOUBLINGS: u32 = 5;

/// How many times the wait is doubled after so many errors in a row.
pub open spec fn doublings(errors: nat) -> nat {
    if errors <= 1 {
        0
    } else if errors - 1 < MAX_DOUBLINGS {
        (errors - 1) as nat
    } else {
        MAX_DOUBLINGS as nat
    }
}

/// How long to wait after so many errors in a row: it doubles with each, up to
/// a limit.
pub open spec fn backoff_ms(errors: nat) -> nat {
    FIRST_BACKOFF_MS as nat * vstd::arithmetic::power2::pow2(doublings(errors))
}

// ---------------------------------------------------------------------------
// The loop
// ---------------------------------------------------------------------------

/// What the loop waits for.
#[derive(Debug, Clone, Copy, PartialEq, Eq, Structural)]
pub enum PollState {
    /// The next tick, or a shutdown.
    Idle,
    /// What comes of a poll.
    Polling,
    /// The end of a wait after an error, or a shutdown.
    BackingOff,
    /// Nothing: it is over.
    Stopped,
}

/// What can happen to the loop.
#[derive(Debug, Clone, Copy, PartialEq, Eq, Structural)]
pub enum PollEvent {
    /// It was told to shut down.
    Shutdown,
    /// The next tick came.
    Ticked,
    /// The poll succeeded.
    Succeeded,
    /// The poll failed.
    Failed,
    /// The wait after an error is over.
    BackoffOver,
}

/// What the loop does next.
#[derive(Debug, Clone, Copy, PartialEq, Eq, Structural)]
pub enum PollAction {
    /// Wait for the next tick, or a shutdown.
    AwaitTick,
    /// Poll.
    Poll,
    /// Wait this many milliseconds, or for a shutdown.
    Backoff(u64),
    /// End.
    Stop,
}

/// Where a loop stands.
pub struct PollView {
    pub limit: nat,
    pub errors: nat,
    pub state: PollState,
}

/// A loop that has polled nothing yet.
pub open spec fn fresh(limit: nat) -> PollView {
    PollView { limit, errors: 0, state: PollState::Idle }
}

/// A loop after an event, and what it does then. An event that it does not wait
/// for changes nothing.
pub open spec fn poll_next(v: PollView, event: PollEvent) -> (PollView, PollAction) {
    match (v.state, event) {
        (PollState::Idle, PollEvent::Shutdown) | (PollState::BackingOff, PollEvent::Shutdown) => (
            PollView { state: PollState::Stopped, ..v },
            PollAction::Stop,
        ),
        (PollState::Idle, PollEvent::Ticked) => (
            PollView { state: PollState::Polling, ..v },
            PollAction::Poll,
        ),
        (PollState::Polling, PollEvent::Succeeded) => (
            PollView { state: PollState::Idle, errors: 0, ..v },
            PollAction::AwaitTick,
        ),
        (PollState::Polling, PollEvent::Failed) => if v.errors + 1 >= v.limit {
            (
                PollView { state: PollState::Stopped, errors: v.errors + 1, ..v },
                PollAction::Stop,
            )
        } else {
            (
                PollView { state: PollState::BackingOff, errors: v.errors + 1, ..v },
                PollAction::Backoff(backoff_ms(v.errors + 1) as u64),
            )
        },
        (PollState::BackingOff, PollEvent::BackoffOver) => (
            PollView { state: PollState::Idle, ..v },
            PollAction::AwaitTick,
        ),
        (PollState::Idle, _) => (v, PollAction::AwaitTick),
        (PollState::Polling, _) => (v, PollAction::Poll),
        (PollState::BackingOff, _) => (v, PollAction::Backoff(backoff_ms(v.errors) as u64)),
        (PollState::Stopped, _) => (v, PollAction::Stop),
    }
}

/// A polling loop.
#[derive(Debug)]
pub struct PollLoop {
    limit: u32,
    errors: u32,
    state: PollState,
}

impl View for PollLoop {
    type V = PollView;

    closed spec fn view(&self) -> PollView {
        PollView { limit: self.limit as nat, errors: self.errors as nat, state: self.state }
    }
}

fn backoff(errors: u32) -> (r: u64)
    ensures
        r == backoff_ms(errors as nat),
        backoff_ms(errors as nat) as u64 == backoff_ms(errors as nat),
{
    let times: u32 = if errors <= 1 {
        0
    } else if errors - 1 < MAX_DOUBLINGS {
        errors - 1
    } else {
        MAX_DOUBLINGS
    };
    let mut wait: u64 = FIRST_BACKOFF_MS;
    let mut i: u32 = 0;
    proof {
        vstd::arithmetic::power2::lemma2_to64();
    }
    while i < times
        invariant
            i <= times <= MAX_DOUBLINGS,
            wait == FIRST_BACKOFF_MS * vstd::arithmetic::power2::pow2(i as nat),
            wait <= FIRST_BACKOFF_MS * 32,
        decreases times - i,
    {
        proof {
            vstd::arithmetic::power2::lemma2_to64();
        }
        wait = wait * 2;
        i = i + 1;
    }
    wait
}

impl PollLoop {
    #[verifier::type_invariant]
    spec fn well_formed(self) -> bool {
        self.state is Stopped || self.errors == 0 || self.errors < self.limit
    }

    /// A loop that ends at `limit` errors in a row.
    pub fn new(limit: u32) -> (r: Self)
        ensures
            r@ == fresh(limit as nat),
    {
        PollLoop { limit, errors: 0, state: PollState::Idle }
    }

    /// What the loop does after an event.
    pub fn step(&mut self, event: PollEvent) -> (r: PollAction)
        ensures
            final(self)@ == poll_next(old(self)@, event).0,
            r == poll_next(old(self)@, event).1,
    {
        proof {
            use_type_invariant(&*self);
        }
        let limit: u32 = self.limit;
        let errors: u32 = self.errors;
        match (self.state, event) {
            (PollState::Idle, PollEvent::Shutdown) | (PollState::BackingOff, PollEvent::Shutdown) => {
                *self = PollLoop { limit, errors, state: PollState::Stopped };
                PollAction::Stop
            },
            (PollState::Idle, PollEvent::Ticked) => {
                *self = PollLoop { limit, errors, state: PollState::Polling };
                PollAction::Poll
            },
            (PollState::Polling, PollEvent::Succeeded) => {
                *self = PollLoop { limit, errors: 0, state: PollState::Idle };
                PollAction::AwaitTick
            },
            (PollState::Polling, PollEvent::Failed) => {
                let errors: u32 = errors + 1;
                if errors >= limit {
                    *self = PollLoop { limit, errors, state: PollState::Stopped };
                    PollAction::Stop
                } else {
                    *self = PollLoop { limit, errors, state: PollState::BackingOff };
                    PollAction::Backoff(backoff(errors))
                }
            },
            (PollState::BackingOff, PollEvent::BackoffOver) => {
                *self = PollLoop { limit, errors, state: PollState::Idle };
                PollAction::AwaitTick
            },
            (PollState::Idle, _) => PollAction::AwaitTick,
            (PollState::Polling, _) => PollAction::Poll,
            (PollState::BackingOff, _) => PollAction::Backoff(backoff(errors)),
            (PollState::Stopped, _) => PollAction::Stop,
        }
    }
}

// ---------------------------------------------------------------------------
// Laws
// ---------------------------------------------------------------------------

/// The waits grow with the errors in a row, from the first one up to 32 times
/// as long, and never beyond.
pub proof fn law_backoff_grows_to_a_limit(errors: nat, more: nat)
    requires
        1 <= errors <= more,
    ensures
        FIRST_BACKOFF_MS <= backoff_ms(errors) <= backoff_ms(more) <= 32 * FIRST_BACKOFF_MS,
        backoff_ms(1) == FIRST_BACKOFF_MS,
        errors < 6 ==> backoff_ms(errors + 1) == 2 * backoff_ms(errors),
        errors >= 6 ==> backoff_ms(errors) == 32 * FIRST_BACKOFF_MS,
{
    vstd::arithmetic::power2::lemma2_to64();
}

/// How many polls failed last, since one succeeded.
pub open spec fn failing_streak(outcomes: Seq<bool>) -> nat
    decreases outcomes.len(),
{
    if outcomes.len() == 0 || outcomes.last() {
        0
    } else {
        failing_streak(outcomes.drop_last()) + 1
    }
}

/// A loop after one round without a shutdown: a tick, a poll, and a wait where
/// the poll failed.
pub open spec fn after_round(v: PollView, ok: bool) -> PollView {
    let polling = poll_next(v, PollEvent::Ticked).0;
    let polled = poll_next(
        polling,
        if ok {
            PollEvent::Succeeded
        } else {
            PollEvent::Failed
        },
    ).0;
    poll_next(polled, PollEvent::BackoffOver).0
}

/// A loop after rounds with these outcomes and no shutdown.
pub open spec fn after_rounds(limit: nat, outcomes: Seq<bool>) -> PollView
    decreases outcomes.len(),
{
    if outcomes.len() == 0 {
        fresh(limit)
    } else {
        after_round(after_rounds(limit, outcomes.drop_last()), outcomes.last())
    }
}

/// Without a shutdown the loop goes on exactly as long as there have never been
/// `limit` errors in a row; a success in between starts the count anew.
pub proof fn law_gives_up_at_the_limit(limit: nat, outcomes: Seq<bool>)
    requires
        limit > 0,
    ensures
        after_rounds(limit, outcomes).limit == limit,
        after_rounds(limit, outcomes).state is Idle || after_rounds(limit, outcomes).state is Stopped,
        after_rounds(limit, outcomes).state is Idle <==> (forall|n: int|
            0 <= n <= outcomes.len() ==> failing_streak(#[trigger] outcomes.take(n)) < limit),
        after_rounds(limit, outcomes).state is Idle ==> after_rounds(limit, outcomes).errors
            == failing_streak(outcomes),
    decreases outcomes.len(),
{
    if outcomes.len() == 0 {
        assert forall|n: int| 0 <= n <= outcomes.len() implies failing_streak(
            #[trigger] outcomes.take(n),
        ) < limit by {}
    } else {
        let before = outcomes.drop_last();
        law_gives_up_at_the_limit(limit, before);
        assert(outcomes.take(outcomes.len() as int) =~= outcomes);
        assert forall|n: int| 0 <= n <= before.len() implies #[trigger] outcomes.take(n)
            == before.take(n) by {
            assert(outcomes.take(n) =~= before.take(n));
        }
        assert(before.take(before.len() as int) =~= before);
        let went_on = after_rounds(limit, before).state is Idle;
        let goes_on = after_rounds(limit, outcomes).state is Idle;
        if goes_on {
            assert forall|n: int| 0 <= n <= outcomes.len() implies failing_streak(
                #[trigger] outcomes.take(n),
            ) < limit by {
                if n <= before.len() {
                    assert(failing_streak(before.take(n)) < limit);
                }
            }
        } else if went_on {
            assert(failing_streak(outcomes.take(outcomes.len() as int)) >= limit);
        } else {
            let n = choose|n: int|
                0 <= n <= before.len() && failing_streak(#[trigger] before.take(n)) >= limit;
            assert(failing_streak(outcomes.take(n)) >= limit);
        }
    }
}

/// Once it is over, the loop does nothing more; and a shutdown while it waits
/// ends it at once, without another poll.
pub proof fn law_stopped_stays_stopped(v: PollView, event: PollEvent)
    ensures
        v.state is Stopped ==> poll_next(v, event) == (v, PollAction::Stop),
        v.state is Idle || v.state is BackingOff ==> poll_next(v, PollEvent::Shutdown).0.state
            is Stopped && poll_next(v, PollEvent::Shutdown).1 is Stop,
        poll_next(v, event).1 is Poll ==> !(v.state is Stopped) && !(v.state is BackingOff),
{
}

/// The wait after an error in a row: half a second after the first, twice as long
/// after each of the next five, and 16 seconds after any other.
pub proof fn law_backoff_in_milliseconds(errors: nat)
    ensures
        errors <= 1 ==> backoff_ms(errors) == 500,
        errors == 2 ==> backoff_ms(errors) == 1_000,
        errors == 3 ==> backoff_ms(errors) == 2_000,
        errors == 4 ==> backoff_ms(errors) == 4_000,
        errors == 5 ==> backoff_ms(errors) == 8_000,
        errors >= 6 ==> backoff_ms(errors) == 16_000,
{
    vstd::arithmetic::power2::lemma2_to64();
}

/// A tick starts a poll. A poll that succeeds clears the errors, and the next tick is
/// awaited. One that fails is counted: where that makes as many in a row as the limit,
/// the loop stops, and otherwise it waits as long as so many errors ask for, and then
/// for the next tick.
pub proof fn law_one_round(v: PollView)
    ensures
        v.state is Idle ==> poll_next(v, PollEvent::Ticked) == (
            PollView { limit: v.limit, errors: v.errors, state: PollState::Polling },
            PollAction::Poll,
        ),
        v.state is Polling ==> poll_next(v, PollEvent::Succeeded) == (
            PollView { limit: v.limit, errors: 0, state: PollState::Idle },
            PollAction::AwaitTick,
        ),
        v.state is Polling && v.errors + 1 >= v.limit ==> poll_next(v, PollEvent::Failed) == (
            PollView { limit: v.limit, errors: v.errors + 1, state: PollState::Stopped },
            PollAction::Stop,
        ),
        v.state is Polling && v.errors + 1 < v.limit ==> poll_next(v, PollEvent::Failed) == (
            PollView { limit: v.limit, errors: v.errors + 1, state: PollState::BackingOff },
            PollAction::Backoff(backoff_ms(v.errors + 1) as u64),
        ),
        v.state is BackingOff ==> poll_next(v, PollEvent::BackoffOver) == (
            PollView { limit: v.limit, errors: v.errors, state: PollState::Idle },
            PollAction::AwaitTick,
        ),
{
}

/// An event that the loop does not wait for changes nothing, and what the loop waits
/// for stays the same. A poll that is under way is not cut short by a shutdown.
pub proof fn law_stray_event_changes_nothing(v: PollView, event: PollEvent)
    ensures
        v.state is Idle && !(event is Ticked) && !(event is Shutdown) ==> poll_next(v, event) == (
            v,
            PollAction::AwaitTick,
        ),
        v.state is Polling && !(event is Succeeded) && !(event is Failed) ==> poll_next(v, event)
            == (v, PollAction::Poll),
        v.state is BackingOff && !(event is BackoffOver) && !(event is Shutdown) ==> poll_next(
            v,
            event,
        ) == (v, PollAction::Backoff(backoff_ms(v.errors) as u64)),
{
}

} // verus!
