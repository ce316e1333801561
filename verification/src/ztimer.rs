//! Durations in the ticks of a clock of known frequency, and sleeping through
//! them in calls that each take at most [`MAX_SLEEP_TICKS`] ticks.
//!
//! The clocks belong to the operating system, and so does the waiting. This
//! module says how many ticks a duration takes, rounded up, and which waits
//! are to be asked of the clock for it, one after the other.

use vstd::prelude::*;

verus! {

/// The most ticks that one call to the clock can wait for.
pub const MAX_SLEEP_TICKS: u32 = 0xffff_ffff;

/// The nanoseconds in one second.
pub const NANOS_PER_SEC: u32 = 1_000_000_000;

/// The length in nanoseconds of `secs` seconds and `subsec_nanos` nanoseconds.
pub open spec fn duration_nanos(secs: u64, subsec_nanos: u32) -> nat {
    (secs * NANOS_PER_SEC + subsec_nanos) as nat
}

/// The ticks that a clock of `hz` ticks per second counts in `secs` seconds
/// and `subsec_nanos` nanoseconds, a tick that has begun counted whole.
pub open spec fn duration_ticks(secs: u64, subsec_nanos: u32, hz: u32) -> nat {
    ((duration_nanos(secs, subsec_nanos) * hz + NANOS_PER_SEC - 1) / (NANOS_PER_SEC as int)) as nat
}

/// How many waits of [`MAX_SLEEP_TICKS`] ticks come before the last wait
/// when `ticks` ticks are slept through.
pub open spec fn full_sleeps(ticks: nat) -> nat {
    if ticks <= MAX_SLEEP_TICKS {
        0
    } else {
        ((ticks - 1) / (MAX_SLEEP_TICKS as int)) as nat
    }
}

/// The ticks of the last wait when `ticks` ticks are slept through.
pub open spec fn last_sleep(ticks: nat) -> nat {
    (ticks - full_sleeps(ticks) * MAX_SLEEP_TICKS) as nat
}

/// The waits that are asked of the clock to sleep through `ticks` ticks, in
/// order: [`full_sleeps`] waits of [`MAX_SLEEP_TICKS`] ticks and then one of
/// [`last_sleep`] ticks. There is always a last wait, of no ticks where
/// `ticks` is 0.
pub open spec fn sleep_calls(ticks: nat) -> Seq<u32> {
    Seq::new(
        full_sleeps(ticks) + 1,
        |i: int|
            if i < full_sleeps(ticks) {
                MAX_SLEEP_TICKS
            } else {
                last_sleep(ticks) as u32
            },
    )
}

/// The sum of the ticks of `calls`.
pub open spec fn total_ticks(calls: Seq<u32>) -> nat
    decreases calls.len(),
{
    if calls.len() == 0 {
        0
    } else {
        calls[0] as nat + total_ticks(calls.drop_first())
    }
}

/// The tick count is the duration times the frequency, rounded up: it is not
/// less than that product, and less than one tick more. Both sides are
/// written in nanoseconds, so that no fraction occurs.
pub proof fn lemma_ticks_round_up(secs: u64, subsec_nanos: u32, hz: u32)
    ensures
        duration_ticks(secs, subsec_nanos, hz) * NANOS_PER_SEC >= duration_nanos(
            secs,
            subsec_nanos,
        ) * hz,
        duration_ticks(secs, subsec_nanos, hz) * NANOS_PER_SEC < duration_nanos(secs, subsec_nanos)
            * hz + NANOS_PER_SEC,
{
    let exact: int = duration_nanos(secs, subsec_nanos) * hz;
    assert(0 <= exact) by (nonlinear_arith)
        requires
            exact == duration_nanos(secs, subsec_nanos) * hz,
    ;
}

/// How a sleep is split: as many full waits as fit before a last wait that
/// is empty only where nothing is slept, then that last wait, which fits in
/// one call. A sleep that fits in one call is that call alone.
pub proof fn lemma_sleep_calls_split(ticks: nat)
    ensures
        sleep_calls(ticks).len() == full_sleeps(ticks) + 1,
        forall|i: int|
            0 <= i < full_sleeps(ticks) ==> #[trigger] sleep_calls(ticks)[i] == MAX_SLEEP_TICKS,
        sleep_calls(ticks).last() == last_sleep(ticks),
        last_sleep(ticks) <= MAX_SLEEP_TICKS,
        ticks > 0 ==> last_sleep(ticks) > 0,
        full_sleeps(ticks) * MAX_SLEEP_TICKS + last_sleep(ticks) == ticks,
        ticks <= MAX_SLEEP_TICKS ==> sleep_calls(ticks) == seq![ticks as u32],
{
    if ticks <= MAX_SLEEP_TICKS {
        assert(sleep_calls(ticks) =~= seq![ticks as u32]);
    }
}

/// Sleeping through more than [`MAX_SLEEP_TICKS`] ticks is one full wait and
/// then sleeping through the rest.
proof fn lemma_sleep_calls_step(ticks: nat)
    requires
        ticks > MAX_SLEEP_TICKS,
    ensures
        sleep_calls(ticks) == seq![MAX_SLEEP_TICKS] + sleep_calls(
            (ticks - MAX_SLEEP_TICKS) as nat,
        ),
        sleep_calls(ticks).drop_first() == sleep_calls((ticks - MAX_SLEEP_TICKS) as nat),
{
    let rest = (ticks - MAX_SLEEP_TICKS) as nat;
    assert(full_sleeps(ticks) == full_sleeps(rest) + 1);
    assert(last_sleep(ticks) == last_sleep(rest));
    assert(sleep_calls(ticks) =~= seq![MAX_SLEEP_TICKS] + sleep_calls(rest));
    assert(sleep_calls(ticks).drop_first() =~= sleep_calls(rest));
}

/// The waits for `ticks` ticks add up to `ticks`: nothing is lost where a
/// sleep is split, and nothing added.
pub proof fn lemma_sleep_calls_total(ticks: nat)
    ensures
        total_ticks(sleep_calls(ticks)) == ticks,
    decreases ticks,
{
    let calls = sleep_calls(ticks);
    if ticks <= MAX_SLEEP_TICKS {
        assert(calls.drop_first().len() == 0);
        assert(total_ticks(calls.drop_first()) == 0);
    } else {
        lemma_sleep_calls_step(ticks);
        lemma_sleep_calls_total((ticks - MAX_SLEEP_TICKS) as nat);
    }
}

/// The waits that are still to be asked of the clock for one sleep.
#[derive(Debug)]
pub struct SleepPlan {
    remaining: u128,
    pending: bool,
}

impl View for SleepPlan {
    type V = Seq<u32>;

    /// The waits that are left, in order.
    closed spec fn view(&self) -> Seq<u32> {
        if self.pending {
            sleep_calls(self.remaining as nat)
        } else {
            Seq::empty()
        }
    }
}

impl SleepPlan {
    /// The ticks of the wait that is to be asked of the clock next, or
    /// nothing where the sleep is over.
    pub fn next_sleep(&mut self) -> (ticks: Option<u32>)
        ensures
            old(self)@.len() == 0 ==> ticks is None && final(self)@ == old(self)@,
            old(self)@.len() > 0 ==> ticks == Some(old(self)@[0]) && final(self)@ == old(
                self,
            )@.drop_first(),
    {
        if !self.pending {
            None
        } else if self.remaining > MAX_SLEEP_TICKS as u128 {
            proof {
                lemma_sleep_calls_step(self.remaining as nat);
            }
            self.remaining = self.remaining - MAX_SLEEP_TICKS as u128;
            Some(MAX_SLEEP_TICKS)
        } else {
            let ticks: u32 = self.remaining as u32;
            assert(old(self)@.drop_first() =~= Seq::<u32>::empty());
            self.pending = false;
            Some(ticks)
        }
    }
}

/// The clocks of the operating system that a handle can stand for.
#[derive(Clone, Copy, PartialEq, Eq, Debug, Structural)]
pub enum Clock {
    /// The millisecond clock.
    Msec,
    /// The microsecond clock.
    Usec,
}

impl Clock {
    /// The ticks that this clock counts per second.
    pub open spec fn spec_frequency(self) -> u32 {
        match self {
            Clock::Msec => 1000,
            Clock::Usec => 1_000_000,
        }
    }

    /// The ticks that this clock counts per second.
    #[verifier::when_used_as_spec(spec_frequency)]
    pub fn frequency(self) -> (hz: u32)
        ensures
            hz == self.spec_frequency(),
    {
        match self {
            Clock::Msec => 1000,
            Clock::Usec => 1_000_000,
        }
    }
}

/// A handle of a clock of the operating system that counts `HZ` ticks per
/// second.
///
/// A handle always names a clock of its own frequency: there is no way to
/// pair a clock with another `HZ`.
#[derive(Clone, Copy, Debug)]
pub struct ZTimer<const HZ: u32> {
    clock: Clock,
}

impl<const HZ: u32> ZTimer<HZ> {
    #[verifier::type_invariant]
    spec fn clock_matches_frequency(self) -> bool {
        self.clock.frequency() == HZ
    }

    /// The clock that this handle stands for.
    pub closed spec fn spec_clock(&self) -> Clock {
        self.clock
    }

    /// The clock that this handle stands for. It counts `HZ` ticks per second.
    #[verifier::when_used_as_spec(spec_clock)]
    pub fn clock(&self) -> (clock: Clock)
        ensures
            clock == self.spec_clock(),
            clock.frequency() == HZ,
    {
        proof {
            use_type_invariant(self);
        }
        self.clock
    }

    /// The ticks that this clock counts in `secs` seconds and `subsec_nanos`
    /// nanoseconds, rounded up.
    pub fn ticks(&self, secs: u64, subsec_nanos: u32) -> (ticks: u128)
        ensures
            ticks == duration_ticks(secs, subsec_nanos, HZ),
    {
        assert(secs * NANOS_PER_SEC <= 0xffff_ffff_ffff_ffff * 1_000_000_000);
        let nanos: u128 = secs as u128 * NANOS_PER_SEC as u128 + subsec_nanos as u128;
        assert(nanos * HZ <= 0x7fff_ffff_ffff_ffff_ffff_ffff_ffff_ffff) by (nonlinear_arith)
            requires
                nanos <= 0xffff_ffff_ffff_ffff * 1_000_000_000 + 0xffff_ffff,
                HZ <= 0xffff_ffff,
        ;
        (nanos * HZ as u128 + (NANOS_PER_SEC as u128 - 1)) / NANOS_PER_SEC as u128
    }

    /// Plans a sleep of `secs` seconds and `subsec_nanos` nanoseconds on this
    /// clock: the duration in ticks, rounded up, and split into waits that
    /// each fit in one call.
    ///
    /// Which clock suits a duration is for the caller to choose. A long sleep
    /// on a fast clock is slept through in full, in several waits.
    pub fn sleep(&self, secs: u64, subsec_nanos: u32) -> (plan: SleepPlan)
        ensures
            plan@ == sleep_calls(duration_ticks(secs, subsec_nanos, HZ)),
    {
        SleepPlan { remaining: self.ticks(secs, subsec_nanos), pending: true }
    }
}

impl ZTimer<1000> {
    /// The handle of the system's millisecond clock.
    pub fn msec() -> (timer: Self)
        ensures
            timer.clock() == Clock::Msec,
    {
        ZTimer { clock: Clock::Msec }
    }
}

impl ZTimer<1000000> {
    /// The handle of the system's microsecond clock.
    pub fn usec() -> (timer: Self)
        ensures
            timer.clock() == Clock::Usec,
    {
        ZTimer { clock: Clock::Usec }
    }
}

} // verus!
