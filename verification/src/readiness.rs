//! Waiting for the player's control channel to come up.
//!
//! The decisions are made here; the caller reads the clock, probes the
//! channel and sleeps. A round is: read the clock, give up if the time
//! allowed has passed, else probe; a refused probe is followed by a pause and
//! the next round.

use vstd::prelude::*;
use vstd::string::*;
use crate::text::{decimal, decimal_text};

verus! {

/// The pause between two probes, in milliseconds.
pub const POLL_INTERVAL_MILLIS: u64 = 120;

/// A refused probe is reported when this many were refused since the last
/// report.
pub const REPORT_EVERY: u64 = 10;

/// What a wait is waiting for.
#[derive(Clone, Copy, Debug, PartialEq, Eq, Structural)]
pub enum WaitPhase {
    /// A reading of the clock.
    AwaitClock,
    /// The result of a probe.
    AwaitProbe,
    /// Nothing: the channel opened.
    Ready,
    /// Nothing: the time allowed has passed.
    TimedOut,
}

/// What a wait is told.
#[derive(Clone, Copy, Debug, PartialEq, Eq, Structural)]
pub enum WaitEvent {
    /// The time since the wait began, in nanoseconds.
    Clock(u128),
    /// The channel was probed: it opened for reading and writing and was
    /// closed again (`true`), or it did not open (`false`).
    Probe(bool),
}

/// What a wait asks for.
#[derive(Clone, Copy, Debug, PartialEq, Eq, Structural)]
pub enum WaitAction {
    /// Read the clock and report it.
    ReadClock,
    /// Open the channel for reading and writing, close it at once, and report
    /// whether it opened.
    Probe,
    /// Sleep for `millis`, then read the clock and report it; before that,
    /// let the user know that the wait goes on if `report` is set.
    Pause { millis: u64, report: bool },
    /// The channel is up; it opened at the probe numbered `attempts`.
    Succeed { attempts: u64 },
    /// Give up; `attempts` probes were refused.
    Fail { attempts: u64 },
}

/// The state of a wait.
#[derive(Clone, Copy, Debug, PartialEq, Eq, Structural)]
pub struct ChannelWait {
    /// The time allowed, in nanoseconds.
    pub timeout_nanos: u128,
    /// How many probes were refused so far.
    pub attempts: u64,
    pub phase: WaitPhase,
}

/// One more than `n`, stopping at the largest count.
pub open spec fn counted_up(n: u64) -> u64 {
    if n < u64::MAX {
        (n + 1) as u64
    } else {
        n
    }
}

impl ChannelWait {
    /// The state after `event`.
    pub open spec fn after(self, event: WaitEvent) -> ChannelWait {
        match (self.phase, event) {
            (WaitPhase::AwaitClock, WaitEvent::Clock(elapsed)) => ChannelWait {
                phase: if elapsed > self.timeout_nanos {
                    WaitPhase::TimedOut
                } else {
                    WaitPhase::AwaitProbe
                },
                ..self
            },
            (WaitPhase::AwaitProbe, WaitEvent::Probe(true)) => ChannelWait {
                phase: WaitPhase::Ready,
                ..self
            },
            (WaitPhase::AwaitProbe, WaitEvent::Probe(false)) => ChannelWait {
                phase: WaitPhase::AwaitClock,
                attempts: counted_up(self.attempts),
                ..self
            },
            _ => self,
        }
    }

    /// What is asked for in answer to `event`.
    ///
    /// An event that is not waited for changes nothing and is answered with
    /// what is waited for.
    pub open spec fn answer(self, event: WaitEvent) -> WaitAction {
        match (self.phase, event) {
            (WaitPhase::AwaitClock, WaitEvent::Clock(elapsed)) => if elapsed
                > self.timeout_nanos {
                WaitAction::Fail { attempts: self.attempts }
            } else {
                WaitAction::Probe
            },
            (WaitPhase::AwaitProbe, WaitEvent::Probe(true)) => WaitAction::Succeed {
                attempts: counted_up(self.attempts),
            },
            (WaitPhase::AwaitProbe, WaitEvent::Probe(false)) => WaitAction::Pause {
                millis: POLL_INTERVAL_MILLIS,
                report: self.attempts % REPORT_EVERY == 0,
            },
            (WaitPhase::AwaitClock, _) => WaitAction::ReadClock,
            (WaitPhase::AwaitProbe, _) => WaitAction::Probe,
            (WaitPhase::Ready, _) => WaitAction::Succeed { attempts: counted_up(self.attempts) },
            (WaitPhase::TimedOut, _) => WaitAction::Fail { attempts: self.attempts },
        }
    }

    /// The state after `rounds` rounds in which the clock read `clock(k)` in
    /// round `k` and every probe was refused.
    pub open spec fn after_refusals(self, clock: spec_fn(nat) -> u128, rounds: nat) -> ChannelWait
        decreases rounds,
    {
        if rounds == 0 {
            self
        } else {
            let round = (rounds - 1) as nat;
            self.after_refusals(clock, round).after(WaitEvent::Clock(clock(round))).after(
                WaitEvent::Probe(false),
            )
        }
    }

    /// A wait that allows `timeout_nanos` and begins with a reading of the
    /// clock.
    pub fn new(timeout_nanos: u128) -> (wait: ChannelWait)
        ensures
            wait == (ChannelWait { timeout_nanos, attempts: 0, phase: WaitPhase::AwaitClock }),
    {
        ChannelWait { timeout_nanos, attempts: 0, phase: WaitPhase::AwaitClock }
    }

    /// Takes `event` in and says what to do next.
    ///
    /// A wait is given up on a reading of the clock beyond the time allowed,
    /// and on nothing else.
    pub fn step(&mut self, event: WaitEvent) -> (action: WaitAction)
        ensures
            *final(self) == old(self).after(event),
            action == old(self).answer(event),
            action is Fail && old(self).phase == WaitPhase::AwaitClock ==> event is Clock
                && event->Clock_0 > old(self).timeout_nanos,
    {
        match self.phase {
            WaitPhase::AwaitClock => match event {
                WaitEvent::Clock(elapsed) => {
                    if elapsed > self.timeout_nanos {
                        self.phase = WaitPhase::TimedOut;
                        WaitAction::Fail { attempts: self.attempts }
                    } else {
                        self.phase = WaitPhase::AwaitProbe;
                        WaitAction::Probe
                    }
                },
                WaitEvent::Probe(_) => WaitAction::ReadClock,
            },
            WaitPhase::AwaitProbe => match event {
                WaitEvent::Probe(opened) => {
                    let next = if self.attempts < u64::MAX {
                        self.attempts + 1
                    } else {
                        self.attempts
                    };
                    if opened {
                        self.phase = WaitPhase::Ready;
                        WaitAction::Succeed { attempts: next }
                    } else {
                        let report = self.attempts % REPORT_EVERY == 0;
                        self.attempts = next;
                        self.phase = WaitPhase::AwaitClock;
                        WaitAction::Pause { millis: POLL_INTERVAL_MILLIS, report }
                    }
                },
                WaitEvent::Clock(_) => WaitAction::Probe,
            },
            WaitPhase::Ready => {
                let next = if self.attempts < u64::MAX {
                    self.attempts + 1
                } else {
                    self.attempts
                };
                WaitAction::Succeed { attempts: next }
            },
            WaitPhase::TimedOut => WaitAction::Fail { attempts: self.attempts },
        }
    }
}

/// The words of the failure, around the channel's address and the count of
/// refused probes.
pub open spec fn timeout_text(address: Seq<char>, attempts: nat) -> Seq<char> {
    "waiting mpv IPC Gateway Timeout（"@ + address + "）,"@ + decimal_text(attempts) + " "@
}

/// What to tell the user when the wait for the channel at `address` was
/// given up.
pub fn timeout_message(address: &str, attempts: u64) -> (r: String)
    ensures
        r@ == timeout_text(address@, attempts as nat),
{
    let mut text = String::from_str("waiting mpv IPC Gateway Timeout（");
    text.append(address);
    text.append("）,");
    let count = decimal(attempts as u128);
    text.append(count.as_str());
    text.append(" ");
    text
}

/// While the clock stays within the time allowed, refused probes lead back
/// to the next reading of the clock, with every one of them counted.
pub proof fn lemma_refusals_counted(wait: ChannelWait, clock: spec_fn(nat) -> u128, rounds: nat)
    requires
        wait.phase == WaitPhase::AwaitClock,
        wait.attempts == 0,
        rounds <= u64::MAX,
        forall|k: nat| k < rounds ==> #[trigger] clock(k) <= wait.timeout_nanos,
    ensures
        wait.after_refusals(clock, rounds) == (ChannelWait {
            timeout_nanos: wait.timeout_nanos,
            attempts: rounds as u64,
            phase: WaitPhase::AwaitClock,
        }),
    decreases rounds,
{
    if rounds > 0 {
        let round = (rounds - 1) as nat;
        lemma_refusals_counted(wait, clock, round);
        assert(clock(round) <= wait.timeout_nanos);
    }
}

/// A channel that opens in round `rounds`, while the clock is still within
/// the time allowed, ends the wait in success, at the probe numbered
/// `rounds + 1`.
pub proof fn lemma_opens_in_time(wait: ChannelWait, clock: spec_fn(nat) -> u128, rounds: nat)
    requires
        wait.phase == WaitPhase::AwaitClock,
        wait.attempts == 0,
        rounds < u64::MAX,
        forall|k: nat| k <= rounds ==> #[trigger] clock(k) <= wait.timeout_nanos,
    ensures
        ({
            let waiting = wait.after_refusals(clock, rounds);
            let reading = WaitEvent::Clock(clock(rounds));
            &&& waiting.answer(reading) == WaitAction::Probe
            &&& waiting.after(reading).answer(WaitEvent::Probe(true)) == (WaitAction::Succeed {
                attempts: (rounds + 1) as u64,
            })
            &&& waiting.after(reading).after(WaitEvent::Probe(true)).phase == WaitPhase::Ready
        }),
{
    lemma_refusals_counted(wait, clock, rounds);
    assert(clock(rounds) <= wait.timeout_nanos);
}

/// A channel that never opens ends the wait in failure at the first reading
/// of the clock beyond the time allowed, and at none before it.
pub proof fn lemma_never_opens(wait: ChannelWait, clock: spec_fn(nat) -> u128, rounds: nat)
    requires
        wait.phase == WaitPhase::AwaitClock,
        wait.attempts == 0,
        rounds <= u64::MAX,
        forall|k: nat| k < rounds ==> #[trigger] clock(k) <= wait.timeout_nanos,
        clock(rounds) > wait.timeout_nanos,
    ensures
        forall|k: nat|
            k < rounds ==> wait.after_refusals(clock, k).answer(WaitEvent::Clock(#[trigger] clock(k)))
                == WaitAction::Probe,
        wait.after_refusals(clock, rounds).answer(WaitEvent::Clock(clock(rounds))) == (
        WaitAction::Fail { attempts: rounds as u64 }),
        wait.after_refusals(clock, rounds).after(WaitEvent::Clock(clock(rounds))).phase
            == WaitPhase::TimedOut,
{
    lemma_refusals_counted(wait, clock, rounds);
    assert forall|k: nat| k < rounds implies wait.after_refusals(clock, k).answer(
        WaitEvent::Clock(#[trigger] clock(k)),
    ) == WaitAction::Probe by {
        lemma_refusals_counted(wait, clock, k);
    }
}

/// On a clock that advances by `interval` from round to round, a channel that
/// opens after `rounds` intervals opens in time if `rounds * interval` does
/// not exceed the time allowed.
pub proof fn lemma_ready_after_intervals(wait: ChannelWait, interval: nat, rounds: nat)
    requires
        wait.phase == WaitPhase::AwaitClock,
        wait.attempts == 0,
        rounds < u64::MAX,
        rounds * interval <= wait.timeout_nanos,
    ensures
        ({
            let clock = |k: nat| (k * interval) as u128;
            let waiting = wait.after_refusals(clock, rounds);
            let reading = WaitEvent::Clock(clock(rounds));
            &&& waiting.answer(reading) == WaitAction::Probe
            &&& waiting.after(reading).answer(WaitEvent::Probe(true)) == (WaitAction::Succeed {
                attempts: (rounds + 1) as u64,
            })
        }),
{
    let clock = |k: nat| (k * interval) as u128;
    assert forall|k: nat| k <= rounds implies #[trigger] clock(k) <= wait.timeout_nanos by {
        assert(k * interval <= rounds * interval) by (nonlinear_arith)
            requires
                k <= rounds,
        ;
    }
    lemma_opens_in_time(wait, clock, rounds);
}

} // verus!
