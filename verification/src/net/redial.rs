//! When a node without peers dials the peers it knows again.
use crate::net::dial::{begins, DialRound};
use crate::net::error::{DbError, NetError};
use crate::types::SocketAddr;
use vstd::arithmetic::power2::{lemma_pow2_unfold, pow2};
use vstd::prelude::*;

verus! {

/// Nanoseconds in a second.
pub const NANOS_PER_SEC: u32 = 1_000_000_000;

/// A time to wait: whole seconds, and nanoseconds short of a second.
#[derive(Clone, Copy, Debug, PartialEq, Eq, Structural)]
pub struct Delay {
    pub secs: u64,
    pub nanos: u32,
}

/// The longest time to wait, in nanoseconds.
pub open spec fn longest() -> int {
    u64::MAX * 1_000_000_000 + 999_999_999
}

/// The shorter of two times.
pub open spec fn shorter(a: int, b: int) -> int {
    if a <= b {
        a
    } else {
        b
    }
}

impl View for Delay {
    type V = int;

    /// The time in nanoseconds.
    open spec fn view(&self) -> int {
        self.secs * 1_000_000_000 + self.nanos
    }
}

impl Delay {
    /// The nanoseconds do not make up a second.
    pub open spec fn wf(&self) -> bool {
        self.nanos < NANOS_PER_SEC
    }

    /// Twice the time.
    pub fn doubled(&self) -> (r: Delay)
        requires
            self.wf(),
            2 * self@ <= longest(),
        ensures
            r.wf(),
            r@ == 2 * self@,
    {
        let nanos: u32 = 2 * self.nanos;
        if nanos >= NANOS_PER_SEC {
            Delay { secs: 2 * self.secs + 1, nanos: nanos - NANOS_PER_SEC }
        } else {
            Delay { secs: 2 * self.secs, nanos }
        }
    }

    /// The shorter of two times.
    pub fn min(&self, other: &Delay) -> (r: Delay)
        requires
            self.wf(),
            other.wf(),
        ensures
            r.wf(),
            r@ == shorter(self@, other@),
            r@ <= self@,
            r@ <= other@,
            r == *self || r == *other,
    {
        if self.secs < other.secs || (self.secs == other.secs && self.nanos <= other.nanos) {
            *self
        } else {
            *other
        }
    }
}

/// What to do after a check for connections.
#[derive(Clone, Copy, Debug, PartialEq, Eq, Structural)]
pub enum RedialStep {
    /// Wait, and check again.
    Wait,
    /// Dial the known peers, report it by `Redial::dialed`, then wait and check again.
    Dial,
}

/// Decides when the known peers are dialed again.
pub struct Redial {
    min_delay: Delay,
    max_delay: Delay,
    delay: Delay,
    no_peers_at_last_check: bool,
}

/// What `Redial` goes by.
pub struct RedialState {
    /// The shortest wait between two checks, in nanoseconds.
    pub min_delay: int,
    /// The longest wait that doubling leads to, in nanoseconds.
    pub max_delay: int,
    /// The wait before the next check, in nanoseconds.
    pub delay: int,
    /// Whether the last check found no connection.
    pub no_peers_at_last_check: bool,
}

/// State after a check that found connections, or none.
pub open spec fn after_check(state: RedialState, has_peers: bool) -> RedialState {
    if has_peers {
        RedialState { delay: state.min_delay, no_peers_at_last_check: false, ..state }
    } else {
        RedialState { no_peers_at_last_check: true, ..state }
    }
}

/// What a check leads to: a dial, if this check and the one before found no connection.
pub open spec fn check_step(state: RedialState, has_peers: bool) -> RedialStep {
    if !has_peers && state.no_peers_at_last_check {
        RedialStep::Dial
    } else {
        RedialStep::Wait
    }
}

/// State after the known peers were dialed.
pub open spec fn after_dial(state: RedialState) -> RedialState {
    RedialState { delay: shorter(2 * state.delay, state.max_delay), ..state }
}

impl View for Redial {
    type V = RedialState;

    closed spec fn view(&self) -> RedialState {
        RedialState {
            min_delay: self.min_delay@,
            max_delay: self.max_delay@,
            delay: self.delay@,
            no_peers_at_last_check: self.no_peers_at_last_check,
        }
    }
}

impl Redial {
    pub closed spec fn wf(&self) -> bool {
        &&& self.min_delay.wf()
        &&& self.max_delay.wf()
        &&& self.delay.wf()
    }

    /// Begins with no check made, and the shortest wait.
    pub fn new(min_delay: Delay, max_delay: Delay) -> (redial: Redial)
        requires
            min_delay.wf(),
            max_delay.wf(),
        ensures
            redial.wf(),
            redial@ == (RedialState {
                min_delay: min_delay@,
                max_delay: max_delay@,
                delay: min_delay@,
                no_peers_at_last_check: false,
            }),
    {
        Redial { min_delay, max_delay, delay: min_delay, no_peers_at_last_check: false }
    }

    /// How long to wait before the next check.
    pub fn delay(&self) -> (delay: Delay)
        requires
            self.wf(),
        ensures
            delay.wf(),
            delay@ == self@.delay,
    {
        self.delay
    }

    /// Takes in a check for connections, and says whether to dial. The node reconnects
    /// by itself to a peer whose connection failed, so a dial waits for a full delay
    /// with no connection.
    pub fn checked(&mut self, has_peers: bool) -> (step: RedialStep)
        requires
            old(self).wf(),
        ensures
            final(self).wf(),
            final(self)@ == after_check(old(self)@, has_peers),
            step == check_step(old(self)@, has_peers),
            has_peers ==> final(self)@.delay == old(self)@.min_delay,
            !has_peers ==> final(self)@.delay == old(self)@.delay,
            final(self)@.no_peers_at_last_check == !has_peers,
            step == RedialStep::Dial <==> !has_peers && old(self)@.no_peers_at_last_check,
    {
        if has_peers {
            self.delay = self.min_delay;
            self.no_peers_at_last_check = false;
            return RedialStep::Wait;
        }
        if !self.no_peers_at_last_check {
            self.no_peers_at_last_check = true;
            return RedialStep::Wait;
        }
        RedialStep::Dial
    }

    /// Whether twice the wait is still a time that can be waited for.
    pub fn can_double(&self) -> (r: bool)
        requires
            self.wf(),
        ensures
            r == (2 * self@.delay <= longest()),
    {
        self.delay.secs < 0x8000_0000_0000_0000
    }

    /// Takes in that the known peers were dialed: the wait doubles, up to the longest.
    pub fn dialed(&mut self)
        requires
            old(self).wf(),
            2 * old(self)@.delay <= longest(),
        ensures
            final(self).wf(),
            final(self)@ == after_dial(old(self)@),
            final(self)@.delay == if 2 * old(self)@.delay <= old(self)@.max_delay {
                2 * old(self)@.delay
            } else {
                old(self)@.max_delay
            },
    {
        self.delay = self.delay.doubled().min(&self.max_delay);
    }

    /// Takes in what a round of dialing came to: the number of connections that started, or
    /// the error that ends the redialing.
    pub fn dialed_round(&mut self, outcome: Result<usize, NetError>) -> (r: Result<
        usize,
        NetError,
    >)
        requires
            old(self).wf(),
            outcome is Ok ==> 2 * old(self)@.delay <= longest(),
        ensures
            final(self).wf(),
            r == outcome,
            final(self)@ == after_round(old(self)@, outcome),
            outcome is Ok ==> final(self)@.delay == if 2 * old(self)@.delay
                <= old(self)@.max_delay {
                2 * old(self)@.delay
            } else {
                old(self)@.max_delay
            },
            outcome is Err ==> final(self)@ == old(self)@,
    {
        match outcome {
            Ok(started) => {
                self.dialed();
                Ok(started)
            },
            Err(error) => Err(error),
        }
    }
}

/// State after a round of dialing. One that failed changes nothing.
pub open spec fn after_round(state: RedialState, outcome: Result<usize, NetError>) -> RedialState {
    match outcome {
        Ok(_) => after_dial(state),
        Err(_) => state,
    }
}

/// The redialing ends only on a database error: whatever comes of the seed nodes and of the
/// single dials, a round fails if and only if the known peers cannot be read, and every other
/// step of the redialing goes on.
pub proof fn only_a_database_error_ends_the_redialing(
    known: Result<Vec<SocketAddr>, DbError>,
    round: Result<DialRound, NetError>,
    outcome: Result<usize, NetError>,
)
    requires
        begins(known, round),
        match round {
            Ok(_) => outcome is Ok,
            Err(error) => outcome == Err::<usize, NetError>(error),
        },
    ensures
        outcome is Err <==> known is Err,
        outcome matches Err(error) ==> (error matches NetError::Db(reason) && known == Err::<
            Vec<SocketAddr>,
            DbError,
        >(reason)),
{
}

/// State after `checks`, where every dial that they lead to is made.
pub open spec fn after_checks(state: RedialState, checks: Seq<bool>) -> RedialState
    decreases checks.len(),
{
    if checks.len() == 0 {
        state
    } else {
        let before = after_checks(state, checks.drop_last());
        let checked = after_check(before, checks.last());
        if check_step(before, checks.last()) == RedialStep::Dial {
            after_dial(checked)
        } else {
            checked
        }
    }
}

/// A node that begins to redial.
pub open spec fn fresh(min_delay: int, max_delay: int) -> RedialState {
    RedialState { min_delay, max_delay, delay: min_delay, no_peers_at_last_check: false }
}

/// The limits of the wait never change.
proof fn limits_stay(state: RedialState, checks: Seq<bool>)
    ensures
        after_checks(state, checks).min_delay == state.min_delay,
        after_checks(state, checks).max_delay == state.max_delay,
    decreases checks.len(),
{
    if checks.len() > 0 {
        limits_stay(state, checks.drop_last());
    }
}

/// The known peers are dialed if and only if the last two checks found no
/// connection: a lost peer is dialed after a full delay without one, and never
/// before.
pub proof fn a_dial_follows_two_checks_without_peers(
    min_delay: int,
    max_delay: int,
    checks: Seq<bool>,
    has_peers: bool,
)
    ensures
        check_step(after_checks(fresh(min_delay, max_delay), checks), has_peers) == RedialStep::Dial
            <==> !has_peers && checks.len() > 0 && !checks.last(),
{
}

/// While a connection exists at every check, the known peers are never dialed, and
/// the wait stays the shortest.
pub proof fn a_connected_peer_takes_no_redial(
    min_delay: int,
    max_delay: int,
    checks: Seq<bool>,
)
    requires
        forall|i: int| 0 <= i < checks.len() ==> checks[i],
    ensures
        after_checks(fresh(min_delay, max_delay), checks) == fresh(min_delay, max_delay),
        check_step(after_checks(fresh(min_delay, max_delay), checks), true) == RedialStep::Wait,
    decreases checks.len(),
{
    if checks.len() > 0 {
        a_connected_peer_takes_no_redial(min_delay, max_delay, checks.drop_last());
    }
}

/// Every wait lies between the shortest and the longest.
pub proof fn a_wait_is_within_its_limits(min_delay: int, max_delay: int, checks: Seq<bool>)
    requires
        0 <= min_delay <= max_delay,
    ensures
        min_delay <= after_checks(fresh(min_delay, max_delay), checks).delay <= max_delay,
    decreases checks.len(),
{
    limits_stay(fresh(min_delay, max_delay), checks);
    if checks.len() > 0 {
        limits_stay(fresh(min_delay, max_delay), checks.drop_last());
        a_wait_is_within_its_limits(min_delay, max_delay, checks.drop_last());
    }
}

/// Twice what doubling `k` times led to, up to a longest wait.
proof fn doubling_step(min_delay: int, max_delay: int, k: nat)
    requires
        0 <= min_delay <= max_delay,
    ensures
        shorter(2 * shorter(min_delay * pow2(k), max_delay), max_delay) == shorter(
            min_delay * pow2(k + 1),
            max_delay,
        ),
{
    lemma_pow2_unfold(k + 1);
    let p: int = pow2(k) as int;
    assert(min_delay * (2 * p) == 2 * (min_delay * p)) by (nonlinear_arith);
}

/// The wait doubles after each redial: when no connection was found since the
/// beginning, or since a check that found one, the wait after `k` redials is the
/// shortest one doubled `k` times, up to the longest. The first redial comes with the
/// second check without a connection, and one with every check after it.
pub proof fn the_wait_doubles_after_each_redial(
    min_delay: int,
    max_delay: int,
    checks: Seq<bool>,
    k: nat,
)
    requires
        0 <= min_delay <= max_delay,
        checks.len() >= k + 1,
        forall|i: int| checks.len() - k - 1 <= i < checks.len() ==> !checks[i],
        checks.len() > k + 1 ==> checks[checks.len() - k - 2],
    ensures
        after_checks(fresh(min_delay, max_delay), checks).delay == shorter(
            min_delay * pow2(k),
            max_delay,
        ),
        after_checks(fresh(min_delay, max_delay), checks).no_peers_at_last_check,
    decreases k,
{
    let start = fresh(min_delay, max_delay);
    let before = checks.drop_last();
    limits_stay(start, before);
    if k == 0 {
        vstd::arithmetic::power2::lemma2_to64();
        if before.len() > 0 {
            limits_stay(start, before.drop_last());
        }
    } else {
        let j = (k - 1) as nat;
        the_wait_doubles_after_each_redial(min_delay, max_delay, before, j);
        doubling_step(min_delay, max_delay, j);
    }
}

/// A round doubles the wait, up to the longest, however many connections it started, even
/// if that is none. It changes nothing else. A round that failed changes nothing at all.
pub proof fn every_round_doubles_the_wait(
    state: RedialState,
    started: usize,
    other: usize,
    error: NetError,
)
    ensures
        ({
            let after = after_round(state, Ok(started));
            &&& after.delay <= 2 * state.delay
            &&& after.delay <= state.max_delay
            &&& after.delay == 2 * state.delay || after.delay == state.max_delay
            &&& after.min_delay == state.min_delay
            &&& after.max_delay == state.max_delay
            &&& after.no_peers_at_last_check == state.no_peers_at_last_check
            &&& after == after_round(state, Ok(other))
        }),
        after_round(state, Err(error)) == state,
{
}

/// A check that finds a connection takes the wait back to the shortest, and one that finds
/// none leaves it as it is. A dial needs a check that found none, right after another one.
pub proof fn a_check_resets_or_keeps_the_wait(state: RedialState, has_peers: bool)
    ensures
        ({
            let after = after_check(state, has_peers);
            &&& has_peers ==> after.delay == state.min_delay
            &&& !has_peers ==> after.delay == state.delay
            &&& after.no_peers_at_last_check == !has_peers
            &&& after.min_delay == state.min_delay
            &&& after.max_delay == state.max_delay
            &&& check_step(state, has_peers) == RedialStep::Dial <==> !has_peers
                && state.no_peers_at_last_check
            &&& check_step(after, false) == RedialStep::Dial <==> !has_peers
        }),
{
}

/// State after `checks`, where the dial that the `i`th leads to, if it does, is a round that
/// starts `started[i]` connections.
pub open spec fn after_rounds(state: RedialState, checks: Seq<bool>, started: Seq<usize>) -> RedialState
    decreases checks.len(),
{
    if checks.len() == 0 {
        state
    } else {
        let before = after_rounds(state, checks.drop_last(), started);
        let checked = after_check(before, checks.last());
        if check_step(before, checks.last()) == RedialStep::Dial {
            after_round(checked, Ok(started[checks.len() - 1]))
        } else {
            checked
        }
    }
}

/// It does not matter how many connections the rounds start.
proof fn rounds_are_alike(state: RedialState, checks: Seq<bool>, started: Seq<usize>)
    ensures
        after_rounds(state, checks, started) == after_checks(state, checks),
    decreases checks.len(),
{
    if checks.len() > 0 {
        rounds_are_alike(state, checks.drop_last(), started);
    }
}

/// The wait after `k` rounds without a connection in between is the shortest one doubled `k`
/// times, or the longest if that is less, whatever number of connections each round started:
/// a node whose peers do not hold backs off.
pub proof fn the_wait_doubles_whatever_the_rounds_start(
    min_delay: int,
    max_delay: int,
    checks: Seq<bool>,
    started: Seq<usize>,
    k: nat,
)
    requires
        0 <= min_delay <= max_delay,
        checks.len() >= k + 1,
        forall|i: int| checks.len() - k - 1 <= i < checks.len() ==> !checks[i],
        checks.len() > k + 1 ==> checks[checks.len() - k - 2],
    ensures
        ({
            let delay = after_rounds(fresh(min_delay, max_delay), checks, started).delay;
            &&& delay <= max_delay
            &&& delay <= min_delay * pow2(k)
            &&& delay == max_delay || delay == min_delay * pow2(k)
        }),
{
    rounds_are_alike(fresh(min_delay, max_delay), checks, started);
    the_wait_doubles_after_each_redial(min_delay, max_delay, checks, k);
}

/// `longest` is the longest time there is.
pub proof fn no_time_is_longer(delay: Delay)
    requires
        delay.nanos < 1_000_000_000,
    ensures
        delay@ <= longest(),
        delay.secs == u64::MAX && delay.nanos == 999_999_999 ==> delay@ == longest(),
{
}

} // verus!
