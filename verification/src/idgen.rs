//! Distributed, time-ordered unique identifier generator.
//!
//! An identifier packs three fields into one 64-bit value, most significant
//! first: the elapsed time unit since a configured epoch, a fixed machine
//! discriminator, and a per-time-unit sequence counter.  A single instance
//! issues strictly increasing identifiers; instances with distinct machine
//! discriminators can never collide.
//!
//! The generator itself is a pure state machine: each issuance step takes the
//! current wall-clock reading as an argument and returns either a fresh
//! identifier, a request to wait for the next time unit, or a clock-regression
//! failure, per the configured policy.  The caller owns the clock and the
//! waiting.

use vstd::prelude::*;
use vstd::arithmetic::div_mod::lemma_fundamental_div_mod_converse;

verus! {

/// Exclusive upper bound of the machine discriminator (10 bits).
pub const MACHINE_LIMIT: u64 = 0x400;

/// Exclusive upper bound of the sequence counter (12 bits).
pub const SEQ_LIMIT: u64 = 0x1000;

/// Exclusive upper bound of the time field (41 bits of milliseconds).
pub const TIME_LIMIT: u64 = 0x20000000000;

/// Weight of the time field: one time unit shifts past machine and sequence.
pub const TIME_WEIGHT: u64 = 0x400000;

/// Weight of the machine field: one machine step shifts past the sequence.
pub const MACHINE_WEIGHT: u64 = 0x1000;

/// The packed 64-bit value `(t << 22) | (m << 12) | s`, stated arithmetically.
pub open spec fn spec_compose(t: int, m: int, s: int) -> int {
    t * 0x400000 + m * 0x1000 + s
}

/// Time field of a packed identifier.
pub open spec fn spec_time_part(id: int) -> int {
    id / 0x400000
}

/// Machine field of a packed identifier.
pub open spec fn spec_machine_part(id: int) -> int {
    (id / 0x1000) % 0x400
}

/// Sequence field of a packed identifier.
pub open spec fn spec_seq_part(id: int) -> int {
    id % 0x1000
}

/// What the generator does when the wall clock runs behind its last
/// observed time unit.
#[derive(Clone, Copy, Debug, PartialEq, Eq, Structural)]
pub enum RegressionPolicy {
    /// Fail the call so the caller can retry or alert.
    Fail,
    /// Report `Wait`: the caller polls until the clock catches up.
    Wait,
}

/// Outcome of one issuance step.
#[derive(Clone, Copy, Debug, PartialEq, Eq, Structural)]
pub enum Issue {
    /// A fresh identifier.
    Id(u64),
    /// No identifier yet: poll again with a later clock reading.
    Wait,
    /// The clock ran backward and the policy is to fail the call.
    ClockRegression,
}

/// Construction failure.
#[derive(Clone, Copy, Debug, PartialEq, Eq, Structural)]
pub enum ConfigError {
    /// The machine discriminator does not fit its field.
    MachineIdOutOfRange,
    /// The epoch lies in the future of the supplied clock reading.
    EpochInFuture,
}

/// Stateful identifier generator.  One instance per process or logical shard.
pub struct Generator {
    /// Fixed machine/worker discriminator; below `MACHINE_LIMIT`.
    pub machine_id: u64,
    /// Fixed epoch, in milliseconds of the caller's clock.
    pub epoch_millis: u64,
    /// Last time unit an identifier was issued in.
    pub last_time: u64,
    /// Sequence counter within `last_time`.
    pub sequence: u64,
    /// Behaviour on a backward-running clock.
    pub policy: RegressionPolicy,
}

/// Elapsed time units of a clock reading relative to an epoch; readings
/// before the epoch clamp to zero.
pub open spec fn spec_time_unit(epoch: int, now: int) -> int {
    if now >= epoch {
        now - epoch
    } else {
        0
    }
}

impl Generator {
    /// Field bounds that every reachable state satisfies.
    pub open spec fn wf(self) -> bool {
        &&& self.machine_id < MACHINE_LIMIT
        &&& self.sequence < SEQ_LIMIT
        &&& self.last_time < TIME_LIMIT
    }

    /// The identifier encoding the current `(last_time, machine, sequence)`
    /// state: the last value issued, or the floor below every future value.
    pub open spec fn last_id(self) -> int {
        spec_compose(self.last_time as int, self.machine_id as int, self.sequence as int)
    }

    /// The issuance transition: next state and outcome for a clock reading.
    pub open spec fn spec_next(self, now_millis: u64) -> (Generator, Issue) {
        let t = spec_time_unit(self.epoch_millis as int, now_millis as int);
        if t > self.last_time {
            let next = Generator { last_time: t as u64, sequence: 0, ..self };
            (next, Issue::Id(spec_compose(t, self.machine_id as int, 0) as u64))
        } else if t == self.last_time {
            if self.sequence + 1 < SEQ_LIMIT {
                let next = Generator { sequence: (self.sequence + 1) as u64, ..self };
                (
                    next,
                    Issue::Id(
                        spec_compose(t, self.machine_id as int, self.sequence + 1) as u64,
                    ),
                )
            } else {
                (self, Issue::Wait)
            }
        } else {
            match self.policy {
                RegressionPolicy::Fail => (self, Issue::ClockRegression),
                RegressionPolicy::Wait => (self, Issue::Wait),
            }
        }
    }

    /// Builds a generator.  Fails if the machine discriminator does not fit
    /// its field, or if the epoch is in the future of `now_millis`.
    pub fn new(
        machine_id: u64,
        epoch_millis: u64,
        now_millis: u64,
        policy: RegressionPolicy,
    ) -> (r: Result<Generator, ConfigError>)
        ensures
            machine_id >= MACHINE_LIMIT ==> r == Err::<Generator, ConfigError>(
                ConfigError::MachineIdOutOfRange,
            ),
            machine_id < MACHINE_LIMIT && epoch_millis > now_millis ==> r == Err::<
                Generator,
                ConfigError,
            >(ConfigError::EpochInFuture),
            machine_id < MACHINE_LIMIT && epoch_millis <= now_millis ==> r == Ok::<
                Generator,
                ConfigError,
            >(
                Generator {
                    machine_id,
                    epoch_millis,
                    last_time: 0,
                    sequence: 0,
                    policy,
                },
            ),
            r matches Ok(g) ==> g.wf(),
    {
        if machine_id >= MACHINE_LIMIT {
            Err(ConfigError::MachineIdOutOfRange)
        } else if epoch_millis > now_millis {
            Err(ConfigError::EpochInFuture)
        } else {
            Ok(
                Generator {
                    machine_id,
                    epoch_millis,
                    last_time: 0,
                    sequence: 0,
                    policy,
                },
            )
        }
    }

    /// One issuance step against the supplied clock reading.
    ///
    /// Returns a fresh identifier strictly above every identifier this
    /// instance issued before; or `Wait` when the sequence field is exhausted
    /// for the current time unit (poll again with a later reading); or, per
    /// policy, `Wait` or `ClockRegression` when the clock ran backward.  The
    /// time field of an issued identifier never falls below the time field of
    /// any earlier one.
    pub fn next_id(&mut self, now_millis: u64) -> (r: Issue)
        requires
            old(self).wf(),
            spec_time_unit(old(self).epoch_millis as int, now_millis as int)
                < TIME_LIMIT as int,
        ensures
            (*final(self), r) == old(self).spec_next(now_millis),
            final(self).wf(),
            final(self).machine_id == old(self).machine_id,
            final(self).epoch_millis == old(self).epoch_millis,
            final(self).policy == old(self).policy,
            final(self).last_time >= old(self).last_time,
            r matches Issue::Id(id) ==> {
                &&& id as int == final(self).last_id()
                &&& id as int > old(self).last_id()
                &&& spec_time_part(id as int) >= old(self).last_time
                &&& spec_machine_part(id as int) == old(self).machine_id
            },
            !(r matches Issue::Id(_)) ==> *final(self) == *old(self),
    {
        let ghost pre = *self;
        let t = if now_millis >= self.epoch_millis {
            now_millis - self.epoch_millis
        } else {
            0
        };
        if t > self.last_time {
            self.last_time = t;
            self.sequence = 0;
            let id = compose(t, self.machine_id, 0);
            proof {
                lemma_compose_parts(t as int, pre.machine_id as int, 0);
                lemma_compose_monotonic(
                    pre.last_time as int,
                    pre.sequence as int,
                    t as int,
                    0,
                    pre.machine_id as int,
                );
            }
            Issue::Id(id)
        } else if t == self.last_time {
            if self.sequence < SEQ_LIMIT - 1 {
                self.sequence = self.sequence + 1;
                let id = compose(t, self.machine_id, self.sequence);
                proof {
                    lemma_compose_parts(t as int, pre.machine_id as int, pre.sequence + 1);
                }
                Issue::Id(id)
            } else {
                Issue::Wait
            }
        } else {
            match self.policy {
                RegressionPolicy::Fail => Issue::ClockRegression,
                RegressionPolicy::Wait => Issue::Wait,
            }
        }
    }
}

/// Packs the three fields into one identifier.
pub fn compose(t: u64, m: u64, s: u64) -> (r: u64)
    requires
        t < TIME_LIMIT,
        m < MACHINE_LIMIT,
        s < SEQ_LIMIT,
    ensures
        r as int == spec_compose(t as int, m as int, s as int),
{
    t * TIME_WEIGHT + m * MACHINE_WEIGHT + s
}

/// The arithmetic packing is the documented bitwise form
/// `(t << 22) | (m << 12) | s`.
pub proof fn lemma_compose_is_bitwise(t: u64, m: u64, s: u64)
    requires
        t < TIME_LIMIT,
        m < MACHINE_LIMIT,
        s < SEQ_LIMIT,
    ensures
        ((t << 22u64) | (m << 12u64) | s) == spec_compose(t as int, m as int, s as int),
{
    assert(((t << 22u64) | (m << 12u64) | s) == t * 0x400000 + m * 0x1000 + s) by (bit_vector)
        requires
            t < 0x20000000000u64,
            m < 0x400u64,
            s < 0x1000u64,
    ;
}

/// Each field of a packed identifier reads back exactly.
pub proof fn lemma_compose_parts(t: int, m: int, s: int)
    requires
        0 <= t < TIME_LIMIT as int,
        0 <= m < MACHINE_LIMIT as int,
        0 <= s < SEQ_LIMIT as int,
    ensures
        spec_time_part(spec_compose(t, m, s)) == t,
        spec_machine_part(spec_compose(t, m, s)) == m,
        spec_seq_part(spec_compose(t, m, s)) == s,
        0 <= spec_compose(t, m, s) < 0x8000000000000000,
{
    let id = spec_compose(t, m, s);
    assert(id == t * 0x400000 + (m * 0x1000 + s));
    assert(0 <= m * 0x1000 + s < 0x400000);
    lemma_fundamental_div_mod_converse(id, 0x400000, t, m * 0x1000 + s);
    assert((t * 0x400 + m) * 0x1000 + s == t * 0x400000 + m * 0x1000 + s) by (nonlinear_arith);
    lemma_fundamental_div_mod_converse(id, 0x1000, t * 0x400 + m, s);
    lemma_fundamental_div_mod_converse(t * 0x400 + m, 0x400, t, m);
}

/// A later `(time, sequence)` pair packs to a strictly larger identifier,
/// for one fixed machine discriminator.
pub proof fn lemma_compose_monotonic(t1: int, s1: int, t2: int, s2: int, m: int)
    requires
        0 <= t1 < TIME_LIMIT as int,
        0 <= t2 < TIME_LIMIT as int,
        0 <= m < MACHINE_LIMIT as int,
        0 <= s1 < SEQ_LIMIT as int,
        0 <= s2 < SEQ_LIMIT as int,
        t1 < t2 || (t1 == t2 && s1 < s2),
    ensures
        spec_compose(t1, m, s1) < spec_compose(t2, m, s2),
{
    if t1 < t2 {
        assert((t2 - t1) * 0x400000 >= 0x400000) by (nonlinear_arith)
            requires
                t2 - t1 >= 1,
        {
        }
        assert(t2 * 0x400000 - t1 * 0x400000 == (t2 - t1) * 0x400000) by (nonlinear_arith);
    }
}

/// One issuance step never lowers the state's identifier floor, and a step
/// that issues returns exactly the new floor, strictly above the old one.
pub proof fn lemma_next_increases(g: Generator, now: u64)
    requires
        g.wf(),
        spec_time_unit(g.epoch_millis as int, now as int) < TIME_LIMIT as int,
    ensures
        g.spec_next(now).0.wf(),
        g.spec_next(now).0.machine_id == g.machine_id,
        g.spec_next(now).0.epoch_millis == g.epoch_millis,
        g.spec_next(now).0.policy == g.policy,
        g.spec_next(now).0.last_id() >= g.last_id(),
        g.spec_next(now).1 matches Issue::Id(id) ==> id as int == g.spec_next(now).0.last_id()
            && id as int > g.last_id(),
        !(g.spec_next(now).1 matches Issue::Id(_)) ==> g.spec_next(now).0 == g,
{
    let t = spec_time_unit(g.epoch_millis as int, now as int);
    if t > g.last_time {
        lemma_compose_parts(t, g.machine_id as int, 0);
        lemma_compose_monotonic(
            g.last_time as int,
            g.sequence as int,
            t,
            0,
            g.machine_id as int,
        );
    } else if t == g.last_time && g.sequence + 1 < SEQ_LIMIT {
        lemma_compose_parts(t, g.machine_id as int, g.sequence + 1);
    }
}

/// Monotonicity across calls: when one issuance completes before another
/// begins on the same instance and both return identifiers, the earlier
/// identifier is strictly smaller.
pub proof fn lemma_issue_monotonic(g0: Generator, n1: u64, n2: u64)
    requires
        g0.wf(),
        spec_time_unit(g0.epoch_millis as int, n1 as int) < TIME_LIMIT as int,
        spec_time_unit(g0.epoch_millis as int, n2 as int) < TIME_LIMIT as int,
    ensures
        g0.spec_next(n1).1 matches Issue::Id(id1) ==> (g0.spec_next(n1).0.spec_next(n2).1
            matches Issue::Id(id2) ==> id1 < id2),
{
    lemma_next_increases(g0, n1);
    lemma_next_increases(g0.spec_next(n1).0, n2);
}

/// Sequence overflow never errors and never duplicates: with the sequence
/// field exhausted the step in the same time unit reports `Wait` and leaves
/// the state unchanged, and the first step in a later unit issues an
/// identifier strictly above every identifier issued so far.
pub proof fn lemma_overflow_rolls_over(g: Generator, now_same: u64, now_later: u64)
    requires
        g.wf(),
        g.sequence == SEQ_LIMIT - 1,
        spec_time_unit(g.epoch_millis as int, now_same as int) == g.last_time as int,
        spec_time_unit(g.epoch_millis as int, now_later as int) > g.last_time as int,
        spec_time_unit(g.epoch_millis as int, now_later as int) < TIME_LIMIT as int,
    ensures
        g.spec_next(now_same) == (g, Issue::Wait),
        g.spec_next(now_later).1 matches Issue::Id(id) ==> id as int > g.last_id(),
        g.spec_next(now_later).1 matches Issue::Id(_),
{
    lemma_next_increases(g, now_later);
}

/// Clock-regression policy: a reading whose time unit falls below the last
/// observed one issues nothing — it fails under the failing policy and asks
/// the caller to wait under the blocking one, leaving the state unchanged —
/// and no issued identifier ever carries a time field below `last_time`.
pub proof fn lemma_regression_never_issues(g: Generator, now: u64)
    requires
        g.wf(),
        spec_time_unit(g.epoch_millis as int, now as int) < TIME_LIMIT as int,
    ensures
        spec_time_unit(g.epoch_millis as int, now as int) < g.last_time as int ==> {
            &&& g.policy == RegressionPolicy::Fail ==> g.spec_next(now) == (
                g,
                Issue::ClockRegression,
            )
            &&& g.policy == RegressionPolicy::Wait ==> g.spec_next(now) == (g, Issue::Wait)
        },
        g.spec_next(now).1 matches Issue::Id(id) ==> spec_time_part(id as int)
            >= g.last_time as int,
{
    let t = spec_time_unit(g.epoch_millis as int, now as int);
    if t > g.last_time {
        lemma_compose_parts(t, g.machine_id as int, 0);
    } else if t == g.last_time && g.sequence + 1 < SEQ_LIMIT {
        lemma_compose_parts(t, g.machine_id as int, g.sequence + 1);
    }
}

/// Identifiers issued by running one instance over a sequence of clock
/// readings, in issuance order; steps that wait or fail issue nothing.
pub open spec fn spec_run(g: Generator, reads: Seq<u64>) -> (Generator, Seq<u64>)
    decreases reads.len(),
{
    if reads.len() == 0 {
        (g, Seq::empty())
    } else {
        let (g1, r) = g.spec_next(reads[0]);
        let (gf, ids) = spec_run(g1, reads.drop_first());
        match r {
            Issue::Id(id) => (gf, Seq::empty().push(id) + ids),
            _ => (gf, ids),
        }
    }
}

/// Uniqueness and monotonicity over any run: however the clock behaves, the
/// identifiers issued by one instance are strictly increasing in issuance
/// order — and therefore pairwise distinct — and all lie strictly above the
/// instance's starting floor and at or below its final floor.
pub proof fn lemma_run_ids_strictly_increase(g: Generator, reads: Seq<u64>)
    requires
        g.wf(),
        forall|k: int|
            0 <= k < reads.len() ==> spec_time_unit(g.epoch_millis as int, reads[k] as int)
                < TIME_LIMIT as int,
    ensures
        spec_run(g, reads).0.wf(),
        spec_run(g, reads).0.epoch_millis == g.epoch_millis,
        spec_run(g, reads).0.last_id() >= g.last_id(),
        forall|k: int|
            0 <= k < spec_run(g, reads).1.len() ==> g.last_id() < #[trigger] spec_run(
                g,
                reads,
            ).1[k] as int <= spec_run(g, reads).0.last_id(),
        forall|i: int, j: int|
            0 <= i < j < spec_run(g, reads).1.len() ==> spec_run(g, reads).1[i] < spec_run(
                g,
                reads,
            ).1[j],
        forall|i: int, j: int|
            0 <= i < j < spec_run(g, reads).1.len() ==> spec_run(g, reads).1[i] != spec_run(
                g,
                reads,
            ).1[j],
    decreases reads.len(),
{
    if reads.len() > 0 {
        let (g1, r) = g.spec_next(reads[0]);
        lemma_next_increases(g, reads[0]);
        assert(forall|k: int|
            0 <= k < reads.drop_first().len() ==> spec_time_unit(
                g1.epoch_millis as int,
                reads.drop_first()[k] as int,
            ) < TIME_LIMIT as int);
        lemma_run_ids_strictly_increase(g1, reads.drop_first());
        let (gf, ids) = spec_run(g1, reads.drop_first());
        match r {
            Issue::Id(id) => {
                assert(spec_run(g, reads).1 == Seq::empty().push(id) + ids);
                assert(forall|k: int|
                    0 <= k < ids.len() ==> (Seq::empty().push(id) + ids)[k + 1] == ids[k]);
                assert((Seq::empty().push(id) + ids)[0] == id);
            },
            _ => {},
        }
    }
}

/// The decimal digit character of a value below ten.
pub open spec fn spec_digit(d: int) -> char {
    if d == 0 {
        '0'
    } else if d == 1 {
        '1'
    } else if d == 2 {
        '2'
    } else if d == 3 {
        '3'
    } else if d == 4 {
        '4'
    } else if d == 5 {
        '5'
    } else if d == 6 {
        '6'
    } else if d == 7 {
        '7'
    } else if d == 8 {
        '8'
    } else {
        '9'
    }
}

/// The decimal representation of a value, most significant digit first and
/// without leading zeros.
pub open spec fn spec_decimal(n: int) -> Seq<char>
    recommends
        n >= 0,
    decreases n,
{
    if n <= 9 {
        seq![spec_digit(n)]
    } else {
        spec_decimal(n / 10) + seq![spec_digit(n % 10)]
    }
}

/// The one-character string of a decimal digit.
fn digit_str(d: u64) -> (s: &'static str)
    requires
        d < 10,
    ensures
        s@ == seq![spec_digit(d as int)],
{
    let s: &'static str = match d {
        0 => "0",
        1 => "1",
        2 => "2",
        3 => "3",
        4 => "4",
        5 => "5",
        6 => "6",
        7 => "7",
        8 => "8",
        _ => "9",
    };
    proof {
        reveal_strlit("0");
        reveal_strlit("1");
        reveal_strlit("2");
        reveal_strlit("3");
        reveal_strlit("4");
        reveal_strlit("5");
        reveal_strlit("6");
        reveal_strlit("7");
        reveal_strlit("8");
        reveal_strlit("9");
        assert(s@ =~= seq![spec_digit(d as int)]);
    }
    s
}

/// Renders an identifier in its transport form: the decimal string of the
/// 64-bit value.
pub fn encode_id(n: u64) -> (s: String)
    ensures
        s@ == spec_decimal(n as int),
{
    if n == 0 {
        let s = "0".to_owned();
        proof {
            reveal_strlit("0");
            assert(s@ =~= seq![spec_digit(0)]);
        }
        return s;
    }
    let mut acc = String::new();
    let mut m = n;
    proof {
        assert(spec_decimal(m as int) + acc@ =~= spec_decimal(n as int));
    }
    while m > 0
        invariant
            m > 0 ==> spec_decimal(m as int) + acc@ == spec_decimal(n as int),
            m == 0 ==> acc@ == spec_decimal(n as int),
        decreases m,
    {
        let ghost m0 = m as int;
        let ghost acc0 = acc@;
        let d = m % 10;
        let ds = digit_str(d);
        let rest = acc;
        acc = ds.to_owned().concat(rest.as_str());
        m = m / 10;
        proof {
            if m0 <= 9 {
                assert(spec_decimal(m0) == seq![spec_digit(m0 % 10)]);
                assert(acc@ =~= spec_decimal(m0) + acc0);
            } else {
                assert(spec_decimal(m0) == spec_decimal(m0 / 10) + seq![spec_digit(m0 % 10)]);
                assert(spec_decimal(m as int) + acc@ =~= (spec_decimal(m0 / 10) + seq![
                    spec_digit(m0 % 10),
                ]) + acc0);
            }
        }
    }
    acc
}

/// Identifiers from generators with distinct machine discriminators never
/// collide, whatever their time and sequence fields.
pub proof fn lemma_distinct_machines_never_collide(
    t1: int,
    m1: int,
    s1: int,
    t2: int,
    m2: int,
    s2: int,
)
    requires
        0 <= t1 < TIME_LIMIT as int,
        0 <= t2 < TIME_LIMIT as int,
        0 <= m1 < MACHINE_LIMIT as int,
        0 <= m2 < MACHINE_LIMIT as int,
        0 <= s1 < SEQ_LIMIT as int,
        0 <= s2 < SEQ_LIMIT as int,
        m1 != m2,
    ensures
        spec_compose(t1, m1, s1) != spec_compose(t2, m2, s2),
{
    lemma_compose_parts(t1, m1, s1);
    lemma_compose_parts(t2, m2, s2);
}

/// Packing is injective: equal identifiers can only come from equal fields.
/// With `lemma_compose_monotonic` this gives uniqueness within one instance:
/// every issuance changes `(time, sequence)`, so no identifier repeats.
pub proof fn lemma_compose_injective(t1: int, m1: int, s1: int, t2: int, m2: int, s2: int)
    requires
        0 <= t1 < TIME_LIMIT as int,
        0 <= t2 < TIME_LIMIT as int,
        0 <= m1 < MACHINE_LIMIT as int,
        0 <= m2 < MACHINE_LIMIT as int,
        0 <= s1 < SEQ_LIMIT as int,
        0 <= s2 < SEQ_LIMIT as int,
        spec_compose(t1, m1, s1) == spec_compose(t2, m2, s2),
    ensures
        t1 == t2 && m1 == m2 && s1 == s2,
{
    lemma_compose_parts(t1, m1, s1);
    lemma_compose_parts(t2, m2, s2);
}

} // verus!
