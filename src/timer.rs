use vstd::prelude::*;

use std::ops::ControlFlow;
use vstd::arithmetic::div_mod::{lemma_div_basics, lemma_div_is_ordered, lemma_mod_pos_bound, lemma_small_mod};

verus! {

/// Work that a timer runs every so many ticks; `Break` ends the timer.
pub trait TimerBased {
    fn work(&mut self) -> ControlFlow<()>;
}

/// The greatest common divisor, by Euclid's algorithm.
pub open spec fn gcd(a: nat, b: nat) -> nat
    decreases b,
{
    if b == 0 {
        a
    } else {
        gcd(b, a % b)
    }
}

/// The least common multiple of two positive numbers.
pub open spec fn lcm(a: nat, b: nat) -> nat {
    (a / gcd(a, b)) * b
}

/// The least common multiple of all the numbers, folded from the left.
pub open spec fn lcm_of(s: Seq<u64>) -> nat
    decreases s.len(),
{
    if s.len() == 0 {
        0
    } else if s.len() == 1 {
        s[0] as nat
    } else {
        lcm(lcm_of(s.drop_last()), s.last() as nat)
    }
}

/// Whether every step of folding `lcm_of` over `s` fits in a `u64`.
pub open spec fn lcm_fits(s: Seq<u64>) -> bool {
    forall|k: int| 1 <= k <= s.len() ==> #[trigger] lcm_of(s.subrange(0, k)) <= u64::MAX
}

proof fn lemma_gcd_bounds(a: nat, b: nat)
    requires
        a > 0,
    ensures
        0 < gcd(a, b) <= a,
    decreases b,
{
    if b > 0 {
        assert(gcd(a, b) == gcd(b, a % b));
        if b > a {
            lemma_small_mod(a, b);
        }
        if a % b == 0 {
            assert(gcd(b, 0) == b);
        } else {
            let m = a % b;
            lemma_mod_pos_bound(a as int, b as int);
            assert(gcd(b, m) == gcd(m, b % m));
            lemma_gcd_bounds(m, b % m);
        }
    }
}

proof fn lemma_lcm_positive(a: nat, b: nat)
    requires
        a > 0,
        b > 0,
    ensures
        lcm(a, b) >= b,
{
    let g = gcd(a, b);
    lemma_gcd_bounds(a, b);
    lemma_div_is_ordered(g as int, a as int, g as int);
    lemma_div_basics(g as int);
    let q = a / g;
    assert(q >= 1);
    assert(q * b >= b) by (nonlinear_arith)
        requires
            q >= 1,
            b > 0,
    ;
}

/// Euclid's algorithm.
pub fn gcd2(a: u64, b: u64) -> (r: u64)
    ensures
        r == gcd(a as nat, b as nat),
    decreases b,
{
    if b == 0 {
        a
    } else {
        gcd2(b, a % b)
    }
}

/// The least common multiple of two positive numbers, or `None` when it
/// does not fit in a `u64`.
pub fn lcm2(a: u64, b: u64) -> (r: Option<u64>)
    requires
        a > 0,
        b > 0,
    ensures
        r == (if lcm(a as nat, b as nat) <= u64::MAX {
            Some(lcm(a as nat, b as nat) as u64)
        } else {
            None::<u64>
        }),
{
    let g = gcd2(a, b);
    proof {
        lemma_gcd_bounds(a as nat, b as nat);
    }
    let q = a / g;
    q.checked_mul(b)
}

/// Why a timer cannot start.
#[derive(Clone, Copy, Debug, PartialEq, Eq, Structural)]
pub enum TimerError {
    /// Nothing was scheduled.
    Empty,
    /// The ticks after which the schedule repeats do not fit in a `u64`.
    Overflow,
}

/// One piece of work and the number of ticks between its runs.
pub struct Scheduled<A> {
    pub every: u64,
    pub actor: A,
}

/// Runs pieces of work, each every so many ticks of a fixed quantum; the
/// tick count wraps to zero after the least common multiple of the periods.
pub struct Timer<A> {
    ticks_count: u64,
    leap: u64,
    quantum_ms: u64,
    schedule: Vec<Scheduled<A>>,
}

impl<A: TimerBased> Timer<A> {
    /// The milliseconds of a tick.
    pub closed spec fn quantum(&self) -> nat {
        self.quantum_ms as nat
    }

    /// The ticks since the schedule last repeated.
    pub closed spec fn ticks(&self) -> nat {
        self.ticks_count as nat
    }

    /// The ticks after which the schedule repeats; zero before `start`.
    pub closed spec fn leap_spec(&self) -> nat {
        self.leap as nat
    }

    /// The period, in ticks, of each scheduled piece of work.
    pub closed spec fn periods(&self) -> Seq<u64> {
        self.schedule@.map_values(|s: Scheduled<A>| s.every)
    }

    /// The scheduled pieces of work, in the order they were added.
    pub closed spec fn actors(&self) -> Seq<A> {
        self.schedule@.map_values(|s: Scheduled<A>| s.actor)
    }

    pub closed spec fn wf(&self) -> bool {
        &&& self.quantum_ms > 0
        &&& forall|i: int| 0 <= i < self.schedule@.len() ==> #[trigger] self.schedule@[i].every > 0
        &&& self.leap == 0 || self.ticks_count < self.leap
    }

    /// A timer with nothing scheduled, ticking every `quantum_ms` milliseconds.
    pub fn new(quantum_ms: u64) -> (r: Self)
        requires
            quantum_ms > 0,
        ensures
            r.wf(),
            r.quantum() == quantum_ms,
            r.ticks() == 0,
            r.leap_spec() == 0,
            r.periods() == Seq::<u64>::empty(),
            r.actors() == Seq::<A>::empty(),
    {
        Timer { ticks_count: 0, leap: 0, quantum_ms, schedule: Vec::new() }
    }

    /// Schedules `f` to run every `every_ms` milliseconds, rounded down to
    /// whole ticks.
    pub fn add(&mut self, every_ms: u64, f: A)
        requires
            old(self).wf(),
            every_ms >= old(self).quantum(),
        ensures
            final(self).wf(),
            final(self).quantum() == old(self).quantum(),
            final(self).ticks() == old(self).ticks(),
            final(self).leap_spec() == old(self).leap_spec(),
            final(self).periods() == old(self).periods().push((every_ms as nat / old(self).quantum()) as u64),
            final(self).actors() == old(self).actors().push(f),
    {
        let every = every_ms / self.quantum_ms;
        proof {
            lemma_div_is_ordered(self.quantum_ms as int, every_ms as int, self.quantum_ms as int);
            lemma_div_basics(self.quantum_ms as int);
        }
        self.schedule.push(Scheduled { every, actor: f });
        assert(self.periods() =~= old(self).periods().push(every));
        assert(self.actors() =~= old(self).actors().push(f));
    }

    /// Computes the ticks after which the schedule repeats: the least common
    /// multiple of the periods. The ticks then run from zero.
    pub fn start(&mut self) -> (r: Result<(), TimerError>)
        requires
            old(self).wf(),
        ensures
            final(self).wf(),
            final(self).quantum() == old(self).quantum(),
            final(self).periods() == old(self).periods(),
            final(self).actors() == old(self).actors(),
            old(self).periods().len() == 0 ==> r == Err::<(), TimerError>(TimerError::Empty),
            old(self).periods().len() > 0 ==> (r is Ok <==> lcm_fits(old(self).periods())),
            old(self).periods().len() > 0 && !lcm_fits(old(self).periods()) ==> r == Err::<(), TimerError>(TimerError::Overflow),
            r is Ok ==> final(self).leap_spec() == lcm_of(old(self).periods()) && final(self).ticks() == 0,
            r is Err ==> final(self).leap_spec() == old(self).leap_spec() && final(self).ticks() == old(self).ticks(),
    {
        let n = self.schedule.len();
        if n == 0 {
            return Err(TimerError::Empty);
        }
        let ghost ps = self.periods();
        assert(ps.subrange(0, 1).drop_last() =~= Seq::<u64>::empty());
        let mut acc: u64 = self.schedule[0].every;
        let mut i: usize = 1;
        while i < n
            invariant
                n == self.schedule@.len(),
                ps == self.periods(),
                ps.len() == n,
                1 <= i <= n,
                self.quantum_ms == old(self).quantum_ms,
                self.leap == old(self).leap,
                self.ticks_count == old(self).ticks_count,
                self.schedule@ == old(self).schedule@,
                old(self).wf(),
                acc > 0,
                acc as nat == lcm_of(ps.subrange(0, i as int)),
                forall|k: int| 1 <= k <= i ==> #[trigger] lcm_of(ps.subrange(0, k)) <= u64::MAX,
                forall|j: int| 0 <= j < self.schedule@.len() ==> #[trigger] self.schedule@[j].every > 0,
            decreases n - i,
        {
            let p = self.schedule[i].every;
            assert(ps[i as int] == p);
            assert(ps.subrange(0, i as int + 1).drop_last() =~= ps.subrange(0, i as int));
            assert(lcm_of(ps.subrange(0, i as int + 1)) == lcm(acc as nat, p as nat));
            proof {
                lemma_lcm_positive(acc as nat, p as nat);
            }
            match lcm2(acc, p) {
                Some(l) => {
                    acc = l;
                },
                None => {
                    assert(!(lcm_of(ps.subrange(0, i as int + 1)) <= u64::MAX));
                    return Err(TimerError::Overflow);
                },
            }
            i = i + 1;
        }
        assert(ps.subrange(0, n as int) =~= ps);
        self.leap = acc;
        self.ticks_count = 0;
        Ok(())
    }

    /// One tick: runs each piece of work whose period divides the tick
    /// count, in the order they were added, and stops at the first that
    /// breaks; otherwise moves the tick count on, wrapping at the leap.
    pub fn tick(&mut self) -> (r: ControlFlow<()>)
        requires
            old(self).wf(),
            old(self).leap_spec() > 0,
        ensures
            final(self).wf(),
            final(self).quantum() == old(self).quantum(),
            final(self).leap_spec() == old(self).leap_spec(),
            final(self).periods() == old(self).periods(),
            r is Break ==> final(self).ticks() == old(self).ticks(),
            r is Continue ==> final(self).ticks() == (if old(self).ticks() + 1 == old(self).leap_spec() {
                0
            } else {
                old(self).ticks() + 1
            }),
    {
        let n = self.schedule.len();
        let mut i: usize = 0;
        while i < n
            invariant
                n == self.schedule@.len(),
                0 <= i <= n,
                self.quantum_ms == old(self).quantum_ms,
                self.leap == old(self).leap,
                self.ticks_count == old(self).ticks_count,
                self.periods() == old(self).periods(),
                self.wf(),
            decreases n - i,
        {
            if self.ticks_count % self.schedule[i].every == 0 {
                let flow = self.schedule[i].actor.work();
                assert(self.periods() =~= old(self).periods());
                if let ControlFlow::Break(_) = flow {
                    return ControlFlow::Break(());
                }
            }
            assert(self.periods() =~= old(self).periods());
            i = i + 1;
        }
        self.ticks_count = self.ticks_count + 1;
        if self.ticks_count == self.leap {
            self.ticks_count = 0;
        }
        ControlFlow::Continue(())
    }

    /// The milliseconds of a tick, for the caller that waits between ticks.
    pub fn quantum_ms(&self) -> (r: u64)
        ensures
            r == self.quantum(),
    {
        self.quantum_ms
    }
}

} // verus!
