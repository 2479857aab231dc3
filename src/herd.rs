use vstd::prelude::*;

use crate::counter::CompletionCounter;
use crate::gate::Gate;
use crate::latch::TeardownLatch;

verus! {

/// Where one worker stands within an iteration.
#[derive(Clone, Copy, Debug, PartialEq, Eq, Structural)]
pub enum Stage {
    /// Blocked at the release barrier.
    AtGate,
    /// Past the barrier, running its workload.
    Working,
    /// Counted as finished; has not yet passed the wake-up on.
    Reported,
    /// Has passed the wake-up on to the next worker; waits for teardown.
    Parked,
    /// Has seen the teardown latch raised and returned.
    Exited,
}

/// The stage a worker reaches by its next action.
pub open spec fn successor(st: Stage) -> Stage {
    match st {
        Stage::AtGate => Stage::Working,
        Stage::Working => Stage::Reported,
        Stage::Reported => Stage::Parked,
        Stage::Parked => Stage::Exited,
        Stage::Exited => Stage::Exited,
    }
}

/// Number of workers in `s` that stand at stage `st`.
pub open spec fn count_of(s: Seq<Stage>, st: Stage) -> nat
    decreases s.len(),
{
    if s.len() == 0 {
        0
    } else {
        count_of(s.drop_last(), st) + if s.last() == st {
            1nat
        } else {
            0nat
        }
    }
}

/// Whether a worker at stage `st` can act, given the credits at the barrier and
/// the state of the latch.
pub open spec fn can_act(st: Stage, credits: nat, raised: bool) -> bool {
    match st {
        Stage::AtGate => credits > 0,
        Stage::Working => true,
        Stage::Reported => true,
        Stage::Parked => raised,
        Stage::Exited => false,
    }
}

/// Whether a worker at stage `st` has been counted as finished.
pub open spec fn is_counted(st: Stage) -> bool {
    st == Stage::Reported || st == Stage::Parked || st == Stage::Exited
}

proof fn lemma_count_update(s: Seq<Stage>, i: int, x: Stage, st: Stage)
    requires
        0 <= i < s.len(),
    ensures
        count_of(s.update(i, x), st) == count_of(s, st) - (if s[i] == st {
            1int
        } else {
            0int
        }) + (if x == st {
            1int
        } else {
            0int
        }),
    decreases s.len(),
{
    let u = s.update(i, x);
    if i == s.len() - 1 {
        assert(u.drop_last() =~= s.drop_last());
    } else {
        assert(u.drop_last() =~= s.drop_last().update(i, x));
        lemma_count_update(s.drop_last(), i, x, st);
    }
}

proof fn lemma_count_total(s: Seq<Stage>)
    ensures
        count_of(s, Stage::AtGate) + count_of(s, Stage::Working) + count_of(s, Stage::Reported)
            + count_of(s, Stage::Parked) + count_of(s, Stage::Exited) == s.len(),
    decreases s.len(),
{
    if s.len() > 0 {
        lemma_count_total(s.drop_last());
    }
}

proof fn lemma_count_zero(s: Seq<Stage>, st: Stage)
    ensures
        count_of(s, st) == 0 <==> forall|i: int| 0 <= i < s.len() ==> s[i] != st,
    decreases s.len(),
{
    if s.len() > 0 {
        let t = s.drop_last();
        lemma_count_zero(t, st);
        if count_of(s, st) == 0 {
            assert forall|i: int| 0 <= i < s.len() implies s[i] != st by {
                if i < s.len() - 1 {
                    assert(s[i] == t[i]);
                }
            }
        }
        if forall|i: int| 0 <= i < s.len() ==> s[i] != st {
            assert forall|i: int| 0 <= i < t.len() implies t[i] != st by {
                assert(s[i] == t[i]);
            }
        }
    }
}

/// The counts of every stage after worker `i` moves to stage `x`.
proof fn lemma_move(s: Seq<Stage>, i: int, x: Stage)
    requires
        0 <= i < s.len(),
    ensures
        forall|st: Stage|
            #![auto]
            count_of(s.update(i, x), st) == count_of(s, st) - (if s[i] == st {
                1int
            } else {
                0int
            }) + (if x == st {
                1int
            } else {
                0int
            }),
{
    assert forall|st: Stage|
        #![auto]
        count_of(s.update(i, x), st) == count_of(s, st) - (if s[i] == st {
            1int
        } else {
            0int
        }) + (if x == st {
            1int
        } else {
            0int
        }) by {
        lemma_count_update(s, i, x, st);
    }
}

/// A whole herd of workers sharing one barrier, one completion counter and one
/// teardown latch, each worker acting in turn. Every worker waits at the
/// barrier, runs its workload, reports to the counter, passes the wake-up on by
/// releasing the barrier once more, and waits for the latch. The harness opens
/// the barrier once, and raises the latch once the counter is complete.
pub struct Herd {
    gate: Gate,
    counter: CompletionCounter,
    latch: TeardownLatch,
    stages: Vec<Stage>,
    primed: bool,
}

impl Herd {
    /// The stage of each worker.
    pub closed spec fn stages(&self) -> Seq<Stage> {
        self.stages@
    }

    /// Wake credits waiting at the barrier.
    pub closed spec fn credits(&self) -> nat {
        self.gate.available()
    }

    /// Workers counted as finished.
    pub closed spec fn tally(&self) -> nat {
        self.counter.tally()
    }

    /// Number of workers the counter waits for.
    pub closed spec fn goal(&self) -> nat {
        self.counter.goal()
    }

    /// Whether the teardown latch is raised.
    pub closed spec fn raised(&self) -> bool {
        self.latch.up()
    }

    /// Whether the harness has opened the barrier.
    pub closed spec fn primed(&self) -> bool {
        self.primed
    }

    /// Number of workers.
    pub open spec fn size(&self) -> nat {
        self.stages().len()
    }

    /// Remaining actions before every worker has returned: an upper bound
    /// on how long the herd can keep moving.
    pub open spec fn potential(&self) -> nat {
        let s = self.stages();
        4 * count_of(s, Stage::AtGate) + 3 * count_of(s, Stage::Working) + 2 * count_of(
            s,
            Stage::Reported,
        ) + count_of(s, Stage::Parked)
    }

    /// The states that the protocol can reach.
    /// The counter holds exactly the workers past reporting; the single
    /// release of the harness is either still a credit or carried by the one
    /// worker between the barrier and its relay; nobody returns before the
    /// latch, and the latch only goes up on a complete counter.
    pub open spec fn wf(&self) -> bool {
        let s = self.stages();
        &&& 1 <= s.len() <= usize::MAX
        &&& self.goal() == s.len()
        &&& self.tally() <= self.goal()
        &&& self.tally() == count_of(s, Stage::Reported) + count_of(s, Stage::Parked) + count_of(
            s,
            Stage::Exited,
        )
        &&& self.credits() + count_of(s, Stage::Working) + count_of(s, Stage::Reported) == if self.primed() {
            1nat
        } else {
            0nat
        }
        &&& !self.primed() ==> count_of(s, Stage::AtGate) == s.len()
        &&& !self.raised() ==> count_of(s, Stage::Exited) == 0
        &&& self.raised() ==> self.tally() == self.goal()
    }

    /// Whether worker `i` can take its next action now.
    pub open spec fn enabled(&self, i: int) -> bool {
        can_act(self.stages()[i], self.credits(), self.raised())
    }

    /// No worker can act.
    pub open spec fn quiescent(&self) -> bool {
        forall|i: int| 0 <= i < self.size() ==> !self.enabled(i)
    }

    /// A fresh herd of `workers` workers: all at a closed barrier, nothing
    /// counted, latch down. Nothing carries over from an earlier iteration.
    pub fn new(workers: usize) -> (h: Herd)
        requires
            workers >= 1,
        ensures
            h.wf(),
            h.size() == workers,
            h.tally() == 0,
            h.credits() == 0,
            !h.primed(),
            !h.raised(),
            forall|i: int| 0 <= i < workers ==> h.stages()[i] == Stage::AtGate,
    {
        let mut stages: Vec<Stage> = Vec::new();
        let mut k: usize = 0;
        while k < workers
            invariant
                k <= workers,
                stages@.len() == k,
                forall|i: int| 0 <= i < k ==> stages@[i] == Stage::AtGate,
            decreases workers - k,
        {
            stages.push(Stage::AtGate);
            k = k + 1;
        }
        let h = Herd {
            gate: Gate::new(),
            counter: CompletionCounter::new(workers),
            latch: TeardownLatch::new(),
            stages,
            primed: false,
        };
        proof {
            let s = h.stages();
            lemma_count_total(s);
            lemma_count_zero(s, Stage::Working);
            lemma_count_zero(s, Stage::Reported);
            lemma_count_zero(s, Stage::Parked);
            lemma_count_zero(s, Stage::Exited);
        }
        h
    }

    /// The harness's one release of the barrier at the start of measurement.
    pub fn open_gate(&mut self)
        requires
            old(self).wf(),
            !old(self).primed(),
        ensures
            final(self).wf(),
            final(self).primed(),
            final(self).credits() == 1,
            final(self).stages() == old(self).stages(),
            final(self).raised() == old(self).raised(),
    {
        proof {
            lemma_count_total(self.stages());
        }
        self.gate.release();
        self.primed = true;
    }

    /// Lets worker `i` take its next action, if it can: pass the barrier,
    /// finish its workload and report, pass the wake-up on, or return once
    /// the latch is raised. Returns whether it moved.
    pub fn step(&mut self, i: usize) -> (moved: bool)
        requires
            old(self).wf(),
            i < old(self).size(),
        ensures
            final(self).wf(),
            moved == old(self).enabled(i as int),
            final(self).stages() == if moved {
                old(self).stages().update(i as int, successor(old(self).stages()[i as int]))
            } else {
                old(self).stages()
            },
            !moved ==> final(self).credits() == old(self).credits(),
            final(self).potential() + (if moved {
                1int
            } else {
                0int
            }) == old(self).potential(),
            final(self).raised() == old(self).raised(),
            final(self).primed() == old(self).primed(),
    {
        let ghost s = self.stages();
        proof {
            lemma_count_total(s);
            lemma_move(s, i as int, successor(s[i as int]));
        }
        let st = self.stages[i];
        match st {
            Stage::AtGate => {
                let passed = self.gate.try_pass();
                if passed {
                    self.stages.set(i, Stage::Working);
                }
                passed
            },
            Stage::Working => {
                proof {
                    assert(count_of(s.update(i as int, Stage::Reported), Stage::Working) + 1
                        == count_of(s, Stage::Working));
                }
                self.counter.finish_one();
                self.stages.set(i, Stage::Reported);
                true
            },
            Stage::Reported => {
                self.gate.release();
                self.stages.set(i, Stage::Parked);
                true
            },
            Stage::Parked => {
                if self.latch.is_raised() {
                    self.stages.set(i, Stage::Exited);
                    true
                } else {
                    false
                }
            },
            Stage::Exited => false,
        }
    }

    /// Lets workers act, in turn, until none can: afterwards the herd is
    /// quiescent. Terminates because every action lowers the potential.
    pub fn settle(&mut self)
        requires
            old(self).wf(),
        ensures
            final(self).wf(),
            final(self).quiescent(),
            final(self).size() == old(self).size(),
            final(self).raised() == old(self).raised(),
            final(self).primed() == old(self).primed(),
    {
        let n = self.stages.len();
        loop
            invariant
                self.wf(),
                self.size() == n,
                self.raised() == old(self).raised(),
                self.primed() == old(self).primed(),
            ensures
                self.wf(),
                self.quiescent(),
                self.size() == n,
                self.raised() == old(self).raised(),
                self.primed() == old(self).primed(),
            decreases self.potential(),
        {
            let ghost start_stages = self.stages();
            let ghost start_credits = self.credits();
            let ghost start_potential = self.potential();
            let mut progressed = false;
            let mut i: usize = 0;
            while i < n
                invariant
                    self.wf(),
                    self.size() == n,
                    i <= n,
                    self.raised() == old(self).raised(),
                    self.primed() == old(self).primed(),
                    self.potential() <= start_potential,
                    progressed ==> self.potential() < start_potential,
                    !progressed ==> self.stages() == start_stages && self.credits()
                        == start_credits,
                    !progressed ==> forall|j: int|
                        0 <= j < i ==> !can_act(start_stages[j], start_credits, self.raised()),
                decreases n - i,
            {
                if self.step(i) {
                    progressed = true;
                }
                i = i + 1;
            }
            if !progressed {
                break ;
            }
        }
    }

    /// Runs one whole iteration on a fresh herd of `workers` workers: open
    /// the barrier once, let the relay run until the counter is complete, raise
    /// the latch, and let every worker return.
    pub fn run_iteration(workers: usize) -> (h: Herd)
        requires
            workers >= 1,
        ensures
            h.wf(),
            h.size() == workers,
            h.tally() == workers,
            h.raised(),
            forall|i: int| 0 <= i < workers ==> h.stages()[i] == Stage::Exited,
    {
        let mut h = Herd::new(workers);
        h.open_gate();
        h.settle();
        proof {
            lemma_relay_completes(&h);
        }
        h.raise_latch();
        h.settle();
        proof {
            lemma_latch_releases_all(&h);
        }
        h
    }

    /// Whether every worker has returned.
    pub fn all_exited(&self) -> (r: bool)
        ensures
            r == forall|i: int| 0 <= i < self.size() ==> self.stages()[i] == Stage::Exited,
    {
        let mut i: usize = 0;
        while i < self.stages.len()
            invariant
                i <= self.size(),
                forall|j: int| 0 <= j < i ==> self.stages()[j] == Stage::Exited,
            decreases self.size() - i,
        {
            if self.stages[i] != Stage::Exited {
                return false;
            }
            i = i + 1;
        }
        true
    }

    /// Raises the teardown latch; allowed only once every worker is counted.
    pub fn raise_latch(&mut self)
        requires
            old(self).wf(),
            old(self).tally() == old(self).goal(),
        ensures
            final(self).wf(),
            final(self).raised(),
            final(self).stages() == old(self).stages(),
            final(self).credits() == old(self).credits(),
            final(self).primed() == old(self).primed(),
    {
        self.latch.raise();
    }

    /// Whether every worker has been counted as finished.
    pub fn is_complete(&self) -> (r: bool)
        ensures
            r == (self.tally() == self.goal()),
    {
        self.counter.is_complete()
    }

    /// Workers counted as finished.
    pub fn finished(&self) -> (r: usize)
        ensures
            r == self.tally(),
    {
        self.counter.count()
    }

    /// Number of workers.
    pub fn workers(&self) -> (r: usize)
        ensures
            r == self.size(),
    {
        self.stages.len()
    }

    /// The stage of worker `i`.
    pub fn stage(&self, i: usize) -> (r: Stage)
        requires
            i < self.size(),
        ensures
            r == self.stages()[i as int],
    {
        self.stages[i]
    }
}

/// Counting is exact: the counter holds the number of workers past their
/// report, never more than the herd, and it is complete exactly when every
/// worker has reported. The latch, which ends the iteration, only goes up on
/// a complete counter.
pub proof fn lemma_complete_iff_all_reported(h: &Herd)
    requires
        h.wf(),
    ensures
        h.tally() <= h.size(),
        h.tally() == h.size() <==> forall|i: int| 0 <= i < h.size() ==> is_counted(h.stages()[i]),
        h.raised() ==> forall|i: int| 0 <= i < h.size() ==> is_counted(h.stages()[i]),
{
    let s = h.stages();
    lemma_count_total(s);
    lemma_count_zero(s, Stage::AtGate);
    lemma_count_zero(s, Stage::Working);
    if h.tally() == h.size() {
        assert forall|i: int| 0 <= i < h.size() implies is_counted(h.stages()[i]) by {
            assert(s[i] != Stage::AtGate);
            assert(s[i] != Stage::Working);
        }
    }
}

/// The relay never stalls: once the barrier is open and some worker is still
/// uncounted, some worker can act. At most one worker at a time is between
/// the barrier and its relay.
pub proof fn lemma_relay_never_stalls(h: &Herd)
    requires
        h.wf(),
        h.primed(),
        h.tally() < h.goal(),
    ensures
        exists|i: int| 0 <= i < h.size() && h.enabled(i),
        count_of(h.stages(), Stage::Working) + count_of(h.stages(), Stage::Reported) <= 1,
{
    let s = h.stages();
    lemma_count_total(s);
    lemma_count_zero(s, Stage::AtGate);
    lemma_count_zero(s, Stage::Working);
    lemma_count_zero(s, Stage::Reported);
    if count_of(s, Stage::Working) > 0 {
        let i = choose|i: int| 0 <= i < s.len() && s[i] == Stage::Working;
        assert(h.enabled(i));
    } else if count_of(s, Stage::Reported) > 0 {
        let i = choose|i: int| 0 <= i < s.len() && s[i] == Stage::Reported;
        assert(h.enabled(i));
    } else {
        let i = choose|i: int| 0 <= i < s.len() && s[i] == Stage::AtGate;
        assert(h.enabled(i));
    }
}

/// No action leads back to the barrier: a worker passes it at most once.
pub proof fn lemma_gate_passed_once(st: Stage)
    ensures
        successor(st) != Stage::AtGate,
        st != Stage::AtGate ==> successor(st) != Stage::Working,
{
}

/// With the barrier open and the latch down, a herd in which no worker can act
/// has every worker counted.
pub proof fn lemma_relay_completes(h: &Herd)
    requires
        h.wf(),
        h.primed(),
        !h.raised(),
        h.quiescent(),
    ensures
        h.tally() == h.goal(),
{
    if h.tally() < h.goal() {
        lemma_relay_never_stalls(h);
    }
}

/// Once the latch is up, a herd in which no worker can act has every worker
/// returned: no worker misses the latch.
pub proof fn lemma_latch_releases_all(h: &Herd)
    requires
        h.wf(),
        h.raised(),
        h.quiescent(),
    ensures
        forall|i: int| 0 <= i < h.size() ==> h.stages()[i] == Stage::Exited,
{
    let s = h.stages();
    lemma_count_total(s);
    lemma_count_zero(s, Stage::AtGate);
    lemma_count_zero(s, Stage::Working);
    lemma_count_zero(s, Stage::Reported);
    lemma_count_zero(s, Stage::Parked);
    assert forall|i: int| 0 <= i < h.size() implies h.stages()[i] == Stage::Exited by {
        assert(!h.enabled(i));
        if s[i] == Stage::Working || s[i] == Stage::Reported {
        } else if s[i] == Stage::AtGate {
            assert(count_of(s, Stage::Working) == 0);
        }
    }
}

} // verus!
