//! The lazy generators behind the pentagonal-number recurrence: the
//! four-phase sign cycle, the naturals, the odd naturals, the gaps between
//! consecutive generalized pentagonal numbers, and the generalized
//! pentagonal numbers themselves.

use vstd::prelude::*;

verus! {

/// Whether a pentagonal term is added to or subtracted from the running
/// total of the recurrence.
#[derive(Copy, Debug, Clone, PartialEq, Eq)]
pub enum AddSub {
    Add,
    Sub,
}

/// Which delegate the gap generator consults for its next value.
#[derive(Copy, Debug, Clone)]
pub enum PartitionState {
    AllIntegers,
    OddIntegers,
}

/// The sign emitted by a cycle that has already advanced `p` steps from a
/// fresh start: Add for phases 0 and 1, Sub for phases 2 and 3.
pub open spec fn sign_of_phase(p: int) -> AddSub {
    if p % 4 == 0 || p % 4 == 1 {
        AddSub::Add
    } else {
        AddSub::Sub
    }
}

/// The sign paired with the k-th generalized pentagonal number (1-indexed):
/// Add, Add, Sub, Sub, repeating.
pub open spec fn sign_at(k: int) -> AddSub {
    sign_of_phase((k - 1) % 4)
}

/// The m-th gap (1-indexed) between consecutive generalized pentagonal
/// numbers: 1, 3, 2, 5, 3, 7, 4, 9, ...
pub open spec fn gap(m: int) -> int {
    if m % 2 == 1 {
        (m + 1) / 2
    } else {
        m + 1
    }
}

/// The k-th generalized pentagonal number (1-indexed): 1, 2, 5, 7, 12, 15,
/// 22, 26, ... Each is the previous one plus the corresponding gap.
pub open spec fn gpent(k: int) -> int
    decreases k,
{
    if k <= 1 {
        1
    } else {
        gpent(k - 1) + gap(k - 1)
    }
}

/// The generalized pentagonal numbers grow at least linearly: the k-th one
/// is at least k, and from a short prefix onward at least 3k - 8.
pub proof fn lemma_gpent_lb(k: int)
    requires
        1 <= k,
    ensures
        k <= gpent(k),
        3 * k - 8 <= gpent(k),
    decreases k,
{
    if k > 1 {
        lemma_gpent_lb(k - 1);
    }
}

/// The generalized pentagonal numbers are strictly increasing.
pub proof fn lemma_gpent_increasing(j: int, k: int)
    requires
        1 <= j < k,
    ensures
        gpent(j) < gpent(k),
    decreases k,
{
    lemma_gap_le(k - 1);
    if j < k - 1 {
        lemma_gpent_increasing(j, k - 1);
    }
}

/// A gap never exceeds its own pentagonal number by more than one.
pub proof fn lemma_gap_le(k: int)
    requires
        1 <= k,
    ensures
        1 <= gap(k),
        gap(k) <= gpent(k) + 1,
{
    lemma_gpent_lb(k);
}

/// Produces the infinite periodic sign pattern Add, Add, Sub, Sub,
/// Add, Add, ... one sign per call.
#[derive(Copy, Debug, Clone, PartialEq, Eq)]
pub struct AddSubCounter {
    last: AddSub,
    this: AddSub,
}

impl AddSubCounter {
    /// How many signs have been emitted since construction, modulo the
    /// cycle length of four.
    pub closed spec fn phase(self) -> int {
        match (self.last, self.this) {
            (AddSub::Sub, AddSub::Sub) => 0,
            (AddSub::Sub, AddSub::Add) => 1,
            (AddSub::Add, AddSub::Add) => 2,
            (AddSub::Add, AddSub::Sub) => 3,
        }
    }

    pub fn new() -> (c: AddSubCounter)
        ensures
            c.phase() == 0,
    {
        AddSubCounter { last: AddSub::Sub, this: AddSub::Sub }
    }

    /// Emits the sign of the current phase and advances the cycle, so the
    /// k-th call on a fresh counter returns `sign_at(k)`.
    pub fn next(&mut self) -> (r: AddSub)
        ensures
            final(self).phase() == (old(self).phase() + 1) % 4,
            r == sign_of_phase(old(self).phase()),
    {
        match (self.last, self.this) {
            (AddSub::Add, AddSub::Add) => {
                self.this = AddSub::Sub;
                AddSub::Sub
            },
            (AddSub::Add, AddSub::Sub) => {
                self.last = AddSub::Sub;
                AddSub::Sub
            },
            (AddSub::Sub, AddSub::Sub) => {
                self.this = AddSub::Add;
                AddSub::Add
            },
            (AddSub::Sub, AddSub::Add) => {
                self.last = AddSub::Add;
                AddSub::Add
            },
        }
    }
}

/// Emits the natural numbers 1, 2, 3, ... one per call.
#[derive(Debug, Copy, Clone)]
pub struct AllIntegers {
    i: i64,
}

impl AllIntegers {
    /// How many values have been emitted since construction.
    pub closed spec fn emitted(self) -> int {
        self.i as int
    }

    pub closed spec fn wf(self) -> bool {
        0 <= self.i
    }

    pub fn new() -> (s: AllIntegers)
        ensures
            s.wf(),
            s.emitted() == 0,
    {
        AllIntegers { i: 0 }
    }

    /// The k-th call on a fresh sequence returns k.
    pub fn next(&mut self) -> (r: i64)
        requires
            old(self).wf(),
            old(self).emitted() < i64::MAX,
        ensures
            final(self).wf(),
            final(self).emitted() == old(self).emitted() + 1,
            r == final(self).emitted(),
    {
        self.i = self.i + 1;
        self.i
    }
}

/// Emits the odd naturals 1, 3, 5, 7, ... one per call. The counter is
/// seeded through two special-cased steps before settling into plain
/// increments of two.
#[derive(Debug, Copy, Clone)]
pub struct OddIntegers {
    i: i64,
}

impl OddIntegers {
    /// How many values have been emitted since construction.
    pub closed spec fn emitted(self) -> int {
        if self.i == 1 {
            0
        } else if self.i == 2 {
            1
        } else {
            (self.i + 1) / 2
        }
    }

    pub closed spec fn wf(self) -> bool {
        self.i == 1 || self.i == 2 || (3 <= self.i && self.i % 2 == 1)
    }

    pub fn new() -> (s: OddIntegers)
        ensures
            s.wf(),
            s.emitted() == 0,
    {
        OddIntegers { i: 1 }
    }

    /// The k-th call on a fresh sequence returns 2k - 1.
    pub fn next(&mut self) -> (r: i64)
        requires
            old(self).wf(),
            old(self).emitted() < (i64::MAX - 1) / 2,
        ensures
            final(self).wf(),
            final(self).emitted() == old(self).emitted() + 1,
            r == 2 * final(self).emitted() - 1,
    {
        match self.i {
            1 => {
                self.i = self.i + 1;
                1
            },
            2 => {
                self.i = self.i + 1;
                self.i
            },
            _ => {
                self.i = self.i + 2;
                self.i
            },
        }
    }
}

/// Interleaves the odd naturals and the naturals under a parity rule to
/// produce the gaps between consecutive generalized pentagonal numbers:
/// 1, 3, 2, 5, 3, 7, 4, 9, 5, 11, ...
#[derive(Debug, Clone)]
pub struct DifferencePartitionSequence {
    i: i64,
    all: AllIntegers,
    odd: OddIntegers,
}

impl DifferencePartitionSequence {
    /// How many gaps have been emitted since construction.
    pub closed spec fn emitted(self) -> int {
        self.i - 2
    }

    pub closed spec fn wf(self) -> bool {
        &&& 2 <= self.i
        &&& self.all.wf()
        &&& self.odd.wf()
        &&& self.all.emitted() == (self.i - 1) / 2
        &&& self.odd.emitted() == 1 + (self.i - 2) / 2
    }

    /// Construction pre-advances the odd sequence by one step, consuming
    /// its leading 1 to align the phases of the two delegates.
    pub fn new() -> (s: DifferencePartitionSequence)
        ensures
            s.wf(),
            s.emitted() == 0,
    {
        let i: i64 = 2;
        let all = AllIntegers::new();
        let mut odd = OddIntegers::new();
        let _leading: i64 = odd.next();
        DifferencePartitionSequence { i, all, odd }
    }

    /// Names the delegate that the next call will consult.
    pub fn state(&self) -> (r: PartitionState)
        requires
            self.wf(),
        ensures
            r == (if self.emitted() % 2 == 0 {
                PartitionState::AllIntegers
            } else {
                PartitionState::OddIntegers
            }),
    {
        if self.i % 2 == 0 {
            PartitionState::AllIntegers
        } else {
            PartitionState::OddIntegers
        }
    }

    /// The k-th call on a fresh sequence returns `gap(k)`.
    pub fn next(&mut self) -> (r: i64)
        requires
            old(self).wf(),
            old(self).emitted() < (i64::MAX - 1) / 2,
        ensures
            final(self).wf(),
            final(self).emitted() == old(self).emitted() + 1,
            r == gap(old(self).emitted() + 1),
    {
        self.i = self.i + 1;
        if self.i % 2 == 0 {
            self.odd.next()
        } else {
            self.all.next()
        }
    }
}

/// The running cumulative sum of the gap sequence, starting from 1: the
/// generalized pentagonal numbers 1, 2, 5, 7, 12, 15, 22, 26, ... in
/// increasing order.
#[derive(Debug, Clone)]
pub struct PartitionSequence {
    i: i64,
    value: i64,
    dps: DifferencePartitionSequence,
}

impl PartitionSequence {
    /// How many pentagonal numbers have been emitted since construction.
    pub closed spec fn emitted(self) -> int {
        self.i as int
    }

    pub closed spec fn wf(self) -> bool {
        &&& 0 <= self.i
        &&& self.dps.wf()
        &&& if self.i == 0 {
            self.value == 1 && self.dps.emitted() == 0
        } else {
            self.value == gpent(self.i as int) && self.dps.emitted() == self.i - 1
        }
    }

    pub fn new() -> (s: PartitionSequence)
        ensures
            s.wf(),
            s.emitted() == 0,
    {
        let dps = DifferencePartitionSequence::new();
        PartitionSequence { i: 0, value: 1, dps }
    }

    /// The k-th call on a fresh sequence returns `gpent(k)`.
    pub fn next(&mut self) -> (r: i64)
        requires
            old(self).wf(),
            gpent(old(self).emitted() + 1) <= i64::MAX,
        ensures
            final(self).wf(),
            final(self).emitted() == old(self).emitted() + 1,
            r == gpent(final(self).emitted()),
    {
        proof {
            lemma_gpent_lb(old(self).emitted() + 1);
        }
        match self.i {
            0 => {
                self.i = 1;
                self.value
            },
            _ => {
                self.i = self.i + 1;
                let g = self.dps.next();
                self.value = self.value + g;
                self.value
            },
        }
    }
}

} // verus!
