use vstd::prelude::*;
use vstd::arithmetic::div_mod::{
    lemma_fundamental_div_mod, lemma_mod_multiples_vanish, lemma_small_mod,
};
use vstd::arithmetic::mul::lemma_mul_is_distributive_sub;

verus! {

/// A cursor over a non-empty ordered list, moved forward and backward with
/// wraparound. Every menu of the user interface is one of these.
///
/// Each implementation describes its own stepping rule through the spec
/// functions `stepped_up`, `stepped_down` and `reset_state`, so the
/// executable methods have exact contracts: the new state is the old state
/// mapped through the rule.
pub trait Selector<T>: Sized {
    /// The items the cursor ranges over.
    spec fn items(&self) -> Seq<T>;

    /// The index of the item currently under the cursor.
    spec fn index(&self) -> int;

    /// Internal validity: a non-empty list and in-range cursor state.
    spec fn wf(&self) -> bool;

    /// The whole state after one `incr` call.
    spec fn stepped_up(&self) -> Self;

    /// The whole state after one `decr` call.
    spec fn stepped_down(&self) -> Self;

    /// The whole state after a `reset` call.
    spec fn reset_state(&self) -> Self;

    /// Stepping and resetting keep the state well formed, keep the list,
    /// and keep the cursor in range.
    proof fn lemma_wf(&self)
        requires
            self.wf(),
        ensures
            self.items().len() > 0,
            0 <= self.index() < self.items().len(),
            self.stepped_up().wf(),
            self.stepped_up().items() == self.items(),
            self.stepped_down().wf(),
            self.stepped_down().items() == self.items(),
            self.reset_state().wf(),
            self.reset_state().items() == self.items(),
    ;

    fn incr(&mut self) -> (r: &T)
        requires
            old(self).wf(),
        ensures
            *final(self) == old(self).stepped_up(),
            final(self).wf(),
            final(self).items() == old(self).items(),
            0 <= final(self).index() < final(self).items().len(),
            *r == final(self).items()[final(self).index()],
    ;

    fn decr(&mut self) -> (r: &T)
        requires
            old(self).wf(),
        ensures
            *final(self) == old(self).stepped_down(),
            final(self).wf(),
            final(self).items() == old(self).items(),
            0 <= final(self).index() < final(self).items().len(),
            *r == final(self).items()[final(self).index()],
    ;

    fn curr(&self) -> (r: &T)
        requires
            self.wf(),
        ensures
            0 <= self.index() < self.items().len(),
            *r == self.items()[self.index()],
    ;

    fn reset(&mut self)
        requires
            old(self).wf(),
        ensures
            *final(self) == old(self).reset_state(),
            final(self).wf(),
            final(self).items() == old(self).items(),
    ;

    fn len(&self) -> (n: usize)
        requires
            self.wf(),
        ensures
            n == self.items().len(),
            n > 0,
    ;
}

/// A selector that moves exactly one slot per call.
pub struct LinearSelector<T> {
    list: Vec<T>,
    curr: usize,
}

impl<T> LinearSelector<T> {
    pub fn new(list: Vec<T>) -> (r: Self)
        requires
            list@.len() > 0,
        ensures
            r.wf(),
            r.items() == list@,
            r.index() == 0,
    {
        Self { list, curr: 0 }
    }
}

impl<T> Selector<T> for LinearSelector<T> {
    closed spec fn items(&self) -> Seq<T> {
        self.list@
    }

    closed spec fn index(&self) -> int {
        self.curr as int
    }

    closed spec fn wf(&self) -> bool {
        self.list.len() > 0 && self.curr < self.list.len()
    }

    closed spec fn stepped_up(&self) -> Self {
        LinearSelector {
            list: self.list,
            curr: (((self.curr + 1) as int % self.list.len() as int) as usize),
        }
    }

    closed spec fn stepped_down(&self) -> Self {
        LinearSelector {
            list: self.list,
            curr: (if self.curr == 0 {
                (self.list.len() - 1) as usize
            } else {
                (self.curr - 1) as usize
            }),
        }
    }

    closed spec fn reset_state(&self) -> Self {
        LinearSelector { list: self.list, curr: 0 }
    }

    proof fn lemma_wf(&self) {
    }

    fn incr(&mut self) -> (r: &T) {
        self.curr = (self.curr + 1) % self.list.len();
        &self.list[self.curr]
    }

    fn decr(&mut self) -> (r: &T) {
        self.curr = match self.curr {
            0 => self.list.len() - 1,
            _ => self.curr - 1,
        };
        &self.list[self.curr]
    }

    fn curr(&self) -> (r: &T) {
        &self.list[self.curr]
    }

    fn reset(&mut self) {
        self.curr = 0;
    }

    fn len(&self) -> (n: usize) {
        self.list.len()
    }
}

/// The window of a `BinarySelector`: either narrowed to a single index, or
/// an inclusive index range still being halved.
enum Bound {
    Single(usize),
    Range(usize, usize),
}

/// A selector with an accelerating step: the cursor sits at the midpoint of
/// a shrinking range, so early calls jump widely and later calls move one
/// slot at a time.
pub struct BinarySelector<T> {
    list: Vec<T>,
    bound: Bound,
}

impl<T> BinarySelector<T> {
    pub fn new(list: Vec<T>) -> (r: Self)
        requires
            list@.len() > 0,
        ensures
            r.wf(),
            r.items() == list@,
            r.index() == list@.len() as int / 2,
            r == r.reset_state(),
    {
        let bound = Bound::Range(0, list.len() - 1);
        Self { list, bound }
    }

    /// The midpoint rule: a range `[lo, hi]` selects `lo + ceil((hi - lo + 1) / 2)`
    /// rounded down into the range, a single point selects itself.
    spec fn spec_curr_i(&self) -> int {
        match self.bound {
            Bound::Single(i) => i as int,
            Bound::Range(i, j) => i + (j - i + 1) / 2,
        }
    }

    fn curr_i(&self) -> (r: usize)
        requires
            self.wf(),
        ensures
            r == self.spec_curr_i(),
    {
        match self.bound {
            Bound::Single(i) => i,
            Bound::Range(i, j) => i + (j - i + 1) / 2,
        }
    }
}

impl<T> Selector<T> for BinarySelector<T> {
    closed spec fn items(&self) -> Seq<T> {
        self.list@
    }

    closed spec fn index(&self) -> int {
        self.spec_curr_i()
    }

    closed spec fn wf(&self) -> bool {
        &&& self.list.len() > 0
        &&& match self.bound {
            Bound::Single(i) => i < self.list.len(),
            Bound::Range(i, j) => i <= j && j < self.list.len(),
        }
    }

    closed spec fn stepped_up(&self) -> Self {
        BinarySelector {
            list: self.list,
            bound: (match self.bound {
                Bound::Single(i) => Bound::Single((((i + 1) as int % self.list.len() as int) as usize)),
                Bound::Range(_, j) => {
                    let new = self.spec_curr_i() + 1;
                    if new >= j {
                        Bound::Single(((new % self.list.len() as int) as usize))
                    } else {
                        Bound::Range(new as usize, j)
                    }
                },
            }),
        }
    }

    closed spec fn stepped_down(&self) -> Self {
        BinarySelector {
            list: self.list,
            bound: (match self.bound {
                Bound::Single(i) => Bound::Single((if i == 0 {
                    (self.list.len() - 1) as usize
                } else {
                    (i - 1) as usize
                })),
                Bound::Range(i, _) => {
                    let new = if self.spec_curr_i() == 0 {
                        self.list.len() - 1
                    } else {
                        self.spec_curr_i() - 1
                    };
                    if new <= i {
                        Bound::Single(new as usize)
                    } else {
                        Bound::Range(i, new as usize)
                    }
                },
            }),
        }
    }

    closed spec fn reset_state(&self) -> Self {
        BinarySelector {
            list: self.list,
            bound: Bound::Range(0, (self.list.len() - 1) as usize),
        }
    }

    proof fn lemma_wf(&self) {
    }

    fn incr(&mut self) -> (r: &T) {
        self.bound = match self.bound {
            Bound::Single(i) => Bound::Single((i + 1) % self.list.len()),
            Bound::Range(_, j) => {
                let new = self.curr_i() + 1;
                if new >= j {
                    Bound::Single(new % self.list.len())
                } else {
                    Bound::Range(new, j)
                }
            },
        };
        self.curr()
    }

    fn decr(&mut self) -> (r: &T) {
        self.bound = match self.bound {
            Bound::Single(i) => Bound::Single(if i == 0 {
                self.list.len() - 1
            } else {
                i - 1
            }),
            Bound::Range(i, _) => {
                let c = self.curr_i();
                let new = if c == 0 { self.list.len() - 1 } else { c - 1 };
                if new <= i {
                    Bound::Single(new)
                } else {
                    Bound::Range(i, new)
                }
            },
        };
        self.curr()
    }

    fn curr(&self) -> (r: &T) {
        &self.list[self.curr_i()]
    }

    fn reset(&mut self) {
        self.bound = Bound::Range(0, self.list.len() - 1);
    }

    fn len(&self) -> (n: usize) {
        self.list.len()
    }
}

/// The state of a selector after `n` consecutive `incr` calls.
pub open spec fn after_incrs<T, S: Selector<T>>(s: S, n: nat) -> S
    decreases n,
{
    if n == 0 {
        s
    } else {
        after_incrs::<T, S>(s, (n - 1) as nat).stepped_up()
    }
}

/// The state of a selector after `n` consecutive `decr` calls.
pub open spec fn after_decrs<T, S: Selector<T>>(s: S, n: nat) -> S
    decreases n,
{
    if n == 0 {
        s
    } else {
        after_decrs::<T, S>(s, (n - 1) as nat).stepped_down()
    }
}

proof fn lemma_linear_incrs_shape<T>(s: LinearSelector<T>, n: nat)
    requires
        s.wf(),
    ensures
        after_incrs::<T, LinearSelector<T>>(s, n) == (LinearSelector {
            list: s.list,
            curr: (((s.curr + n) % s.list.len() as int) as usize),
        }),
    decreases n,
{
    let len = s.list.len() as int;
    if n == 0 {
        lemma_small_mod(s.curr as nat, len as nat);
    } else {
        lemma_linear_incrs_shape(s, (n - 1) as nat);
        let prev = after_incrs::<T, LinearSelector<T>>(s, (n - 1) as nat);
        assert(prev.curr == (s.curr + n - 1) % len);
        // (((c + n - 1) % len) + 1) % len == (c + n) % len, because the two
        // numerators differ by a multiple of len.
        // c + n - 1 == len * q + r with r == prev.curr, so stepping once more
        // gives (r + 1) % len == (c + n) % len.
        let q = (s.curr + n - 1) / len;
        let r = (s.curr + n - 1) % len;
        lemma_fundamental_div_mod(s.curr + n - 1, len);
        lemma_mod_multiples_vanish(q, r + 1, len);
        assert((s.curr + n) % len == (r + 1) % len);
    }
}

proof fn lemma_linear_decrs_shape<T>(s: LinearSelector<T>, n: nat)
    requires
        s.wf(),
    ensures
        after_decrs::<T, LinearSelector<T>>(s, n) == (LinearSelector {
            list: s.list,
            curr: (((s.curr - n) % s.list.len() as int) as usize),
        }),
    decreases n,
{
    let len = s.list.len() as int;
    if n == 0 {
        lemma_small_mod(s.curr as nat, len as nat);
    } else {
        lemma_linear_decrs_shape(s, (n - 1) as nat);
        let prev = after_decrs::<T, LinearSelector<T>>(s, (n - 1) as nat);
        assert(prev.curr == (s.curr - (n - 1)) % len);
        // c - n + 1 == len * q + r with r == prev.curr, so stepping once more
        // gives the value congruent to c - n in 0..len.
        let q = (s.curr - (n - 1)) / len;
        let r = (s.curr - (n - 1)) % len;
        lemma_fundamental_div_mod(s.curr - (n - 1), len);
        if prev.curr == 0 {
            lemma_mul_is_distributive_sub(len, q, 1);
            lemma_mod_multiples_vanish(q - 1, len - 1, len);
            lemma_small_mod((len - 1) as nat, len as nat);
        } else {
            lemma_mod_multiples_vanish(q, r - 1, len);
            lemma_small_mod((r - 1) as nat, len as nat);
        }
    }
}

/// Cycle law of the one-step selector: from any starting index, as many
/// `incr` calls as there are items lead back to the starting state.
pub proof fn lemma_linear_incr_cycle<T>(s: LinearSelector<T>)
    requires
        s.wf(),
    ensures
        after_incrs::<T, LinearSelector<T>>(s, s.items().len()) == s,
{
    let len = s.list.len() as int;
    lemma_linear_incrs_shape(s, s.items().len());
    lemma_mod_multiples_vanish(1, s.curr as int, len);
    lemma_small_mod(s.curr as nat, len as nat);
}

/// Cycle law of the one-step selector, downward: from any starting index,
/// as many `decr` calls as there are items lead back to the starting state.
pub proof fn lemma_linear_decr_cycle<T>(s: LinearSelector<T>)
    requires
        s.wf(),
    ensures
        after_decrs::<T, LinearSelector<T>>(s, s.items().len()) == s,
{
    let len = s.list.len() as int;
    lemma_linear_decrs_shape(s, s.items().len());
    lemma_mod_multiples_vanish(-1, s.curr as int, len);
    lemma_small_mod(s.curr as nat, len as nat);
}

impl<T> BinarySelector<T> {
    /// The lower end of the current window, the point itself once the
    /// window has collapsed.
    pub closed spec fn low(&self) -> int {
        match self.bound {
            Bound::Single(i) => i as int,
            Bound::Range(i, _) => i as int,
        }
    }

    /// The upper end of the current window, the point itself once the
    /// window has collapsed.
    pub closed spec fn high(&self) -> int {
        match self.bound {
            Bound::Single(i) => i as int,
            Bound::Range(_, j) => j as int,
        }
    }

    /// Whether the window has collapsed to a single point, after which
    /// the cursor moves one slot per call.
    pub closed spec fn collapsed(&self) -> bool {
        self.bound is Single
    }
}

/// The one-step selector's stepping rule, in the open: `incr` moves the
/// cursor exactly one slot forward, wrapping past the end, and `decr`
/// exactly one slot back, wrapping past the start.
pub proof fn lemma_linear_step<T>(s: LinearSelector<T>)
    requires
        s.wf(),
    ensures
        s.stepped_up().items() == s.items(),
        s.stepped_up().index() == (s.index() + 1) % (s.items().len() as int),
        s.stepped_down().items() == s.items(),
        s.stepped_down().index() == (if s.index() == 0 {
            s.items().len() - 1
        } else {
            s.index() - 1
        }),
        s.reset_state().items() == s.items(),
        s.reset_state().index() == 0,
{
}

/// The accelerating selector's upward rule, in the open. While a window
/// is being halved, the cursor jumps past the midpoint and the window
/// keeps its upper end, shrinking until it reaches the top and collapses;
/// a collapsed cursor moves one slot forward, wrapping.
pub proof fn lemma_binary_step_up<T>(s: BinarySelector<T>)
    requires
        s.wf(),
    ensures
        s.stepped_up().items() == s.items(),
        s.collapsed() ==> s.stepped_up().collapsed() && s.stepped_up().index() == (s.index() + 1)
            % (s.items().len() as int),
        !s.collapsed() && s.index() + 1 >= s.high() ==> s.stepped_up().collapsed()
            && s.stepped_up().index() == (s.index() + 1) % (s.items().len() as int),
        !s.collapsed() && s.index() + 1 < s.high() ==> !s.stepped_up().collapsed()
            && s.stepped_up().low() == s.index() + 1 && s.stepped_up().high() == s.high(),
        s.stepped_up().wf(),
{
}

/// The accelerating selector's downward rule, in the open: the mirror of
/// the upward rule, shrinking the window from the top; a collapsed
/// cursor moves one slot back, wrapping.
pub proof fn lemma_binary_step_down<T>(s: BinarySelector<T>)
    requires
        s.wf(),
    ensures
        s.stepped_down().items() == s.items(),
        ({
            let back = if s.index() == 0 {
                s.items().len() - 1
            } else {
                s.index() - 1
            };
            &&& s.collapsed() ==> s.stepped_down().collapsed() && s.stepped_down().index() == back
            &&& !s.collapsed() && back <= s.low() ==> s.stepped_down().collapsed()
                && s.stepped_down().index() == back
            &&& !s.collapsed() && back > s.low() ==> !s.stepped_down().collapsed()
                && s.stepped_down().low() == s.low() && s.stepped_down().high() == back
        }),
        s.stepped_down().wf(),
{
}

/// Resetting the accelerating selector restores the full window, whose
/// midpoint is the middle of the list.
pub proof fn lemma_binary_reset<T>(s: BinarySelector<T>)
    requires
        s.wf(),
    ensures
        s.reset_state().items() == s.items(),
        !s.reset_state().collapsed() || s.items().len() == 1,
        s.reset_state().low() == 0,
        s.reset_state().high() == s.items().len() - 1,
        s.reset_state().index() == s.items().len() as int / 2,
        s.reset_state().wf(),
{
}

} // verus!
