//! A deduplicating, run-length encoded event store.
//!
//! A pile keeps every distinct value once, in a namespace, and records what
//! was pushed as a list of runs: the address of a value in the namespace and
//! the number of times it occurred in a row. A device that fails on every
//! tick for a minute costs one run with a large count, not one entry per tick.

use vstd::prelude::*;
use vstd::std_specs::cmp::PartialEqSpec;

verus! {

/// The address used by the pile to index the namespace. It limits how many
/// distinct values a pile can hold.
pub type Addr = u16;

/// The type used to count the consecutive occurrences of an address.
pub type AddrCounter = u8;

/// The number of distinct values a pile can hold: one per address.
pub const ADDRESS_CAPACITY: usize = 65536;

/// The largest count a single run can reach.
pub const RUN_LIMIT: AddrCounter = 255;

/// The mathematical content of a pile.
pub struct PileView<T> {
    /// The distinct values, in the order of their first occurrence.
    pub namespace: Seq<T>,
    /// The runs since the last flush, oldest first: the address of a value
    /// and how often it occurred in a row.
    pub occurrences: Seq<(Addr, AddrCounter)>,
}

impl<T: PartialEq> PileView<T> {
    /// The pile that holds nothing.
    pub open spec fn empty() -> Self {
        PileView { namespace: Seq::empty(), occurrences: Seq::empty() }
    }

    /// What every pile satisfies: the namespace fits the address space and
    /// holds no value twice, every run points into the namespace and counts
    /// at least one occurrence, and a run is only followed by a run of the
    /// same address once it is full.
    pub open spec fn wf(self) -> bool {
        &&& self.namespace.len() <= ADDRESS_CAPACITY
        &&& forall|i: int, j: int|
            #![trigger self.namespace[i], self.namespace[j]]
            0 <= i < j < self.namespace.len() ==> !self.namespace[i].eq_spec(&self.namespace[j])
        &&& forall|k: int|
            0 <= k < self.occurrences.len() ==> {
                &&& (#[trigger] self.occurrences[k]).0 < self.namespace.len()
                &&& self.occurrences[k].1 >= 1
            }
        &&& forall|k: int, l: int|
            #![trigger self.occurrences[k], self.occurrences[l]]
            0 <= k && l == k + 1 && l < self.occurrences.len() && self.occurrences[k].0
                == self.occurrences[l].0 ==> self.occurrences[k].1 == RUN_LIMIT
    }

    /// `a` is the address under which `item` is found: the first place of the
    /// namespace that holds a value equal to it.
    pub open spec fn is_address_of(self, item: T, a: int) -> bool {
        &&& 0 <= a < self.namespace.len()
        &&& self.namespace[a].eq_spec(&item)
        &&& forall|j: int| 0 <= j < a ==> !(#[trigger] self.namespace[j]).eq_spec(&item)
    }

    /// Whether the namespace holds a value equal to `item`.
    pub open spec fn knows(self, item: T) -> bool {
        exists|a: int| self.is_address_of(item, a)
    }

    /// The address of `item`, for an item that the namespace knows.
    pub open spec fn address_of(self, item: T) -> int {
        choose|a: int| self.is_address_of(item, a)
    }

    /// Whether a push of `item` is recorded: the namespace knows the item or
    /// has a free address for it.
    pub open spec fn admits(self, item: T) -> bool {
        self.knows(item) || self.namespace.len() < ADDRESS_CAPACITY
    }

    /// The runs after one more occurrence of address `a`: the newest run
    /// grows if it is a run of `a` that is not full, else a new run starts.
    pub open spec fn record(self, a: Addr) -> Self {
        let n = self.occurrences.len() as int;
        if n > 0 && self.occurrences[n - 1].0 == a && self.occurrences[n - 1].1 < RUN_LIMIT {
            PileView {
                namespace: self.namespace,
                occurrences: self.occurrences.update(
                    n - 1,
                    (a, (self.occurrences[n - 1].1 + 1) as AddrCounter),
                ),
            }
        } else {
            PileView { namespace: self.namespace, occurrences: self.occurrences.push((a, 1)) }
        }
    }

    /// The pile after a push of `item`. A known item is recorded under its
    /// address; a new one joins the namespace first, unless the address
    /// space is used up, in which case nothing changes.
    pub open spec fn push(self, item: T) -> Self {
        if self.knows(item) {
            self.record(self.address_of(item) as Addr)
        } else if self.namespace.len() < ADDRESS_CAPACITY {
            PileView {
                namespace: self.namespace.push(item),
                occurrences: self.occurrences,
            }.record(self.namespace.len() as Addr)
        } else {
            self
        }
    }

    /// The pile after `n` pushes of `item`.
    pub open spec fn push_n(self, item: T, n: nat) -> Self
        decreases n,
    {
        if n == 0 {
            self
        } else {
            self.push_n(item, (n - 1) as nat).push(item)
        }
    }

    /// The value that stands for `item` in the runs once it was pushed: the
    /// equal value that the namespace already holds, else the item itself.
    pub open spec fn stored(self, item: T) -> T {
        if self.knows(item) {
            self.namespace[self.address_of(item)]
        } else {
            item
        }
    }

    /// The address under which a push records `item`, for an item that the
    /// pile admits.
    pub open spec fn address_after_push(self, item: T) -> Addr {
        if self.knows(item) {
            self.address_of(item) as Addr
        } else {
            self.namespace.len() as Addr
        }
    }

    /// What a flush hands out: each run with its value in place of the
    /// address, oldest first.
    pub open spec fn runs(self) -> Seq<(T, AddrCounter)> {
        Seq::new(
            self.occurrences.len(),
            |k: int| (self.namespace[self.occurrences[k].0 as int], self.occurrences[k].1),
        )
    }

    /// The pile after a flush: the runs are gone, the namespace stays.
    pub open spec fn flushed(self) -> Self {
        PileView { namespace: self.namespace, occurrences: Seq::empty() }
    }

    /// One more occurrence of a valid address keeps a pile well formed.
    pub proof fn lemma_record_wf(self, a: Addr)
        requires
            self.wf(),
            a < self.namespace.len(),
        ensures
            self.record(a).wf(),
    {
        let after = self.record(a);
        let n = self.occurrences.len() as int;
        assert forall|k: int, l: int|
            #![trigger after.occurrences[k], after.occurrences[l]]
            0 <= k && l == k + 1 && l < after.occurrences.len() && after.occurrences[k].0
                == after.occurrences[l].0 implies after.occurrences[k].1 == RUN_LIMIT by {
            if l < n - 1 {
                assert(self.occurrences[k].0 == self.occurrences[l].0);
            } else if l == n - 1 {
                assert(self.occurrences[k].0 == self.occurrences[l].0);
            }
        }
    }

    /// A push keeps a pile well formed.
    pub proof fn lemma_push_wf(self, item: T)
        requires
            self.wf(),
        ensures
            self.push(item).wf(),
    {
        if self.knows(item) {
            self.lemma_record_wf(self.address_of(item) as Addr);
        } else if self.namespace.len() < ADDRESS_CAPACITY {
            let grown = PileView {
                namespace: self.namespace.push(item),
                occurrences: self.occurrences,
            };
            assert forall|i: int, j: int|
                #![trigger grown.namespace[i], grown.namespace[j]]
                0 <= i < j < grown.namespace.len() implies !grown.namespace[i].eq_spec(
                &grown.namespace[j],
            ) by {
                if j == self.namespace.len() {
                    if self.namespace[i].eq_spec(&item) {
                        self.lemma_match_is_known(item, i);
                    }
                } else {
                    assert(!self.namespace[i].eq_spec(&self.namespace[j]));
                }
            }
            assert(grown.wf());
            grown.lemma_record_wf(self.namespace.len() as Addr);
        }
    }

    /// A namespace that holds a value equal to `item` at some place knows
    /// the item.
    pub proof fn lemma_match_is_known(self, item: T, i: int)
        requires
            0 <= i < self.namespace.len(),
            self.namespace[i].eq_spec(&item),
        ensures
            self.knows(item),
            self.address_of(item) <= i,
        decreases i,
    {
        if forall|j: int| 0 <= j < i ==> !(#[trigger] self.namespace[j]).eq_spec(&item) {
            assert(self.is_address_of(item, i));
        } else {
            let j = choose|j: int| 0 <= j < i && (#[trigger] self.namespace[j]).eq_spec(&item);
            self.lemma_match_is_known(item, j);
        }
        let a = self.address_of(item);
        assert(self.is_address_of(item, a));
    }

    /// The address of an item is the one place that meets `is_address_of`.
    pub proof fn lemma_address_unique(self, item: T, a: int)
        requires
            self.is_address_of(item, a),
        ensures
            self.knows(item),
            self.address_of(item) == a,
    {
        let b = self.address_of(item);
        assert(self.is_address_of(item, b));
        if b < a {
            assert(!self.namespace[b].eq_spec(&item));
        } else if a < b {
            assert(!self.namespace[a].eq_spec(&item));
        }
    }

    /// A push of an admitted item records one occurrence of its address and
    /// leaves the item known under that address. The namespace grows by the
    /// item if it was new and is unchanged otherwise.
    pub proof fn lemma_push_admitted(self, item: T)
        requires
            self.wf(),
            self.admits(item),
            item.eq_spec(&item),
        ensures
            self.push(item).is_address_of(item, self.address_after_push(item) as int),
            self.push(item).namespace[self.address_after_push(item) as int] == self.stored(item),
            self.push(item).stored(item) == self.stored(item),
            self.push(item).address_after_push(item) == self.address_after_push(item),
            self.push(item).occurrences == self.record(self.address_after_push(item)).occurrences,
            self.push(item).namespace == if self.knows(item) {
                self.namespace
            } else {
                self.namespace.push(item)
            },
    {
        let a = self.address_after_push(item);
        let after = self.push(item);
        if self.knows(item) {
            assert(self.is_address_of(item, a as int));
            assert(after.namespace == self.namespace);
            assert(after.is_address_of(item, a as int));
        } else {
            assert forall|j: int| 0 <= j < a implies !(#[trigger] after.namespace[j]).eq_spec(
                &item,
            ) by {
                if self.namespace[j].eq_spec(&item) {
                    self.lemma_match_is_known(item, j);
                }
            }
            assert(after.is_address_of(item, a as int));
        }
        after.lemma_address_unique(item, a as int);
    }

    /// Identical pushes collapse into one run: from a pile without runs, `n`
    /// pushes of an admitted item, for `n` from 1 up to the run limit, leave
    /// exactly one run, of the value that stands for the item, with count
    /// `n`.
    pub proof fn lemma_identical_pushes(self, item: T, n: nat)
        requires
            self.wf(),
            self.occurrences.len() == 0,
            self.admits(item),
            item.eq_spec(&item),
            1 <= n <= RUN_LIMIT,
        ensures
            self.push_n(item, n).runs() == seq![(self.stored(item), n as AddrCounter)],
            self.push_n(item, n).wf(),
    {
        self.lemma_identical_pushes_run(item, n);
        let after = self.push_n(item, n);
        assert(after.runs() =~= seq![(self.stored(item), n as AddrCounter)]);
    }

    /// The runs and the namespace after `n` identical pushes, as
    /// `lemma_identical_pushes` needs them for its induction.
    proof fn lemma_identical_pushes_run(self, item: T, n: nat)
        requires
            self.wf(),
            self.occurrences.len() == 0,
            self.admits(item),
            item.eq_spec(&item),
            1 <= n <= RUN_LIMIT,
        ensures
            self.push_n(item, n).wf(),
            self.push_n(item, n).occurrences == seq![
                (self.address_after_push(item), n as AddrCounter),
            ],
            self.push_n(item, n).namespace == self.push(item).namespace,
            self.push_n(item, n).is_address_of(item, self.address_after_push(item) as int),
            self.push_n(item, n).namespace[self.address_after_push(item) as int] == self.stored(
                item,
            ),
        decreases n,
    {
        let a = self.address_after_push(item);
        reveal_with_fuel(PileView::push_n, 2);
        self.lemma_push_admitted(item);
        self.lemma_push_wf(item);
        if n == 1 {
            assert(self.push_n(item, 1) == self.push(item));
            assert(self.push(item).occurrences =~= seq![(a, 1 as AddrCounter)]);
        } else {
            let before = self.push_n(item, (n - 1) as nat);
            self.lemma_identical_pushes_run(item, (n - 1) as nat);
            before.lemma_address_unique(item, a as int);
            before.lemma_push_admitted(item);
            before.lemma_push_wf(item);
            assert(before.push(item).occurrences =~= seq![(a, n as AddrCounter)]);
        }
    }

    /// A repeat that is not consecutive is never merged: from the empty pile,
    /// pushes of `a`, `b` and `a` again, for `b` different from `a`, leave
    /// three runs of one occurrence each, in that order.
    pub proof fn lemma_interleaved_pushes(a: T, b: T)
        requires
            a.eq_spec(&a),
            !a.eq_spec(&b),
        ensures
            Self::empty().push(a).push(b).push(a).runs() == seq![
                (a, 1 as AddrCounter),
                (b, 1 as AddrCounter),
                (a, 1 as AddrCounter),
            ],
    {
        let start = Self::empty();
        let first = start.push(a);
        assert(!start.knows(a));
        assert(first.namespace =~= seq![a]);
        assert(first.occurrences =~= seq![(0 as Addr, 1 as AddrCounter)]);
        let second = first.push(b);
        assert(!first.knows(b));
        assert(second.namespace =~= seq![a, b]);
        assert(second.occurrences =~= seq![(0 as Addr, 1 as AddrCounter), (1 as Addr, 1 as AddrCounter)]);
        let third = second.push(a);
        assert(second.is_address_of(a, 0));
        second.lemma_address_unique(a, 0);
        assert(third.namespace =~= seq![a, b]);
        assert(third.occurrences =~= seq![
            (0 as Addr, 1 as AddrCounter),
            (1 as Addr, 1 as AddrCounter),
            (0 as Addr, 1 as AddrCounter),
        ]);
        assert(third.runs() =~= seq![(a, 1 as AddrCounter), (b, 1 as AddrCounter), (a, 1 as AddrCounter)]);
    }

    /// Once the address space is used up, a push of a value that the pile
    /// has not seen changes nothing, and a push of a value that it has seen
    /// is still recorded under the address the value already has.
    pub proof fn lemma_full_pile(self, item: T)
        requires
            self.wf(),
            self.namespace.len() == ADDRESS_CAPACITY,
        ensures
            !self.knows(item) ==> self.push(item) == self,
            self.knows(item) ==> self.push(item) == self.record(self.address_of(item) as Addr),
            self.push(item).namespace == self.namespace,
    {
    }

    /// A push never takes a value out of the namespace, never moves one, and
    /// never lets the namespace outgrow the address space.
    pub proof fn lemma_push_keeps_namespace(self, item: T)
        requires
            self.wf(),
        ensures
            self.push(item).namespace.len() <= ADDRESS_CAPACITY,
            self.namespace.is_prefix_of(self.push(item).namespace),
            self.push(item).namespace.len() <= self.namespace.len() + 1,
    {
    }

}

/// A memory-efficient store for recurring entries, such as log events.
///
/// The namespace holds at most one value per address. The list of runs has
/// no limit of its own: it grows with every change of value until the next
/// flush.
pub struct Pile<T: PartialEq> {
    namespace: Vec<T>,
    order: Vec<(Addr, AddrCounter)>,
}

impl<T: PartialEq> View for Pile<T> {
    type V = PileView<T>;

    closed spec fn view(&self) -> PileView<T> {
        PileView { namespace: self.namespace@, occurrences: self.order@ }
    }
}

impl<T: PartialEq> Pile<T> {
    /// Every pile is well formed, at all times.
    #[verifier::type_invariant]
    pub open spec fn wf(&self) -> bool {
        self@.wf()
    }

    /// Creates an empty pile.
    pub fn new() -> (pile: Self)
        ensures
            pile@ == PileView::<T>::empty(),
            pile.wf(),
    {
        Self { namespace: Vec::new(), order: Vec::new() }
    }

    /// Looks `item` up in the namespace.
    fn find(&self, item: &T) -> (found: Option<Addr>)
        requires
            T::obeys_eq_spec(),
        ensures
            self.wf(),
            match found {
                Some(a) => self@.is_address_of(*item, a as int),
                None => !self@.knows(*item),
            },
    {
        proof {
            use_type_invariant(self);
        }
        let mut i: usize = 0;
        while i < self.namespace.len()
            invariant
                T::obeys_eq_spec(),
                self.wf(),
                i <= self.namespace.len() <= ADDRESS_CAPACITY,
                forall|j: int| 0 <= j < i ==> !(#[trigger] self.namespace@[j]).eq_spec(item),
            decreases self.namespace.len() - i,
        {
            if self.namespace[i] == *item {
                return Some(i as Addr);
            }
            i = i + 1;
        }
        None
    }

    /// Pushes `item` onto the top of the pile. It never fails: once the
    /// address space is used up, a value that the pile has not seen before
    /// is dropped.
    pub fn push(&mut self, item: T)
        requires
            T::obeys_eq_spec(),
        ensures
            final(self)@ == old(self)@.push(item),
            final(self).wf(),
    {
        let found = self.find(&item);
        proof {
            self@.lemma_push_wf(item);
        }
        // The vectors leave the pile while they change, so that the pile is
        // well formed at every step.
        let mut order: Vec<(Addr, AddrCounter)> = Vec::new();
        core::mem::swap(&mut self.order, &mut order);
        let mut namespace: Vec<T> = Vec::new();
        core::mem::swap(&mut self.namespace, &mut namespace);
        let addr: Option<Addr> = match found {
            Some(a) => Some(a),
            None => {
                if namespace.len() >= ADDRESS_CAPACITY {
                    None
                } else {
                    let a = namespace.len() as Addr;
                    namespace.push(item);
                    Some(a)
                }
            },
        };
        if let Some(addr) = addr {
            let n = order.len();
            if n > 0 && order[n - 1].0 == addr && order[n - 1].1 != RUN_LIMIT {
                let count = order[n - 1].1;
                order.set(n - 1, (addr, count + 1));
            } else {
                order.push((addr, 1));
            }
        }
        self.namespace = namespace;
        self.order = order;
    }

    /// Flushes the pile through `f`: `f` sees each run, oldest first, as the
    /// value and the number of times it occurred in a row. The runs are
    /// gone afterwards; the namespace stays.
    pub fn flush(&mut self, mut f: impl FnMut(&T, AddrCounter))
        requires
            forall|k: int|
                0 <= k < old(self)@.runs().len() ==> call_requires(
                    f,
                    (&(#[trigger] old(self)@.runs()[k]).0, old(self)@.runs()[k].1),
                ),
        ensures
            final(self)@ == old(self)@.flushed(),
            final(self).wf(),
            forall|k: int|
                0 <= k < old(self)@.runs().len() ==> call_ensures(
                    f,
                    (&(#[trigger] old(self)@.runs()[k]).0, old(self)@.runs()[k].1),
                    (),
                ),
    {
        proof {
            use_type_invariant(&*self);
        }
        let ghost runs = self@.runs();
        let ghost visit = f;
        let mut k: usize = 0;
        while k < self.order.len()
            invariant
                f == visit,
                self.wf(),
                *self == *old(self),
                runs == self@.runs(),
                k <= self.order.len(),
                forall|j: int|
                    0 <= j < runs.len() ==> call_requires(f, (&(#[trigger] runs[j]).0, runs[j].1)),
                forall|j: int|
                    0 <= j < k ==> call_ensures(f, (&(#[trigger] runs[j]).0, runs[j].1), ()),
            decreases self.order.len() - k,
        {
            let (addr, count) = self.order[k];
            assert(runs[k as int] == (self.namespace@[addr as int], count));
            f(&self.namespace[addr as usize], count);
            k = k + 1;
        }
        self.order = Vec::new();
    }

    /// Flushes the pile into `out`: each run, oldest first, is appended as a
    /// reference to its value and the number of times it occurred in a row.
    pub fn flush_into<'a>(&'a mut self, out: &mut Vec<(&'a T, AddrCounter)>)
        ensures
            final(self)@ == old(self)@.flushed(),
            final(self).wf(),
            final(out)@ == old(out)@ + old(self)@.runs().map_values(
                |run: (T, AddrCounter)| (&run.0, run.1),
            ),
    {
        proof {
            use_type_invariant(&*self);
        }
        let ghost runs = self@.runs().map_values(|run: (T, AddrCounter)| (&run.0, run.1));
        let mut k: usize = 0;
        while k < self.order.len()
            invariant
                self.wf(),
                *self == *old(self),
                runs == self@.runs().map_values(|run: (T, AddrCounter)| (&run.0, run.1)),
                k <= self.order.len(),
                out@ == old(out)@ + runs.take(k as int),
            decreases self.order.len() - k,
        {
            let (addr, count) = self.order[k];
            assert(runs.take(k + 1) == runs.take(k as int).push(runs[k as int]));
            out.push((&self.namespace[addr as usize], count));
            k = k + 1;
        }
        assert(runs.take(k as int) == runs);
        self.order = Vec::new();
    }

    /// Flushes the pile through `f`, one call per occurrence: `f` sees the
    /// value of each run as often as the run counts, oldest run first.
    pub fn flush_each(&mut self, mut f: impl FnMut(&T))
        requires
            forall|k: int|
                0 <= k < old(self)@.runs().len() ==> call_requires(
                    f,
                    (&(#[trigger] old(self)@.runs()[k]).0,),
                ),
        ensures
            final(self)@ == old(self)@.flushed(),
            final(self).wf(),
            forall|k: int|
                0 <= k < old(self)@.runs().len() ==> call_ensures(
                    f,
                    (&(#[trigger] old(self)@.runs()[k]).0,),
                    (),
                ),
    {
        proof {
            use_type_invariant(&*self);
        }
        let ghost runs = self@.runs();
        let ghost visit = f;
        let mut k: usize = 0;
        while k < self.order.len()
            invariant
                f == visit,
                self.wf(),
                *self == *old(self),
                runs == self@.runs(),
                k <= self.order.len(),
                forall|j: int| 0 <= j < runs.len() ==> call_requires(f, (&(#[trigger] runs[j]).0,)),
                forall|j: int| 0 <= j < k ==> call_ensures(f, (&(#[trigger] runs[j]).0,), ()),
            decreases self.order.len() - k,
        {
            let (addr, count) = self.order[k];
            assert(runs[k as int] == (self.namespace@[addr as int], count));
            let mut seen: AddrCounter = 0;
            while seen < count
                invariant
                    f == visit,
                    self.wf(),
                    k < self.order.len(),
                    self.order@[k as int] == (addr, count),
                    seen <= count,
                    runs == self@.runs(),
                    call_requires(f, (&runs[k as int].0,)),
                    seen >= 1 ==> call_ensures(f, (&runs[k as int].0,), ()),
                decreases count - seen,
            {
                f(&self.namespace[addr as usize]);
                seen = seen + 1;
            }
            k = k + 1;
        }
        self.order = Vec::new();
    }
}

impl<T: PartialEq> Default for Pile<T> {
    fn default() -> (pile: Self)
        ensures
            pile@ == PileView::<T>::empty(),
            pile.wf(),
    {
        Self::new()
    }
}

} // verus!
