//! The latency buffer: a fixed-capacity FIFO queue of samples, sized once at
//! creation and never resized. `push` fails (without blocking or panicking)
//! when the buffer is full; `pop` reports emptiness instead of blocking.

use vstd::prelude::*;

verus! {

/// The abstract effect of one `push` on queued contents `s` with capacity
/// `cap`: append when there is room, otherwise leave the queue untouched and
/// report failure.
pub open spec fn spec_push<T>(s: Seq<T>, cap: nat, x: T) -> (Seq<T>, bool) {
    if s.len() < cap {
        (s.push(x), true)
    } else {
        (s, false)
    }
}

/// The abstract effect of one `pop`: remove and return the oldest queued
/// value, or report emptiness and leave the queue untouched.
pub open spec fn spec_pop<T>(s: Seq<T>) -> (Seq<T>, Option<T>) {
    if s.len() == 0 {
        (s, None::<T>)
    } else {
        (s.drop_first(), Some(s[0]))
    }
}

/// The queue contents after pushing every value of `xs` in order, starting
/// from contents `s`, under capacity `cap`.
pub open spec fn spec_push_all<T>(s: Seq<T>, cap: nat, xs: Seq<T>) -> Seq<T>
    decreases xs.len(),
{
    if xs.len() == 0 {
        s
    } else {
        spec_push_all(spec_push(s, cap, xs[0]).0, cap, xs.drop_first())
    }
}

/// The values returned by `n` successive pops from contents `s` (pops past
/// emptiness return nothing and are not recorded).
pub open spec fn spec_pop_values<T>(s: Seq<T>, n: nat) -> Seq<T>
    decreases n,
{
    if n == 0 || s.len() == 0 {
        Seq::<T>::empty()
    } else {
        seq![s[0]] + spec_pop_values(spec_pop(s).0, (n - 1) as nat)
    }
}

/// A fixed-capacity FIFO ring of samples. The capacity is chosen at creation
/// and never changes; `push` and `pop` run in constant time and never
/// allocate, block or panic.
pub struct LatencyBuffer<T> {
    storage: Vec<T>,
    head: usize,
    len: usize,
}

impl<T: Copy> LatencyBuffer<T> {
    /// The fixed capacity of the ring.
    pub closed spec fn capacity(self) -> nat {
        self.storage@.len()
    }

    /// Internal well-formedness: the queued length never exceeds the
    /// capacity, and the head index stays inside the storage.
    pub closed spec fn inv(self) -> bool {
        &&& self.len <= self.storage@.len()
        &&& (self.head < self.storage@.len() || (self.storage@.len() == 0 && self.head == 0))
    }

    /// The storage slot that holds the `i`-th queued value.
    spec fn slot(self, i: int) -> int {
        if self.head + i < self.storage@.len() {
            self.head + i
        } else {
            self.head + i - self.storage@.len()
        }
    }

    /// The queued values, oldest first.
    pub closed spec fn contents(self) -> Seq<T> {
        Seq::new(self.len as nat, |i: int| self.storage@[self.slot(i)])
    }

    /// A well-formed buffer never holds more than its capacity.
    pub proof fn lemma_len_bounded(self)
        requires
            self.inv(),
        ensures
            self.contents().len() <= self.capacity(),
    {
    }

    /// Creates an empty buffer of the given fixed capacity. `fill` is only
    /// used to initialise the backing storage; no value is queued.
    pub fn new(capacity: usize, fill: T) -> (r: Self)
        ensures
            r.inv(),
            r.capacity() == capacity,
            r.contents() == Seq::<T>::empty(),
    {
        let mut storage: Vec<T> = Vec::new();
        let mut i: usize = 0;
        while i < capacity
            invariant
                i <= capacity,
                storage@.len() == i,
            decreases capacity - i,
        {
            storage.push(fill);
            i += 1;
        }
        let r = LatencyBuffer { storage, head: 0usize, len: 0usize };
        proof {
            assert(r.contents() =~= Seq::<T>::empty());
        }
        r
    }

    /// The number of queued values.
    pub fn len(&self) -> (n: usize)
        ensures
            n == self.contents().len(),
    {
        self.len
    }

    /// The fixed capacity.
    pub fn capacity_count(&self) -> (n: usize)
        ensures
            n == self.capacity(),
    {
        self.storage.len()
    }

    /// Attempts to enqueue one value. Returns `false`, changing nothing, when
    /// the buffer is full; never blocks and never panics.
    pub fn push(&mut self, x: T) -> (ok: bool)
        requires
            old(self).inv(),
        ensures
            final(self).inv(),
            final(self).capacity() == old(self).capacity(),
            final(self).contents() == spec_push(old(self).contents(), old(self).capacity(), x).0,
            ok == spec_push(old(self).contents(), old(self).capacity(), x).1,
            !ok ==> *final(self) == *old(self),
    {
        let cap = self.storage.len();
        if self.len == cap {
            return false;
        }
        let pos = if self.head < cap - self.len {
            self.head + self.len
        } else {
            self.head - (cap - self.len)
        };
        self.storage.set(pos, x);
        self.len = self.len + 1;
        proof {
            let prev = *old(self);
            assert(pos == prev.slot(prev.len as int));
            assert forall|i: int| 0 <= i < prev.len implies #[trigger] self.contents()[i]
                == prev.contents()[i] by {
                assert(prev.slot(i) != prev.slot(prev.len as int));
            }
            assert(self.contents() =~= prev.contents().push(x));
        }
        true
    }

    /// Attempts to dequeue the oldest value. Returns `None`, changing
    /// nothing (no internal position advances), when the buffer is empty;
    /// never blocks and never panics.
    pub fn pop(&mut self) -> (r: Option<T>)
        requires
            old(self).inv(),
        ensures
            final(self).inv(),
            final(self).capacity() == old(self).capacity(),
            final(self).contents() == spec_pop(old(self).contents()).0,
            r == spec_pop(old(self).contents()).1,
            r is None ==> *final(self) == *old(self),
    {
        if self.len == 0 {
            return None;
        }
        let v = self.storage[self.head];
        let cap = self.storage.len();
        self.head = if self.head + 1 < cap {
            self.head + 1
        } else {
            0
        };
        self.len = self.len - 1;
        proof {
            let prev = *old(self);
            assert(v == prev.contents()[0]);
            assert forall|i: int| 0 <= i < self.len implies self.contents()[i]
                == prev.contents()[i + 1] by {
                assert(self.slot(i) == prev.slot(i + 1));
            }
            assert(self.contents() =~= prev.contents().drop_first());
        }
        Some(v)
    }

    /// Primes the buffer with `count` copies of the silence value `zero`,
    /// establishing a standing latency window before streaming starts.
    pub fn prime(&mut self, count: usize, zero: T)
        requires
            old(self).inv(),
            old(self).contents().len() + count <= old(self).capacity(),
        ensures
            final(self).inv(),
            final(self).capacity() == old(self).capacity(),
            final(self).contents() == old(self).contents() + Seq::new(
                count as nat,
                |i: int| zero,
            ),
    {
        let mut i: usize = 0;
        while i < count
            invariant
                i <= count,
                self.inv(),
                self.capacity() == old(self).capacity(),
                old(self).contents().len() + count <= old(self).capacity(),
                self.contents() == old(self).contents() + Seq::new(i as nat, |j: int| zero),
            decreases count - i,
        {
            let ok = self.push(zero);
            proof {
                assert(ok);
                assert(self.contents() =~= old(self).contents() + Seq::new(
                    (i + 1) as nat,
                    |j: int| zero,
                ));
            }
            i += 1;
        }
    }
}

/// Pushing at most `cap` values into contents with room for them appends
/// them in order.
pub proof fn lemma_push_all_appends<T>(s: Seq<T>, cap: nat, xs: Seq<T>)
    requires
        s.len() + xs.len() <= cap,
    ensures
        spec_push_all(s, cap, xs) == s + xs,
    decreases xs.len(),
{
    if xs.len() == 0 {
        assert(spec_push_all(s, cap, xs) =~= s + xs);
    } else {
        lemma_push_all_appends(s.push(xs[0]), cap, xs.drop_first());
        assert(s.push(xs[0]) + xs.drop_first() =~= s + xs);
    }
}

/// Popping `n` times from contents of at least `n` values returns exactly
/// the first `n` of them, in order.
pub proof fn lemma_pop_values_prefix<T>(s: Seq<T>, n: nat)
    requires
        n <= s.len(),
    ensures
        spec_pop_values(s, n) == s.take(n as int),
    decreases n,
{
    if n == 0 {
        assert(spec_pop_values(s, n) =~= s.take(0));
    } else {
        lemma_pop_values_prefix(s.drop_first(), (n - 1) as nat);
        assert(seq![s[0]] + s.drop_first().take(n - 1) =~= s.take(n as int));
    }
}

/// FIFO round trip: any sequence of pushes that does not exceed the capacity
/// of an empty buffer is accepted in full, and popping the same count yields
/// exactly the pushed values in FIFO order.
pub proof fn lemma_fifo_round_trip<T>(xs: Seq<T>, cap: nat)
    requires
        xs.len() <= cap,
    ensures
        spec_push_all(Seq::<T>::empty(), cap, xs) == xs,
        spec_pop_values(spec_push_all(Seq::<T>::empty(), cap, xs), xs.len()) == xs,
{
    lemma_push_all_appends(Seq::<T>::empty(), cap, xs);
    assert(Seq::<T>::empty() + xs =~= xs);
    lemma_pop_values_prefix(xs, xs.len());
    assert(xs.take(xs.len() as int) =~= xs);
}

/// Priming an empty buffer with `n` zero-valued samples and immediately
/// popping `n` values yields nothing but zeros.
pub proof fn lemma_priming_silence<T>(zero: T, n: nat, cap: nat)
    requires
        n <= cap,
    ensures
        spec_pop_values(spec_push_all(Seq::<T>::empty(), cap, Seq::new(n, |i: int| zero)), n)
            == Seq::new(n, |i: int| zero),
{
    lemma_fifo_round_trip(Seq::new(n, |i: int| zero), cap);
}

/// A push on a full buffer reports failure and corrupts nothing: the queued
/// contents are unchanged, so every later pop still sees the prior FIFO
/// order.
pub proof fn lemma_push_full_preserves<T>(s: Seq<T>, cap: nat, x: T, n: nat)
    requires
        s.len() == cap,
    ensures
        !spec_push(s, cap, x).1,
        spec_push(s, cap, x).0 == s,
        spec_pop_values(spec_push(s, cap, x).0, n) == spec_pop_values(s, n),
{
}

} // verus!
