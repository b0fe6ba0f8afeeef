//! Capped time series: a bounded history that drops its oldest sample once
//! full, feeding the dashboard charts.

use vstd::prelude::*;

verus! {

/// Capped series of samples, oldest first.
pub struct Series<T> {
    /// Stored samples in push order.
    points: Vec<T>,
    /// Capacity; once reached, each push evicts the oldest sample.
    cap: usize,
}

/// The samples after pushing `p` onto `s` with capacity `cap`: when the
/// series is full (and the capacity is positive) the oldest sample is dropped.
pub open spec fn push_spec<T>(s: Seq<T>, cap: nat, p: T) -> Seq<T> {
    if s.len() == cap && cap > 0 {
        s.drop_first().push(p)
    } else {
        s.push(p)
    }
}

/// The samples after pushing every item of `xs`, in order, onto `s`.
pub open spec fn push_all<T>(s: Seq<T>, cap: nat, xs: Seq<T>) -> Seq<T>
    decreases xs.len(),
{
    if xs.len() == 0 {
        s
    } else {
        push_spec(push_all(s, cap, xs.drop_last()), cap, xs.last())
    }
}

impl<T> View for Series<T> {
    type V = Seq<T>;

    closed spec fn view(&self) -> Seq<T> {
        self.points@
    }
}

impl<T> Series<T> {
    /// Default capacity: 600 points = 10 min at the 1 Hz feed.
    pub const DEFAULT_CAP: usize = 600;

    /// The series' capacity.
    pub closed spec fn capacity(&self) -> nat {
        self.cap as nat
    }

    /// Create a new empty series with the given capacity.
    pub fn new(cap: usize) -> (s: Self)
        ensures
            s@ == Seq::<T>::empty(),
            s.capacity() == cap,
    {
        Series { points: Vec::new(), cap }
    }

    /// Append a sample, dropping the oldest once `cap` is reached.
    pub fn push(&mut self, p: T)
        ensures
            final(self)@ == push_spec(old(self)@, old(self).capacity(), p),
            final(self).capacity() == old(self).capacity(),
    {
        if self.points.len() == self.cap && self.cap > 0 {
            self.points.remove(0);
        }
        self.points.push(p);
    }

    /// All stored samples, oldest first.
    pub fn points(&self) -> (r: &[T])
        ensures
            r@ == self@,
    {
        self.points.as_slice()
    }

    /// Number of stored samples.
    pub fn len(&self) -> (n: usize)
        ensures
            n == self@.len(),
    {
        self.points.len()
    }

    /// Returns `true` if no samples are stored.
    pub fn is_empty(&self) -> (b: bool)
        ensures
            b == (self@.len() == 0),
    {
        self.points.len() == 0
    }

    /// The oldest stored sample, if any.
    pub fn first(&self) -> (r: Option<&T>)
        ensures
            self@.len() == 0 ==> r is None,
            self@.len() > 0 ==> r == Some(&self@[0]),
    {
        if self.points.len() == 0 {
            None
        } else {
            Some(&self.points[0])
        }
    }

    /// The newest stored sample, if any.
    pub fn last(&self) -> (r: Option<&T>)
        ensures
            self@.len() == 0 ==> r is None,
            self@.len() > 0 ==> r == Some(&self@[self@.len() - 1]),
    {
        let n = self.points.len();
        if n == 0 {
            None
        } else {
            Some(&self.points[n - 1])
        }
    }
}

/// A push never grows a series beyond a positive capacity, and the pushed
/// sample becomes the newest one.
pub proof fn lemma_push_bounded<T>(s: Seq<T>, cap: nat, p: T)
    requires
        cap > 0,
        s.len() <= cap,
    ensures
        push_spec(s, cap, p).len() <= cap,
        push_spec(s, cap, p).last() == p,
{
}

/// Pushing any samples into an empty series with a positive capacity keeps
/// exactly the newest `min(n, cap)` of them, in push order.
pub proof fn lemma_push_all_keeps_newest<T>(cap: nat, xs: Seq<T>)
    requires
        cap > 0,
    ensures
        push_all(Seq::<T>::empty(), cap, xs) == xs.subrange(
            if xs.len() > cap { xs.len() - cap } else { 0 },
            xs.len() as int,
        ),
    decreases xs.len(),
{
    if xs.len() > 0 {
        let ys = xs.drop_last();
        lemma_push_all_keeps_newest(cap, ys);
        let lo_y: int = if ys.len() > cap { ys.len() - cap } else { 0 };
        let lo_x: int = if xs.len() > cap { xs.len() - cap } else { 0 };
        let prev = push_all(Seq::<T>::empty(), cap, ys);
        assert(prev == ys.subrange(lo_y, ys.len() as int));
        if prev.len() == cap {
            assert(prev.drop_first().push(xs.last()) =~= xs.subrange(lo_x, xs.len() as int));
        } else {
            assert(prev.push(xs.last()) =~= xs.subrange(lo_x, xs.len() as int));
        }
    }
}

} // verus!
