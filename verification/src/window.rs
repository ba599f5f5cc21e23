//! Bounded chronological history of one metric series.

use std::collections::VecDeque;
use vstd::prelude::*;

verus! {

/// History length of a plain graph: one minute at two samples per second.
pub const MAX_POINTS: usize = 120;

/// History length of a compact sparkline.
pub const SPARKLINE_MAX_POINTS: usize = 60;

/// History length of a detailed chart.
pub const DETAILED_MAX_POINTS: usize = 240;

/// The newest `n` elements of `s`, oldest first (all of `s` if it has fewer).
pub open spec fn last_n<T>(s: Seq<T>, n: nat) -> Seq<T> {
    if s.len() <= n {
        s
    } else {
        s.subrange(s.len() - n, s.len() as int)
    }
}

/// The contents of a window of at most `max` points after `values` were
/// added one by one, oldest first, to the contents `points`.
pub open spec fn add_all<T>(points: Seq<T>, max: nat, values: Seq<T>) -> Seq<T>
    decreases values.len(),
{
    if values.len() == 0 {
        points
    } else {
        last_n(add_all(points, max, values.drop_last()).push(values.last()), max)
    }
}

/// Whether `after` is the window `before` with `value` added: the same
/// capacity, and the newest samples of the old contents followed by `value`.
pub open spec fn advanced<T>(before: SlidingWindow<T>, after: SlidingWindow<T>, value: T) -> bool {
    &&& after.wf()
    &&& after.capacity() == before.capacity()
    &&& after@ == last_n(before@.push(value), before.capacity())
}

/// A fixed-capacity history of samples in insertion order. When it is full,
/// the oldest sample leaves before the newest is appended. The samples are
/// stored as given: scaling into a display range is the caller's business.
pub struct SlidingWindow<T> {
    data: VecDeque<T>,
    max_points: usize,
}

impl<T> View for SlidingWindow<T> {
    type V = Seq<T>;

    closed spec fn view(&self) -> Seq<T> {
        self.data@
    }
}

impl<T> SlidingWindow<T> {
    /// The invariant of a window: it never holds more than its capacity.
    pub closed spec fn wf(&self) -> bool {
        self.data@.len() <= self.max_points
    }

    /// The configured maximum length.
    pub closed spec fn capacity(&self) -> nat {
        self.max_points as nat
    }

    /// An empty window that will hold at most `max_points` samples.
    pub fn new(max_points: usize) -> (w: Self)
        ensures
            w.wf(),
            w@ == Seq::<T>::empty(),
            w.capacity() == max_points,
    {
        SlidingWindow { data: VecDeque::new(), max_points }
    }

    /// The configured maximum length.
    pub fn max_points(&self) -> (m: usize)
        ensures
            m == self.capacity(),
    {
        self.max_points
    }

    /// Number of samples currently held.
    pub fn len(&self) -> (n: usize)
        requires
            self.wf(),
        ensures
            n == self@.len(),
            n <= self.capacity(),
    {
        self.data.len()
    }

    /// Whether no sample is held.
    pub fn is_empty(&self) -> (b: bool)
        ensures
            b == (self@.len() == 0),
    {
        self.data.len() == 0
    }

    /// The sample at position `i`, position 0 being the oldest.
    pub fn get(&self, i: usize) -> (p: Option<&T>)
        ensures
            i < self@.len() ==> p == Some(&self@[i as int]),
            i >= self@.len() ==> p is None,
    {
        if i < self.data.len() {
            Some(&self.data[i])
        } else {
            None
        }
    }

    /// The samples, oldest first, for walking them in drawing order.
    pub fn points(&self) -> (d: &VecDeque<T>)
        ensures
            d@ == self@,
    {
        &self.data
    }

    /// Appends `value` as the newest sample; a full window first drops its
    /// oldest one. The window then holds the newest `capacity()` of the old
    /// samples followed by `value`.
    pub fn add_point(&mut self, value: T)
        requires
            old(self).wf(),
        ensures
            advanced(*old(self), *final(self), value),
    {
        if self.max_points == 0 {
            assert(self.data@ =~= last_n(old(self)@.push(value), 0));
            return ;
        }
        if self.data.len() >= self.max_points {
            self.data.pop_front();
        }
        self.data.push_back(value);
        assert(self.data@ =~= last_n(old(self)@.push(value), old(self).capacity()));
    }

    /// Drops every sample; the capacity stays.
    pub fn clear(&mut self)
        ensures
            final(self).wf(),
            final(self).capacity() == old(self).capacity(),
            final(self)@ == Seq::<T>::empty(),
    {
        self.data.clear();
    }
}

/// Two histories that advance together, for a chart with two lines.
pub struct DualWindow<T> {
    first: SlidingWindow<T>,
    second: SlidingWindow<T>,
}

impl<T> DualWindow<T> {
    /// The invariant: both series are within their capacity.
    pub closed spec fn wf(&self) -> bool {
        self.first.wf() && self.second.wf()
    }

    /// The first series.
    pub closed spec fn first_series(&self) -> SlidingWindow<T> {
        self.first
    }

    /// The second series.
    pub closed spec fn second_series(&self) -> SlidingWindow<T> {
        self.second
    }

    /// Two empty series of at most `max_points` samples each.
    pub fn new(max_points: usize) -> (d: Self)
        ensures
            d.wf(),
            d.first_series()@ == Seq::<T>::empty(),
            d.second_series()@ == Seq::<T>::empty(),
            d.first_series().capacity() == max_points,
            d.second_series().capacity() == max_points,
    {
        DualWindow { first: SlidingWindow::new(max_points), second: SlidingWindow::new(max_points) }
    }

    /// The first series, for reading.
    pub fn first(&self) -> (w: &SlidingWindow<T>)
        ensures
            *w == self.first_series(),
    {
        &self.first
    }

    /// The second series, for reading.
    pub fn second(&self) -> (w: &SlidingWindow<T>)
        ensures
            *w == self.second_series(),
    {
        &self.second
    }

    /// Appends one sample to each series, as `SlidingWindow::add_point` does.
    pub fn add_points(&mut self, value1: T, value2: T)
        requires
            old(self).wf(),
        ensures
            final(self).wf(),
            advanced(old(self).first_series(), final(self).first_series(), value1),
            advanced(old(self).second_series(), final(self).second_series(), value2),
    {
        self.first.add_point(value1);
        self.second.add_point(value2);
    }
}

/// Taking the newest `n` of a sequence and then appending `b` keeps the same
/// newest `n` as appending `b` to the whole sequence.
proof fn lemma_last_n_absorbs<T>(a: Seq<T>, b: Seq<T>, n: nat)
    ensures
        last_n(last_n(a, n) + b, n) == last_n(a + b, n),
{
    assert(last_n(last_n(a, n) + b, n) =~= last_n(a + b, n));
}

/// Capacity law of the window: however many samples are added one by one,
/// the window ends up holding exactly the newest `max` of everything it was
/// given, in insertion order, and so `min(total, max)` samples.
pub proof fn lemma_add_all_keeps_newest<T>(points: Seq<T>, max: nat, values: Seq<T>)
    requires
        points.len() <= max,
    ensures
        add_all(points, max, values) == last_n(points + values, max),
        add_all(points, max, values).len() == if points.len() + values.len() <= max {
            points.len() + values.len()
        } else {
            max
        },
    decreases values.len(),
{
    if values.len() == 0 {
        assert(points + values =~= points);
    } else {
        let earlier = values.drop_last();
        let newest = seq![values.last()];
        lemma_add_all_keeps_newest(points, max, earlier);
        lemma_last_n_absorbs(points + earlier, newest, max);
        assert(add_all(points, max, earlier).push(values.last()) =~= add_all(points, max, earlier)
            + newest);
        assert((points + earlier) + newest =~= points + values);
    }
}

/// The same law for a window that starts empty: after `values` were added,
/// it holds the newest `max` of them.
pub proof fn lemma_fresh_window_keeps_newest<T>(max: nat, values: Seq<T>)
    ensures
        add_all(Seq::<T>::empty(), max, values) == last_n(values, max),
        values.len() > max ==> add_all(Seq::<T>::empty(), max, values).len() == max,
        values.len() <= max ==> add_all(Seq::<T>::empty(), max, values) == values,
{
    lemma_add_all_keeps_newest(Seq::<T>::empty(), max, values);
    assert(Seq::<T>::empty() + values =~= values);
}

} // verus!
