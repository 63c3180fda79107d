//! Bounded histories of samples, one series per key, for trend displays.

use crate::table::NameTable;
use std::collections::VecDeque;
use vstd::prelude::*;

verus! {

/// The newest `capacity` of `samples`, in their order; all of them where
/// there are no more than that.
pub open spec fn newest(samples: Seq<u64>, capacity: nat) -> Seq<u64> {
    if samples.len() <= capacity {
        samples
    } else {
        samples.subrange(samples.len() - capacity, samples.len() as int)
    }
}

/// What a history holds: its capacity, and for each key that was seen the
/// samples kept for it, oldest first.
pub struct HistoryView {
    pub capacity: nat,
    pub series: Map<Seq<char>, Seq<u64>>,
}

impl HistoryView {
    /// The samples kept for `key`; none for a key that was never seen.
    pub open spec fn series_of(self, key: Seq<char>) -> Seq<u64> {
        if self.series.contains_key(key) {
            self.series[key]
        } else {
            Seq::empty()
        }
    }

    /// The history after one more sample for `key`: the sample is appended
    /// and, where the series would outgrow the capacity, the oldest leaves.
    pub open spec fn push(self, key: Seq<char>, value: u64) -> HistoryView {
        HistoryView {
            capacity: self.capacity,
            series: self.series.insert(key, newest(self.series_of(key).push(value), self.capacity)),
        }
    }

    /// The history after the samples `values` for `key`, pushed in order.
    pub open spec fn push_all(self, key: Seq<char>, values: Seq<u64>) -> HistoryView
        decreases values.len(),
    {
        if values.len() == 0 {
            self
        } else {
            self.push_all(key, values.drop_last()).push(key, values.last())
        }
    }

    /// No series is longer than the capacity.
    pub open spec fn bounded(self) -> bool {
        forall|key: Seq<char>| #[trigger]
            self.series.contains_key(key) ==> self.series[key].len() <= self.capacity
    }
}

/// Keeping the newest of a series that was itself cut to the capacity and
/// then extended by one sample gives the newest of the whole.
pub proof fn lemma_newest_push(samples: Seq<u64>, value: u64, capacity: nat)
    ensures
        newest(newest(samples, capacity).push(value), capacity) == newest(
            samples.push(value),
            capacity,
        ),
{
    assert(newest(newest(samples, capacity).push(value), capacity) =~= newest(
        samples.push(value),
        capacity,
    ));
}

/// After any run of pushes to one key its series is the newest `capacity`
/// samples of what it held before followed by what was pushed, in order.
pub proof fn lemma_push_all(history: HistoryView, key: Seq<char>, values: Seq<u64>)
    requires
        history.bounded(),
    ensures
        history.push_all(key, values).capacity == history.capacity,
        history.push_all(key, values).bounded(),
        values.len() > 0 ==> history.push_all(key, values).series.contains_key(key),
        history.push_all(key, values).series_of(key) == newest(
            history.series_of(key) + values,
            history.capacity,
        ),
        forall|other: Seq<char>|
            other != key ==> history.push_all(key, values).series_of(other) == history.series_of(
                other,
            ),
    decreases values.len(),
{
    if values.len() == 0 {
        assert(history.series_of(key) + values =~= history.series_of(key));
    } else {
        let front = values.drop_last();
        lemma_push_all(history, key, front);
        lemma_newest_push(history.series_of(key) + front, values.last(), history.capacity);
        assert((history.series_of(key) + front).push(values.last()) =~= history.series_of(key)
            + values);
    }
}

/// A series that receives more samples than the capacity holds exactly
/// `capacity` samples afterwards: the last `capacity` that were pushed, in
/// the order in which they came.
pub proof fn lemma_overfull_series_keeps_last(
    history: HistoryView,
    key: Seq<char>,
    values: Seq<u64>,
)
    requires
        history.bounded(),
        values.len() > history.capacity,
    ensures
        history.push_all(key, values).series_of(key).len() == history.capacity,
        history.push_all(key, values).series_of(key) == values.subrange(
            values.len() - history.capacity,
            values.len() as int,
        ),
{
    lemma_push_all(history, key, values);
    let all = history.series_of(key) + values;
    assert(newest(all, history.capacity) =~= values.subrange(
        values.len() - history.capacity,
        values.len() as int,
    ));
}

/// A push keeps every series within the capacity, and puts the series that
/// it extends within the capacity whatever it held.
pub proof fn lemma_push_keeps_bounded(history: HistoryView, key: Seq<char>, value: u64)
    ensures
        history.push(key, value).series_of(key).len() <= history.capacity,
        history.bounded() ==> history.push(key, value).bounded(),
{
    if history.bounded() {
        assert forall|other: Seq<char>| #[trigger]
            history.push(key, value).series.contains_key(other) implies history.push(
            key,
            value,
        ).series[other].len() <= history.capacity by {
            if other != key {
                assert(history.series.contains_key(other));
            }
        }
    }
}

/// Recent samples by key. Each series holds at most `capacity` samples; the
/// oldest leaves when a new one would not fit.
pub struct HistoryBuffer {
    capacity: usize,
    series: NameTable<VecDeque<u64>>,
}

impl View for HistoryBuffer {
    type V = HistoryView;

    closed spec fn view(&self) -> HistoryView {
        HistoryView {
            capacity: self.capacity as nat,
            series: Map::new(
                |key: Seq<char>| self.series@.contains_key(key),
                |key: Seq<char>| self.series@[key]@,
            ),
        }
    }
}

/// Makes room in `samples` for one more within `capacity`, and appends
/// `value` if there is any room at all.
fn push_within(samples: &mut VecDeque<u64>, value: u64, capacity: usize)
    ensures
        final(samples)@ == newest(old(samples)@.push(value), capacity as nat),
{
    if capacity == 0 {
        samples.clear();
        assert(samples@ =~= newest(old(samples)@.push(value), 0));
    } else {
        let ghost mut dropped: int = 0;
        assert(samples@ =~= old(samples)@.skip(0));
        while samples.len() >= capacity
            invariant
                capacity > 0,
                0 <= dropped <= old(samples)@.len(),
                samples@ == old(samples)@.skip(dropped),
                dropped > 0 ==> samples@.len() >= capacity - 1,
            decreases samples@.len(),
        {
            let _ = samples.pop_front();
            proof {
                assert(samples@ =~= old(samples)@.skip(dropped + 1));
                dropped = dropped + 1;
            }
        }
        samples.push_back(value);
        assert(samples@ =~= newest(old(samples)@.push(value), capacity as nat));
    }
}

impl HistoryBuffer {
    /// A history without series, each of which will hold up to `capacity`
    /// samples.
    pub fn new(capacity: usize) -> (history: Self)
        ensures
            history@.capacity == capacity,
            history@.series == Map::<Seq<char>, Seq<u64>>::empty(),
            history@.bounded(),
    {
        let history = HistoryBuffer { capacity, series: NameTable::new() };
        assert(history@.series =~= Map::<Seq<char>, Seq<u64>>::empty());
        history
    }

    /// The number of samples a series can hold.
    pub fn capacity(&self) -> (capacity: usize)
        ensures
            capacity == self@.capacity,
    {
        self.capacity
    }

    /// Appends `value` to the series of `key`, which is created if the key
    /// was never seen, and drops the oldest sample of a full series.
    pub fn push(&mut self, key: &String, value: u64)
        ensures
            final(self)@ == old(self)@.push(key@, value),
            final(self)@.series_of(key@).len() <= final(self)@.capacity,
            old(self)@.bounded() ==> final(self)@.bounded(),
    {
        let ghost before = *self;
        let mut samples: VecDeque<u64> = match self.series.find(key) {
            Some(i) => self.series.replace(i, VecDeque::new()),
            None => VecDeque::new(),
        };
        assert(samples@ == before@.series_of(key@));
        push_within(&mut samples, value, self.capacity);
        self.series.insert(key, samples);
        proof {
            assert(self.series@ =~= before.series@.insert(key@, samples));
            assert(self@.series =~= before@.push(key@, value).series);
            lemma_push_keeps_bounded(before@, key@, value);
        }
    }

    /// The samples kept for `key`, oldest first; none for a key that was
    /// never seen.
    pub fn series(&self, key: &String) -> (samples: Vec<u64>)
        ensures
            samples@ == self@.series_of(key@),
    {
        let mut samples: Vec<u64> = Vec::new();
        match self.series.get(key) {
            Some(kept) => {
                let n: usize = kept.len();
                let mut i: usize = 0;
                while i < n
                    invariant
                        n == kept@.len(),
                        i <= n,
                        samples@ == kept@.take(i as int),
                    decreases n - i,
                {
                    samples.push(kept[i]);
                    assert(kept@.take(i + 1) =~= kept@.take(i as int).push(kept@[i as int]));
                    i = i + 1;
                }
                assert(samples@ =~= kept@);
            },
            None => {},
        }
        samples
    }

    /// The number of samples kept for `key`.
    pub fn len(&self, key: &String) -> (n: usize)
        ensures
            n == self@.series_of(key@).len(),
            self@.bounded() ==> n <= self@.capacity,
    {
        match self.series.get(key) {
            Some(kept) => {
                assert(self@.series.contains_key(key@));
                kept.len()
            },
            None => 0,
        }
    }
}

} // verus!
