//! Labelled gauge families: the per-satellite series, keyed by satellite,
//! and the information series, whose value is always 1 and whose label
//! values are the information itself.

use vstd::prelude::*;
use crate::gauges::Reading;
use crate::labels::SatKey;

verus! {

/// One series of a satellite family: its key and value.
#[derive(Clone, Copy, Debug)]
pub struct Series {
    pub key: SatKey,
    pub value: Reading,
}

/// The map that a list of writes leaves: a later write to a key replaces an earlier one.
pub open spec fn series_map(s: Seq<Series>) -> Map<SatKey, Reading>
    decreases s.len(),
{
    if s.len() == 0 {
        Map::empty()
    } else {
        series_map(s.drop_last()).insert(s.last().key, s.last().value)
    }
}

/// A family of gauges labelled by satellite, seen as a map from key to value.
pub struct SeriesVec {
    writes: Vec<Series>,
}

impl View for SeriesVec {
    type V = Map<SatKey, Reading>;

    closed spec fn view(&self) -> Map<SatKey, Reading> {
        series_map(self.writes@)
    }
}

impl SeriesVec {
    /// A family with no series.
    pub fn new() -> (v: SeriesVec)
        ensures
            v@ == Map::<SatKey, Reading>::empty(),
    {
        SeriesVec { writes: Vec::new() }
    }

    /// Sets the series of `key` to `value`, creating it when it is new.
    pub fn set(&mut self, key: SatKey, value: Reading)
        ensures
            final(self)@ == old(self)@.insert(key, value),
    {
        let ghost before = self.writes@;
        self.writes.push(Series { key, value });
        assert(self.writes@.drop_last() =~= before);
    }

    /// Removes every series.
    pub fn reset(&mut self)
        ensures
            final(self)@ == Map::<SatKey, Reading>::empty(),
    {
        self.writes.clear();
    }

    /// The writes that made the family, oldest first; replaying them in
    /// order rebuilds it.
    pub fn writes(&self) -> (w: &Vec<Series>)
        ensures
            series_map(w@) == self@,
    {
        &self.writes
    }
}

/// A family of information gauges: the set of label-value rows it exports,
/// each with the value 1.
pub struct InfoSeries {
    rows: Vec<Vec<String>>,
}

impl View for InfoSeries {
    type V = Set<Seq<Seq<char>>>;

    closed spec fn view(&self) -> Set<Seq<Seq<char>>> {
        Set::new(|r: Seq<Seq<char>>| self.rows.deep_view().contains(r))
    }
}

/// Whether two label rows hold the same texts in the same order.
fn rows_equal(a: &Vec<String>, b: &Vec<String>) -> (eq: bool)
    ensures
        eq == (a.deep_view() == b.deep_view()),
{
    if a.len() != b.len() {
        assert(a.deep_view().len() != b.deep_view().len());
        return false;
    }
    let mut i: usize = 0;
    while i < a.len()
        invariant
            a.len() == b.len(),
            i <= a.len(),
            forall|k: int| 0 <= k < i ==> a@[k]@ == b@[k]@,
        decreases a.len() - i,
    {
        if a[i] != b[i] {
            assert(a.deep_view()[i as int] != b.deep_view()[i as int]);
            return false;
        }
        i = i + 1;
    }
    assert(a.deep_view() =~= b.deep_view());
    true
}

impl InfoSeries {
    /// A family with no rows.
    pub fn new() -> (v: InfoSeries)
        ensures
            v@ == Set::<Seq<Seq<char>>>::empty(),
    {
        let v = InfoSeries { rows: Vec::new() };
        assert(v@ =~= Set::<Seq<Seq<char>>>::empty());
        v
    }

    /// Whether the family exports `row`.
    pub fn contains(&self, row: &Vec<String>) -> (found: bool)
        ensures
            found == self@.contains(row.deep_view()),
    {
        let mut i: usize = 0;
        while i < self.rows.len()
            invariant
                i <= self.rows.len(),
                forall|k: int| 0 <= k < i ==> self.rows.deep_view()[k] != row.deep_view(),
            decreases self.rows.len() - i,
        {
            if rows_equal(&self.rows[i], row) {
                assert(self.rows.deep_view()[i as int] == row.deep_view());
                return true;
            }
            i = i + 1;
        }
        assert(!self.rows.deep_view().contains(row.deep_view()));
        false
    }

    /// Exports `row` with the value 1; a row that is there already stays once.
    pub fn insert(&mut self, row: Vec<String>)
        ensures
            final(self)@ == old(self)@.insert(row.deep_view()),
    {
        if !self.contains(&row) {
            let ghost before = self.rows.deep_view();
            let ghost r = row.deep_view();
            self.rows.push(row);
            assert(self.rows.deep_view() =~= before.push(r));
            assert forall|x: Seq<Seq<char>>| #[trigger] self@.contains(x) == old(self)@.insert(r).contains(x) by {
                if before.contains(x) {
                    let k = choose|k: int| 0 <= k < before.len() && before[k] == x;
                    assert(self.rows.deep_view()[k] == x);
                }
                if x == r {
                    assert(self.rows.deep_view()[before.len() as int] == x);
                }
            }
            assert(self@ =~= old(self)@.insert(r));
        } else {
            assert(old(self)@.insert(row.deep_view()) =~= old(self)@);
        }
    }

    /// The exported rows, each once.
    pub fn rows(&self) -> (rows: &Vec<Vec<String>>)
        ensures
            forall|r: Seq<Seq<char>>| self@.contains(r) <==> rows.deep_view().contains(r),
    {
        &self.rows
    }
}

} // verus!
