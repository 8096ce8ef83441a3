//! Named channels: a small map from electrode names to per-electrode data.
//!
//! An impedance sample maps each electrode to a reading in kilo-ohms; a signal
//! window maps each electrode to its samples in chronological order. Both are
//! one `ChannelMap`, an insertion-ordered list of named entries in which no
//! name occurs twice.

use vstd::prelude::*;
use crate::text::same_text;

verus! {

/// The four electrodes of the headband, in the order the classifier expects.
pub open spec fn electrode_names() -> Seq<Seq<char>> {
    seq!["T3"@, "T4"@, "O1"@, "O2"@]
}

/// The names of the four electrodes differ from one another.
pub proof fn lemma_electrode_names_differ()
    ensures
        forall|a: int, b: int|
            0 <= a < 4 && 0 <= b < 4 && a != b ==> #[trigger] electrode_names()[a]
                != #[trigger] electrode_names()[b],
{
    reveal_strlit("T3");
    reveal_strlit("T4");
    reveal_strlit("O1");
    reveal_strlit("O2");
    let names = electrode_names();
    assert(names[0][1] == '3' && names[1][1] == '4');
    assert(names[2][0] == 'O' && names[3][0] == 'O');
    assert(names[0][0] == 'T' && names[1][0] == 'T');
    assert(names[2][1] == '1' && names[3][1] == '2');
}

/// No two entries of `pairs` carry the same name.
pub open spec fn distinct_names<V>(pairs: Seq<(Seq<char>, V)>) -> bool {
    forall|i: int, j: int|
        0 <= i < pairs.len() && 0 <= j < pairs.len() && i != j ==> (#[trigger] pairs[i]).0 != (
        #[trigger] pairs[j]).0
}

/// Some entry of `pairs` is called `name`.
pub open spec fn has_name<V>(pairs: Seq<(Seq<char>, V)>, name: Seq<char>) -> bool {
    exists|i: int| 0 <= i < pairs.len() && (#[trigger] pairs[i]).0 == name
}

/// The position of an entry called `name`, where there is one.
pub open spec fn index_of<V>(pairs: Seq<(Seq<char>, V)>, name: Seq<char>) -> int {
    choose|i: int| 0 <= i < pairs.len() && (#[trigger] pairs[i]).0 == name
}

/// The value stored under `name`, if any.
pub open spec fn lookup<V>(pairs: Seq<(Seq<char>, V)>, name: Seq<char>) -> Option<V> {
    if has_name(pairs, name) {
        Some(pairs[index_of(pairs, name)].1)
    } else {
        None
    }
}

/// `pairs` with `name` bound to `value`: replaced in place where the name is
/// present, appended otherwise.
pub open spec fn upsert<V>(pairs: Seq<(Seq<char>, V)>, name: Seq<char>, value: V) -> Seq<
    (Seq<char>, V),
> {
    if has_name(pairs, name) {
        pairs.update(index_of(pairs, name), (name, value))
    } else {
        pairs.push((name, value))
    }
}

/// `pairs` without the entry called `name`.
pub open spec fn without<V>(pairs: Seq<(Seq<char>, V)>, name: Seq<char>) -> Seq<(Seq<char>, V)> {
    if has_name(pairs, name) {
        pairs.remove(index_of(pairs, name))
    } else {
        pairs
    }
}

/// In a list with distinct names, the entry at `i` is the one `lookup` finds.
pub proof fn lemma_lookup_at<V>(pairs: Seq<(Seq<char>, V)>, i: int)
    requires
        distinct_names(pairs),
        0 <= i < pairs.len(),
    ensures
        has_name(pairs, pairs[i].0),
        index_of(pairs, pairs[i].0) == i,
        lookup(pairs, pairs[i].0) == Some(pairs[i].1),
{
    let name = pairs[i].0;
    assert(has_name(pairs, name));
    let j = index_of(pairs, name);
    assert(0 <= j < pairs.len() && pairs[j].0 == name);
    if j != i {
        assert(pairs[i].0 != pairs[j].0);
    }
}

/// Binding a name keeps the names distinct and makes `lookup` return the new
/// value for that name and the old value for every other.
pub proof fn lemma_upsert<V>(pairs: Seq<(Seq<char>, V)>, name: Seq<char>, value: V)
    requires
        distinct_names(pairs),
    ensures
        distinct_names(upsert(pairs, name, value)),
        lookup(upsert(pairs, name, value), name) == Some(value),
        forall|other: Seq<char>|
            other != name ==> #[trigger] lookup(upsert(pairs, name, value), other) == lookup(
                pairs,
                other,
            ),
{
    let after = upsert(pairs, name, value);
    if has_name(pairs, name) {
        let at = index_of(pairs, name);
        assert(after.len() == pairs.len());
        assert forall|i: int, j: int|
            0 <= i < after.len() && 0 <= j < after.len() && i != j implies (#[trigger] after[i]).0
            != (#[trigger] after[j]).0 by {
            assert(after[i].0 == pairs[i].0);
            assert(after[j].0 == pairs[j].0);
        }
        assert(after[at].0 == name);
        lemma_lookup_at(after, at);
        assert forall|other: Seq<char>| other != name implies #[trigger] lookup(after, other)
            == lookup(pairs, other) by {
            if has_name(pairs, other) {
                let k = index_of(pairs, other);
                assert(k != at);
                assert(after[k] == pairs[k]);
                lemma_lookup_at(after, k);
                lemma_lookup_at(pairs, k);
            } else {
                if has_name(after, other) {
                    let k = index_of(after, other);
                    assert(after[k].0 == other);
                    assert(k != at);
                    assert(pairs[k].0 == other);
                }
            }
        }
    } else {
        let at = pairs.len() as int;
        assert forall|i: int, j: int|
            0 <= i < after.len() && 0 <= j < after.len() && i != j implies (#[trigger] after[i]).0
            != (#[trigger] after[j]).0 by {
            if i < at && j < at {
                assert(after[i] == pairs[i]);
                assert(after[j] == pairs[j]);
            } else if i < at {
                assert(after[i] == pairs[i]);
                assert(after[j].0 == name);
            } else {
                assert(after[j] == pairs[j]);
                assert(after[i].0 == name);
            }
        }
        assert(after[at].0 == name);
        lemma_lookup_at(after, at);
        assert forall|other: Seq<char>| other != name implies #[trigger] lookup(after, other)
            == lookup(pairs, other) by {
            if has_name(pairs, other) {
                let k = index_of(pairs, other);
                assert(after[k] == pairs[k]);
                lemma_lookup_at(after, k);
                lemma_lookup_at(pairs, k);
            } else {
                if has_name(after, other) {
                    let k = index_of(after, other);
                    assert(after[k].0 == other);
                    assert(k != at);
                    assert(pairs[k].0 == other);
                }
            }
        }
    }
}

/// Removing a name keeps the names distinct, unbinds that name and leaves
/// every other binding as it was.
pub proof fn lemma_without<V>(pairs: Seq<(Seq<char>, V)>, name: Seq<char>)
    requires
        distinct_names(pairs),
    ensures
        distinct_names(without(pairs, name)),
        lookup(without(pairs, name), name) is None,
        forall|other: Seq<char>|
            other != name ==> #[trigger] lookup(without(pairs, name), other) == lookup(
                pairs,
                other,
            ),
{
    let after = without(pairs, name);
    if has_name(pairs, name) {
        let at = index_of(pairs, name);
        assert forall|i: int| 0 <= i < after.len() implies #[trigger] after[i] == pairs[if i
            < at {
            i
        } else {
            i + 1
        }] by {}
        assert forall|i: int, j: int|
            0 <= i < after.len() && 0 <= j < after.len() && i != j implies (#[trigger] after[i]).0
            != (#[trigger] after[j]).0 by {
            let pi = if i < at { i } else { i + 1 };
            let pj = if j < at { j } else { j + 1 };
            assert(after[i] == pairs[pi]);
            assert(after[j] == pairs[pj]);
            assert(pairs[pi].0 != pairs[pj].0);
        }
        if has_name(after, name) {
            let k = index_of(after, name);
            let pk = if k < at { k } else { k + 1 };
            assert(after[k] == pairs[pk]);
            assert(pairs[pk].0 != pairs[at].0);
        }
        assert forall|other: Seq<char>| other != name implies #[trigger] lookup(after, other)
            == lookup(pairs, other) by {
            if has_name(pairs, other) {
                let k = index_of(pairs, other);
                assert(k != at);
                let ak = if k < at { k } else { k - 1 };
                assert(after[ak] == pairs[k]);
                lemma_lookup_at(after, ak);
                lemma_lookup_at(pairs, k);
            } else {
                if has_name(after, other) {
                    let k = index_of(after, other);
                    let pk = if k < at { k } else { k + 1 };
                    assert(after[k] == pairs[pk]);
                    assert(pairs[pk].0 == other);
                }
            }
        }
    }
}

/// An insertion-ordered map from channel names to values in which no name
/// occurs twice.
#[derive(Debug)]
pub struct ChannelMap<V> {
    entries: Vec<(String, V)>,
}

/// One reading in kilo-ohms per electrode.
pub type ImpedanceSample = ChannelMap<u16>;

/// One burst of samples per electrode, oldest sample first.
pub type SignalWindow<T> = ChannelMap<Vec<T>>;

impl<V> View for ChannelMap<V> {
    type V = Seq<(Seq<char>, V)>;

    closed spec fn view(&self) -> Seq<(Seq<char>, V)> {
        self.entries@.map_values(|e: (String, V)| (e.0@, e.1))
    }
}

impl<V> ChannelMap<V> {
    #[verifier::type_invariant]
    spec fn names_are_distinct(&self) -> bool {
        distinct_names(self@)
    }

    /// The value stored under `name`, if any.
    pub open spec fn spec_get(&self, name: Seq<char>) -> Option<V> {
        lookup(self@, name)
    }

    /// The empty map.
    pub fn new() -> (out: Self)
        ensures
            out@ == Seq::<(Seq<char>, V)>::empty(),
    {
        let out = ChannelMap { entries: Vec::new() };
        assert(out@ =~= Seq::<(Seq<char>, V)>::empty());
        out
    }

    /// The number of entries.
    pub fn len(&self) -> (n: usize)
        ensures
            n == self@.len(),
            distinct_names(self@),
    {
        proof {
            use_type_invariant(self);
        }
        self.entries.len()
    }

    /// Whether the map has no entry.
    pub fn is_empty(&self) -> (r: bool)
        ensures
            r == (self@.len() == 0),
    {
        self.entries.len() == 0
    }

    /// The position of the entry called `name`, if there is one.
    fn find(&self, name: &str) -> (r: Option<usize>)
        ensures
            distinct_names(self@),
            match r {
                Some(i) => i < self@.len() && self@[i as int].0 == name@ && has_name(
                    self@,
                    name@,
                ) && index_of(self@, name@) == i,
                None => !has_name(self@, name@),
            },
    {
        proof {
            use_type_invariant(self);
        }
        let n: usize = self.entries.len();
        let mut i: usize = 0;
        while i < n
            invariant
                n == self@.len(),
                n == self.entries@.len(),
                i <= n,
                distinct_names(self@),
                forall|k: int| 0 <= k < i ==> (#[trigger] self@[k]).0 != name@,
            decreases n - i,
        {
            if same_text(self.entries[i].0.as_str(), name) {
                proof {
                    lemma_lookup_at(self@, i as int);
                }
                return Some(i);
            }
            i += 1;
        }
        None
    }

    /// Whether some entry is called `name`.
    pub fn contains_key(&self, name: &str) -> (r: bool)
        ensures
            r == has_name(self@, name@),
            r == self.spec_get(name@).is_some(),
    {
        self.find(name).is_some()
    }

    /// The value stored under `name`, if any.
    pub fn get(&self, name: &str) -> (r: Option<&V>)
        ensures
            match r {
                Some(v) => self.spec_get(name@) == Some(*v),
                None => self.spec_get(name@) is None,
            },
    {
        match self.find(name) {
            Some(i) => Some(&self.entries[i].1),
            None => None,
        }
    }

    /// The name and value at position `at`, or `None` past the end.
    pub fn entry_at(&self, at: usize) -> (r: Option<(&str, &V)>)
        ensures
            match r {
                Some(e) => at < self@.len() && e.0@ == self@[at as int].0 && *e.1
                    == self@[at as int].1,
                None => at >= self@.len(),
            },
    {
        if at < self.entries.len() {
            Some((self.entries[at].0.as_str(), &self.entries[at].1))
        } else {
            None
        }
    }

    /// Binds `name` to `value`: an entry of that name is replaced where it
    /// stands, a new name is appended.
    pub fn insert(&mut self, name: String, value: V)
        ensures
            final(self)@ == upsert(old(self)@, name@, value),
            distinct_names(final(self)@),
            final(self).spec_get(name@) == Some(value),
            forall|other: Seq<char>|
                other != name@ ==> #[trigger] lookup(final(self)@, other) == lookup(
                    old(self)@,
                    other,
                ),
    {
        let found = self.find(name.as_str());
        let ghost before = self@;
        let ghost key = name@;
        proof {
            lemma_upsert(before, key, value);
        }
        let mut entries: Vec<(String, V)> = Vec::new();
        core::mem::swap(&mut entries, &mut self.entries);
        assert(self@ =~= Seq::<(Seq<char>, V)>::empty());
        match found {
            Some(i) => {
                entries.set(i, (name, value));
            },
            None => {
                entries.push((name, value));
            },
        }
        assert(entries@.map_values(|e: (String, V)| (e.0@, e.1)) =~= upsert(before, key, value));
        self.entries = entries;
    }

    /// Puts `value` in place of the value at position `at`; the name stays.
    pub fn replace_at(&mut self, at: usize, value: V)
        requires
            at < old(self)@.len(),
        ensures
            final(self)@ == old(self)@.update(at as int, (old(self)@[at as int].0, value)),
            distinct_names(final(self)@),
    {
        proof {
            use_type_invariant(&*self);
        }
        let ghost before = self@;
        let ghost after = before.update(at as int, (before[at as int].0, value));
        let mut entries: Vec<(String, V)> = Vec::new();
        core::mem::swap(&mut entries, &mut self.entries);
        assert(self@ =~= Seq::<(Seq<char>, V)>::empty());
        let (name, _) = entries.remove(at);
        entries.insert(at, (name, value));
        assert(entries@.map_values(|e: (String, V)| (e.0@, e.1)) =~= after);
        assert forall|i: int, j: int|
            0 <= i < after.len() && 0 <= j < after.len() && i != j implies (#[trigger] after[i]).0
            != (#[trigger] after[j]).0 by {
            assert(after[i].0 == before[i].0);
            assert(after[j].0 == before[j].0);
        }
        self.entries = entries;
    }

    /// Removes the entry called `name`, if there is one.
    pub fn remove(&mut self, name: &str)
        ensures
            final(self)@ == without(old(self)@, name@),
            distinct_names(final(self)@),
            final(self).spec_get(name@) is None,
            forall|other: Seq<char>|
                other != name@ ==> #[trigger] lookup(final(self)@, other) == lookup(
                    old(self)@,
                    other,
                ),
    {
        let found = self.find(name);
        let ghost before = self@;
        proof {
            lemma_without(before, name@);
        }
        let mut entries: Vec<(String, V)> = Vec::new();
        core::mem::swap(&mut entries, &mut self.entries);
        assert(self@ =~= Seq::<(Seq<char>, V)>::empty());
        match found {
            Some(i) => {
                let _ = entries.remove(i);
            },
            None => {},
        }
        assert(entries@.map_values(|e: (String, V)| (e.0@, e.1)) =~= without(before, name@));
        self.entries = entries;
    }
}

/// The entries of a signal window with each channel taken as its sequence
/// of samples.
pub open spec fn samples<T>(pairs: Seq<(Seq<char>, Vec<T>)>) -> Seq<(Seq<char>, Seq<T>)> {
    pairs.map_values(|p: (Seq<char>, Vec<T>)| (p.0, p.1@))
}

/// A copy of `source`, element for element.
pub fn copy_samples<T: Copy>(source: &Vec<T>) -> (out: Vec<T>)
    ensures
        out@ == source@,
{
    let n: usize = source.len();
    let mut out: Vec<T> = Vec::new();
    let mut i: usize = 0;
    while i < n
        invariant
            n == source.len(),
            i <= n,
            out@ == source@.subrange(0, i as int),
        decreases n - i,
    {
        out.push(source[i]);
        i += 1;
        assert(out@ == source@.subrange(0, i as int));
    }
    assert(source@.subrange(0, n as int) == source@);
    out
}

impl ChannelMap<u16> {
    /// The sample with one reading for each of the four electrodes.
    pub fn of_electrodes(t3: u16, t4: u16, o1: u16, o2: u16) -> (out: Self)
        ensures
            out@ == seq![("T3"@, t3), ("T4"@, t4), ("O1"@, o1), ("O2"@, o2)],
            distinct_names(out@),
    {
        let mut entries: Vec<(String, u16)> = Vec::new();
        entries.push((String::from_str("T3"), t3));
        entries.push((String::from_str("T4"), t4));
        entries.push((String::from_str("O1"), o1));
        entries.push((String::from_str("O2"), o2));
        let ghost view = entries@.map_values(|e: (String, u16)| (e.0@, e.1));
        proof {
            lemma_electrode_names_differ();
            assert(view =~= seq![("T3"@, t3), ("T4"@, t4), ("O1"@, o1), ("O2"@, o2)]);
            assert forall|i: int, j: int|
                0 <= i < view.len() && 0 <= j < view.len() && i != j implies (#[trigger] view[i]).0
                != (#[trigger] view[j]).0 by {
                assert(view[i].0 == electrode_names()[i]);
                assert(view[j].0 == electrode_names()[j]);
            }
        }
        ChannelMap { entries }
    }

    /// A copy with the same entries in the same order.
    pub fn duplicate(&self) -> (out: Self)
        ensures
            out@ == self@,
    {
        proof {
            use_type_invariant(self);
        }
        let n: usize = self.entries.len();
        let mut entries: Vec<(String, u16)> = Vec::new();
        let mut i: usize = 0;
        while i < n
            invariant
                n == self.entries@.len(),
                i <= n,
                entries@.len() == i,
                forall|k: int|
                    0 <= k < i ==> (#[trigger] entries@[k]).0@ == self.entries@[k].0@
                        && entries@[k].1 == self.entries@[k].1,
            decreases n - i,
        {
            let name = self.entries[i].0.clone();
            let value: u16 = self.entries[i].1;
            entries.push((name, value));
            i += 1;
        }
        assert(entries@.map_values(|e: (String, u16)| (e.0@, e.1)) =~= self@);
        ChannelMap { entries }
    }
}

impl<T: Copy> ChannelMap<Vec<T>> {
    /// A copy with the same channels in the same order, each holding the
    /// same samples.
    pub fn duplicate(&self) -> (out: Self)
        ensures
            samples(out@) == samples(self@),
            distinct_names(out@),
    {
        proof {
            use_type_invariant(self);
        }
        let n: usize = self.entries.len();
        let mut entries: Vec<(String, Vec<T>)> = Vec::new();
        let mut i: usize = 0;
        while i < n
            invariant
                n == self.entries@.len(),
                i <= n,
                entries@.len() == i,
                forall|k: int|
                    0 <= k < i ==> (#[trigger] entries@[k]).0@ == self.entries@[k].0@
                        && entries@[k].1@ == self.entries@[k].1@,
            decreases n - i,
        {
            let name = self.entries[i].0.clone();
            let value = copy_samples(&self.entries[i].1);
            entries.push((name, value));
            i += 1;
        }
        let ghost view = entries@.map_values(|e: (String, Vec<T>)| (e.0@, e.1));
        assert(samples(view) =~= samples(self@));
        assert forall|a: int, b: int|
            0 <= a < view.len() && 0 <= b < view.len() && a != b implies (#[trigger] view[a]).0
            != (#[trigger] view[b]).0 by {
            assert(view[a].0 == self@[a].0);
            assert(view[b].0 == self@[b].0);
        }
        ChannelMap { entries }
    }
}

} // verus!
