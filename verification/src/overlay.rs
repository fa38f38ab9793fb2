//! The state overlay: the ledger's key-value store at one block, held in
//! memory as the scratch space of one replay.

use vstd::prelude::*;
use crate::bytes::bytes_equal;

verus! {

/// A storage entry as a pair of byte strings: key, then value.
pub type Entry = (Vec<u8>, Vec<u8>);

/// The mathematical value of a list of entries.
pub open spec fn entries_view(entries: Seq<Entry>) -> Seq<(Seq<u8>, Seq<u8>)> {
    entries.map_values(|e: Entry| (e.0@, e.1@))
}

/// The mapping that results from writing the entries in order into an empty
/// store: of two entries with one key the later wins.
pub open spec fn map_of(entries: Seq<(Seq<u8>, Seq<u8>)>) -> Map<Seq<u8>, Seq<u8>>
    decreases entries.len(),
{
    if entries.len() == 0 {
        Map::empty()
    } else {
        map_of(entries.drop_last()).insert(entries.last().0, entries.last().1)
    }
}

/// No key occurs twice among the entries.
pub open spec fn distinct_keys(entries: Seq<(Seq<u8>, Seq<u8>)>) -> bool {
    forall|i: int, j: int| 0 <= i < j < entries.len() ==> entries[i].0 != entries[j].0
}

/// Whether some entry has the given key.
pub open spec fn has_key(entries: Seq<(Seq<u8>, Seq<u8>)>, key: Seq<u8>) -> bool {
    exists|i: int| 0 <= i < entries.len() && #[trigger] entries[i].0 == key
}

/// The keys of the mapping are the keys of the entries.
pub proof fn lemma_map_of_domain(entries: Seq<(Seq<u8>, Seq<u8>)>, key: Seq<u8>)
    ensures
        map_of(entries).contains_key(key) <==> has_key(entries, key),
    decreases entries.len(),
{
    if entries.len() > 0 {
        let front = entries.drop_last();
        lemma_map_of_domain(front, key);
        if has_key(front, key) {
            let i = choose|i: int| 0 <= i < front.len() && #[trigger] front[i].0 == key;
            assert(entries[i].0 == key);
        }
        if has_key(entries, key) && entries.last().0 != key {
            let i = choose|i: int| 0 <= i < entries.len() && #[trigger] entries[i].0 == key;
            assert(front[i].0 == key);
        }
        if entries.last().0 == key {
            assert(entries[entries.len() - 1].0 == key);
        }
    }
}

/// Among entries with distinct keys, each entry's value is the value of its
/// key in the mapping.
pub proof fn lemma_map_of_value(entries: Seq<(Seq<u8>, Seq<u8>)>, i: int)
    requires
        distinct_keys(entries),
        0 <= i < entries.len(),
    ensures
        map_of(entries).contains_key(entries[i].0),
        map_of(entries)[entries[i].0] == entries[i].1,
    decreases entries.len(),
{
    if i < entries.len() - 1 {
        let front = entries.drop_last();
        assert(front[i] == entries[i]);
        lemma_map_of_value(front, i);
    }
}

/// Among entries with distinct keys, giving one entry a new value is
/// writing that value under the entry's key.
pub proof fn lemma_map_of_update(entries: Seq<(Seq<u8>, Seq<u8>)>, i: int, value: Seq<u8>)
    requires
        distinct_keys(entries),
        0 <= i < entries.len(),
    ensures
        map_of(entries.update(i, (entries[i].0, value))) == map_of(entries).insert(entries[i].0, value),
        distinct_keys(entries.update(i, (entries[i].0, value))),
    decreases entries.len(),
{
    let updated = entries.update(i, (entries[i].0, value));
    let front = entries.drop_last();
    if i == entries.len() - 1 {
        assert(updated.drop_last() =~= front);
        assert(map_of(updated) =~= map_of(entries).insert(entries[i].0, value));
    } else {
        assert(front[i] == entries[i]);
        assert(updated.drop_last() =~= front.update(i, (front[i].0, value)));
        lemma_map_of_update(front, i, value);
        assert(map_of(updated) =~= map_of(entries).insert(entries[i].0, value));
    }
}

/// What an overlay remembers of the program that the state came with.
#[derive(Debug, PartialEq, Eq)]
pub enum CodeRecord {
    /// The reserved code key holds what the state source delivered.
    Untouched,
    /// The reserved code key was overwritten; this is the value it had before,
    /// if it had one.
    Replaced(Option<Vec<u8>>),
}

/// The mathematical value of a [`CodeRecord`].
pub enum CodeRecordView {
    Untouched,
    Replaced(Option<Seq<u8>>),
}

impl DeepView for CodeRecord {
    type V = CodeRecordView;

    open spec fn deep_view(&self) -> CodeRecordView {
        match self {
            CodeRecord::Untouched => CodeRecordView::Untouched,
            CodeRecord::Replaced(Some(code)) => CodeRecordView::Replaced(Some(code@)),
            CodeRecord::Replaced(None) => CodeRecordView::Replaced(None),
        }
    }
}

impl Clone for CodeRecord {
    fn clone(&self) -> (copy: Self)
        ensures
            copy.deep_view() == self.deep_view(),
    {
        match self {
            CodeRecord::Untouched => CodeRecord::Untouched,
            CodeRecord::Replaced(Some(code)) => CodeRecord::Replaced(Some(code.clone())),
            CodeRecord::Replaced(None) => CodeRecord::Replaced(None),
        }
    }
}

/// The mathematical value of a [`StateOverlay`]: the mapping from key to
/// value, and the record of a replaced program.
pub struct OverlayView {
    pub map: Map<Seq<u8>, Seq<u8>>,
    pub record: CodeRecordView,
}

/// The key-value store of one replay.
///
/// Keys are unique. Every write is seen by all later reads: the last write
/// to a key wins.
#[derive(Debug)]
pub struct StateOverlay {
    entries: Vec<Entry>,
    record: CodeRecord,
}

impl View for StateOverlay {
    type V = OverlayView;

    closed spec fn view(&self) -> OverlayView {
        OverlayView { map: map_of(entries_view(self.entries@)), record: self.record.deep_view() }
    }
}

impl StateOverlay {
    /// The overlay's invariant: no key is stored twice.
    pub closed spec fn wf(&self) -> bool {
        distinct_keys(entries_view(self.entries@))
    }

    /// An overlay without entries.
    pub fn new() -> (overlay: Self)
        ensures
            overlay.wf(),
            overlay@.map == Map::<Seq<u8>, Seq<u8>>::empty(),
            overlay@.record == CodeRecordView::Untouched,
    {
        StateOverlay { entries: Vec::new(), record: CodeRecord::Untouched }
    }

    /// The overlay that results from writing the entries in order into an
    /// empty one.
    pub fn from_entries(entries: Vec<Entry>) -> (overlay: Self)
        ensures
            overlay.wf(),
            overlay@.map == map_of(entries_view(entries@)),
            overlay@.record == CodeRecordView::Untouched,
    {
        let mut overlay = StateOverlay::new();
        let mut entries = entries;
        let ghost all = entries_view(entries@);
        let mut rest: Vec<Entry> = Vec::new();
        // Take the entries from the back, so that they can be moved out.
        while entries.len() > 0
            invariant
                entries_view(entries@) + entries_view(rest@).reverse() == all,
            decreases entries.len(),
        {
            let ghost before = entries@;
            let ghost rest_before = rest@;
            let last = entries.pop().unwrap();
            rest.push(last);
            proof {
                assert(entries_view(rest@).reverse() =~= seq![entries_view(before).last()]
                    + entries_view(rest_before).reverse());
                assert(entries_view(entries@) =~= entries_view(before).drop_last());
                assert(entries_view(entries@) + entries_view(rest@).reverse() =~= entries_view(before)
                    + entries_view(rest_before).reverse());
            }
        }
        assert(entries_view(rest@).reverse() =~= all);
        let ghost mut done: Seq<(Seq<u8>, Seq<u8>)> = Seq::empty();
        while rest.len() > 0
            invariant
                done + entries_view(rest@).reverse() == all,
                overlay.wf(),
                overlay@.map == map_of(done),
                overlay@.record == CodeRecordView::Untouched,
            decreases rest.len(),
        {
            let ghost rest_before = rest@;
            let (key, value) = rest.pop().unwrap();
            proof {
                let next = (key@, value@);
                assert(entries_view(rest_before).reverse() =~= seq![next] + entries_view(rest@).reverse());
                assert(done.push(next) + entries_view(rest@).reverse() =~= done + entries_view(
                    rest_before,
                ).reverse());
                assert(done.push(next).drop_last() =~= done);
                done = done.push(next);
            }
            overlay.set(key, value);
        }
        assert(done =~= all);
        overlay
    }

    /// The number of entries.
    pub fn len(&self) -> (n: usize)
        requires
            self.wf(),
        ensures
            n == self@.map.dom().len(),
    {
        proof {
            lemma_map_of_len(entries_view(self.entries@));
        }
        self.entries.len()
    }

    /// The position of the entry with the given key, if there is one.
    fn position(&self, key: &[u8]) -> (at: Option<usize>)
        ensures
            match at {
                Some(i) => i < self.entries@.len() && entries_view(self.entries@)[i as int].0 == key@,
                None => !has_key(entries_view(self.entries@), key@),
            },
    {
        let mut i: usize = 0;
        while i < self.entries.len()
            invariant
                i <= self.entries@.len(),
                forall|j: int| 0 <= j < i ==> entries_view(self.entries@)[j].0 != key@,
            decreases self.entries@.len() - i,
        {
            if bytes_equal(self.entries[i].0.as_slice(), key) {
                return Some(i);
            }
            i += 1;
        }
        None
    }

    /// The value stored under the key, if there is one.
    pub fn get(&self, key: &[u8]) -> (value: Option<Vec<u8>>)
        requires
            self.wf(),
        ensures
            match value {
                Some(v) => self@.map.contains_key(key@) && v@ == self@.map[key@],
                None => !self@.map.contains_key(key@),
            },
    {
        proof {
            lemma_map_of_domain(entries_view(self.entries@), key@);
        }
        match self.position(key) {
            Some(i) => {
                proof {
                    lemma_map_of_value(entries_view(self.entries@), i as int);
                }
                Some(self.entries[i].1.clone())
            },
            None => None,
        }
    }

    /// Whether a value is stored under the key.
    pub fn contains_key(&self, key: &[u8]) -> (present: bool)
        ensures
            present == self@.map.contains_key(key@),
    {
        proof {
            lemma_map_of_domain(entries_view(self.entries@), key@);
        }
        self.position(key).is_some()
    }

    /// Stores the value under the key, in place of any value stored there.
    pub fn set(&mut self, key: Vec<u8>, value: Vec<u8>)
        requires
            old(self).wf(),
        ensures
            final(self).wf(),
            final(self)@.map == old(self)@.map.insert(key@, value@),
            final(self)@.record == old(self)@.record,
    {
        let ghost before = entries_view(self.entries@);
        match self.position(key.as_slice()) {
            Some(i) => {
                proof {
                    lemma_map_of_update(before, i as int, value@);
                    assert(entries_view(self.entries@.update(i as int, (key, value))) =~= before.update(
                        i as int,
                        (before[i as int].0, value@),
                    ));
                }
                self.entries.set(i, (key, value));
            },
            None => {
                proof {
                    let after = entries_view(self.entries@.push((key, value)));
                    assert(after =~= before.push((key@, value@)));
                    assert(after.drop_last() =~= before);
                    assert forall|i: int, j: int| 0 <= i < j < after.len() implies after[i].0
                        != after[j].0 by {
                        if j == after.len() - 1 {
                            assert(before[i].0 != key@);
                        } else {
                            assert(before[i].0 != before[j].0);
                        }
                    }
                }
                self.entries.push((key, value));
            },
        }
    }

    /// Hands out every entry, leaving nothing behind. The keys of the
    /// entries are distinct, and together they are the overlay's mapping.
    pub fn take_all(self) -> (entries: Vec<Entry>)
        requires
            self.wf(),
        ensures
            map_of(entries_view(entries@)) == self@.map,
            distinct_keys(entries_view(entries@)),
    {
        self.entries
    }

    /// A copy of every entry. The keys of the entries are distinct, and
    /// together they are the overlay's mapping.
    pub fn entries(&self) -> (entries: Vec<Entry>)
        requires
            self.wf(),
        ensures
            map_of(entries_view(entries@)) == self@.map,
            distinct_keys(entries_view(entries@)),
    {
        let mut entries: Vec<Entry> = Vec::new();
        let mut i: usize = 0;
        while i < self.entries.len()
            invariant
                i <= self.entries@.len(),
                entries_view(entries@) == entries_view(self.entries@).subrange(0, i as int),
            decreases self.entries@.len() - i,
        {
            let ghost before = entries_view(entries@);
            let key = self.entries[i].0.clone();
            let value = self.entries[i].1.clone();
            entries.push((key, value));
            proof {
                assert(entries_view(entries@) =~= before.push((key@, value@)));
                assert(entries_view(self.entries@).subrange(0, i + 1) =~= entries_view(
                    self.entries@,
                ).subrange(0, i as int).push(entries_view(self.entries@)[i as int]));
            }
            i += 1;
        }
        proof {
            assert(entries_view(self.entries@).subrange(0, i as int) =~= entries_view(self.entries@));
        }
        entries
    }

    /// Whether the reserved code key was overwritten by a substitution.
    pub fn code_replaced(&self) -> (replaced: bool)
        ensures
            replaced == (self@.record != CodeRecordView::Untouched),
    {
        match self.record {
            CodeRecord::Untouched => false,
            CodeRecord::Replaced(_) => true,
        }
    }

    /// What the overlay remembers of a replaced program.
    pub fn code_record(&self) -> (record: CodeRecord)
        ensures
            record.deep_view() == self@.record,
    {
        self.record.clone()
    }

    /// Remembers `original` as the value that the reserved code key had
    /// before it was overwritten. Only the first call has an effect: what the
    /// state came with is remembered, not what a later write replaced.
    pub fn remember_original(&mut self, original: Option<Vec<u8>>)
        requires
            old(self).wf(),
        ensures
            final(self).wf(),
            final(self)@.map == old(self)@.map,
            final(self)@.record == match old(self)@.record {
                CodeRecordView::Untouched => CodeRecordView::Replaced(
                    match original {
                        Some(code) => Some(code@),
                        None => None,
                    },
                ),
                kept => kept,
            },
    {
        match self.record {
            CodeRecord::Untouched => {
                self.record = CodeRecord::Replaced(original);
            },
            _ => {},
        }
    }
}

/// Entries with distinct keys are as many as the keys of their mapping.
pub proof fn lemma_map_of_len(entries: Seq<(Seq<u8>, Seq<u8>)>)
    requires
        distinct_keys(entries),
    ensures
        map_of(entries).dom().finite(),
        map_of(entries).dom().len() == entries.len(),
    decreases entries.len(),
{
    if entries.len() > 0 {
        let front = entries.drop_last();
        lemma_map_of_len(front);
        lemma_map_of_domain(front, entries.last().0);
        if has_key(front, entries.last().0) {
            let i = choose|i: int| 0 <= i < front.len() && #[trigger] front[i].0 == entries.last().0;
            assert(entries[i].0 == entries[entries.len() - 1].0);
        }
        assert(map_of(entries).dom() =~= map_of(front).dom().insert(entries.last().0));
    }
}

} // verus!
