//! The fixed definition table: a mapping from (word, language) pairs to
//! definitions, read by exact match.
//!
//! The table keeps its entries in a vector in which no key occurs twice, and
//! is modelled as a mathematical map from key to definition.

use vstd::prelude::*;
use vstd::string::*;
use crate::model::{WordDefinition, WordDefinitionView};
use crate::text::same_text;

verus! {

/// Key of the table: a word and the language its definition is written in.
pub type TableKey = (Seq<char>, Seq<char>);

/// One row of the table.
struct Entry {
    word: String,
    lang: String,
    definition: WordDefinition,
}

impl Entry {
    spec fn key(self) -> TableKey {
        (self.word@, self.lang@)
    }
}

/// The keys of `entries`, in storage order.
spec fn keys_of(entries: Seq<Entry>) -> Seq<TableKey> {
    Seq::new(entries.len(), |i: int| entries[i].key())
}

/// The map that `entries` stand for.
spec fn map_of(entries: Seq<Entry>) -> Map<TableKey, WordDefinitionView> {
    Map::new(
        |k: TableKey| keys_of(entries).contains(k),
        |k: TableKey| entries[keys_of(entries).index_of(k)].definition@,
    )
}

/// Where keys are distinct, the row at `i` is what the map holds under that
/// row's key.
proof fn lemma_row_is_mapped(entries: Seq<Entry>, i: int)
    requires
        keys_of(entries).no_duplicates(),
        0 <= i < entries.len(),
    ensures
        map_of(entries).contains_key(entries[i].key()),
        map_of(entries)[entries[i].key()] == entries[i].definition@,
{
    let keys = keys_of(entries);
    assert(keys[i] == entries[i].key());
    let found = keys.index_of(entries[i].key());
    assert(0 <= found < keys.len() && keys[found] == entries[i].key());
}

/// A key that no row carries is absent from the map.
proof fn lemma_unmatched_is_absent(entries: Seq<Entry>, key: TableKey)
    requires
        forall|i: int| 0 <= i < entries.len() ==> (#[trigger] entries[i]).key() != key,
    ensures
        !map_of(entries).contains_key(key),
{
    let keys = keys_of(entries);
    if keys.contains(key) {
        let i = choose|i: int| 0 <= i < keys.len() && keys[i] == key;
        assert(entries[i].key() == key);
    }
}

/// Appending a row under a fresh key extends the map by that row and keeps
/// the keys distinct.
proof fn lemma_push_fresh(entries: Seq<Entry>, row: Entry)
    requires
        keys_of(entries).no_duplicates(),
        !map_of(entries).contains_key(row.key()),
    ensures
        keys_of(entries.push(row)).no_duplicates(),
        map_of(entries.push(row)) == map_of(entries).insert(row.key(), row.definition@),
{
    let after = entries.push(row);
    let keys = keys_of(entries);
    let keys_after = keys_of(after);
    assert(keys_after =~= keys.push(row.key()));
    assert(keys_after.no_duplicates()) by {
        assert forall|i: int, j: int|
            0 <= i < keys_after.len() && 0 <= j < keys_after.len() && i != j implies keys_after[i]
            != keys_after[j] by {
            if i < keys.len() && j < keys.len() {
                assert(keys[i] != keys[j]);
            } else if i < keys.len() {
                assert(keys.contains(keys[i]));
            } else {
                assert(keys.contains(keys[j]));
            }
        }
    }
    let expected = map_of(entries).insert(row.key(), row.definition@);
    assert forall|k: TableKey| map_of(after).contains_key(k) == expected.contains_key(k) by {
        if keys_after.contains(k) {
            let i = choose|i: int| 0 <= i < keys_after.len() && keys_after[i] == k;
            if i < keys.len() {
                assert(keys[i] == k);
            }
        }
        if keys.contains(k) {
            let i = choose|i: int| 0 <= i < keys.len() && keys[i] == k;
            assert(keys_after[i] == k);
        }
        if k == row.key() {
            assert(keys_after[keys.len() as int] == k);
        }
    }
    assert forall|k: TableKey| map_of(after).contains_key(k) implies map_of(after)[k]
        == expected[k] by {
        let i = keys_after.index_of(k);
        assert(0 <= i < keys_after.len() && keys_after[i] == k);
        lemma_row_is_mapped(after, i);
        if i < keys.len() {
            assert(after[i] == entries[i]);
            lemma_row_is_mapped(entries, i);
        }
    }
    assert(map_of(after) =~= expected);
}

/// Replacing a row by one under the same key rebinds that key in the map and
/// keeps the keys distinct.
proof fn lemma_replace_row(entries: Seq<Entry>, at: int, row: Entry)
    requires
        keys_of(entries).no_duplicates(),
        0 <= at < entries.len(),
        entries[at].key() == row.key(),
    ensures
        keys_of(entries.update(at, row)).no_duplicates(),
        map_of(entries.update(at, row)) == map_of(entries).insert(row.key(), row.definition@),
{
    let after = entries.update(at, row);
    let keys = keys_of(entries);
    assert(keys[at] == row.key());
    assert(keys_of(after) =~= keys);
    let expected = map_of(entries).insert(row.key(), row.definition@);
    assert forall|k: TableKey| map_of(after).contains_key(k) == expected.contains_key(k) by {
        if k == row.key() {
            assert(keys.contains(k));
        }
    }
    assert forall|k: TableKey| map_of(after).contains_key(k) implies map_of(after)[k]
        == expected[k] by {
        let i = keys.index_of(k);
        assert(0 <= i < keys.len() && keys[i] == k);
        lemma_row_is_mapped(after, i);
        if i != at {
            assert(after[i] == entries[i]);
            lemma_row_is_mapped(entries, i);
        }
    }
    assert(map_of(after) =~= expected);
}

/// The keys present in the map are exactly the keys of the rows.
proof fn lemma_domain_is_keys(entries: Seq<Entry>)
    ensures
        map_of(entries).dom() == keys_of(entries).to_set(),
{
    assert(map_of(entries).dom() =~= keys_of(entries).to_set());
}

/// A mapping from (word, language) to definition.
pub struct DefinitionTable {
    entries: Vec<Entry>,
}

impl View for DefinitionTable {
    type V = Map<TableKey, WordDefinitionView>;

    closed spec fn view(&self) -> Map<TableKey, WordDefinitionView> {
        map_of(self.entries@)
    }
}

impl DefinitionTable {
    #[verifier::type_invariant]
    spec fn keys_distinct(self) -> bool {
        keys_of(self.entries@).no_duplicates()
    }

    /// The table with no entries.
    pub fn new() -> (table: DefinitionTable)
        ensures
            table@ == Map::<TableKey, WordDefinitionView>::empty(),
    {
        let table = DefinitionTable { entries: Vec::new() };
        assert(table@ =~= Map::<TableKey, WordDefinitionView>::empty());
        table
    }

    /// Position of the row stored under (`word`, `lang`), if there is one.
    fn position(&self, word: &str, lang: &str) -> (at: Option<usize>)
        ensures
            match at {
                Some(i) => i < self.entries@.len() && self.entries@[i as int].key() == (word@, lang@),
                None => !self@.contains_key((word@, lang@)),
            },
    {
        let mut i: usize = 0;
        while i < self.entries.len()
            invariant
                i <= self.entries@.len(),
                forall|j: int| 0 <= j < i ==> (#[trigger] self.entries@[j]).key() != (word@, lang@),
            decreases self.entries@.len() - i,
        {
            let row = &self.entries[i];
            if same_text(row.word.as_str(), word) && same_text(row.lang.as_str(), lang) {
                return Some(i);
            }
            i += 1;
        }
        proof {
            lemma_unmatched_is_absent(self.entries@, (word@, lang@));
        }
        None
    }

    /// Binds (`word`, `lang`) to `definition`. A definition already stored
    /// under that key is replaced; every other binding stays as it was.
    pub fn insert(&mut self, word: String, lang: String, definition: WordDefinition)
        ensures
            final(self)@ == old(self)@.insert((word@, lang@), definition@),
    {
        proof {
            use_type_invariant(&*self);
        }
        let at = self.position(word.as_str(), lang.as_str());
        let row = Entry { word, lang, definition };
        // The rows are moved out while they change and moved back once the
        // change is complete, so the table never holds a half-made update.
        let mut rows: Vec<Entry> = Vec::new();
        core::mem::swap(&mut self.entries, &mut rows);
        match at {
            Some(i) => {
                proof {
                    lemma_replace_row(rows@, i as int, row);
                }
                rows[i] = row;
            },
            None => {
                proof {
                    lemma_push_fresh(rows@, row);
                }
                rows.push(row);
            },
        }
        core::mem::swap(&mut self.entries, &mut rows);
    }

    /// The definition stored under exactly (`word`, `lang`). The match is on
    /// string equality: no case folding, no trimming, no fallback to another
    /// language.
    pub fn lookup(&self, word: &str, lang: &str) -> (found: Option<&WordDefinition>)
        ensures
            found.is_some() == self@.contains_key((word@, lang@)),
            found.is_some() ==> found.unwrap()@ == self@[(word@, lang@)],
    {
        proof {
            use_type_invariant(self);
        }
        match self.position(word, lang) {
            Some(i) => {
                proof {
                    lemma_row_is_mapped(self.entries@, i as int);
                }
                Some(&self.entries[i].definition)
            },
            None => None,
        }
    }

    /// Whether a definition is stored under exactly (`word`, `lang`).
    pub fn contains(&self, word: &str, lang: &str) -> (present: bool)
        ensures
            present == self@.contains_key((word@, lang@)),
    {
        self.lookup(word, lang).is_some()
    }

    /// Number of (word, language) pairs that have a definition.
    pub fn len(&self) -> (count: usize)
        ensures
            self@.dom().finite(),
            count == self@.dom().len(),
    {
        proof {
            use_type_invariant(self);
            let keys = keys_of(self.entries@);
            lemma_domain_is_keys(self.entries@);
            keys.unique_seq_to_set();
            vstd::seq_lib::seq_to_set_is_finite(keys);
        }
        self.entries.len()
    }
}

} // verus!
