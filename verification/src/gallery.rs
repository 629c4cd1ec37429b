//! The gallery of reference identities.
//!
//! A gallery maps identity names to embeddings. It is built once, before
//! streaming starts, and is never changed afterwards. Entries keep the order
//! in which their names were first inserted; inserting a name again replaces
//! its embedding in place.

use crate::embedding::{Embedding, EmbeddingView};
use vstd::prelude::*;

verus! {

/// One reference identity.
#[derive(Debug)]
pub struct GalleryEntry {
    pub name: String,
    pub embedding: Embedding,
}

/// The mathematical content of a [`GalleryEntry`].
pub struct EntryView {
    pub name: Seq<char>,
    pub embedding: EmbeddingView,
}

impl View for GalleryEntry {
    type V = EntryView;

    open spec fn view(&self) -> EntryView {
        EntryView { name: self.name@, embedding: self.embedding@ }
    }
}

/// The views of a list of entries, in order.
pub open spec fn entry_views(entries: Seq<GalleryEntry>) -> Seq<EntryView> {
    Seq::new(entries.len(), |i: int| entries[i]@)
}

/// Some entry carries `name`.
pub open spec fn has_name(entries: Seq<EntryView>, name: Seq<char>) -> bool {
    exists|i: int| 0 <= i < entries.len() && #[trigger] entries[i].name == name
}

/// No two entries carry the same name.
pub open spec fn names_distinct(entries: Seq<EntryView>) -> bool {
    forall|i: int, j: int|
        0 <= i < entries.len() && 0 <= j < entries.len() && #[trigger] entries[i].name
            == #[trigger] entries[j].name ==> i == j
}

/// The position of an entry named `name`.
pub open spec fn index_of(entries: Seq<EntryView>, name: Seq<char>) -> int {
    choose|i: int| 0 <= i < entries.len() && #[trigger] entries[i].name == name
}

/// The embedding stored under `name`, if any.
pub open spec fn lookup(entries: Seq<EntryView>, name: Seq<char>) -> Option<EmbeddingView> {
    if has_name(entries, name) {
        Some(entries[index_of(entries, name)].embedding)
    } else {
        None
    }
}

/// The entries after storing `entry`: a known name keeps its place and gets
/// the new embedding, an unknown name is appended.
pub open spec fn insert_entry(entries: Seq<EntryView>, entry: EntryView) -> Seq<EntryView> {
    if has_name(entries, entry.name) {
        entries.update(index_of(entries, entry.name), entry)
    } else {
        entries.push(entry)
    }
}

/// The entries read as a mapping from name to embedding.
pub open spec fn as_map(entries: Seq<EntryView>) -> Map<Seq<char>, EmbeddingView> {
    Map::new(
        |name: Seq<char>| has_name(entries, name),
        |name: Seq<char>| entries[index_of(entries, name)].embedding,
    )
}

/// In a list of distinct names, a name determines its position.
pub proof fn lemma_index_of_is_position(entries: Seq<EntryView>, i: int)
    requires
        names_distinct(entries),
        0 <= i < entries.len(),
    ensures
        has_name(entries, entries[i].name),
        index_of(entries, entries[i].name) == i,
{
    let name = entries[i].name;
    assert(entries[i].name == name);
    let k = index_of(entries, name);
    assert(0 <= k < entries.len() && entries[k].name == name);
}

/// Insertion keeps names distinct and changes the length by at most one.
pub proof fn lemma_insert_keeps_names_distinct(entries: Seq<EntryView>, entry: EntryView)
    requires
        names_distinct(entries),
    ensures
        names_distinct(insert_entry(entries, entry)),
        has_name(entries, entry.name) ==> insert_entry(entries, entry).len() == entries.len(),
        !has_name(entries, entry.name) ==> insert_entry(entries, entry).len() == entries.len()
            + 1,
{
    let after = insert_entry(entries, entry);
    if has_name(entries, entry.name) {
        let k = index_of(entries, entry.name);
        assert forall|i: int, j: int|
            0 <= i < after.len() && 0 <= j < after.len() && #[trigger] after[i].name
                == #[trigger] after[j].name implies i == j by {
            assert(after[i].name == entries[i].name);
            assert(after[j].name == entries[j].name);
        }
    } else {
        assert forall|i: int, j: int|
            0 <= i < after.len() && 0 <= j < after.len() && #[trigger] after[i].name
                == #[trigger] after[j].name implies i == j by {
            if i < entries.len() && j < entries.len() {
                assert(after[i].name == entries[i].name);
                assert(after[j].name == entries[j].name);
            } else if i < entries.len() {
                assert(entries[i].name == entry.name);
            } else if j < entries.len() {
                assert(entries[j].name == entry.name);
            }
        }
    }
}

/// Last write wins: after inserting an entry, its name maps to its embedding
/// and every other name maps to what it mapped to before.
pub proof fn lemma_insert_is_map_insert(entries: Seq<EntryView>, entry: EntryView)
    requires
        names_distinct(entries),
    ensures
        as_map(insert_entry(entries, entry)) == as_map(entries).insert(
            entry.name,
            entry.embedding,
        ),
{
    let after = insert_entry(entries, entry);
    let target = as_map(entries).insert(entry.name, entry.embedding);
    lemma_insert_keeps_names_distinct(entries, entry);
    let at = if has_name(entries, entry.name) {
        index_of(entries, entry.name)
    } else {
        entries.len() as int
    };
    assert(0 <= at < after.len() && after[at] == entry);
    assert forall|i: int| 0 <= i < after.len() && i != at implies after[i] == entries[i] && i
        < entries.len() by {}
    assert forall|name: Seq<char>| has_name(after, name) <==> (name == entry.name || has_name(
        entries,
        name,
    )) by {
        if has_name(after, name) {
            let i = index_of(after, name);
            if i != at {
                assert(entries[i].name == name);
            }
        }
        if name == entry.name {
            assert(after[at].name == name);
        } else if has_name(entries, name) {
            let i = index_of(entries, name);
            assert(i != at);
            assert(after[i].name == name);
        }
    }
    assert forall|name: Seq<char>| has_name(after, name) implies #[trigger] as_map(after)[name]
        == target[name] by {
        let i = index_of(after, name);
        lemma_index_of_is_position(after, i);
        if name == entry.name {
            lemma_index_of_is_position(after, at);
        } else {
            assert(i != at);
            lemma_index_of_is_position(entries, i);
        }
    }
    assert(as_map(after).dom() =~= target.dom());
    assert(as_map(after) =~= target);
}

/// The entries that result from storing `references` one after the other,
/// starting with none.
pub open spec fn collected(references: Seq<EntryView>) -> Seq<EntryView>
    decreases references.len(),
{
    if references.len() == 0 {
        Seq::empty()
    } else {
        insert_entry(collected(references.drop_last()), references.last())
    }
}

/// References with distinct names are stored as they come: each is
/// appended, none replaces another.
pub proof fn lemma_collected_keeps_distinct_references(references: Seq<EntryView>)
    requires
        names_distinct(references),
    ensures
        collected(references) == references,
    decreases references.len(),
{
    if references.len() > 0 {
        let init = references.drop_last();
        let last = references.last();
        assert forall|i: int, j: int|
            0 <= i < init.len() && 0 <= j < init.len() && #[trigger] init[i].name
                == #[trigger] init[j].name implies i == j by {
            assert(references[i].name == references[j].name);
        }
        lemma_collected_keeps_distinct_references(init);
        if has_name(init, last.name) {
            let i = index_of(init, last.name);
            assert(references[i].name == references[references.len() - 1].name);
        }
        assert(init.push(last) =~= references);
    } else {
        assert(references =~= Seq::empty());
    }
}

/// Two lists of distinct names that hold the same entries, in whatever
/// order, are the same mapping from name to embedding.
pub proof fn lemma_map_ignores_order(first: Seq<EntryView>, second: Seq<EntryView>)
    requires
        names_distinct(first),
        names_distinct(second),
        forall|entry: EntryView| first.contains(entry) <==> second.contains(entry),
    ensures
        as_map(first) == as_map(second),
{
    assert forall|name: Seq<char>| has_name(first, name) implies has_name(second, name)
        && second[index_of(second, name)] == first[index_of(first, name)] by {
        let i = index_of(first, name);
        assert(first.contains(first[i]));
        let j = choose|j: int| 0 <= j < second.len() && second[j] == first[i];
        assert(second[j].name == name);
        lemma_index_of_is_position(second, j);
    }
    assert forall|name: Seq<char>| has_name(second, name) implies has_name(first, name) by {
        let j = index_of(second, name);
        assert(second.contains(second[j]));
        let i = choose|i: int| 0 <= i < first.len() && first[i] == second[j];
        assert(first[i].name == name);
    }
    assert(as_map(first).dom() =~= as_map(second).dom());
    assert(as_map(first) =~= as_map(second));
}

/// The mapping from name to embedding does not depend on the order in which
/// the references are stored, as long as no name occurs twice.
pub proof fn lemma_collected_map_ignores_order(first: Seq<EntryView>, second: Seq<EntryView>)
    requires
        names_distinct(first),
        names_distinct(second),
        forall|entry: EntryView| first.contains(entry) <==> second.contains(entry),
    ensures
        as_map(collected(first)) == as_map(collected(second)),
{
    lemma_collected_keeps_distinct_references(first);
    lemma_collected_keeps_distinct_references(second);
    lemma_map_ignores_order(first, second);
}

/// The reference identities the match engine scores against: at least one,
/// no name twice.
#[derive(Debug)]
pub struct Gallery {
    entries: Vec<GalleryEntry>,
}

impl View for Gallery {
    type V = Seq<EntryView>;

    closed spec fn view(&self) -> Seq<EntryView> {
        entry_views(self.entries@)
    }
}

impl Gallery {
    #[verifier::type_invariant]
    spec fn well_formed(self) -> bool {
        self.entries@.len() > 0 && names_distinct(entry_views(self.entries@))
    }

    /// Makes a gallery of `entries`, which must be what a builder collected.
    pub(crate) fn from_entries(entries: Vec<GalleryEntry>) -> (gallery: Gallery)
        requires
            entries@.len() > 0,
            names_distinct(entry_views(entries@)),
        ensures
            gallery@ == entry_views(entries@),
    {
        Gallery { entries }
    }

    /// Number of identities, never zero.
    pub fn len(&self) -> (n: usize)
        ensures
            n == self@.len(),
            n > 0,
            names_distinct(self@),
    {
        proof {
            use_type_invariant(self);
        }
        self.entries.len()
    }

    /// The entry at position `i`, or `None` past the end.
    pub fn entry(&self, i: usize) -> (entry: Option<&GalleryEntry>)
        ensures
            entry is Some <==> i < self@.len(),
            entry matches Some(e) ==> e@ == self@[i as int],
    {
        if i < self.entries.len() {
            Some(&self.entries[i])
        } else {
            None
        }
    }

    /// The embedding stored under `name`, if the gallery knows the name.
    pub fn get(&self, name: &String) -> (found: Option<&Embedding>)
        ensures
            found is Some <==> has_name(self@, name@),
            found matches Some(e) ==> Some(e@) == lookup(self@, name@),
    {
        proof {
            use_type_invariant(self);
        }
        let mut i: usize = 0;
        while i < self.entries.len()
            invariant
                i <= self.entries@.len(),
                names_distinct(entry_views(self.entries@)),
                forall|j: int|
                    0 <= j < i ==> (#[trigger] entry_views(self.entries@)[j]).name != name@,
            decreases self.entries@.len() - i,
        {
            if self.entries[i].name == *name {
                proof {
                    let views = entry_views(self.entries@);
                    assert(views[i as int].name == name@);
                    lemma_index_of_is_position(views, i as int);
                }
                return Some(&self.entries[i].embedding);
            }
            i += 1;
        }
        None
    }
}

} // verus!
