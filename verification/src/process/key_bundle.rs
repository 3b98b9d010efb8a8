//! Named key blobs, as key generation hands them to the caller.

use vstd::prelude::*;

use crate::utils::same_text;

verus! {

/// One generated blob and the role name it is kept under.
pub struct KeyEntry {
    pub name: &'static str,
    pub bytes: Vec<u8>,
}

/// The mapping from role name to blob that a list of entries stands for.
pub open spec fn entries_map(entries: Seq<KeyEntry>) -> Map<Seq<char>, Seq<u8>>
    decreases entries.len(),
{
    if entries.len() == 0 {
        Map::empty()
    } else {
        entries_map(entries.drop_last()).insert(entries.last().name@, entries.last().bytes@)
    }
}

/// No role name occurs twice.
pub open spec fn distinct_names(entries: Seq<KeyEntry>) -> bool {
    forall|i: int, j: int|
        0 <= i < j < entries.len() ==> (#[trigger] entries[i]).name@ != (#[trigger] entries[j]).name@
}

/// A name is in the mapping exactly when some entry carries it.
pub proof fn lemma_entries_map_domain(entries: Seq<KeyEntry>, name: Seq<char>)
    ensures
        entries_map(entries).contains_key(name) <==> exists|i: int|
            0 <= i < entries.len() && (#[trigger] entries[i]).name@ == name,
    decreases entries.len(),
{
    if entries.len() > 0 {
        let front = entries.drop_last();
        lemma_entries_map_domain(front, name);
        if entries_map(entries).contains_key(name) {
            if entries.last().name@ == name {
                assert(entries[entries.len() - 1].name@ == name);
            } else {
                let i = choose|i: int| 0 <= i < front.len() && (#[trigger] front[i]).name@ == name;
                assert(entries[i].name@ == name);
            }
        }
        if exists|i: int| 0 <= i < entries.len() && (#[trigger] entries[i]).name@ == name {
            let i = choose|i: int| 0 <= i < entries.len() && (#[trigger] entries[i]).name@ == name;
            if i < entries.len() - 1 {
                assert(front[i].name@ == name);
            }
        }
    }
}

/// With distinct names, each entry's blob is what the mapping holds under its name.
pub proof fn lemma_entries_map_value(entries: Seq<KeyEntry>, i: int)
    requires
        distinct_names(entries),
        0 <= i < entries.len(),
    ensures
        entries_map(entries).contains_key(entries[i].name@),
        entries_map(entries)[entries[i].name@] == entries[i].bytes@,
    decreases entries.len(),
{
    let front = entries.drop_last();
    if i < entries.len() - 1 {
        assert(distinct_names(front)) by {
            assert forall|a: int, b: int| 0 <= a < b < front.len() implies (#[trigger] front[a]).name@
                != (#[trigger] front[b]).name@ by {
                assert(entries[a].name@ != entries[b].name@);
            }
        }
        lemma_entries_map_value(front, i);
        assert(front[i] == entries[i]);
        assert(entries[i].name@ != entries[entries.len() - 1].name@);
    }
}

/// With distinct names, the mapping has as many keys as there are entries.
pub proof fn lemma_entries_map_len(entries: Seq<KeyEntry>)
    requires
        distinct_names(entries),
    ensures
        entries_map(entries).dom().finite(),
        entries_map(entries).dom().len() == entries.len(),
    decreases entries.len(),
{
    if entries.len() > 0 {
        let front = entries.drop_last();
        assert(distinct_names(front)) by {
            assert forall|a: int, b: int| 0 <= a < b < front.len() implies (#[trigger] front[a]).name@
                != (#[trigger] front[b]).name@ by {
                assert(entries[a].name@ != entries[b].name@);
            }
        }
        lemma_entries_map_len(front);
        lemma_entries_map_domain(front, entries.last().name@);
        if entries_map(front).contains_key(entries.last().name@) {
            let i = choose|i: int|
                0 <= i < front.len() && (#[trigger] front[i]).name@ == entries.last().name@;
            assert(entries[i].name@ != entries[entries.len() - 1].name@);
        }
        assert(entries_map(entries).dom() =~= entries_map(front).dom().insert(
            entries.last().name@,
        ));
    }
}

/// The key material of one generation: role name to raw bytes. It is built
/// once and never changed; the caller decides where each blob is kept.
pub struct KeyBundle {
    entries: Vec<KeyEntry>,
}

impl View for KeyBundle {
    type V = Map<Seq<char>, Seq<u8>>;

    closed spec fn view(&self) -> Map<Seq<char>, Seq<u8>> {
        entries_map(self.entries@)
    }
}

impl KeyBundle {
    #[verifier::type_invariant]
    spec fn names_are_distinct(&self) -> bool {
        distinct_names(self.entries@)
    }

    /// A bundle of one blob.
    pub fn single(name: &'static str, bytes: Vec<u8>) -> (bundle: Self)
        ensures
            bundle@ == Map::<Seq<char>, Seq<u8>>::empty().insert(name@, bytes@),
    {
        let mut entries: Vec<KeyEntry> = Vec::new();
        entries.push(KeyEntry { name, bytes });
        proof {
            assert(entries@.drop_last() =~= Seq::<KeyEntry>::empty());
            reveal_with_fuel(entries_map, 2);
        }
        KeyBundle { entries }
    }

    /// A bundle of two blobs under different names.
    pub fn pair(
        first: &'static str,
        first_bytes: Vec<u8>,
        second: &'static str,
        second_bytes: Vec<u8>,
    ) -> (bundle: Self)
        requires
            first@ != second@,
        ensures
            bundle@ == Map::<Seq<char>, Seq<u8>>::empty().insert(first@, first_bytes@).insert(
                second@,
                second_bytes@,
            ),
    {
        let mut entries: Vec<KeyEntry> = Vec::new();
        entries.push(KeyEntry { name: first, bytes: first_bytes });
        entries.push(KeyEntry { name: second, bytes: second_bytes });
        proof {
            let front = entries@.drop_last();
            assert(front.drop_last() =~= Seq::<KeyEntry>::empty());
            assert(front.last() == entries@[0]);
            reveal_with_fuel(entries_map, 3);
        }
        KeyBundle { entries }
    }

    /// How many blobs the bundle holds.
    pub fn len(&self) -> (n: usize)
        ensures
            self@.dom().finite(),
            n == self@.dom().len(),
    {
        proof {
            use_type_invariant(self);
            lemma_entries_map_len(self.entries@);
        }
        self.entries.len()
    }

    /// Whether a blob is kept under `name`.
    pub fn contains_key(&self, name: &str) -> (found: bool)
        ensures
            found == self@.contains_key(name@),
    {
        self.get(name).is_some()
    }

    /// The blob kept under `name`, if there is one.
    pub fn get(&self, name: &str) -> (blob: Option<&Vec<u8>>)
        ensures
            match blob {
                Some(bytes) => self@.contains_key(name@) && bytes@ == self@[name@],
                None => !self@.contains_key(name@),
            },
    {
        proof {
            use_type_invariant(self);
        }
        let mut i: usize = 0;
        while i < self.entries.len()
            invariant
                i <= self.entries@.len(),
                distinct_names(self.entries@),
                forall|j: int| 0 <= j < i ==> (#[trigger] self.entries@[j]).name@ != name@,
            decreases self.entries@.len() - i,
        {
            if same_text(self.entries[i].name, name) {
                proof {
                    lemma_entries_map_value(self.entries@, i as int);
                }
                return Some(&self.entries[i].bytes);
            }
            i += 1;
        }
        proof {
            lemma_entries_map_domain(self.entries@, name@);
        }
        None
    }

    /// The blobs in the order in which they were generated.
    pub fn entries(&self) -> (list: &Vec<KeyEntry>)
        ensures
            distinct_names(list@),
            entries_map(list@) == self@,
    {
        proof {
            use_type_invariant(self);
        }
        &self.entries
    }
}

} // verus!
