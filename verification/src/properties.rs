//! Event properties: a map from property names to simple values.

use vstd::prelude::*;

verus! {

/// A value that an event property can hold.
#[derive(Debug, PartialEq, Eq)]
pub enum PropValue {
    /// A boolean.
    Flag(bool),
    /// A non-negative whole number.
    Count(u64),
    /// A piece of text.
    Text(String),
    /// An ordered list of texts.
    TextList(Vec<String>),
}

/// The mathematical value of a [`PropValue`].
pub enum PropValueView {
    Flag(bool),
    Count(u64),
    Text(Seq<char>),
    TextList(Seq<Seq<char>>),
}

impl View for PropValue {
    type V = PropValueView;

    open spec fn view(&self) -> PropValueView {
        match self {
            PropValue::Flag(flag) => PropValueView::Flag(*flag),
            PropValue::Count(count) => PropValueView::Count(*count),
            PropValue::Text(text) => PropValueView::Text(text@),
            PropValue::TextList(items) => PropValueView::TextList(items.deep_view()),
        }
    }
}

impl PropValue {
    /// An independent copy of the value.
    pub fn duplicate(&self) -> (copy: PropValue)
        ensures
            copy@ == self@,
    {
        match self {
            PropValue::Flag(flag) => PropValue::Flag(*flag),
            PropValue::Count(count) => PropValue::Count(*count),
            PropValue::Text(text) => PropValue::Text(text.clone()),
            PropValue::TextList(items) => PropValue::TextList(items.clone()),
        }
    }
}

/// The mathematical content of a property map.
pub type PropMap = Map<Seq<char>, PropValueView>;

/// The name of the entry at position `i`.
spec fn key_at(entries: Seq<(String, PropValue)>, i: int) -> Seq<char> {
    entries[i].0@
}

/// No two entries carry the same name.
spec fn keys_distinct(entries: Seq<(String, PropValue)>) -> bool {
    forall|i: int, j: int|
        0 <= i < j < entries.len() ==> #[trigger] key_at(entries, i) != #[trigger] key_at(
            entries,
            j,
        )
}

/// Some entry carries the name `key`.
spec fn has_key(entries: Seq<(String, PropValue)>, key: Seq<char>) -> bool {
    exists|i: int| 0 <= i < entries.len() && #[trigger] key_at(entries, i) == key
}

/// The map that a list of entries stands for: each entry binds its name to
/// its value, a later entry taking precedence over an earlier one.
spec fn entries_map(entries: Seq<(String, PropValue)>) -> PropMap
    decreases entries.len(),
{
    if entries.len() == 0 {
        Map::empty()
    } else {
        entries_map(entries.drop_last()).insert(entries.last().0@, entries.last().1@)
    }
}

/// The domain of `entries_map` is exactly the set of names in the list, and it is finite.
proof fn lemma_entries_map_domain(entries: Seq<(String, PropValue)>)
    ensures
        entries_map(entries).dom().finite(),
        forall|key: Seq<char>| #[trigger]
            entries_map(entries).contains_key(key) <==> has_key(entries, key),
    decreases entries.len(),
{
    if entries.len() > 0 {
        let front = entries.drop_last();
        lemma_entries_map_domain(front);
        assert forall|key: Seq<char>| #[trigger]
            entries_map(entries).contains_key(key) <==> has_key(entries, key) by {
            if has_key(entries, key) {
                let i = choose|i: int| 0 <= i < entries.len() && #[trigger] key_at(entries, i) == key;
                if i < entries.len() - 1 {
                    assert(key_at(front, i) == key);
                    assert(has_key(front, key));
                }
            }
            if entries_map(entries).contains_key(key) {
                if key == entries.last().0@ {
                    assert(key_at(entries, entries.len() - 1) == key);
                } else {
                    assert(has_key(front, key));
                    let i = choose|i: int| 0 <= i < front.len() && #[trigger] key_at(front, i) == key;
                    assert(key_at(entries, i) == key);
                }
            }
        }
    }
}

/// With distinct names, every entry's name is bound to that entry's value.
proof fn lemma_entries_map_value(entries: Seq<(String, PropValue)>, i: int)
    requires
        keys_distinct(entries),
        0 <= i < entries.len(),
    ensures
        entries_map(entries).contains_key(key_at(entries, i)),
        entries_map(entries)[key_at(entries, i)] == entries[i].1@,
    decreases entries.len(),
{
    let front = entries.drop_last();
    if i < entries.len() - 1 {
        assert forall|a: int, b: int| 0 <= a < b < front.len() implies #[trigger] key_at(front, a)
            != #[trigger] key_at(front, b) by {
            assert(key_at(entries, a) != key_at(entries, b));
        }
        lemma_entries_map_value(front, i);
        assert(key_at(front, i) == key_at(entries, i));
        assert(key_at(entries, i) != key_at(entries, entries.len() - 1));
    }
}

/// With distinct names, the map has as many bindings as the list has entries.
proof fn lemma_entries_map_len(entries: Seq<(String, PropValue)>)
    requires
        keys_distinct(entries),
    ensures
        entries_map(entries).len() == entries.len(),
    decreases entries.len(),
{
    if entries.len() > 0 {
        let front = entries.drop_last();
        assert forall|a: int, b: int| 0 <= a < b < front.len() implies #[trigger] key_at(front, a)
            != #[trigger] key_at(front, b) by {
            assert(key_at(entries, a) != key_at(entries, b));
        }
        lemma_entries_map_len(front);
        lemma_entries_map_domain(front);
        if has_key(front, entries.last().0@) {
            let i = choose|i: int| 0 <= i < front.len() && #[trigger] key_at(front, i)
                == entries.last().0@;
            assert(key_at(entries, i) != key_at(entries, entries.len() - 1));
        }
        assert(!entries_map(front).contains_key(entries.last().0@));
    }
}

/// Taking one more entry into the list inserts its binding into the map.
proof fn lemma_entries_map_push(entries: Seq<(String, PropValue)>, entry: (String, PropValue))
    ensures
        entries_map(entries.push(entry)) == entries_map(entries).insert(entry.0@, entry.1@),
{
    assert(entries.push(entry).drop_last() == entries);
}

/// With distinct names, replacing the value of entry `i` rebinds its name in the map.
proof fn lemma_entries_map_update(
    entries: Seq<(String, PropValue)>,
    i: int,
    entry: (String, PropValue),
)
    requires
        keys_distinct(entries),
        0 <= i < entries.len(),
        entry.0@ == key_at(entries, i),
    ensures
        keys_distinct(entries.update(i, entry)),
        entries_map(entries.update(i, entry)) == entries_map(entries).insert(entry.0@, entry.1@),
    decreases entries.len(),
{
    let updated = entries.update(i, entry);
    assert forall|a: int, b: int| 0 <= a < b < updated.len() implies #[trigger] key_at(updated, a)
        != #[trigger] key_at(updated, b) by {
        assert(key_at(entries, a) != key_at(entries, b));
    }
    let front = entries.drop_last();
    if i == entries.len() - 1 {
        assert(updated.drop_last() == front);
        assert(entries_map(updated) == entries_map(entries).insert(entry.0@, entry.1@));
    } else {
        assert forall|a: int, b: int| 0 <= a < b < front.len() implies #[trigger] key_at(front, a)
            != #[trigger] key_at(front, b) by {
            assert(key_at(entries, a) != key_at(entries, b));
        }
        lemma_entries_map_update(front, i, entry);
        assert(updated.drop_last() == front.update(i, entry));
        assert(key_at(entries, i) != key_at(entries, entries.len() - 1));
        assert(entries_map(updated) == entries_map(entries).insert(entry.0@, entry.1@));
    }
}

/// An event's properties: each name is bound to at most one value.
#[derive(Debug)]
pub struct Properties {
    entries: Vec<(String, PropValue)>,
}

impl View for Properties {
    type V = PropMap;

    closed spec fn view(&self) -> PropMap {
        entries_map(self.entries@)
    }
}

impl Properties {
    #[verifier::type_invariant]
    spec fn names_occur_once(&self) -> bool {
        keys_distinct(self.entries@)
    }

    /// The names in the order in which they were first bound.
    pub closed spec fn names(&self) -> Seq<Seq<char>> {
        Seq::new(self.entries@.len(), |i: int| key_at(self.entries@, i))
    }

    /// A map without bindings.
    pub fn new() -> (props: Properties)
        ensures
            props@ == PropMap::empty(),
            props.names() == Seq::<Seq<char>>::empty(),
    {
        Properties { entries: Vec::new() }
    }

    /// The number of bindings. Each bound name occurs once among `names`,
    /// and `names` holds no other name.
    pub fn len(&self) -> (count: usize)
        ensures
            count == self@.len(),
            count == self.names().len(),
            self@.dom().finite(),
            self.names().no_duplicates(),
            forall|key: Seq<char>| self@.contains_key(key) <==> self.names().contains(key),
    {
        proof {
            use_type_invariant(self);
            lemma_entries_map_len(self.entries@);
            lemma_entries_map_domain(self.entries@);
            let names = self.names();
            assert forall|i: int, j: int| 0 <= i < names.len() && 0 <= j < names.len() && i
                != j implies names[i] != names[j] by {
                if i < j {
                    assert(key_at(self.entries@, i) != key_at(self.entries@, j));
                } else {
                    assert(key_at(self.entries@, j) != key_at(self.entries@, i));
                }
            }
            assert forall|key: Seq<char>| self@.contains_key(key) <==> names.contains(key) by {
                if has_key(self.entries@, key) {
                    let i = choose|i: int|
                        0 <= i < self.entries@.len() && #[trigger] key_at(self.entries@, i) == key;
                    assert(names[i] == key);
                }
                if names.contains(key) {
                    let i = choose|i: int| 0 <= i < names.len() && names[i] == key;
                    assert(key_at(self.entries@, i) == key);
                }
            }
        }
        self.entries.len()
    }

    /// The position of the entry named `key`, if there is one.
    fn position(&self, key: &str) -> (found: Option<usize>)
        ensures
            match found {
                Some(i) => i < self.entries@.len() && key_at(self.entries@, i as int) == key@,
                None => !has_key(self.entries@, key@),
            },
    {
        let wanted = key.to_owned();
        let mut i: usize = 0;
        while i < self.entries.len()
            invariant
                i <= self.entries@.len(),
                wanted@ == key@,
                forall|j: int| 0 <= j < i ==> #[trigger] key_at(self.entries@, j) != key@,
            decreases self.entries@.len() - i,
        {
            if self.entries[i].0 == wanted {
                return Some(i);
            }
            i += 1;
        }
        None
    }

    /// Whether `key` is bound.
    pub fn contains_key(&self, key: &str) -> (bound: bool)
        ensures
            bound == self@.contains_key(key@),
    {
        proof {
            lemma_entries_map_domain(self.entries@);
        }
        self.position(key).is_some()
    }

    /// The value bound to `key`, if any.
    pub fn get(&self, key: &str) -> (value: Option<&PropValue>)
        ensures
            match value {
                Some(found) => self@.contains_key(key@) && self@[key@] == found@,
                None => !self@.contains_key(key@),
            },
    {
        proof {
            use_type_invariant(self);
            lemma_entries_map_domain(self.entries@);
        }
        match self.position(key) {
            Some(i) => {
                proof {
                    lemma_entries_map_value(self.entries@, i as int);
                }
                Some(&self.entries[i].1)
            },
            None => None,
        }
    }

    /// The binding at position `index`, in the order of `names`: the name and its value.
    pub fn entry_at(&self, index: usize) -> (entry: (&String, &PropValue))
        requires
            index < self.names().len(),
        ensures
            entry.0@ == self.names()[index as int],
            self@.contains_key(entry.0@),
            self@[entry.0@] == entry.1@,
    {
        proof {
            use_type_invariant(self);
            lemma_entries_map_value(self.entries@, index as int);
        }
        (&self.entries[index].0, &self.entries[index].1)
    }

    /// Binds `key` to `value`; an earlier binding of `key` is replaced.
    pub fn insert(&mut self, key: String, value: PropValue)
        ensures
            final(self)@ == old(self)@.insert(key@, value@),
    {
        proof {
            use_type_invariant(&*self);
            lemma_entries_map_domain(self.entries@);
        }
        let found = self.position(key.as_str());
        let mut entries: Vec<(String, PropValue)> = Vec::new();
        std::mem::swap(&mut self.entries, &mut entries);
        match found {
            Some(i) => {
                proof {
                    lemma_entries_map_update(entries@, i as int, (key, value));
                }
                entries.set(i, (key, value));
            },
            None => {
                proof {
                    lemma_entries_map_push(entries@, (key, value));
                    let pushed = entries@.push((key, value));
                    assert forall|a: int, b: int| 0 <= a < b < pushed.len() implies #[trigger] key_at(
                        pushed,
                        a,
                    ) != #[trigger] key_at(pushed, b) by {
                        if b == pushed.len() - 1 {
                            assert(key_at(entries@, a) != key@);
                        } else {
                            assert(key_at(entries@, a) != key_at(entries@, b));
                        }
                    }
                }
                entries.push((key, value));
            },
        }
        std::mem::swap(&mut self.entries, &mut entries);
    }

    /// Takes every binding of `other` into this map. A name bound in both
    /// ends up with the value from `other`; every other binding is kept.
    pub fn extend(&mut self, other: &Properties)
        ensures
            final(self)@ == old(self)@.union_prefer_right(other@),
    {
        let mut i: usize = 0;
        assert(other.entries@.take(0) == Seq::<(String, PropValue)>::empty());
        assert(self@ == old(self)@.union_prefer_right(entries_map(other.entries@.take(0))));
        while i < other.entries.len()
            invariant
                i <= other.entries@.len(),
                self@ == old(self)@.union_prefer_right(entries_map(other.entries@.take(i as int))),
            decreases other.entries@.len() - i,
        {
            let key = other.entries[i].0.clone();
            let value = other.entries[i].1.duplicate();
            proof {
                let before = other.entries@.take(i as int);
                let after = other.entries@.take(i + 1);
                assert(after.drop_last() == before);
                assert(after.last() == other.entries@[i as int]);
                assert(old(self)@.union_prefer_right(entries_map(before)).insert(key@, value@)
                    == old(self)@.union_prefer_right(entries_map(after)));
            }
            self.insert(key, value);
            i += 1;
        }
        assert(other.entries@.take(i as int) == other.entries@);
    }
}

/// Merging an extension over a base: every name of the extension ends up
/// with the extension's value, whatever the base held for it; every name
/// that the extension lacks keeps the value that the base held; and the
/// merged map binds no other name.
pub proof fn lemma_extension_overwrites(base: PropMap, extension: PropMap)
    ensures
        forall|key: Seq<char>|
            extension.contains_key(key) ==> #[trigger] base.union_prefer_right(
                extension,
            ).contains_key(key) && base.union_prefer_right(extension)[key] == extension[key],
        forall|key: Seq<char>|
            base.contains_key(key) && !extension.contains_key(key)
                ==> #[trigger] base.union_prefer_right(extension).contains_key(key)
                && base.union_prefer_right(extension)[key] == base[key],
        forall|key: Seq<char>| #[trigger]
            base.union_prefer_right(extension).contains_key(key) ==> base.contains_key(key)
                || extension.contains_key(key),
{
}

} // verus!
