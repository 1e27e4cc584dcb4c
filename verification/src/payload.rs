use vstd::prelude::*;

verus! {

/// The mathematical model of a payload tree.
///
/// Integers are unbounded here; a tree built from machine values only holds
/// integers between `-(2^63)` and `2^64 - 1`. A float is kept as the bit
/// pattern of a finite double. An object is a finite mapping, so two objects
/// with the same entries are the same whatever order they were built in.
pub ghost enum Json {
    Null,
    Bool(bool),
    Int(int),
    Float(u64),
    Str(Seq<char>),
    Arr(Seq<Json>),
    Obj(Map<Seq<char>, Json>),
}

impl Json {
    /// The member stored under `key`, when this is an object that has one.
    pub open spec fn member(self, key: Seq<char>) -> Option<Json> {
        match self {
            Json::Obj(m) => if m.contains_key(key) {
                Some(m[key])
            } else {
                None
            },
            _ => None,
        }
    }

    /// The text of a string node.
    pub open spec fn text(self) -> Option<Seq<char>> {
        match self {
            Json::Str(s) => Some(s),
            _ => None,
        }
    }

    /// The value of an integer node that fits in 64 unsigned bits.
    pub open spec fn unsigned(self) -> Option<u64> {
        match self {
            Json::Int(n) => if 0 <= n <= u64::MAX {
                Some(n as u64)
            } else {
                None
            },
            _ => None,
        }
    }
}

/// A dynamically typed payload tree.
///
/// `Float` holds the bit pattern of a double; a pattern that is not a finite
/// number stands for null, since such a number has no place in a payload.
/// `Object` keeps its entries in the order they were written; where a key
/// occurs twice the later entry is the one that counts.
#[derive(Debug, PartialEq, Eq)]
pub enum Payload {
    Null,
    Bool(bool),
    PosInt(u64),
    NegInt(i64),
    Float(u64),
    String(String),
    Array(Vec<Payload>),
    Object(Vec<(String, Payload)>),
}

/// Whether a bit pattern of a double is a finite number: its eleven exponent
/// bits are not all set.
pub open spec fn finite_bits(bits: u64) -> bool {
    (bits >> 52) & 0x7FF != 0x7FF
}

/// The models of the items of an array, in order.
pub open spec fn items_view(items: Seq<Payload>) -> Seq<Json>
    decreases items,
{
    if items.len() == 0 {
        Seq::empty()
    } else {
        items_view(items.drop_last()).push(items.last().view())
    }
}

/// The mapping that a list of entries stands for: later entries override
/// earlier ones with the same key.
pub open spec fn entries_view(entries: Seq<(String, Payload)>) -> Map<Seq<char>, Json>
    decreases entries,
{
    if entries.len() == 0 {
        Map::empty()
    } else {
        entries_view(entries.drop_last()).insert(entries.last().0@, entries.last().1.view())
    }
}

impl View for Payload {
    type V = Json;

    open spec fn view(&self) -> Json
        decreases self,
    {
        match self {
            Payload::Null => Json::Null,
            Payload::Bool(b) => Json::Bool(*b),
            Payload::PosInt(n) => Json::Int(*n as int),
            Payload::NegInt(n) => Json::Int(*n as int),
            Payload::Float(bits) => if finite_bits(*bits) {
                Json::Float(*bits)
            } else {
                Json::Null
            },
            Payload::String(s) => Json::Str(s@),
            Payload::Array(items) => Json::Arr(items_view(items@)),
            Payload::Object(entries) => Json::Obj(entries_view(entries@)),
        }
    }
}

/// `items_view` maps item by item.
pub proof fn lemma_items_view(items: Seq<Payload>)
    ensures
        items_view(items).len() == items.len(),
        forall|i: int| 0 <= i < items.len() ==> #[trigger] items_view(items)[i] == items[i]@,
    decreases items.len(),
{
    if items.len() > 0 {
        let front = items.drop_last();
        lemma_items_view(front);
        assert(items_view(items) == items_view(front).push(items.last()@));
        assert forall|i: int| 0 <= i < items.len() implies #[trigger] items_view(items)[i]
            == items[i]@ by {
            if i < front.len() {
                assert(front[i] == items[i]);
            }
        }
    }
}

/// Two lists of items with the same models, item by item, have the same model.
pub proof fn lemma_items_view_same(a: Seq<Payload>, b: Seq<Payload>)
    requires
        a.len() == b.len(),
        forall|i: int| 0 <= i < a.len() ==> #[trigger] a[i]@ == b[i]@,
    ensures
        items_view(a) == items_view(b),
{
    lemma_items_view(a);
    lemma_items_view(b);
    assert(items_view(a) =~= items_view(b));
}

/// What a list of entries holds under `key`: the value of the last entry
/// with that key.
pub open spec fn entries_lookup(entries: Seq<(String, Payload)>, key: Seq<char>) -> Option<Json>
    decreases entries.len(),
{
    if entries.len() == 0 {
        None
    } else if entries.last().0@ == key {
        Some(entries.last().1@)
    } else {
        entries_lookup(entries.drop_last(), key)
    }
}

/// The mapping of a list of entries holds under each key what a search from
/// the back finds.
pub proof fn lemma_entries_lookup(entries: Seq<(String, Payload)>, key: Seq<char>)
    ensures
        Json::Obj(entries_view(entries)).member(key) == entries_lookup(entries, key),
    decreases entries.len(),
{
    if entries.len() > 0 {
        let front = entries.drop_last();
        lemma_entries_lookup(front, key);
        assert(entries_view(entries) == entries_view(front).insert(
            entries.last().0@,
            entries.last().1@,
        ));
    }
}

/// Two lists of entries with the same keys and the same models, entry by
/// entry, stand for the same mapping.
pub proof fn lemma_entries_view_same(a: Seq<(String, Payload)>, b: Seq<(String, Payload)>)
    requires
        a.len() == b.len(),
        forall|i: int| 0 <= i < a.len() ==> (#[trigger] a[i]).0@ == b[i].0@,
        forall|i: int| 0 <= i < a.len() ==> (#[trigger] a[i]).1@ == b[i].1@,
    ensures
        entries_view(a) == entries_view(b),
    decreases a.len(),
{
    if a.len() > 0 {
        let n = a.len() - 1;
        let fa = a.drop_last();
        let fb = b.drop_last();
        assert(a[n].0@ == b[n].0@ && a[n].1@ == b[n].1@);
        assert forall|i: int| 0 <= i < fa.len() implies (#[trigger] fa[i]).0@ == fb[i].0@ by {
            assert(a[i].0@ == b[i].0@);
        }
        assert forall|i: int| 0 <= i < fa.len() implies (#[trigger] fa[i]).1@ == fb[i].1@ by {
            assert(a[i].1@ == b[i].1@);
        }
        lemma_entries_view_same(fa, fb);
    }
}

impl Payload {
    /// A string node with the given text.
    pub fn text(s: &str) -> (out: Payload)
        ensures
            out@ == Json::Str(s@),
    {
        Payload::String(s.to_owned())
    }

    /// The member stored under `key`, when this is an object that has one;
    /// `None` for every other node.
    pub fn get(&self, key: &str) -> (out: Option<&Payload>)
        ensures
            match out {
                Some(found) => self@.member(key@) == Some(found@),
                None => self@.member(key@) is None,
            },
    {
        match self {
            Payload::Object(entries) => {
                let wanted = key.to_owned();
                let mut i: usize = entries.len();
                proof {
                    lemma_entries_lookup(entries@, key@);
                    assert(entries@.take(i as int) =~= entries@);
                }
                while i > 0
                    invariant
                        i <= entries.len(),
                        wanted@ == key@,
                        self@.member(key@) == entries_lookup(entries@, key@),
                        entries_lookup(entries@, key@) == entries_lookup(
                            entries@.take(i as int),
                            key@,
                        ),
                    decreases i,
                {
                    i = i - 1;
                    proof {
                        let upto = entries@.take(i + 1);
                        assert(upto.last() == entries@[i as int]);
                        assert(upto.drop_last() =~= entries@.take(i as int));
                    }
                    if entries[i].0 == wanted {
                        return Some(&entries[i].1);
                    }
                }
                None
            },
            _ => None,
        }
    }

    /// The text of a string node; `None` for every other node.
    pub fn as_str(&self) -> (out: Option<&str>)
        ensures
            match out {
                Some(t) => self@.text() == Some(t@),
                None => self@.text() is None,
            },
    {
        match self {
            Payload::String(s) => Some(s.as_str()),
            _ => None,
        }
    }

    /// The value of an integer node that is not negative; `None` for a
    /// negative integer and for every other node.
    pub fn as_u64(&self) -> (out: Option<u64>)
        ensures
            out == self@.unsigned(),
    {
        match self {
            Payload::PosInt(n) => Some(*n),
            Payload::NegInt(n) => if *n >= 0 {
                Some(*n as u64)
            } else {
                None
            },
            _ => None,
        }
    }

    /// Whether this node is null.
    pub fn is_null(&self) -> (out: bool)
        ensures
            out == (self@ == Json::Null),
    {
        match self {
            Payload::Null => true,
            Payload::Float(bits) => {
                let exponent: u64 = (*bits >> 52) & 0x7FF;
                exponent == 0x7FF
            },
            _ => false,
        }
    }
}

/// Whether two strings hold the same text.
pub fn same_text(a: &str, b: &str) -> (out: bool)
    ensures
        out == (a@ == b@),
{
    let left = a.to_owned();
    let right = b.to_owned();
    left == right
}

/// Appends the entry `key: value` to a list of object entries. In the mapping
/// that the list stands for, `key` now leads to `value` and nothing else changed.
pub fn put(entries: &mut Vec<(String, Payload)>, key: &str, value: Payload)
    ensures
        final(entries)@.len() == old(entries)@.len() + 1,
        final(entries)@.drop_last() == old(entries)@,
        final(entries)@.last().0@ == key@,
        final(entries)@.last().1 == value,
        entries_view(final(entries)@) == entries_view(old(entries)@).insert(key@, value@),
{
    entries.push((key.to_owned(), value));
    proof {
        assert(entries@.drop_last() =~= old(entries)@);
    }
}

impl Clone for Payload {
    /// A copy of the tree: it has the same model.
    fn clone(&self) -> (out: Self)
        ensures
            out@ == self@,
        decreases self,
    {
        match self {
            Payload::Null => Payload::Null,
            Payload::Bool(b) => Payload::Bool(*b),
            Payload::PosInt(n) => Payload::PosInt(*n),
            Payload::NegInt(n) => Payload::NegInt(*n),
            Payload::Float(bits) => Payload::Float(*bits),
            Payload::String(s) => Payload::String(s.clone()),
            Payload::Array(items) => {
                let mut copy: Vec<Payload> = Vec::new();
                let mut i: usize = 0;
                while i < items.len()
                    invariant
                        i <= items.len(),
                        copy.len() == i,
                        decreases_to!(*self => *items),
                        forall|j: int| 0 <= j < i ==> #[trigger] copy@[j]@ == items@[j]@,
                    decreases items.len() - i,
                {
                    proof {
                        assert(decreases_to!(*items => items[i as int]));
                    }
                    let item = items[i].clone();
                    copy.push(item);
                    i = i + 1;
                }
                proof {
                    lemma_items_view_same(copy@, items@);
                }
                Payload::Array(copy)
            },
            Payload::Object(entries) => {
                let mut copy: Vec<(String, Payload)> = Vec::new();
                let mut i: usize = 0;
                while i < entries.len()
                    invariant
                        i <= entries.len(),
                        copy.len() == i,
                        decreases_to!(*self => *entries),
                        forall|j: int| 0 <= j < i ==> (#[trigger] copy@[j]).0@ == entries@[j].0@,
                        forall|j: int| 0 <= j < i ==> (#[trigger] copy@[j]).1@ == entries@[j].1@,
                    decreases entries.len() - i,
                {
                    let key = entries[i].0.clone();
                    proof {
                        assert(decreases_to!(*entries => entries[i as int]));
                    }
                    let value = entries[i].1.clone();
                    copy.push((key, value));
                    i = i + 1;
                }
                proof {
                    lemma_entries_view_same(copy@, entries@);
                }
                Payload::Object(copy)
            },
        }
    }
}

} // verus!
