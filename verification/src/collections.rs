//! Ordered collections of text.
//!
//! Both collections keep their entries in ascending order of Unicode scalar
//! values, without duplicates, so that equal contents have one
//! representation and one encoding.

use vstd::prelude::*;

verus! {

/// Whether `a` comes strictly before `b` in the lexicographic order of
/// Unicode scalar values.
pub open spec fn text_lt(a: Seq<char>, b: Seq<char>) -> bool
    decreases a.len(),
{
    if b.len() == 0 {
        false
    } else if a.len() == 0 {
        true
    } else if a[0] != b[0] {
        (a[0] as int) < (b[0] as int)
    } else {
        text_lt(a.drop_first(), b.drop_first())
    }
}

/// Whether the entries of `s` are strictly ascending.
pub open spec fn ascending(s: Seq<Seq<char>>) -> bool {
    forall|i: int, j: int| 0 <= i < j < s.len() ==> text_lt(#[trigger] s[i], #[trigger] s[j])
}

/// The texts that a sequence of strings holds.
pub open spec fn texts(s: Seq<String>) -> Seq<Seq<char>> {
    Seq::new(s.len(), |i: int| s[i]@)
}

/// The texts that a sequence of string pairs holds.
pub open spec fn text_pairs(s: Seq<(String, String)>) -> Seq<(Seq<char>, Seq<char>)> {
    Seq::new(s.len(), |i: int| (s[i].0@, s[i].1@))
}

/// The first texts of a sequence of pairs.
pub open spec fn keys(s: Seq<(Seq<char>, Seq<char>)>) -> Seq<Seq<char>> {
    Seq::new(s.len(), |i: int| s[i].0)
}

/// No text comes before itself.
pub proof fn text_lt_irreflexive(a: Seq<char>)
    ensures
        !text_lt(a, a),
    decreases a.len(),
{
    if a.len() > 0 {
        text_lt_irreflexive(a.drop_first());
    }
}

/// The order of texts is transitive.
pub proof fn text_lt_transitive(a: Seq<char>, b: Seq<char>, c: Seq<char>)
    requires
        text_lt(a, b),
        text_lt(b, c),
    ensures
        text_lt(a, c),
    decreases a.len(),
{
    if a.len() > 0 && a[0] == b[0] && b[0] == c[0] {
        text_lt_transitive(a.drop_first(), b.drop_first(), c.drop_first());
    }
}

/// Of two different texts one comes before the other.
pub proof fn text_lt_total(a: Seq<char>, b: Seq<char>)
    requires
        a != b,
    ensures
        text_lt(a, b) || text_lt(b, a),
    decreases a.len(),
{
    if a.len() == 0 || b.len() == 0 {
        assert(a.len() == 0 && b.len() == 0 ==> a =~= b);
    } else if a[0] == b[0] {
        if a.drop_first() == b.drop_first() {
            assert(a =~= seq![a[0]] + a.drop_first());
            assert(b =~= seq![b[0]] + b.drop_first());
        }
        text_lt_total(a.drop_first(), b.drop_first());
    }
}

/// Whether `a` comes strictly before `b`.
pub fn text_less(a: &str, b: &str) -> (r: bool)
    ensures
        r == text_lt(a@, b@),
{
    let a_len: usize = a.unicode_len();
    let b_len: usize = b.unicode_len();
    let mut i: usize = 0;
    assert(a@.skip(0) =~= a@ && b@.skip(0) =~= b@);
    while i < a_len && i < b_len
        invariant
            i <= a_len == a@.len(),
            i <= b_len == b@.len(),
            text_lt(a@, b@) == text_lt(a@.skip(i as int), b@.skip(i as int)),
        decreases a_len - i,
    {
        let x: char = a.get_char(i);
        let y: char = b.get_char(i);
        if x != y {
            return (x as u32) < (y as u32);
        }
        assert(a@.skip(i as int).drop_first() =~= a@.skip(i + 1));
        assert(b@.skip(i as int).drop_first() =~= b@.skip(i + 1));
        i = i + 1;
    }
    b_len > i
}

/// A set of texts in ascending order.
#[derive(Debug, Eq, PartialEq)]
pub struct TextSet {
    items: Vec<String>,
}

impl Clone for TextSet {
    fn clone(&self) -> (r: Self)
        ensures
            r@ == self@,
    {
        proof {
            use_type_invariant(self);
        }
        let items: Vec<String> = self.items.clone();
        assert(texts(items@) =~= texts(self.items@));
        TextSet { items }
    }
}

impl View for TextSet {
    type V = Seq<Seq<char>>;

    closed spec fn view(&self) -> Seq<Seq<char>> {
        texts(self.items@)
    }
}

impl TextSet {
    #[verifier::type_invariant]
    spec fn inv(self) -> bool {
        ascending(texts(self.items@))
    }

    /// Creates an empty set.
    pub fn new() -> (s: Self)
        ensures
            s@ == Seq::<Seq<char>>::empty(),
    {
        let items: Vec<String> = Vec::new();
        assert(texts(items@) =~= Seq::<Seq<char>>::empty());
        TextSet { items }
    }

    /// Takes over entries that are already ascending.
    pub(crate) fn from_ascending(items: Vec<String>) -> (s: Self)
        requires
            ascending(texts(items@)),
        ensures
            s@ == texts(items@),
    {
        TextSet { items }
    }

    /// Returns the number of entries.
    pub fn len(&self) -> (n: usize)
        ensures
            n == self@.len(),
    {
        self.items.len()
    }

    /// Returns whether the set has no entries.
    pub fn is_empty(&self) -> (r: bool)
        ensures
            r == (self@.len() == 0),
    {
        self.items.len() == 0
    }

    /// Returns the entries in ascending order.
    pub fn items(&self) -> (items: &Vec<String>)
        ensures
            texts(items@) == self@,
            ascending(texts(items@)),
    {
        proof {
            use_type_invariant(self);
        }
        &self.items
    }

    /// Returns whether `text` is in the set.
    pub fn contains(&self, text: &str) -> (found: bool)
        ensures
            found == self@.contains(text@),
    {
        let mut i: usize = 0;
        while i < self.items.len()
            invariant
                i <= self.items@.len(),
                forall|k: int| 0 <= k < i ==> #[trigger] self@[k] != text@,
            decreases self.items@.len() - i,
        {
            let item = self.items[i].as_str();
            assert(self@[i as int] == item@);
            let before = text_less(item, text);
            let after = text_less(text, item);
            if !before && !after {
                proof {
                    if item@ != text@ {
                        text_lt_total(item@, text@);
                    }
                }
                return true;
            }
            proof {
                text_lt_irreflexive(text@);
            }
            i = i + 1;
        }
        false
    }

    /// Adds `text`. An entry that is already there stays as it is.
    pub fn insert(&mut self, text: String)
        ensures
            final(self)@.to_set() == old(self)@.to_set().insert(text@),
            ascending(final(self)@),
    {
        proof {
            use_type_invariant(&*self);
        }
        let ghost before = self@;
        let mut items: Vec<String> = Vec::new();
        std::mem::swap(&mut items, &mut self.items);
        let n: usize = items.len();
        let mut i: usize = 0;
        while i < n && text_less(items[i].as_str(), text.as_str())
            invariant
                i <= n == items@.len(),
                forall|k: int| 0 <= k < i ==> text_lt(#[trigger] items@[k]@, text@),
            decreases n - i,
        {
            i = i + 1;
        }
        assert(texts(items@) == before);
        if i == n || text_less(text.as_str(), items[i].as_str()) {
            let ghost t = text@;
            items.insert(i, text);
            proof {
                assert(texts(items@) =~= before.insert(i as int, t));
                lemma_insert_ascending(before, i as int, t);
                lemma_insert_to_set(before, i as int, t);
            }
        } else {
            proof {
                if items@[i as int]@ != text@ {
                    text_lt_total(items@[i as int]@, text@);
                }
                assert(before[i as int] == text@);
                assert(before.to_set().contains(text@));
                assert(before.to_set() =~= before.to_set().insert(text@));
            }
        }
        self.items = items;
    }
}

proof fn lemma_insert_ascending(s: Seq<Seq<char>>, i: int, t: Seq<char>)
    requires
        ascending(s),
        0 <= i <= s.len(),
        forall|k: int| 0 <= k < i ==> text_lt(#[trigger] s[k], t),
        i < s.len() ==> text_lt(t, s[i]),
    ensures
        ascending(s.insert(i, t)),
{
    let u = s.insert(i, t);
    assert forall|a: int, b: int| 0 <= a < b < u.len() implies text_lt(
        #[trigger] u[a],
        #[trigger] u[b],
    ) by {
        if a == i {
            if b > i + 1 {
                text_lt_transitive(t, s[i], s[b - 1]);
            }
        } else if b == i {
            assert(u[a] == s[a]);
        } else {
            let sa = if a < i { a } else { a - 1 };
            let sb = if b < i { b } else { b - 1 };
            assert(u[a] == s[sa] && u[b] == s[sb]);
        }
    }
}

proof fn lemma_insert_to_set(s: Seq<Seq<char>>, i: int, t: Seq<char>)
    requires
        0 <= i <= s.len(),
    ensures
        s.insert(i, t).to_set() == s.to_set().insert(t),
{
    let u = s.insert(i, t);
    assert forall|x: Seq<char>| u.to_set().contains(x) <==> s.to_set().insert(t).contains(x) by {
        if u.contains(x) {
            let k = choose|k: int| 0 <= k < u.len() && u[k] == x;
            if k < i {
                assert(s[k] == x);
            } else if k > i {
                assert(s[k - 1] == x);
            }
        }
        if x == t {
            assert(u[i] == x);
        }
        if s.contains(x) {
            let k = choose|k: int| 0 <= k < s.len() && s[k] == x;
            if k < i {
                assert(u[k] == x);
            } else {
                assert(u[k + 1] == x);
            }
        }
    }
    assert(u.to_set() =~= s.to_set().insert(t));
}

/// The value that `entries` hold under `key`: that of the first entry with
/// the key.
pub open spec fn lookup(entries: Seq<(Seq<char>, Seq<char>)>, key: Seq<char>) -> Option<Seq<char>>
    decreases entries.len(),
{
    if entries.len() == 0 {
        None
    } else if entries[0].0 == key {
        Some(entries[0].1)
    } else {
        lookup(entries.drop_first(), key)
    }
}

/// A map from text to text, in ascending order of its keys.
#[derive(Debug, Eq, PartialEq)]
pub struct TextMap {
    entries: Vec<(String, String)>,
}

impl Clone for TextMap {
    fn clone(&self) -> (r: Self)
        ensures
            r@ == self@,
    {
        proof {
            use_type_invariant(self);
        }
        let mut entries: Vec<(String, String)> = Vec::new();
        let mut i: usize = 0;
        while i < self.entries.len()
            invariant
                i == entries@.len(),
                i <= self.entries@.len(),
                text_pairs(entries@) == text_pairs(self.entries@).take(i as int),
            decreases self.entries@.len() - i,
        {
            entries.push((self.entries[i].0.clone(), self.entries[i].1.clone()));
            i = i + 1;
            assert(text_pairs(entries@) =~= text_pairs(self.entries@).take(i as int));
        }
        assert(text_pairs(entries@) =~= text_pairs(self.entries@));
        TextMap { entries }
    }
}

impl View for TextMap {
    type V = Seq<(Seq<char>, Seq<char>)>;

    closed spec fn view(&self) -> Seq<(Seq<char>, Seq<char>)> {
        text_pairs(self.entries@)
    }
}

impl TextMap {
    #[verifier::type_invariant]
    spec fn inv(self) -> bool {
        ascending(keys(text_pairs(self.entries@)))
    }

    /// Creates an empty map.
    pub fn new() -> (m: Self)
        ensures
            m@ == Seq::<(Seq<char>, Seq<char>)>::empty(),
    {
        let entries: Vec<(String, String)> = Vec::new();
        assert(text_pairs(entries@) =~= Seq::<(Seq<char>, Seq<char>)>::empty());
        TextMap { entries }
    }

    /// Takes over entries whose keys are already ascending.
    pub(crate) fn from_ascending(entries: Vec<(String, String)>) -> (m: Self)
        requires
            ascending(keys(text_pairs(entries@))),
        ensures
            m@ == text_pairs(entries@),
    {
        TextMap { entries }
    }

    /// Returns the entries in ascending order of their keys.
    pub fn entries(&self) -> (entries: &Vec<(String, String)>)
        ensures
            text_pairs(entries@) == self@,
            ascending(keys(text_pairs(entries@))),
    {
        proof {
            use_type_invariant(self);
        }
        &self.entries
    }

    /// Stores `value` under `key`, in place of a value that was there.
    pub fn insert(&mut self, key: String, value: String)
        ensures
            forall|k: Seq<char>|
                #[trigger] lookup(final(self)@, k) == (if k == key@ {
                    Some(value@)
                } else {
                    lookup(old(self)@, k)
                }),
            ascending(keys(final(self)@)),
    {
        proof {
            use_type_invariant(&*self);
        }
        let ghost before = self@;
        let ghost new_key = key@;
        let ghost new_value = value@;
        let mut entries: Vec<(String, String)> = Vec::new();
        assert(text_pairs(entries@) =~= Seq::<(Seq<char>, Seq<char>)>::empty());
        std::mem::swap(&mut entries, &mut self.entries);
        let n: usize = entries.len();
        let mut i: usize = 0;
        while i < n && text_less(entries[i].0.as_str(), key.as_str())
            invariant
                i <= n == entries@.len(),
                forall|k: int| 0 <= k < i ==> text_lt(#[trigger] entries@[k].0@, key@),
            decreases n - i,
        {
            i = i + 1;
        }
        assert(text_pairs(entries@) == before);
        assert(forall|k: int|
            0 <= k < before.len() ==> keys(before)[k] == #[trigger] entries@[k].0@);
        if i < n && !text_less(key.as_str(), entries[i].0.as_str()) {
            proof {
                if entries@[i as int].0@ != key@ {
                    text_lt_total(entries@[i as int].0@, key@);
                }
            }
            entries.set(i, (key, value));
            proof {
                assert(text_pairs(entries@) =~= before.update(i as int, (new_key, new_value)));
                assert(keys(text_pairs(entries@)) =~= keys(before));
                assert forall|k: Seq<char>| #[trigger]
                    lookup(text_pairs(entries@), k) == (if k == new_key {
                        Some(new_value)
                    } else {
                        lookup(before, k)
                    }) by {
                    lemma_lookup_update(before, i as int, new_key, new_value, k);
                }
            }
        } else {
            entries.insert(i, (key, value));
            proof {
                assert(text_pairs(entries@) =~= before.insert(i as int, (new_key, new_value)));
                assert(keys(text_pairs(entries@)) =~= keys(before).insert(i as int, new_key));
                lemma_insert_ascending(keys(before), i as int, new_key);
                assert forall|k: Seq<char>| #[trigger]
                    lookup(text_pairs(entries@), k) == (if k == new_key {
                        Some(new_value)
                    } else {
                        lookup(before, k)
                    }) by {
                    lemma_lookup_insert(before, i as int, new_key, new_value, k);
                }
            }
        }
        self.entries = entries;
    }
}

proof fn lemma_lookup_insert(
    s: Seq<(Seq<char>, Seq<char>)>,
    i: int,
    key: Seq<char>,
    value: Seq<char>,
    k: Seq<char>,
)
    requires
        0 <= i <= s.len(),
        forall|j: int| 0 <= j < i ==> text_lt(#[trigger] s[j].0, key),
    ensures
        lookup(s.insert(i, (key, value)), k) == (if k == key {
            Some(value)
        } else {
            lookup(s, k)
        }),
    decreases s.len(),
{
    let u = s.insert(i, (key, value));
    if i == 0 {
        assert(u.drop_first() =~= s);
    } else {
        text_lt_irreflexive(key);
        assert(u[0] == s[0]);
        assert(u.drop_first() =~= s.drop_first().insert(i - 1, (key, value)));
        assert forall|j: int| 0 <= j < i - 1 implies text_lt(
            #[trigger] s.drop_first()[j].0,
            key,
        ) by {
            assert(s.drop_first()[j] == s[j + 1]);
        }
        lemma_lookup_insert(s.drop_first(), i - 1, key, value, k);
    }
}

proof fn lemma_lookup_update(
    s: Seq<(Seq<char>, Seq<char>)>,
    i: int,
    key: Seq<char>,
    value: Seq<char>,
    k: Seq<char>,
)
    requires
        0 <= i < s.len(),
        s[i].0 == key,
        forall|j: int| 0 <= j < i ==> text_lt(#[trigger] s[j].0, key),
    ensures
        lookup(s.update(i, (key, value)), k) == (if k == key {
            Some(value)
        } else {
            lookup(s, k)
        }),
    decreases s.len(),
{
    let u = s.update(i, (key, value));
    if i == 0 {
        assert(u.drop_first() =~= s.drop_first());
    } else {
        text_lt_irreflexive(key);
        assert(u[0] == s[0]);
        assert(u.drop_first() =~= s.drop_first().update(i - 1, (key, value)));
        assert forall|j: int| 0 <= j < i - 1 implies text_lt(
            #[trigger] s.drop_first()[j].0,
            key,
        ) by {
            assert(s.drop_first()[j] == s[j + 1]);
        }
        lemma_lookup_update(s.drop_first(), i - 1, key, value, k);
    }
}

/// Whether the texts first differ at `k`, where `a` has ended or has the
/// smaller scalar value.
pub open spec fn is_before_at(a: Seq<char>, b: Seq<char>, k: int) -> bool {
    &&& 0 <= k <= a.len() && k < b.len()
    &&& forall|i: int| 0 <= i < k ==> a[i] == b[i]
    &&& k < a.len() ==> (a[k] as int) < (b[k] as int)
}

proof fn lemma_before_at(a: Seq<char>, b: Seq<char>)
    ensures
        text_lt(a, b) <==> exists|k: int| is_before_at(a, b, k),
    decreases a.len(),
{
    if b.len() == 0 {
    } else if a.len() == 0 {
        assert(is_before_at(a, b, 0));
    } else if a[0] != b[0] {
        if text_lt(a, b) {
            assert(is_before_at(a, b, 0));
        }
    } else {
        let at = a.drop_first();
        let bt = b.drop_first();
        lemma_before_at(at, bt);
        if text_lt(a, b) {
            let k = choose|k: int| is_before_at(at, bt, k);
            assert forall|i: int| 0 <= i < k + 1 implies a[i] == b[i] by {
                if i > 0 {
                    assert(at[i - 1] == bt[i - 1]);
                }
            }
            assert(k < at.len() ==> at[k] == a[k + 1] && bt[k] == b[k + 1]);
            assert(is_before_at(a, b, k + 1));
        }
        if exists|k: int| is_before_at(a, b, k) {
            let k = choose|k: int| is_before_at(a, b, k);
            assert forall|i: int| 0 <= i < k - 1 implies at[i] == bt[i] by {
                assert(a[i + 1] == b[i + 1]);
            }
            assert(is_before_at(at, bt, k - 1));
        }
    }
}

/// Texts are ordered by the scalar values at the first place where they
/// differ, and a text that is the front of another one comes before it.
pub proof fn texts_are_ordered_by_scalar_values(a: &str, b: &str, less: bool)
    requires
        call_ensures(text_less, (a, b), less),
    ensures
        less <==> exists|k: int| is_before_at(a@, b@, k),
{
    lemma_before_at(a@, b@);
}

/// A set starts empty. What was added is in it, and so is what was in it
/// before, and nothing else.
pub proof fn set_holds_what_was_added(
    fresh: TextSet,
    in_fresh: bool,
    set: &mut TextSet,
    text: String,
    probe: &str,
    before: bool,
    after: bool,
)
    requires
        call_ensures(TextSet::new, (), fresh),
        call_ensures(TextSet::contains, (&fresh, probe), in_fresh),
        call_ensures(TextSet::contains, (&*old(set), probe), before),
        call_ensures(TextSet::insert, (set, text), ()),
        call_ensures(TextSet::contains, (&*final(set), probe), after),
    ensures
        !in_fresh,
        after <==> before || probe@ == text@,
{
    assert(final(set)@.to_set().contains(probe@) <==> old(set)@.to_set().insert(text@).contains(
        probe@,
    ));
}

/// The entries of a set are its contents, strictly ascending, and its length
/// is their number. A clone has the same contents.
pub proof fn set_entries_are_its_contents(
    set: TextSet,
    items: &Vec<String>,
    len: usize,
    empty: bool,
    probe: &str,
    found: bool,
    clone: TextSet,
    in_clone: bool,
)
    requires
        call_ensures(TextSet::items, (&set,), items),
        call_ensures(TextSet::len, (&set,), len),
        call_ensures(TextSet::is_empty, (&set,), empty),
        call_ensures(TextSet::contains, (&set, probe), found),
        call_ensures(<TextSet as Clone>::clone, (&set,), clone),
        call_ensures(TextSet::contains, (&clone, probe), in_clone),
    ensures
        found <==> exists|i: int| 0 <= i < items@.len() && #[trigger] items@[i]@ == probe@,
        forall|i: int, j: int|
            0 <= i < j < items@.len() ==> text_lt(#[trigger] items@[i]@, #[trigger] items@[j]@),
        len == items@.len(),
        empty <==> items@.len() == 0,
        in_clone == found,
        clone@ == set@,
{
    assert(set@ == texts(items@));
    assert forall|i: int, j: int| 0 <= i < j < items@.len() implies text_lt(
        #[trigger] items@[i]@,
        #[trigger] items@[j]@,
    ) by {
        assert(text_lt(texts(items@)[i], texts(items@)[j]));
    }
    if found {
        let i = choose|i: int| 0 <= i < set@.len() && set@[i] == probe@;
        assert(items@[i]@ == probe@);
    }
    if exists|i: int| 0 <= i < items@.len() && #[trigger] items@[i]@ == probe@ {
        let i = choose|i: int| 0 <= i < items@.len() && #[trigger] items@[i]@ == probe@;
        assert(set@[i] == probe@);
    }
}

proof fn lemma_lookup_is_entry(s: Seq<(Seq<char>, Seq<char>)>, key: Seq<char>, value: Seq<char>)
    requires
        ascending(keys(s)),
    ensures
        s.contains((key, value)) <==> lookup(s, key) == Some(value),
    decreases s.len(),
{
    if s.len() > 0 {
        let rest = s.drop_first();
        assert forall|i: int, j: int| 0 <= i < j < keys(rest).len() implies text_lt(
            #[trigger] keys(rest)[i],
            #[trigger] keys(rest)[j],
        ) by {
            assert(text_lt(keys(s)[i + 1], keys(s)[j + 1]));
        }
        lemma_lookup_is_entry(rest, key, value);
        if s.contains((key, value)) {
            let i = choose|i: int| 0 <= i < s.len() && s[i] == (key, value);
            if i > 0 {
                assert(text_lt(keys(s)[0], keys(s)[i]));
                text_lt_irreflexive(key);
                assert(rest[i - 1] == (key, value));
            }
        }
        if s[0].0 == key {
            if lookup(s, key) == Some(value) {
                assert(s[0] == (key, value));
            }
        } else if rest.contains((key, value)) {
            let i = choose|i: int| 0 <= i < rest.len() && rest[i] == (key, value);
            assert(s[i + 1] == (key, value));
        }
    }
}

/// A map starts empty. What was stored last under a key is what it holds
/// there, the values under all other keys stay, and nothing else comes in.
pub proof fn map_holds_what_was_stored_last(
    fresh: TextMap,
    first: &Vec<(String, String)>,
    map: &mut TextMap,
    before: &Vec<(String, String)>,
    key: String,
    value: String,
    after: &Vec<(String, String)>,
    k: Seq<char>,
    v: Seq<char>,
)
    requires
        call_ensures(TextMap::new, (), fresh),
        call_ensures(TextMap::entries, (&fresh,), first),
        call_ensures(TextMap::entries, (&*old(map),), before),
        call_ensures(TextMap::insert, (map, key, value), ()),
        call_ensures(TextMap::entries, (&*final(map),), after),
    ensures
        first@.len() == 0,
        (exists|i: int| 0 <= i < after@.len() && #[trigger] after@[i].0@ == k && after@[i].1@ == v)
            <==> (if k == key@ {
            v == value@
        } else {
            exists|i: int|
                0 <= i < before@.len() && #[trigger] before@[i].0@ == k && before@[i].1@ == v
        }),
        forall|i: int, j: int|
            0 <= i < j < after@.len() ==> text_lt(#[trigger] after@[i].0@, #[trigger] after@[j].0@),
{
    assert(text_pairs(first@).len() == 0);
    lemma_entry_is_pair(before@, k, v);
    lemma_entry_is_pair(after@, k, v);
    lemma_lookup_is_entry(old(map)@, k, v);
    lemma_lookup_is_entry(final(map)@, k, v);
    assert(lookup(final(map)@, k) == (if k == key@ {
        Some(value@)
    } else {
        lookup(old(map)@, k)
    }));
    assert forall|i: int, j: int| 0 <= i < j < after@.len() implies text_lt(
        #[trigger] after@[i].0@,
        #[trigger] after@[j].0@,
    ) by {
        assert(text_lt(keys(text_pairs(after@))[i], keys(text_pairs(after@))[j]));
    }
}

proof fn lemma_entry_is_pair(entries: Seq<(String, String)>, k: Seq<char>, v: Seq<char>)
    ensures
        text_pairs(entries).contains((k, v)) <==> exists|i: int|
            0 <= i < entries.len() && #[trigger] entries[i].0@ == k && entries[i].1@ == v,
{
    let pairs = text_pairs(entries);
    if pairs.contains((k, v)) {
        let i = choose|i: int| 0 <= i < pairs.len() && pairs[i] == (k, v);
        assert(entries[i].0@ == k && entries[i].1@ == v);
    }
    if exists|i: int|
        0 <= i < entries.len() && #[trigger] entries[i].0@ == k && entries[i].1@ == v {
        let i = choose|i: int|
            0 <= i < entries.len() && #[trigger] entries[i].0@ == k && entries[i].1@ == v;
        assert(pairs[i] == (k, v));
    }
}

/// A clone of a map has the same entries.
pub proof fn map_clone_has_the_same_entries(
    map: TextMap,
    clone: TextMap,
    entries: &Vec<(String, String)>,
    cloned: &Vec<(String, String)>,
)
    requires
        call_ensures(<TextMap as Clone>::clone, (&map,), clone),
        call_ensures(TextMap::entries, (&map,), entries),
        call_ensures(TextMap::entries, (&clone,), cloned),
    ensures
        clone@ == map@,
        cloned@.len() == entries@.len(),
        forall|i: int|
            0 <= i < entries@.len() ==> cloned@[i].0@ == (#[trigger] entries@[i]).0@
                && cloned@[i].1@ == entries@[i].1@,
{
    let a = text_pairs(entries@);
    let b = text_pairs(cloned@);
    assert(a == b);
    assert forall|i: int| 0 <= i < entries@.len() implies cloned@[i].0@ == (
    #[trigger] entries@[i]).0@ && cloned@[i].1@ == entries@[i].1@ by {
        assert(a[i] == b[i]);
    }
}

} // verus!
