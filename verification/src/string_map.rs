//! An insertion-ordered mapping from text to text.
//!
//! Entries are kept in the order in which their names first arrived, and no
//! name occurs twice: giving a name a second value replaces the first.
//! Names are compared as exact texts; how header names are compared is the
//! business of the module `headers`.

use vstd::prelude::*;
use crate::text::same_text;

verus! {

/// Some entry of `s` has the name `name`.
pub open spec fn has_name(s: Seq<(Seq<char>, Seq<char>)>, name: Seq<char>) -> bool {
    exists|i: int| 0 <= i < s.len() && (#[trigger] s[i]).0 == name
}

/// No two entries of `s` have the same name.
pub open spec fn distinct_names(s: Seq<(Seq<char>, Seq<char>)>) -> bool {
    forall|i: int, j: int| 0 <= i < j < s.len() ==> (#[trigger] s[i]).0 != (#[trigger] s[j]).0
}

/// The mapping that a list of entries denotes when a later entry overrides
/// an earlier one of the same name.
pub open spec fn to_map(s: Seq<(Seq<char>, Seq<char>)>) -> Map<Seq<char>, Seq<char>>
    decreases s.len(),
{
    if s.len() == 0 {
        Map::empty()
    } else {
        to_map(s.drop_last()).insert(s.last().0, s.last().1)
    }
}

/// The position of an entry of `s` named `name`.
pub open spec fn position_of(s: Seq<(Seq<char>, Seq<char>)>, name: Seq<char>) -> int {
    choose|i: int| 0 <= i < s.len() && (#[trigger] s[i]).0 == name
}

/// `s` with `name` given the value `value`: in place where the name is
/// present, at the end where it is new.
pub open spec fn upsert(s: Seq<(Seq<char>, Seq<char>)>, name: Seq<char>, value: Seq<char>) -> Seq<
    (Seq<char>, Seq<char>),
> {
    if has_name(s, name) {
        s.update(position_of(s, name), (name, value))
    } else {
        s.push((name, value))
    }
}

/// The entries that remain when `raw` is read front to back into an empty
/// mapping.
pub open spec fn collected(raw: Seq<(Seq<char>, Seq<char>)>) -> Seq<(Seq<char>, Seq<char>)>
    decreases raw.len(),
{
    if raw.len() == 0 {
        Seq::empty()
    } else {
        upsert(collected(raw.drop_last()), raw.last().0, raw.last().1)
    }
}

/// The names that `to_map(s)` is defined on are the names that occur in `s`.
pub proof fn lemma_to_map_domain(s: Seq<(Seq<char>, Seq<char>)>)
    ensures
        forall|k: Seq<char>| #[trigger] to_map(s).contains_key(k) <==> has_name(s, k),
    decreases s.len(),
{
    if s.len() > 0 {
        let front = s.drop_last();
        lemma_to_map_domain(front);
        assert forall|k: Seq<char>| #[trigger] to_map(s).contains_key(k) <==> has_name(s, k) by {
            assert(to_map(front).contains_key(k) <==> has_name(front, k));
            if has_name(s, k) {
                let i = position_of(s, k);
                if i < s.len() - 1 {
                    assert(front[i].0 == k);
                }
            }
            if to_map(s).contains_key(k) {
                if k != s.last().0 {
                    let i = position_of(front, k);
                    assert(s[i] == front[i]);
                } else {
                    assert(s[s.len() - 1].0 == k);
                }
            }
        }
    }
}

/// Where no name occurs twice, `to_map(s)` gives each name the value that
/// stands beside it.
pub proof fn lemma_to_map_value(s: Seq<(Seq<char>, Seq<char>)>, i: int)
    requires
        distinct_names(s),
        0 <= i < s.len(),
    ensures
        to_map(s).contains_key(s[i].0),
        to_map(s)[s[i].0] == s[i].1,
    decreases s.len(),
{
    let front = s.drop_last();
    if i < s.len() - 1 {
        assert(s[i].0 != s[s.len() - 1].0);
        assert(front[i] == s[i]);
        assert forall|a: int, b: int| 0 <= a < b < front.len() implies (#[trigger] front[a]).0
            != (#[trigger] front[b]).0 by {
            assert(front[a] == s[a]);
            assert(front[b] == s[b]);
        }
        lemma_to_map_value(front, i);
    }
}

/// The last value wins: `to_map(s)` gives a name the value of the last entry
/// that bears it.
pub proof fn lemma_to_map_last_wins(s: Seq<(Seq<char>, Seq<char>)>, i: int)
    requires
        0 <= i < s.len(),
        forall|j: int| i < j < s.len() ==> (#[trigger] s[j]).0 != s[i].0,
    ensures
        to_map(s).contains_key(s[i].0),
        to_map(s)[s[i].0] == s[i].1,
    decreases s.len(),
{
    let front = s.drop_last();
    if i < s.len() - 1 {
        assert(s[s.len() - 1].0 != s[i].0);
        assert(front[i] == s[i]);
        assert forall|j: int| i < j < front.len() implies (#[trigger] front[j]).0 != front[i].0 by {
            assert(front[j] == s[j]);
        }
        lemma_to_map_last_wins(front, i);
    }
}

/// Giving a name a value keeps the names distinct and acts on the denoted
/// mapping as an insertion.
pub proof fn lemma_upsert(s: Seq<(Seq<char>, Seq<char>)>, name: Seq<char>, value: Seq<char>)
    requires
        distinct_names(s),
    ensures
        distinct_names(upsert(s, name, value)),
        to_map(upsert(s, name, value)) == to_map(s).insert(name, value),
        upsert(s, name, value).len() >= s.len(),
{
    let t = upsert(s, name, value);
    if has_name(s, name) {
        let p = position_of(s, name);
        assert forall|a: int, b: int| 0 <= a < b < t.len() implies (#[trigger] t[a]).0 != (
        #[trigger] t[b]).0 by {
            assert(t[a].0 == s[a].0);
            assert(t[b].0 == s[b].0);
        }
        lemma_to_map_domain(s);
        lemma_to_map_domain(t);
        let want = to_map(s).insert(name, value);
        assert forall|k: Seq<char>| #[trigger] to_map(t).contains_key(k) <==> want.contains_key(
            k,
        ) by {
            if has_name(s, k) {
                let i = position_of(s, k);
                assert(t[i].0 == k);
            }
            if has_name(t, k) {
                let i = position_of(t, k);
                assert(s[i].0 == k);
            }
        }
        assert forall|k: Seq<char>| #[trigger] to_map(t).contains_key(k) implies to_map(t)[k]
            == want[k] by {
            let i = position_of(t, k);
            lemma_to_map_value(t, i);
            if k != name {
                assert(i != p);
                assert(t[i] == s[i]);
                lemma_to_map_value(s, i);
            } else {
                if i != p {
                    if i < p {
                        assert(t[i].0 != t[p].0);
                    } else {
                        assert(t[p].0 != t[i].0);
                    }
                }
            }
        }
        assert(to_map(t) =~= want);
    } else {
        assert(t.drop_last() =~= s);
        assert forall|a: int, b: int| 0 <= a < b < t.len() implies (#[trigger] t[a]).0 != (
        #[trigger] t[b]).0 by {
            if b < s.len() {
                assert(t[a] == s[a]);
                assert(t[b] == s[b]);
            } else {
                assert(t[a] == s[a]);
                assert(s[a].0 != name);
            }
        }
    }
}

/// Reading a list of entries into a mapping leaves distinct names, and the
/// mapping that a later-entry-wins reading of the list denotes.
pub proof fn lemma_collected(raw: Seq<(Seq<char>, Seq<char>)>)
    ensures
        distinct_names(collected(raw)),
        to_map(collected(raw)) == to_map(raw),
        collected(raw).len() <= raw.len(),
    decreases raw.len(),
{
    if raw.len() > 0 {
        let front = raw.drop_last();
        lemma_collected(front);
        lemma_upsert(collected(front), raw.last().0, raw.last().1);
    }
}

/// A list in which no name occurs twice is read into a mapping as it is.
pub proof fn lemma_collected_of_distinct(raw: Seq<(Seq<char>, Seq<char>)>)
    requires
        distinct_names(raw),
    ensures
        collected(raw) == raw,
    decreases raw.len(),
{
    if raw.len() > 0 {
        let front = raw.drop_last();
        assert forall|a: int, b: int| 0 <= a < b < front.len() implies (#[trigger] front[a]).0
            != (#[trigger] front[b]).0 by {
            assert(front[a] == raw[a]);
            assert(front[b] == raw[b]);
        }
        lemma_collected_of_distinct(front);
        if has_name(front, raw.last().0) {
            let i = position_of(front, raw.last().0);
            assert(raw[i].0 == raw[raw.len() - 1].0);
        }
        assert(front.push(raw.last()) =~= raw);
    }
}

/// An insertion-ordered mapping from text to text.
#[derive(Debug)]
pub struct StringMap {
    entries: Vec<(String, String)>,
}

impl View for StringMap {
    type V = Map<Seq<char>, Seq<char>>;

    /// The mapping itself.
    closed spec fn view(&self) -> Map<Seq<char>, Seq<char>> {
        to_map(self.entries.deep_view())
    }
}

impl Clone for StringMap {
    /// A copy with the same entries in the same order.
    fn clone(&self) -> (r: StringMap)
        ensures
            r.pairs() == self.pairs(),
            r@ == self@,
    {
        proof {
            use_type_invariant(self);
        }
        StringMap { entries: self.to_pairs() }
    }
}

impl StringMap {
    #[verifier::type_invariant]
    spec fn names_are_distinct(&self) -> bool {
        distinct_names(self.entries.deep_view())
    }

    /// The entries in the order in which their names first arrived.
    pub closed spec fn pairs(&self) -> Seq<(Seq<char>, Seq<char>)> {
        self.entries.deep_view()
    }

    /// The mapping is the one that the entries denote.
    pub proof fn lemma_view(&self)
        ensures
            self@ == to_map(self.pairs()),
    {
    }

    /// The empty mapping.
    pub fn new() -> (m: StringMap)
        ensures
            m.pairs() == Seq::<(Seq<char>, Seq<char>)>::empty(),
            m@ == Map::<Seq<char>, Seq<char>>::empty(),
    {
        let m = StringMap { entries: Vec::new() };
        assert(m.entries.deep_view() =~= Seq::<(Seq<char>, Seq<char>)>::empty());
        m
    }

    /// The number of entries, none of which shares its name with another.
    pub fn len(&self) -> (n: usize)
        ensures
            n == self.pairs().len(),
            distinct_names(self.pairs()),
    {
        proof {
            use_type_invariant(self);
        }
        self.entries.len()
    }

    /// Whether there is no entry.
    pub fn is_empty(&self) -> (b: bool)
        ensures
            b == (self.pairs().len() == 0),
    {
        self.entries.len() == 0
    }

    /// The name of the entry at position `i`.
    pub fn name_at(&self, i: usize) -> (name: &str)
        requires
            i < self.pairs().len(),
        ensures
            name@ == self.pairs()[i as int].0,
    {
        self.entries[i].0.as_str()
    }

    /// The value of the entry at position `i`.
    pub fn value_at(&self, i: usize) -> (value: &str)
        requires
            i < self.pairs().len(),
        ensures
            value@ == self.pairs()[i as int].1,
    {
        self.entries[i].1.as_str()
    }

    /// The position of the entry named `name`, if there is one.
    pub fn position(&self, name: &str) -> (r: Option<usize>)
        ensures
            match r {
                Some(i) => i < self.pairs().len() && self.pairs()[i as int].0 == name@,
                None => !has_name(self.pairs(), name@),
            },
    {
        let n = self.entries.len();
        let mut i: usize = 0;
        while i < n
            invariant
                n == self.entries.len(),
                i <= n,
                forall|j: int| 0 <= j < i ==> (#[trigger] self.entries.deep_view()[j]).0 != name@,
            decreases n - i,
        {
            if same_text(self.entries[i].0.as_str(), name) {
                return Some(i);
            }
            i = i + 1;
        }
        None
    }

    /// The value that `name` is mapped to, if any.
    pub fn get(&self, name: &str) -> (r: Option<&str>)
        ensures
            match r {
                Some(v) => self@.contains_key(name@) && v@ == self@[name@],
                None => !self@.contains_key(name@),
            },
    {
        proof {
            use_type_invariant(self);
            lemma_to_map_domain(self.entries.deep_view());
        }
        match self.position(name) {
            Some(i) => {
                proof {
                    lemma_to_map_value(self.entries.deep_view(), i as int);
                }
                Some(self.entries[i].1.as_str())
            },
            None => None,
        }
    }

    /// Maps `name` to `value`. A name that is already present keeps its
    /// place and takes the new value; a new name goes to the end.
    pub fn insert(&mut self, name: String, value: String)
        ensures
            final(self).pairs() == upsert(old(self).pairs(), name@, value@),
            final(self)@ == old(self)@.insert(name@, value@),
    {
        proof {
            use_type_invariant(&*self);
            lemma_upsert(self.entries.deep_view(), name@, value@);
        }
        let ghost before = self.entries.deep_view();
        let found = self.position(name.as_str());
        let mut entries: Vec<(String, String)> = Vec::new();
        assert(entries.deep_view() =~= Seq::<(Seq<char>, Seq<char>)>::empty());
        core::mem::swap(&mut self.entries, &mut entries);
        match found {
            Some(i) => {
                entries.set(i, (name, value));
                proof {
                    let p = position_of(before, name@);
                    if p != i as int {
                        if p < i {
                            assert(before[p].0 != before[i as int].0);
                        } else {
                            assert(before[i as int].0 != before[p].0);
                        }
                    }
                    assert(entries.deep_view() =~= upsert(before, name@, value@));
                }
                self.entries = entries;
            },
            None => {
                entries.push((name, value));
                proof {
                    assert(entries.deep_view() =~= upsert(before, name@, value@));
                }
                self.entries = entries;
            },
        }
    }

    /// Reads a list of entries front to back into a mapping: where a name
    /// occurs more than once, its last value is the one kept.
    pub fn from_pairs(raw: &Vec<(String, String)>) -> (m: StringMap)
        ensures
            m.pairs() == collected(raw.deep_view()),
            m@ == to_map(raw.deep_view()),
    {
        let mut m = StringMap::new();
        let n = raw.len();
        let mut i: usize = 0;
        while i < n
            invariant
                n == raw.len(),
                i <= n,
                m.pairs() == collected(raw.deep_view().take(i as int)),
            decreases n - i,
        {
            let name = raw[i].0.clone();
            let value = raw[i].1.clone();
            proof {
                let upto = raw.deep_view().take(i as int + 1);
                assert(upto.drop_last() =~= raw.deep_view().take(i as int));
                assert(upto.last() == (name@, value@));
            }
            m.insert(name, value);
            i = i + 1;
        }
        proof {
            assert(raw.deep_view().take(n as int) =~= raw.deep_view());
            lemma_collected(raw.deep_view());
            use_type_invariant(&m);
        }
        m
    }

    /// The entries as a list, in order.
    pub fn to_pairs(&self) -> (r: Vec<(String, String)>)
        ensures
            r.deep_view() == self.pairs(),
    {
        let mut r: Vec<(String, String)> = Vec::new();
        let n = self.entries.len();
        let mut i: usize = 0;
        while i < n
            invariant
                n == self.entries@.len(),
                i <= n,
                r@.len() == i,
                forall|j: int|
                    0 <= j < i ==> (#[trigger] r@[j]).0@ == self.entries@[j].0@ && r@[j].1@
                        == self.entries@[j].1@,
            decreases n - i,
        {
            let name = self.entries[i].0.clone();
            let value = self.entries[i].1.clone();
            r.push((name, value));
            i = i + 1;
        }
        assert(r.deep_view() =~= self.entries.deep_view());
        r
    }
}

} // verus!
