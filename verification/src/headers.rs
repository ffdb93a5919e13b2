//! A name-to-value header mapping backed by a vector of distinct names.

use vstd::prelude::*;

verus! {

/// The mathematical model of a header mapping: header name to header value.
pub type HeaderMapping = Map<Seq<char>, Seq<char>>;

/// One header as plain text: name first, value second.
pub type HeaderPair = (Seq<char>, Seq<char>);

/// The text of each stored pair, in storage order.
pub open spec fn pairs_view(v: Seq<(String, String)>) -> Seq<HeaderPair> {
    v.map_values(|p: (String, String)| (p.0@, p.1@))
}

/// The mapping that a sequence of pairs denotes: a later pair overrides an
/// earlier one with the same name.
pub open spec fn mapping_of(s: Seq<HeaderPair>) -> HeaderMapping
    decreases s.len(),
{
    if s.len() == 0 {
        Map::empty()
    } else {
        mapping_of(s.drop_last()).insert(s.last().0, s.last().1)
    }
}

/// No name occurs twice in the sequence.
pub open spec fn distinct_names(s: Seq<HeaderPair>) -> bool {
    forall|i: int, j: int| 0 <= i < j < s.len() ==> s[i].0 != s[j].0
}

/// A name is a key of the denoted mapping exactly when some pair carries it.
pub proof fn lemma_mapping_keys(s: Seq<HeaderPair>, name: Seq<char>)
    ensures
        mapping_of(s).contains_key(name) <==> exists|i: int|
            0 <= i < s.len() && #[trigger] s[i].0 == name,
    decreases s.len(),
{
    if s.len() > 0 {
        let t = s.drop_last();
        lemma_mapping_keys(t, name);
        if exists|i: int| 0 <= i < s.len() && #[trigger] s[i].0 == name {
            let i = choose|i: int| 0 <= i < s.len() && #[trigger] s[i].0 == name;
            if i < s.len() - 1 {
                assert(t[i].0 == name);
            }
        }
    }
}

/// With distinct names, each pair's value is the value of its name.
pub proof fn lemma_mapping_value(s: Seq<HeaderPair>, i: int)
    requires
        distinct_names(s),
        0 <= i < s.len(),
    ensures
        mapping_of(s).contains_key(s[i].0),
        mapping_of(s)[s[i].0] == s[i].1,
    decreases s.len(),
{
    let t = s.drop_last();
    if i < s.len() - 1 {
        assert(distinct_names(t));
        lemma_mapping_value(t, i);
    }
}

/// With distinct names, the denoted mapping has as many keys as there are
/// pairs.
pub proof fn lemma_mapping_len(s: Seq<HeaderPair>)
    requires
        distinct_names(s),
    ensures
        mapping_of(s).dom().finite(),
        mapping_of(s).len() == s.len(),
    decreases s.len(),
{
    if s.len() > 0 {
        let t = s.drop_last();
        assert(distinct_names(t));
        lemma_mapping_len(t);
        lemma_mapping_keys(t, s.last().0);
    }
}

/// The least position at which `name` is stored, or the length when it is absent.
pub open spec fn index_of(s: Seq<HeaderPair>, name: Seq<char>) -> int
    decreases s.len(),
{
    if s.len() == 0 {
        0
    } else if s[0].0 == name {
        0
    } else {
        1 + index_of(s.drop_first(), name)
    }
}

/// What is stored after setting `name` to `value`: the pair replaces the one
/// with that name where there is one, and is appended otherwise.
pub open spec fn stored_after_insert(
    s: Seq<HeaderPair>,
    name: Seq<char>,
    value: Seq<char>,
) -> Seq<HeaderPair> {
    let i = index_of(s, name);
    if i < s.len() {
        s.update(i, (name, value))
    } else {
        s.push((name, value))
    }
}

/// What is stored after setting each pair of `s` in turn, starting from
/// nothing.
pub open spec fn collected(s: Seq<HeaderPair>) -> Seq<HeaderPair>
    decreases s.len(),
{
    if s.len() == 0 {
        Seq::empty()
    } else {
        stored_after_insert(collected(s.drop_last()), s.last().0, s.last().1)
    }
}

/// The last write wins: a pair that no later pair overrides gives its name
/// its value in the denoted mapping.
pub proof fn lemma_last_write_wins(s: Seq<HeaderPair>, i: int)
    requires
        0 <= i < s.len(),
        forall|j: int| i < j < s.len() ==> s[j].0 != s[i].0,
    ensures
        mapping_of(s).contains_key(s[i].0),
        mapping_of(s)[s[i].0] == s[i].1,
    decreases s.len(),
{
    if i < s.len() - 1 {
        let t = s.drop_last();
        lemma_last_write_wins(t, i);
    }
}

/// `index_of` is within `0..=len`, names a pair with that name when below the
/// length, and nothing before it carries the name.
pub proof fn lemma_index_of(s: Seq<HeaderPair>, name: Seq<char>)
    ensures
        0 <= index_of(s, name) <= s.len(),
        index_of(s, name) < s.len() ==> s[index_of(s, name)].0 == name,
        forall|j: int| 0 <= j < index_of(s, name) ==> s[j].0 != name,
    decreases s.len(),
{
    if s.len() > 0 && s[0].0 != name {
        let t = s.drop_first();
        lemma_index_of(t, name);
        assert forall|j: int| 0 <= j < index_of(s, name) implies s[j].0 != name by {
            if j > 0 {
                assert(t[j - 1].0 != name);
            }
        }
    }
}

proof fn lemma_first_index(s: Seq<HeaderPair>, name: Seq<char>, i: int)
    requires
        0 <= i < s.len(),
        s[i].0 == name,
        forall|j: int| 0 <= j < i ==> s[j].0 != name,
    ensures
        index_of(s, name) == i,
{
    lemma_index_of(s, name);
}

proof fn lemma_absent_index(s: Seq<HeaderPair>, name: Seq<char>)
    requires
        forall|j: int| 0 <= j < s.len() ==> s[j].0 != name,
    ensures
        index_of(s, name) == s.len(),
{
    lemma_index_of(s, name);
}

/// Replacing the value of the pair at `i` sets its name to that value in the
/// denoted mapping, provided the names are distinct.
proof fn lemma_update_same_name(s: Seq<HeaderPair>, i: int, value: Seq<char>)
    requires
        distinct_names(s),
        0 <= i < s.len(),
    ensures
        distinct_names(s.update(i, (s[i].0, value))),
        mapping_of(s.update(i, (s[i].0, value))) == mapping_of(s).insert(s[i].0, value),
    decreases s.len(),
{
    let u = s.update(i, (s[i].0, value));
    let t = s.drop_last();
    assert(distinct_names(u));
    if i == s.len() - 1 {
        assert(u.drop_last() =~= t);
    } else {
        assert(distinct_names(t));
        lemma_update_same_name(t, i, value);
        assert(u.drop_last() =~= t.update(i, (t[i].0, value)));
    }
}

/// A header mapping from name to value. Names are kept exactly as given.
#[derive(Debug)]
pub struct HeaderSet {
    entries: Vec<(String, String)>,
}

impl View for HeaderSet {
    type V = HeaderMapping;

    closed spec fn view(&self) -> HeaderMapping {
        mapping_of(pairs_view(self.entries@))
    }
}

impl HeaderSet {
    /// The stored pairs in storage order: first insertion of a name fixes its place.
    pub closed spec fn pairs(&self) -> Seq<HeaderPair> {
        pairs_view(self.entries@)
    }

    #[verifier::type_invariant]
    closed spec fn names_are_distinct(&self) -> bool {
        distinct_names(pairs_view(self.entries@))
    }

    /// The mapping is the one that the stored pairs denote.
    pub proof fn lemma_pairs(&self)
        ensures
            self@ == mapping_of(self.pairs()),
    {
    }

    /// An empty mapping.
    pub fn new() -> (r: Self)
        ensures
            r@ == HeaderMapping::empty(),
            r.pairs() == Seq::<HeaderPair>::empty(),
    {
        let r = HeaderSet { entries: Vec::new() };
        r
    }

    /// The mapping that results from setting each of `pairs` in turn: where a
    /// name occurs more than once, its last value stands.
    pub fn from_pairs(pairs: &Vec<(String, String)>) -> (r: Self)
        ensures
            r@ == mapping_of(pairs_view(pairs@)),
            r.pairs() == collected(pairs_view(pairs@)),
    {
        let ghost all = pairs_view(pairs@);
        let mut r = HeaderSet::new();
        let mut i: usize = 0;
        while i < pairs.len()
            invariant
                i <= pairs.len(),
                all == pairs_view(pairs@),
                r@ == mapping_of(all.take(i as int)),
                r.pairs() == collected(all.take(i as int)),
            decreases pairs.len() - i,
        {
            proof {
                assert(all.take(i + 1).drop_last() =~= all.take(i as int));
            }
            r.insert(pairs[i].0.clone(), pairs[i].1.clone());
            i += 1;
        }
        proof {
            assert(all.take(i as int) =~= all);
        }
        r
    }

    /// The number of stored headers.
    pub fn len(&self) -> (n: usize)
        ensures
            n == self@.len(),
            n == self.pairs().len(),
    {
        proof {
            use_type_invariant(self);
            lemma_mapping_len(self.pairs());
        }
        self.entries.len()
    }

    /// The position at which `name` is stored, if it is.
    fn find(&self, name: &String) -> (r: Option<usize>)
        ensures
            match r {
                Some(i) => i < self.pairs().len() && self.pairs()[i as int].0 == name@,
                None => forall|j: int| 0 <= j < self.pairs().len() ==> self.pairs()[j].0 != name@,
            },
    {
        let mut i: usize = 0;
        while i < self.entries.len()
            invariant
                i <= self.entries.len(),
                forall|j: int| 0 <= j < i ==> pairs_view(self.entries@)[j].0 != name@,
            decreases self.entries.len() - i,
        {
            if self.entries[i].0 == *name {
                return Some(i);
            }
            i += 1;
        }
        None
    }

    /// Whether a header with exactly this name is present.
    pub fn contains(&self, name: &str) -> (b: bool)
        ensures
            b == self@.contains_key(name@),
    {
        let key = name.to_owned();
        let found = self.find(&key);
        proof {
            lemma_mapping_keys(self.pairs(), name@);
        }
        found.is_some()
    }

    /// The value stored under exactly this name.
    pub fn get(&self, name: &str) -> (r: Option<&String>)
        ensures
            match r {
                Some(v) => self@.contains_key(name@) && v@ == self@[name@],
                None => !self@.contains_key(name@),
            },
    {
        let key = name.to_owned();
        proof {
            use_type_invariant(self);
            lemma_mapping_keys(self.pairs(), name@);
        }
        match self.find(&key) {
            Some(i) => {
                proof {
                    lemma_mapping_value(self.pairs(), i as int);
                }
                Some(&self.entries[i].1)
            },
            None => None,
        }
    }

    /// Sets the header `name` to `value`: an existing value for exactly this
    /// name is replaced in place, a new name is stored last.
    pub fn insert(&mut self, name: String, value: String)
        ensures
            final(self)@ == old(self)@.insert(name@, value@),
            final(self).pairs() == stored_after_insert(old(self).pairs(), name@, value@),
    {
        proof {
            use_type_invariant(&*self);
        }
        let ghost before = self.pairs();
        let found = self.find(&name);
        let ghost pair = (name@, value@);
        let mut entries: Vec<(String, String)> = Vec::new();
        core::mem::swap(&mut self.entries, &mut entries);
        match found {
            Some(i) => {
                entries.set(i, (name, value));
                proof {
                    assert(pairs_view(entries@) =~= before.update(i as int, pair));
                    lemma_first_index(before, pair.0, i as int);
                    lemma_update_same_name(before, i as int, pair.1);
                }
            },
            None => {
                entries.push((name, value));
                proof {
                    assert(pairs_view(entries@) =~= before.push(pair));
                    assert(before.push(pair).drop_last() =~= before);
                    lemma_absent_index(before, pair.0);
                }
            },
        }
        core::mem::swap(&mut self.entries, &mut entries);
    }

    /// The stored headers, one pair each, in storage order.
    pub fn entries(&self) -> (r: &Vec<(String, String)>)
        ensures
            pairs_view(r@) == self.pairs(),
            distinct_names(self.pairs()),
    {
        proof {
            use_type_invariant(self);
        }
        &self.entries
    }
}

impl Clone for HeaderSet {
    /// A copy that stores the same pairs in the same order.
    fn clone(&self) -> (r: Self)
        ensures
            r@ == self@,
            r.pairs() == self.pairs(),
    {
        proof {
            use_type_invariant(self);
        }
        let mut entries: Vec<(String, String)> = Vec::new();
        let mut i: usize = 0;
        while i < self.entries.len()
            invariant
                i <= self.entries.len(),
                entries@.len() == i,
                forall|j: int|
                    0 <= j < i ==> (#[trigger] entries@[j]).0@ == self.entries@[j].0@
                        && entries@[j].1@ == self.entries@[j].1@,
            decreases self.entries.len() - i,
        {
            entries.push((self.entries[i].0.clone(), self.entries[i].1.clone()));
            i += 1;
        }
        assert(pairs_view(entries@) =~= pairs_view(self.entries@));
        HeaderSet { entries }
    }
}

} // verus!
