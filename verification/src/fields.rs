//! Named text fields of a request: query parameters, cookies, form fields.

use vstd::prelude::*;

verus! {

/// The map that a list of pairs stands for: each pair sets its name to its
/// value, and a later pair replaces an earlier one of the same name.
pub open spec fn map_of(pairs: Seq<(Seq<char>, Seq<char>)>) -> Map<Seq<char>, Seq<char>>
    decreases pairs.len(),
{
    if pairs.len() == 0 {
        Map::empty()
    } else {
        map_of(pairs.drop_last()).insert(pairs.last().0, pairs.last().1)
    }
}

/// The names and values of a list of string pairs.
pub open spec fn pairs_view(v: Seq<(String, String)>) -> Seq<(Seq<char>, Seq<char>)> {
    Seq::new(v.len(), |i: int| (v[i].0@, v[i].1@))
}

/// Adding one pair at the end of a list sets that name in its map.
pub proof fn lemma_map_of_push(pairs: Seq<(Seq<char>, Seq<char>)>, name: Seq<char>, value: Seq<char>)
    ensures
        map_of(pairs.push((name, value))) == map_of(pairs).insert(name, value),
{
    assert(pairs.push((name, value)).drop_last() =~= pairs);
}

/// A flat map from names to values, kept in the order in which the fields
/// were set.
#[derive(Debug)]
pub struct Fields {
    pairs: Vec<(String, String)>,
}

impl View for Fields {
    type V = Map<Seq<char>, Seq<char>>;

    closed spec fn view(&self) -> Map<Seq<char>, Seq<char>> {
        map_of(pairs_view(self.pairs@))
    }
}

impl Fields {
    /// The fields in the order in which they were set, as names and values.
    pub closed spec fn entries(&self) -> Seq<(Seq<char>, Seq<char>)> {
        pairs_view(self.pairs@)
    }

    /// The map is the one that the entries stand for.
    pub proof fn lemma_view(&self)
        ensures
            self@ == map_of(self.entries()),
    {
    }

    /// An empty map.
    pub fn new() -> (result: Fields)
        ensures
            result@ == map_of(Seq::empty()),
            result.entries().len() == 0,
    {
        let result = Fields { pairs: Vec::new() };
        assert(pairs_view(result.pairs@) =~= Seq::empty());
        result
    }

    /// The map that the pairs stand for, taken in order.
    pub fn from_pairs(pairs: Vec<(String, String)>) -> (result: Fields)
        ensures
            result.entries() == pairs_view(pairs@),
            result@ == map_of(pairs_view(pairs@)),
    {
        Fields { pairs }
    }

    /// Sets `name` to `value`, in place of any value it had.
    pub fn insert(&mut self, name: String, value: String)
        ensures
            final(self)@ == old(self)@.insert(name@, value@),
            final(self).entries() == old(self).entries().push((name@, value@)),
    {
        let ghost before = pairs_view(self.pairs@);
        let ghost n = name@;
        let ghost v = value@;
        self.pairs.push((name, value));
        proof {
            assert(pairs_view(self.pairs@) =~= before.push((n, v)));
            lemma_map_of_push(before, n, v);
        }
    }

    /// The value of `name`, if it has one.
    pub fn get(&self, name: &str) -> (result: Option<&String>)
        ensures
            match result {
                Some(value) => self@.contains_key(name@) && self@[name@] == value@,
                None => !self@.contains_key(name@),
            },
    {
        let mut i: usize = self.pairs.len();
        assert(pairs_view(self.pairs@).subrange(0, i as int) =~= pairs_view(self.pairs@));
        while i > 0
            invariant
                i <= self.pairs.len(),
                map_of(pairs_view(self.pairs@)).contains_key(name@) == map_of(
                    pairs_view(self.pairs@).subrange(0, i as int),
                ).contains_key(name@),
                map_of(pairs_view(self.pairs@)).contains_key(name@) ==> map_of(
                    pairs_view(self.pairs@),
                )[name@] == map_of(pairs_view(self.pairs@).subrange(0, i as int))[name@],
            decreases i,
        {
            let ghost prefix = pairs_view(self.pairs@).subrange(0, i as int);
            i -= 1;
            assert(prefix.drop_last() =~= pairs_view(self.pairs@).subrange(0, i as int));
            assert(prefix.last() == pairs_view(self.pairs@)[i as int]);
            if str_eq(self.pairs[i].0.as_str(), name) {
                return Some(&self.pairs[i].1);
            }
        }
        assert(pairs_view(self.pairs@).subrange(0, 0) =~= Seq::empty());
        None
    }

    /// Whether `name` has a value.
    pub fn contains(&self, name: &str) -> (result: bool)
        ensures
            result == self@.contains_key(name@),
    {
        self.get(name).is_some()
    }

    /// The number of times a field was set.
    pub fn len(&self) -> (result: usize)
        ensures
            result == self.entries().len(),
    {
        self.pairs.len()
    }

    /// The name and value that were set at position `i`.
    pub fn entry(&self, i: usize) -> (result: (&String, &String))
        requires
            i < self.entries().len(),
        ensures
            (result.0@, result.1@) == self.entries()[i as int],
    {
        (&self.pairs[i].0, &self.pairs[i].1)
    }
}

/// Whether two strings hold the same characters.
pub fn str_eq(a: &str, b: &str) -> (result: bool)
    ensures
        result == (a@ == b@),
{
    let x = a.as_bytes();
    let y = b.as_bytes();
    proof {
        vstd::utf8::encode_utf8_decode_utf8(a@);
        vstd::utf8::encode_utf8_decode_utf8(b@);
    }
    bytes_eq(x, y)
}

/// Whether two byte strings are the same.
pub fn bytes_eq(a: &[u8], b: &[u8]) -> (result: bool)
    ensures
        result == (a@ == b@),
{
    if a.len() != b.len() {
        return false;
    }
    let mut i: usize = 0;
    while i < a.len()
        invariant
            i <= a.len(),
            a.len() == b.len(),
            forall|j: int| 0 <= j < i ==> a@[j] == b@[j],
        decreases a.len() - i,
    {
        if a[i] != b[i] {
            return false;
        }
        i += 1;
    }
    assert(a@ =~= b@);
    true
}

} // verus!
