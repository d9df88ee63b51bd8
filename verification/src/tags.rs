//! Tag sets: the key/value annotations of a map entity.
use vstd::prelude::*;

verus! {

/// Relies on `str`'s `PartialEq`: whether the two slices hold the same text.
#[verifier::external_body]
pub(crate) fn str_eq(a: &str, b: &str) -> (r: bool)
    ensures
        r == (a@ == b@),
{
    a == b
}

/// Names what `str::to_lowercase` returns: the lowercase form of the text,
/// which depends on the characters alone. Lowercasing an empty text gives
/// an empty text.
pub uninterp spec fn lower_of(s: Seq<char>) -> Seq<char>;

/// Relies on `str::to_lowercase`.
#[verifier::external_body]
pub fn lowercase(s: &str) -> (r: String)
    ensures
        r@ == lower_of(s@),
        s@.len() == 0 ==> r@.len() == 0,
{
    s.to_lowercase()
}

/// The tags of one map entity: a mapping from key to value, held as a list
/// of pairs. A later pair wins over an earlier one with the same key.
pub struct TagSet {
    pairs: Vec<(String, String)>,
}

/// The mapping that a list of pairs denotes; a later pair wins over an
/// earlier one with the same key.
pub closed spec fn map_of_pairs(s: Seq<(String, String)>) -> Map<Seq<char>, Seq<char>>
    decreases s.len(),
{
    if s.len() == 0 {
        Map::empty()
    } else {
        map_of_pairs(s.drop_last()).insert(s.last().0@, s.last().1@)
    }
}

/// Pairs at or after position `i` never bind `k`; the binding of `k` is then
/// settled by the prefix before `i`.
proof fn lemma_map_of_pairs_prefix(s: Seq<(String, String)>, i: int, k: Seq<char>)
    requires
        0 <= i <= s.len(),
        forall|j: int| i <= j < s.len() ==> s[j].0@ != k,
    ensures
        map_of_pairs(s).contains_key(k) <==> map_of_pairs(s.take(i)).contains_key(k),
        map_of_pairs(s).contains_key(k) ==> map_of_pairs(s)[k] == map_of_pairs(s.take(i))[k],
    decreases s.len() - i,
{
    if i == s.len() {
        assert(s.take(i) =~= s);
    } else {
        let shorter = s.drop_last();
        assert(shorter == s.take(s.len() - 1));
        assert(forall|j: int| i <= j < shorter.len() ==> shorter[j].0@ != k);
        lemma_map_of_pairs_prefix(shorter, i, k);
        assert(shorter.take(i) =~= s.take(i));
        assert(s.last().0@ != k);
    }
}

impl View for TagSet {
    type V = Map<Seq<char>, Seq<char>>;

    closed spec fn view(&self) -> Map<Seq<char>, Seq<char>> {
        map_of_pairs(self.pairs@)
    }
}

impl TagSet {
    /// An empty tag set.
    pub fn new() -> (r: TagSet)
        ensures
            r@ == Map::<Seq<char>, Seq<char>>::empty(),
    {
        TagSet { pairs: Vec::new() }
    }

    /// Binds `key` to `value`, shadowing any earlier binding of `key`.
    pub fn insert(&mut self, key: String, value: String)
        ensures
            final(self)@ == old(self)@.insert(key@, value@),
    {
        self.pairs.push((key, value));
        proof {
            assert(self.pairs@.drop_last() == old(self).pairs@);
        }
    }

    /// The value bound to `key`, when there is one.
    pub fn get(&self, key: &str) -> (r: Option<&String>)
        ensures
            match r {
                Some(v) => self@.contains_key(key@) && v@ == self@[key@],
                None => !self@.contains_key(key@),
            },
    {
        let ghost s = self.pairs@;
        let mut i: usize = self.pairs.len();
        while i > 0
            invariant
                i <= s.len(),
                s == self.pairs@,
                forall|j: int| i <= j < s.len() ==> s[j].0@ != key@,
            decreases i,
        {
            i -= 1;
            if str_eq(self.pairs[i].0.as_str(), key) {
                proof {
                    lemma_map_of_pairs_prefix(s, i + 1, key@);
                    assert(s.take(i + 1).drop_last() =~= s.take(i as int));
                    assert(s.take(i + 1).last() == s[i as int]);
                }
                return Some(&self.pairs[i].1);
            }
        }
        proof {
            lemma_map_of_pairs_prefix(s, 0, key@);
            assert(s.take(0) =~= Seq::<(String, String)>::empty());
        }
        None
    }

    /// Whether `key` is bound at all.
    pub fn contains_key(&self, key: &str) -> (r: bool)
        ensures
            r == self@.contains_key(key@),
    {
        self.get(key).is_some()
    }

    /// Whether `key` is bound exactly to `value`.
    pub fn contains_pair(&self, key: &str, value: &str) -> (r: bool)
        ensures
            r == (self@.contains_key(key@) && self@[key@] == value@),
    {
        match self.get(key) {
            Some(v) => str_eq(v.as_str(), value),
            None => false,
        }
    }
}

} // verus!
