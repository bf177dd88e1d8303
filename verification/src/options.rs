//! The plugin's options: the `auth_opt_<key> <value>` lines of the broker's
//! configuration, as a mapping from key to value.
//!
//! The broker hands the options over as an array of pairs. Where a key stands more than
//! once, the pair that comes last decides.

use crate::text::same_text;
use vstd::prelude::*;

verus! {

/// The mapping that a sequence of key/value pairs stands for: the pairs are entered one
/// after the other, and a later pair replaces an earlier one with the same key.
pub open spec fn options_map(pairs: Seq<(Seq<char>, Seq<char>)>) -> Map<Seq<char>, Seq<char>>
    decreases pairs.len(),
{
    if pairs.len() == 0 {
        Map::empty()
    } else {
        options_map(pairs.drop_last()).insert(pairs.last().0, pairs.last().1)
    }
}

/// The pairs of texts that a sequence of pairs of strings holds.
pub open spec fn texts(entries: Seq<(&str, &str)>) -> Seq<(Seq<char>, Seq<char>)> {
    Seq::new(entries.len(), |i: int| (entries[i].0@, entries[i].1@))
}

/// Whether some pair has the key `key`.
pub open spec fn has_key(pairs: Seq<(Seq<char>, Seq<char>)>, key: Seq<char>) -> bool {
    exists|i: int| 0 <= i < pairs.len() && (#[trigger] pairs[i]).0 == key
}

/// Whether no key stands twice.
pub open spec fn distinct_keys(pairs: Seq<(Seq<char>, Seq<char>)>) -> bool {
    forall|i: int, j: int|
        0 <= i < j < pairs.len() ==> (#[trigger] pairs[i]).0 != (#[trigger] pairs[j]).0
}

/// The mapping has exactly the keys that stand in the pairs, and it is finite.
pub proof fn lemma_options_keys(pairs: Seq<(Seq<char>, Seq<char>)>, key: Seq<char>)
    ensures
        options_map(pairs).contains_key(key) <==> has_key(pairs, key),
        options_map(pairs).dom().finite(),
    decreases pairs.len(),
{
    if pairs.len() > 0 {
        let front = pairs.drop_last();
        lemma_options_keys(front, key);
        if has_key(front, key) {
            let i = choose|i: int| 0 <= i < front.len() && (#[trigger] front[i]).0 == key;
            assert(pairs[i].0 == key);
        }
        if has_key(pairs, key) && pairs.last().0 != key {
            let i = choose|i: int| 0 <= i < pairs.len() && (#[trigger] pairs[i]).0 == key;
            assert(front[i].0 == key);
        }
        if pairs.last().0 == key {
            assert(pairs[pairs.len() - 1].0 == key);
        }
    }
}

/// The value of a key is that of the last pair with this key: where two pairs share a
/// key, the later one wins.
pub proof fn lemma_last_entry_wins(pairs: Seq<(Seq<char>, Seq<char>)>, i: int)
    requires
        0 <= i < pairs.len(),
        forall|j: int| i < j < pairs.len() ==> (#[trigger] pairs[j]).0 != pairs[i].0,
    ensures
        options_map(pairs).contains_key(pairs[i].0),
        options_map(pairs)[pairs[i].0] == pairs[i].1,
    decreases pairs.len(),
{
    if i < pairs.len() - 1 {
        let front = pairs.drop_last();
        assert(pairs[pairs.len() - 1].0 != pairs[i].0);
        assert forall|j: int| i < j < front.len() implies (#[trigger] front[j]).0 != front[i].0 by {
            assert(pairs[j].0 != pairs[i].0);
        }
        lemma_last_entry_wins(front, i);
    }
}

/// Of two pairs with the same key, the later one gives the key its value.
pub proof fn lemma_later_of_two_wins(key: Seq<char>, earlier: Seq<char>, later: Seq<char>)
    ensures
        options_map(seq![(key, earlier), (key, later)]) == Map::<Seq<char>, Seq<char>>::empty().insert(
            key,
            later,
        ),
{
    let pairs = seq![(key, earlier), (key, later)];
    assert forall|k: Seq<char>| options_map(pairs).contains_key(k) <==> k == key by {
        lemma_options_keys(pairs, k);
        assert(pairs[1].0 == key);
    }
    lemma_last_entry_wins(pairs, 1);
    assert(options_map(pairs) =~= Map::<Seq<char>, Seq<char>>::empty().insert(key, later));
}

/// Where no key stands twice, the mapping has as many keys as there are pairs.
pub proof fn lemma_options_len(pairs: Seq<(Seq<char>, Seq<char>)>)
    requires
        distinct_keys(pairs),
    ensures
        options_map(pairs).dom().finite(),
        options_map(pairs).len() == pairs.len(),
    decreases pairs.len(),
{
    if pairs.len() > 0 {
        let front = pairs.drop_last();
        let key = pairs.last().0;
        assert forall|i: int, j: int| 0 <= i < j < front.len() implies (#[trigger] front[i]).0 != (
        #[trigger] front[j]).0 by {
            assert(pairs[i].0 != pairs[j].0);
        }
        lemma_options_len(front);
        lemma_options_keys(front, key);
        if has_key(front, key) {
            let i = choose|i: int| 0 <= i < front.len() && (#[trigger] front[i]).0 == key;
            assert(pairs[i].0 != pairs[pairs.len() - 1].0);
        }
    }
}

/// Where no key stands twice, giving the pair at `i` a new value is entering its key
/// with that value.
proof fn lemma_replace_value(pairs: Seq<(Seq<char>, Seq<char>)>, i: int, value: Seq<char>)
    requires
        distinct_keys(pairs),
        0 <= i < pairs.len(),
    ensures
        options_map(pairs.update(i, (pairs[i].0, value))) == options_map(pairs).insert(
            pairs[i].0,
            value,
        ),
    decreases pairs.len(),
{
    let key = pairs[i].0;
    let changed = pairs.update(i, (key, value));
    let front = pairs.drop_last();
    if i == pairs.len() - 1 {
        assert(changed.drop_last() =~= front);
        assert(options_map(changed) =~= options_map(pairs).insert(key, value));
    } else {
        assert(changed.drop_last() =~= front.update(i, (front[i].0, value)));
        assert forall|a: int, b: int| 0 <= a < b < front.len() implies (#[trigger] front[a]).0 != (
        #[trigger] front[b]).0 by {
            assert(pairs[a].0 != pairs[b].0);
        }
        lemma_replace_value(front, i, value);
        assert(pairs[i].0 != pairs[pairs.len() - 1].0);
        assert(options_map(changed) =~= options_map(pairs).insert(key, value));
    }
}

/// The mapping that the broker's array of options stands for, where the broker
/// announced `count` pairs: that of the first `count` pairs of `raw`, and the mapping
/// without keys for a `count` of `0`, whatever `raw` is.
pub open spec fn announced_options(raw: Option<&[(&str, &str)]>, count: usize) -> Map<
    Seq<char>,
    Seq<char>,
> {
    if count == 0 {
        Map::empty()
    } else {
        options_map(texts(raw->0@).take(count as int))
    }
}

/// The options of a plugin: a mapping from key to value, both borrowed from the
/// broker's memory for as long as the call lasts.
#[derive(Debug)]
pub struct MosquittoOpt<'a> {
    entries: Vec<(&'a str, &'a str)>,
}

impl<'a> View for MosquittoOpt<'a> {
    type V = Map<Seq<char>, Seq<char>>;

    closed spec fn view(&self) -> Map<Seq<char>, Seq<char>> {
        options_map(texts(self.entries@))
    }
}

impl<'a> MosquittoOpt<'a> {
    #[verifier::type_invariant]
    spec fn no_key_twice(&self) -> bool {
        distinct_keys(texts(self.entries@))
    }

    /// A mapping without keys.
    pub fn new() -> (opts: Self)
        ensures
            opts@ == Map::<Seq<char>, Seq<char>>::empty(),
    {
        let opts = MosquittoOpt { entries: Vec::new() };
        assert(texts(opts.entries@) =~= Seq::empty());
        opts
    }

    /// Moves the pairs out and leaves a mapping without keys behind.
    fn take_entries(&mut self) -> (entries: Vec<(&'a str, &'a str)>)
        ensures
            entries == old(self).entries,
    {
        let mut taken = MosquittoOpt { entries: Vec::new() };
        assert(texts(taken.entries@) =~= Seq::empty());
        core::mem::swap(self, &mut taken);
        taken.entries
    }

    /// Where the pair with the key `key` stands, if there is one.
    fn position(&self, key: &str) -> (found: Option<usize>)
        ensures
            match found {
                Some(i) => i < self.entries@.len() && self.entries@[i as int].0@ == key@,
                None => !has_key(texts(self.entries@), key@),
            },
    {
        let mut i: usize = 0;
        while i < self.entries.len()
            invariant
                i <= self.entries@.len(),
                forall|j: int| 0 <= j < i ==> self.entries@[j].0@ != key@,
            decreases self.entries@.len() - i,
        {
            if same_text(self.entries[i].0, key) {
                return Some(i);
            }
            i += 1;
        }
        assert forall|j: int| 0 <= j < texts(self.entries@).len() implies (#[trigger] texts(
            self.entries@,
        )[j]).0 != key@ by {
            assert(self.entries@[j].0@ != key@);
        }
        None
    }

    /// Enters `value` under `key`, in place of the value that the key had, and returns
    /// that earlier value.
    pub fn insert(&mut self, key: &'a str, value: &'a str) -> (previous: Option<&'a str>)
        ensures
            final(self)@ == old(self)@.insert(key@, value@),
            match previous {
                Some(earlier) => old(self)@.contains_key(key@) && old(self)@[key@] == earlier@,
                None => !old(self)@.contains_key(key@),
            },
    {
        proof {
            use_type_invariant(&*self);
            lemma_options_keys(texts(self.entries@), key@);
        }
        let ghost before = texts(self.entries@);
        match self.position(key) {
            Some(i) => {
                let (first_key, earlier) = self.entries[i];
                proof {
                    assert(before[i as int] == (key@, earlier@));
                    assert forall|j: int| i < j < before.len() implies (#[trigger] before[j]).0
                        != before[i as int].0 by {
                        assert(before[i as int].0 != before[j].0);
                    }
                    lemma_last_entry_wins(before, i as int);
                    lemma_replace_value(before, i as int, value@);
                    assert(texts(self.entries@.update(i as int, (first_key, value)))
                        =~= before.update(i as int, (key@, value@)));
                    assert forall|a: int, b: int|
                        0 <= a < b < before.len() implies (#[trigger] before.update(
                        i as int,
                        (key@, value@),
                    )[a]).0 != (#[trigger] before.update(i as int, (key@, value@))[b]).0 by {
                        assert(before[a].0 != before[b].0);
                    }
                }
                let mut entries = self.take_entries();
                entries.set(i, (first_key, value));
                *self = MosquittoOpt { entries };
                Some(earlier)
            },
            None => {
                proof {
                    let after = before.push((key@, value@));
                    assert(texts(self.entries@.push((key, value))) =~= after);
                    assert(after.drop_last() =~= before);
                    assert forall|a: int, b: int| 0 <= a < b < after.len() implies (
                    #[trigger] after[a]).0 != (#[trigger] after[b]).0 by {
                        if b < before.len() {
                            assert(before[a].0 != before[b].0);
                        } else {
                            assert(before[a].0 != key@);
                        }
                    }
                }
                let mut entries = self.take_entries();
                entries.push((key, value));
                *self = MosquittoOpt { entries };
                None
            },
        }
    }

    /// The value that stands under `key`, if the key is there.
    pub fn get(&self, key: &str) -> (value: Option<&'a str>)
        ensures
            match value {
                Some(found) => self@.contains_key(key@) && self@[key@] == found@,
                None => !self@.contains_key(key@),
            },
    {
        proof {
            use_type_invariant(self);
            lemma_options_keys(texts(self.entries@), key@);
        }
        match self.position(key) {
            Some(i) => {
                proof {
                    let pairs = texts(self.entries@);
                    assert forall|j: int| i < j < pairs.len() implies (#[trigger] pairs[j]).0
                        != pairs[i as int].0 by {
                        assert(pairs[i as int].0 != pairs[j].0);
                    }
                    lemma_last_entry_wins(pairs, i as int);
                }
                Some(self.entries[i].1)
            },
            None => None,
        }
    }

    /// Whether `key` is there.
    pub fn contains_key(&self, key: &str) -> (found: bool)
        ensures
            found == self@.contains_key(key@),
    {
        self.get(key).is_some()
    }

    /// The number of keys.
    pub fn len(&self) -> (n: usize)
        ensures
            self@.dom().finite(),
            n == self@.len(),
    {
        proof {
            use_type_invariant(self);
            lemma_options_len(texts(self.entries@));
        }
        self.entries.len()
    }

    /// Whether there is no key.
    pub fn is_empty(&self) -> (empty: bool)
        ensures
            empty == (self@ == Map::<Seq<char>, Seq<char>>::empty()),
    {
        proof {
            use_type_invariant(self);
            lemma_options_len(texts(self.entries@));
            if self.entries@.len() == 0 {
                assert(texts(self.entries@) =~= Seq::empty());
            }
        }
        self.entries.len() == 0
    }
}

/// Reads the options that the broker handed over into a mapping.
///
/// `raw` is the broker's array of pairs, `None` where the broker gave no array at all,
/// and `count` the number of pairs that the broker announced. The first `count` pairs are
/// entered in their order, so where a key stands twice the later value stays.
/// With a `count` of `0` the mapping is empty, whatever `raw` is.
pub fn parse_options<'a>(raw: Option<&[(&'a str, &'a str)]>, count: usize) -> (opts: MosquittoOpt<
    'a,
>)
    requires
        count > 0 ==> raw is Some && count <= raw->0@.len(),
    ensures
        opts@ == announced_options(raw, count),
        count == 0 ==> opts@ == Map::<Seq<char>, Seq<char>>::empty(),
{
    let mut opts = MosquittoOpt::new();
    if count == 0 {
        return opts;
    }
    let pairs = raw.unwrap();
    assert(texts(pairs@).take(0) =~= Seq::empty());
    let mut i: usize = 0;
    while i < count
        invariant
            i <= count <= pairs@.len(),
            opts@ == options_map(texts(pairs@).take(i as int)),
        decreases count - i,
    {
        let (key, value) = pairs[i];
        proof {
            let next = texts(pairs@).take(i + 1);
            assert(next.drop_last() =~= texts(pairs@).take(i as int));
            assert(next.last() == (key@, value@));
        }
        opts.insert(key, value);
        i += 1;
    }
    opts
}

} // verus!
