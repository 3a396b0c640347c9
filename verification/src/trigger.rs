//! Triggering an action on the remote execution service: the metadata of a request.
use vstd::prelude::*;
use crate::seqs::first_index;
use crate::seqs::lemma_first_match;
use crate::seqs::lemma_first_match_found;
use crate::seqs::lemma_first_match_none;
use crate::text::chars_of;
use crate::text::text_from_chars;

verus! {

/// Why a request cannot be made.
#[derive(Debug, Clone, PartialEq, Eq)]
pub enum TriggerError {
    /// A metadata entry is not of the form `key=value`.
    InvalidMetadata { entry: String },
}

/// The position of the first `=` of a text, if it has one.
pub open spec fn separator_at(entry: Seq<char>) -> Option<int> {
    first_index(entry, |c: char| c == '=')
}

/// A metadata entry split at its first `=`: the key before it, the value
/// after it. Either may be empty, and the value may hold further `=`.
pub open spec fn spec_split_entry(entry: Seq<char>) -> Option<(Seq<char>, Seq<char>)> {
    match separator_at(entry) {
        Some(at) => Some((entry.take(at), entry.skip(at + 1))),
        None => None,
    }
}

/// The pairs of the first `n` entries, in order.
pub open spec fn pairs_of(entries: Seq<Seq<char>>, n: nat) -> Seq<(Seq<char>, Seq<char>)>
    decreases n,
{
    if n == 0 {
        Seq::empty()
    } else {
        pairs_of(entries, (n - 1) as nat).push(spec_split_entry(entries[n - 1])->0)
    }
}

/// The property of a pair to be of a given key.
pub open spec fn has_key(key: Seq<char>) -> spec_fn((Seq<char>, Seq<char>)) -> bool {
    |pair: (Seq<char>, Seq<char>)| pair.0 == key
}

/// The position in a list of pairs at which a key stands, if it stands in it.
pub open spec fn key_at(list: Seq<(Seq<char>, Seq<char>)>, key: Seq<char>) -> Option<int> {
    first_index(list, has_key(key))
}

/// A list of pairs after a key was entered with a value: where the key
/// stands in the list already, its value is replaced in place; else the pair
/// is added at the end.
pub open spec fn put(list: Seq<(Seq<char>, Seq<char>)>, key: Seq<char>, value: Seq<char>) -> Seq<(Seq<char>, Seq<char>)> {
    match key_at(list, key) {
        Some(at) => list.update(at, (key, value)),
        None => list.push((key, value)),
    }
}

/// The list that the first `n` pairs make when they are entered in order.
pub open spec fn entered(pairs: Seq<(Seq<char>, Seq<char>)>, n: nat) -> Seq<(Seq<char>, Seq<char>)>
    decreases n,
{
    if n == 0 {
        Seq::empty()
    } else {
        put(entered(pairs, (n - 1) as nat), pairs[n - 1].0, pairs[n - 1].1)
    }
}

/// The map that the first `n` pairs make when they are entered in order: a
/// later pair of a key replaces an earlier one.
pub open spec fn map_of(pairs: Seq<(Seq<char>, Seq<char>)>, n: nat) -> Map<Seq<char>, Seq<char>>
    decreases n,
{
    if n == 0 {
        Map::empty()
    } else {
        map_of(pairs, (n - 1) as nat).insert(pairs[n - 1].0, pairs[n - 1].1)
    }
}

/// A list of pairs lists a map when it holds each key of the map once, with
/// the value that the map gives it, and nothing else.
pub open spec fn lists(list: Seq<(Seq<char>, Seq<char>)>, map: Map<Seq<char>, Seq<char>>) -> bool {
    &&& forall|i: int, j: int| 0 <= i < j < list.len() ==> (#[trigger] list[i]).0 != (#[trigger] list[j]).0
    &&& forall|i: int|
        0 <= i < list.len() ==> map.contains_key((#[trigger] list[i]).0) && map[list[i].0]
            == list[i].1
    &&& forall|key: Seq<char>| #[trigger]
        map.contains_key(key) ==> exists|i: int| 0 <= i < list.len() && (#[trigger] list[i]).0 == key
}

/// The metadata that a list of entries states: the first entry that is no
/// pair, where there is one; else the pairs of all entries, entered in
/// order, so that each key stands once, where it first occurred, with the
/// value of its last occurrence.
pub open spec fn spec_parse_metadata(entries: Seq<Seq<char>>) -> Result<Seq<(Seq<char>, Seq<char>)>, Seq<char>> {
    match first_index(entries, |entry: Seq<char>| spec_split_entry(entry) is None) {
        Some(at) => Err(entries[at]),
        None => Ok(entered(pairs_of(entries, entries.len()), entries.len())),
    }
}

/// Splits a metadata entry at its first `=`.
pub fn split_entry(entry: &str) -> (pair: Option<(String, String)>)
    ensures
        pair.deep_view() == spec_split_entry(entry@),
{
    let chars = chars_of(entry);
    let mut at: usize = 0;
    while at < chars.len()
        invariant
            at <= chars.len(),
            chars@ == entry@,
            forall|j: int| 0 <= j < at ==> chars@[j] != '=',
        decreases chars.len() - at,
    {
        if chars[at] == '=' {
            let mut key: Vec<char> = Vec::new();
            let mut i: usize = 0;
            while i < at
                invariant
                    i <= at < chars.len(),
                    key@ == chars@.take(i as int),
                decreases at - i,
            {
                key.push(chars[i]);
                assert(key@ =~= chars@.take(i + 1));
                i += 1;
            }
            let mut value: Vec<char> = Vec::new();
            let mut k: usize = at + 1;
            while k < chars.len()
                invariant
                    at + 1 <= k <= chars.len(),
                    value@ == chars@.subrange(at + 1, k as int),
                decreases chars.len() - k,
            {
                value.push(chars[k]);
                assert(value@ =~= chars@.subrange(at + 1, k + 1));
                k += 1;
            }
            assert(chars@.subrange(at + 1, k as int) =~= chars@.skip(at + 1));
            proof {
                lemma_first_match_found(entry@, |c: char| c == '=', 0, at as int);
            }
            return Some((text_from_chars(key.as_slice()), text_from_chars(value.as_slice())));
        }
        at += 1;
    }
    proof {
        lemma_first_match_none(entry@, |c: char| c == '=', 0);
    }
    None
}

/// Enters a key with its value into a list of pairs.
pub fn put_pair(list: &mut Vec<(String, String)>, key: String, value: String)
    ensures
        final(list).deep_view() == put(old(list).deep_view(), key@, value@),
{
    let ghost before = list.deep_view();
    let ghost same_key = has_key(key@);
    let mut i: usize = 0;
    while i < list.len()
        invariant
            i <= list.len(),
            list.deep_view() == before,
            before == old(list).deep_view(),
            same_key == has_key(key@),
            forall|j: int| 0 <= j < i ==> !same_key(#[trigger] before[j]),
        decreases list.len() - i,
    {
        assert(before[i as int] == (list@[i as int].0@, list@[i as int].1@));
        if list[i].0 == key {
            proof {
                lemma_first_match_found(before, same_key, 0, i as int);
            }
            list.set(i, (key, value));
            assert(list.deep_view() =~= before.update(i as int, (key@, value@)));
            return;
        }
        i += 1;
    }
    proof {
        lemma_first_match_none(before, same_key, 0);
    }
    list.push((key, value));
    assert(list.deep_view() =~= before.push((key@, value@)));
}

/// Reads the metadata of a request from its entries, each of the form
/// `key=value`. The first entry without `=` makes the whole list invalid.
/// A key that occurs more than once stands once in the result, with the
/// value of its last occurrence.
pub fn parse_metadata(entries: &Vec<String>) -> (r: Result<Vec<(String, String)>, TriggerError>)
    ensures
        match r {
            Ok(pairs) => spec_parse_metadata(entries.deep_view()) == Ok::<
                Seq<(Seq<char>, Seq<char>)>,
                Seq<char>,
            >(pairs.deep_view()),
            Err(TriggerError::InvalidMetadata { entry }) => spec_parse_metadata(
                entries.deep_view(),
            ) == Err::<Seq<(Seq<char>, Seq<char>)>, Seq<char>>(entry@),
        },
{
    let ghost texts = entries.deep_view();
    let ghost invalid = |entry: Seq<char>| spec_split_entry(entry) is None;
    let mut pairs: Vec<(String, String)> = Vec::new();
    let mut i: usize = 0;
    assert(pairs.deep_view() =~= entered(pairs_of(texts, 0), 0));
    while i < entries.len()
        invariant
            i <= entries.len(),
            texts == entries.deep_view(),
            invalid == (|entry: Seq<char>| spec_split_entry(entry) is None),
            forall|j: int| 0 <= j < i ==> !invalid(#[trigger] texts[j]),
            pairs_of(texts, i as nat).len() == i,
            pairs.deep_view() == entered(pairs_of(texts, i as nat), i as nat),
        decreases entries.len() - i,
    {
        assert(texts[i as int] == entries@[i as int]@);
        match split_entry(entries[i].as_str()) {
            Some(pair) => {
                proof {
                    let read = pairs_of(texts, i as nat);
                    let more = pairs_of(texts, (i + 1) as nat);
                    assert(more == read.push(pair.deep_view()));
                    lemma_entered_ignores_later_pairs(read, more, i as nat);
                    assert(more[i as int] == pair.deep_view());
                }
                put_pair(&mut pairs, pair.0, pair.1);
            },
            None => {
                proof {
                    lemma_first_match_found(texts, invalid, 0, i as int);
                }
                return Err(TriggerError::InvalidMetadata { entry: entries[i].clone() });
            },
        }
        i += 1;
    }
    proof {
        lemma_first_match_none(texts, invalid, 0);
    }
    Ok(pairs)
}

/// What the first `n` pairs make does not depend on the pairs after them.
pub proof fn lemma_entered_ignores_later_pairs(a: Seq<(Seq<char>, Seq<char>)>, b: Seq<(Seq<char>, Seq<char>)>, n: nat)
    requires
        n <= a.len(),
        n <= b.len(),
        forall|i: int| 0 <= i < n ==> a[i] == b[i],
    ensures
        entered(a, n) == entered(b, n),
        map_of(a, n) == map_of(b, n),
    decreases n,
{
    if n > 0 {
        lemma_entered_ignores_later_pairs(a, b, (n - 1) as nat);
    }
}

/// Entering a pair into a list that lists a map gives a list that lists the
/// map with that pair inserted.
pub proof fn lemma_put_lists_insert(
    list: Seq<(Seq<char>, Seq<char>)>,
    map: Map<Seq<char>, Seq<char>>,
    key: Seq<char>,
    value: Seq<char>,
)
    requires
        lists(list, map),
    ensures
        lists(put(list, key, value), map.insert(key, value)),
{
    let same_key = has_key(key);
    let after = put(list, key, value);
    let grown = map.insert(key, value);
    lemma_first_match(list, same_key, 0);
    match key_at(list, key) {
        Some(at) => {
            assert(after[at] == (key, value));
            assert forall|other: Seq<char>| #[trigger] grown.contains_key(other) implies exists|
                i: int,
            |
                0 <= i < after.len() && (#[trigger] after[i]).0 == other by {
                if other == key {
                    assert(after[at].0 == other);
                } else {
                    let i = choose|i: int| 0 <= i < list.len() && (#[trigger] list[i]).0 == other;
                    assert(after[i].0 == other);
                }
            }
        },
        None => {
            let last = list.len() as int;
            assert(after[last] == (key, value));
            assert forall|other: Seq<char>| #[trigger] grown.contains_key(other) implies exists|
                i: int,
            |
                0 <= i < after.len() && (#[trigger] after[i]).0 == other by {
                if other == key {
                    assert(after[last].0 == other);
                } else {
                    let i = choose|i: int| 0 <= i < list.len() && (#[trigger] list[i]).0 == other;
                    assert(after[i].0 == other);
                }
            }
        },
    }
}

/// The metadata of a request is a map written as a list: each key stands in
/// it once, with the value of its last occurrence among the pairs, and no
/// key stands in it that no pair has.
pub proof fn lemma_each_key_once_last_value_kept(pairs: Seq<(Seq<char>, Seq<char>)>, n: nat)
    requires
        n <= pairs.len(),
    ensures
        lists(entered(pairs, n), map_of(pairs, n)),
    decreases n,
{
    if n > 0 {
        lemma_each_key_once_last_value_kept(pairs, (n - 1) as nat);
        lemma_put_lists_insert(
            entered(pairs, (n - 1) as nat),
            map_of(pairs, (n - 1) as nat),
            pairs[n - 1].0,
            pairs[n - 1].1,
        );
    }
}

} // verus!
