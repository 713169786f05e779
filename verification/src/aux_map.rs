//! The auxiliary map of the first generation: principals mapped to
//! descriptions, kept in the order in which the keys first came.

use vstd::prelude::*;
use vstd::string::*;
use crate::text::{append_decimal, decimal, lemma_dashed_numerals_injective};

verus! {

/// The model of the map: its entries in the order of first insertion.
pub type Entries = Seq<(Seq<char>, Seq<char>)>;

/// The position of the first entry with `key`, or `entries.len()` without one.
pub open spec fn key_index(entries: Entries, key: Seq<char>) -> int
    decreases entries.len(),
{
    if entries.len() == 0 || entries[0].0 == key {
        0
    } else {
        1 + key_index(entries.drop_first(), key)
    }
}

/// Whether some entry has `key`.
pub open spec fn has_key(entries: Entries, key: Seq<char>) -> bool {
    exists|i: int| 0 <= i < entries.len() && (#[trigger] entries[i]).0 == key
}

/// No key occurs in two entries.
pub open spec fn distinct_keys(entries: Entries) -> bool {
    forall|i: int, j: int|
        0 <= i < entries.len() && 0 <= j < entries.len() && i != j ==> (#[trigger] entries[i]).0
            != (#[trigger] entries[j]).0
}

/// Insert or overwrite: an entry with `key` keeps its place and takes
/// `value`; a new key goes to the end.
pub open spec fn upsert(entries: Entries, key: Seq<char>, value: Seq<char>) -> Entries {
    let i = key_index(entries, key);
    if i < entries.len() {
        entries.update(i, (key, value))
    } else {
        entries.push((key, value))
    }
}

/// `key_index` is the least index with the key, bounded by the length.
pub proof fn lemma_key_index(entries: Entries, key: Seq<char>)
    ensures
        0 <= key_index(entries, key) <= entries.len(),
        forall|j: int| 0 <= j < key_index(entries, key) ==> (#[trigger] entries[j]).0 != key,
        key_index(entries, key) < entries.len() ==> entries[key_index(entries, key)].0 == key,
        key_index(entries, key) < entries.len() <==> has_key(entries, key),
    decreases entries.len(),
{
    if entries.len() == 0 || entries[0].0 == key {
    } else {
        let t = entries.drop_first();
        lemma_key_index(t, key);
        let k = key_index(entries, key);
        assert forall|j: int| 0 <= j < k implies (#[trigger] entries[j]).0 != key by {
            if j > 0 {
                assert(entries[j] == t[j - 1]);
            }
        }
        if k < entries.len() {
            assert(t[key_index(t, key)] == entries[k]);
        }
        if has_key(entries, key) {
            let i = choose|i: int| 0 <= i < entries.len() && (#[trigger] entries[i]).0 == key;
            assert(t[i - 1] == entries[i]);
            assert(has_key(t, key));
        }
    }
}

/// An index with the key at it (or the end), and no entry with the key
/// before it, is `key_index`.
pub proof fn lemma_key_index_is(entries: Entries, key: Seq<char>, k: int)
    requires
        0 <= k <= entries.len(),
        forall|j: int| 0 <= j < k ==> (#[trigger] entries[j]).0 != key,
        k < entries.len() ==> entries[k].0 == key,
    ensures
        key_index(entries, key) == k,
{
    lemma_key_index(entries, key);
    let f = key_index(entries, key);
    if f < k {
        assert(entries[f].0 != key);
    } else if k < f {
        assert(entries[k].0 != key);
    }
}

/// What an upsert does to entries without a repeated key: no key is
/// repeated afterwards; the length grows by one for a new key and not at all
/// for a known one; the pair upserted is in, and with it exactly the old
/// pairs of other keys; entries of other keys keep their places.
pub proof fn lemma_upsert(entries: Entries, key: Seq<char>, value: Seq<char>)
    requires
        distinct_keys(entries),
    ensures
        distinct_keys(upsert(entries, key, value)),
        upsert(entries, key, value).len() == entries.len() + if has_key(entries, key) {
            0int
        } else {
            1int
        },
        forall|p: (Seq<char>, Seq<char>)|
            #[trigger] upsert(entries, key, value).contains(p) <==> (p == (key, value) || (
            entries.contains(p) && p.0 != key)),
        forall|j: int|
            0 <= j < entries.len() && (#[trigger] entries[j]).0 != key ==> upsert(
                entries,
                key,
                value,
            )[j] == entries[j],
{
    lemma_key_index(entries, key);
    let i = key_index(entries, key);
    let after = upsert(entries, key, value);
    let witness = if i < entries.len() {
        i
    } else {
        entries.len() as int
    };
    assert(after[witness] == (key, value));
    assert forall|p: (Seq<char>, Seq<char>)| after.contains(p) implies (p == (key, value) || (
    entries.contains(p) && p.0 != key)) by {
        let j = choose|j: int| 0 <= j < after.len() && after[j] == p;
        if j != witness {
            assert(entries[j] == p);
        }
    }
    assert forall|p: (Seq<char>, Seq<char>)|
        (p == (key, value) || (entries.contains(p) && p.0 != key)) implies after.contains(p) by {
        if p == (key, value) {
            assert(after[witness] == p);
        } else {
            let j = choose|j: int| 0 <= j < entries.len() && entries[j] == p;
            assert(after[j] == p);
        }
    }
    assert forall|a: int, b: int|
        0 <= a < after.len() && 0 <= b < after.len() && a != b implies (#[trigger] after[a]).0 != (
    #[trigger] after[b]).0 by {
        if a != witness {
            assert(after[a] == entries[a]);
        }
        if b != witness {
            assert(after[b] == entries[b]);
        }
    }
}

/// The keys of the entries, in order.
pub open spec fn keys(entries: Entries) -> Seq<Seq<char>> {
    entries.map_values(|e: (Seq<char>, Seq<char>)| e.0)
}

/// Entries without a repeated key are as many as their keys.
pub proof fn lemma_distinct_count(entries: Entries)
    requires
        distinct_keys(entries),
    ensures
        entries.len() == keys(entries).to_set().len(),
{
    assert(keys(entries).no_duplicates());
    keys(entries).unique_seq_to_set();
}

/// The entries after every pair of `ops` was upserted in turn, first to last.
pub open spec fn upsert_each(entries: Entries, ops: Entries) -> Entries
    decreases ops.len(),
{
    if ops.len() == 0 {
        entries
    } else {
        upsert(upsert_each(entries, ops.drop_last()), ops.last().0, ops.last().1)
    }
}

/// Whether `ops[i]` is the last pair of `ops` with its key.
pub open spec fn latest_at(ops: Entries, i: int) -> bool {
    &&& 0 <= i < ops.len()
    &&& forall|j: int| i < j < ops.len() ==> (#[trigger] ops[j]).0 != ops[i].0
}

/// Upserting a sequence of pairs into an empty map leaves exactly the pairs
/// that are the last of their key, no key twice, and as many entries as the
/// sequence has distinct keys.
pub proof fn law_upsert_sequence(ops: Entries)
    ensures
        distinct_keys(upsert_each(Seq::empty(), ops)),
        forall|p: (Seq<char>, Seq<char>)|
            #[trigger] upsert_each(Seq::empty(), ops).contains(p) <==> exists|i: int|
                #[trigger] latest_at(ops, i) && ops[i] == p,
        upsert_each(Seq::empty(), ops).len() == keys(ops).to_set().len(),
    decreases ops.len(),
{
    let start = Seq::<(Seq<char>, Seq<char>)>::empty();
    let after = upsert_each(start, ops);
    if ops.len() == 0 {
        assert(keys(ops).to_set() =~= Set::<Seq<char>>::empty());
        assert forall|p: (Seq<char>, Seq<char>)| after.contains(p) <==> exists|i: int|
            #[trigger] latest_at(ops, i) && ops[i] == p by {}
    } else {
        let rest = ops.drop_last();
        let before = upsert_each(start, rest);
        let key = ops.last().0;
        let value = ops.last().1;
        let n = ops.len() as int;
        law_upsert_sequence(rest);
        lemma_upsert(before, key, value);
        assert(after == upsert(before, key, value));
        assert forall|p: (Seq<char>, Seq<char>)| after.contains(p) implies exists|i: int|
            #[trigger] latest_at(ops, i) && ops[i] == p by {
            if p == (key, value) {
                assert(latest_at(ops, n - 1) && ops[n - 1] == p);
            } else {
                assert(before.contains(p));
                let i = choose|i: int| #[trigger] latest_at(rest, i) && rest[i] == p;
                assert forall|j: int| i < j < ops.len() implies (#[trigger] ops[j]).0 != ops[i].0 by {
                    if j < n - 1 {
                        assert(rest[j].0 != rest[i].0);
                    }
                }
                assert(latest_at(ops, i) && ops[i] == p);
            }
        }
        assert forall|p: (Seq<char>, Seq<char>)|
            (exists|i: int| #[trigger] latest_at(ops, i) && ops[i] == p) implies after.contains(
            p,
        ) by {
            let i = choose|i: int| #[trigger] latest_at(ops, i) && ops[i] == p;
            if i < n - 1 {
                assert(ops[n - 1].0 != ops[i].0);
                assert forall|j: int| i < j < rest.len() implies (#[trigger] rest[j]).0
                    != rest[i].0 by {
                    assert(ops[j].0 != ops[i].0);
                }
                assert(latest_at(rest, i) && rest[i] == p);
                assert(before.contains(p));
                assert(p.0 != key);
            } else {
                assert(p == (key, value));
            }
            assert(upsert(before, key, value).contains(p));
        }
        // The count: the key sets of `after` and of `ops` are the same set.
        lemma_distinct_count(after);
        assert forall|k: Seq<char>| keys(after).to_set().contains(k) <==> keys(ops).to_set().contains(
            k,
        ) by {
            if keys(after).contains(k) {
                let j = choose|j: int| 0 <= j < keys(after).len() && keys(after)[j] == k;
                assert(after.contains(after[j]));
                let i = choose|i: int| #[trigger] latest_at(ops, i) && ops[i] == after[j];
                assert(keys(ops)[i] == k);
            }
            if keys(ops).contains(k) {
                let i = choose|i: int| 0 <= i < keys(ops).len() && keys(ops)[i] == k;
                lemma_has_latest(ops, i);
                let l = choose|l: int| #[trigger] latest_at(ops, l) && ops[l].0 == ops[i].0;
                assert(after.contains(ops[l]));
                let j = choose|j: int| 0 <= j < after.len() && after[j] == ops[l];
                assert(keys(after)[j] == k);
            }
        }
        assert(keys(after).to_set() =~= keys(ops).to_set());
    }
}

/// Every key of `ops` has a last pair.
proof fn lemma_has_latest(ops: Entries, i: int)
    requires
        0 <= i < ops.len(),
    ensures
        exists|l: int| #[trigger] latest_at(ops, l) && ops[l].0 == ops[i].0,
    decreases ops.len() - i,
{
    if exists|j: int| i < j < ops.len() && (#[trigger] ops[j]).0 == ops[i].0 {
        let j = choose|j: int| i < j < ops.len() && (#[trigger] ops[j]).0 == ops[i].0;
        lemma_has_latest(ops, j);
    } else {
        assert(latest_at(ops, i));
    }
}

/// How many entries one bulk load inserts.
pub const BLOAT_COUNT: u64 = 190;

/// The text with which every bulk-load key begins.
pub open spec fn bloat_key_prefix() -> Seq<char> {
    "reasonably long time of string that'll take up some storage "@
}

/// The value of every bulk-load entry.
pub open spec fn bloat_value() -> Seq<char> {
    "well shucks I guess this should be longer than a short word but nothing comes to mind."@
}

/// The key that a bulk load inserts at round `x` into a map of `size` entries.
pub open spec fn bloat_key(x: nat, size: nat) -> Seq<char> {
    bloat_key_prefix() + decimal(x) + seq!['-'] + decimal(size)
}

/// The entries after the first `rounds` rounds of a bulk load: round `x`
/// upserts `bloat_key(x, size)`, where `size` is the size the map has then.
pub open spec fn bloated(entries: Entries, rounds: nat) -> Entries
    decreases rounds,
{
    if rounds == 0 {
        entries
    } else {
        let before = bloated(entries, (rounds - 1) as nat);
        upsert(before, bloat_key((rounds - 1) as nat, before.len()), bloat_value())
    }
}

/// A bulk-load key determines the round and the size it was made of.
pub proof fn lemma_bloat_key_injective(x: nat, size: nat, y: nat, other: nat)
    requires
        bloat_key(x, size) == bloat_key(y, other),
    ensures
        x == y,
        size == other,
{
    let p = bloat_key_prefix().len() as int;
    let left = bloat_key(x, size);
    let right = bloat_key(y, other);
    assert(left.subrange(p, left.len() as int) =~= decimal(x) + seq!['-'] + decimal(size));
    assert(right.subrange(p, right.len() as int) =~= decimal(y) + seq!['-'] + decimal(other));
    lemma_dashed_numerals_injective(x, size, y, other);
}

/// Whether `key` is a bulk-load key made for a map of `size` entries.
pub open spec fn is_bloat_key_for(key: Seq<char>, size: int) -> bool {
    exists|x: nat| key == #[trigger] bloat_key(x, size as nat)
}

/// Whether every entry stands where a bulk load would have put it: the key
/// at position `j` was made for a map of `j` entries. The empty map and
/// every map that only bulk loads have filled are of this kind.
pub open spec fn bulk_keyed(entries: Entries) -> bool {
    forall|j: int| 0 <= j < entries.len() ==> is_bloat_key_for((#[trigger] entries[j]).0, j)
}

/// On a map that only bulk loads have filled, no round of a bulk load meets
/// a key that is there already: `rounds` rounds add `rounds` entries behind
/// the old ones, no key occurs twice, and the map stays of that kind.
pub proof fn law_bloat_grows(entries: Entries, rounds: nat)
    requires
        bulk_keyed(entries),
    ensures
        bloated(entries, rounds).len() == entries.len() + rounds,
        bulk_keyed(bloated(entries, rounds)),
        distinct_keys(bloated(entries, rounds)),
        forall|j: int| 0 <= j < entries.len() ==> bloated(entries, rounds)[j] == entries[j],
    decreases rounds,
{
    let after = bloated(entries, rounds);
    if rounds > 0 {
        let before = bloated(entries, (rounds - 1) as nat);
        let size = before.len();
        let key = bloat_key((rounds - 1) as nat, size);
        law_bloat_grows(entries, (rounds - 1) as nat);
        lemma_key_index(before, key);
        if has_key(before, key) {
            let j = choose|j: int| 0 <= j < before.len() && (#[trigger] before[j]).0 == key;
            assert(is_bloat_key_for(before[j].0, j));
            let x = choose|x: nat| before[j].0 == #[trigger] bloat_key(x, j as nat);
            lemma_bloat_key_injective(x, j as nat, (rounds - 1) as nat, size);
        }
        assert(after == before.push((key, bloat_value())));
        assert forall|j: int| 0 <= j < after.len() implies is_bloat_key_for(
            (#[trigger] after[j]).0,
            j,
        ) by {
            if j < before.len() {
                assert(after[j] == before[j]);
                assert(is_bloat_key_for(before[j].0, j));
            } else {
                assert(after[j].0 == bloat_key((rounds - 1) as nat, j as nat));
            }
        }
    }
    assert forall|a: int, b: int|
        0 <= a < after.len() && 0 <= b < after.len() && a != b implies (#[trigger] after[a]).0 != (
    #[trigger] after[b]).0 by {
        assert(is_bloat_key_for(after[a].0, a));
        assert(is_bloat_key_for(after[b].0, b));
        let x = choose|x: nat| after[a].0 == #[trigger] bloat_key(x, a as nat);
        let y = choose|y: nat| after[b].0 == #[trigger] bloat_key(y, b as nat);
        if after[a].0 == after[b].0 {
            lemma_bloat_key_injective(x, a as nat, y, b as nat);
        }
    }
}

/// Makes the key of round `x` for a map of `size` entries.
fn make_bloat_key(x: u64, size: u64) -> (key: String)
    ensures
        key@ == bloat_key(x as nat, size as nat),
{
    let mut key = "reasonably long time of string that'll take up some storage ".to_owned();
    append_decimal(&mut key, x);
    proof {
        reveal_strlit("-");
        assert("-"@ =~= seq!['-']);
    }
    key.append("-");
    append_decimal(&mut key, size);
    key
}

/// A map from principals to descriptions that remembers the order in which
/// its keys were first inserted.
#[derive(Debug)]
pub struct AuxMap {
    entries: Vec<(String, String)>,
}

impl View for AuxMap {
    type V = Entries;

    closed spec fn view(&self) -> Entries {
        Seq::new(self.entries@.len(), |i: int| (self.entries@[i].0@, self.entries@[i].1@))
    }
}

impl AuxMap {
    /// The invariant of the type: no key occurs in two entries.
    #[verifier::type_invariant]
    spec fn no_key_twice(self) -> bool {
        distinct_keys(self@)
    }

    /// A map without entries.
    pub fn new() -> (map: AuxMap)
        ensures
            map@ == Seq::<(Seq<char>, Seq<char>)>::empty(),
    {
        let map = AuxMap { entries: Vec::new() };
        assert(map@ =~= Seq::<(Seq<char>, Seq<char>)>::empty());
        map
    }

    /// The number of entries, which is the number of distinct keys.
    pub fn len(&self) -> (n: u64)
        ensures
            n == self@.len(),
            n == keys(self@).to_set().len(),
    {
        proof {
            use_type_invariant(self);
            lemma_distinct_count(self@);
        }
        self.entries.len() as u64
    }

    /// Inserts `key` with `value`, or overwrites the value that `key` has.
    pub fn insert(&mut self, key: String, value: String)
        ensures
            final(self)@ == upsert(old(self)@, key@, value@),
    {
        proof {
            use_type_invariant(&*self);
        }
        let n = self.entries.len();
        let mut i: usize = 0;
        let mut found = false;
        while i < n && !found
            invariant
                n == self.entries@.len(),
                *self == *old(self),
                i <= n,
                forall|j: int| 0 <= j < i ==> (#[trigger] self@[j]).0 != key@,
                found ==> i < n && self@[i as int].0 == key@,
            decreases n - i + if found { 0int } else { 1int },
        {
            if self.entries[i].0 == key {
                found = true;
            } else {
                i = i + 1;
            }
        }
        proof {
            lemma_key_index_is(self@, key@, i as int);
            lemma_upsert(self@, key@, value@);
        }
        let mut entries = Vec::new();
        core::mem::swap(&mut entries, &mut self.entries);
        if found {
            entries.set(i, (key, value));
        } else {
            entries.push((key, value));
        }
        proof {
            let after = Seq::new(entries@.len(), |i: int| (entries@[i].0@, entries@[i].1@));
            assert(after =~= upsert(old(self)@, key@, value@));
        }
        self.entries = entries;
    }

    /// The bulk load: `BLOAT_COUNT` rounds, each of which upserts the key made
    /// of the round's number and the map's size at that moment.
    pub fn bloat(&mut self)
        ensures
            final(self)@ == bloated(old(self)@, BLOAT_COUNT as nat),
    {
        let mut x: u64 = 0;
        while x < BLOAT_COUNT
            invariant
                x <= BLOAT_COUNT,
                self@ == bloated(old(self)@, x as nat),
            decreases BLOAT_COUNT - x,
        {
            let key = make_bloat_key(x, self.len());
            let value =
                "well shucks I guess this should be longer than a short word but nothing comes to mind.".to_owned();
            self.insert(key, value);
            x = x + 1;
        }
    }

    /// The map that the pairs give when they are upserted in turn.
    pub fn from_vec(pairs: Vec<(String, String)>) -> (map: AuxMap)
        ensures
            map@ == upsert_each(Seq::empty(), pairs.deep_view()),
    {
        let ghost ops = pairs.deep_view();
        let mut map = AuxMap::new();
        let n = pairs.len();
        let mut i: usize = 0;
        while i < n
            invariant
                n == pairs@.len(),
                ops == pairs.deep_view(),
                i <= n,
                map@ == upsert_each(Seq::empty(), ops.take(i as int)),
            decreases n - i,
        {
            let key = pairs[i].0.clone();
            let value = pairs[i].1.clone();
            proof {
                let next = ops.take(i as int + 1);
                assert(next.drop_last() =~= ops.take(i as int));
                assert(next.last() == (key@, value@));
            }
            map.insert(key, value);
            i = i + 1;
        }
        proof {
            assert(ops.take(n as int) =~= ops);
        }
        map
    }

    /// The entries, in the order in which their keys first came.
    pub fn to_vec(&self) -> (pairs: Vec<(String, String)>)
        ensures
            pairs.deep_view() == self@,
            distinct_keys(pairs.deep_view()),
    {
        proof {
            use_type_invariant(self);
        }
        let mut pairs: Vec<(String, String)> = Vec::new();
        let n = self.entries.len();
        let mut i: usize = 0;
        while i < n
            invariant
                n == self.entries@.len(),
                i <= n,
                pairs@.len() == i,
                forall|j: int| 0 <= j < i ==> (#[trigger] pairs@[j]).0@ == self@[j].0 && pairs@[j].1@ == self@[j].1,
            decreases n - i,
        {
            let key = self.entries[i].0.clone();
            let value = self.entries[i].1.clone();
            pairs.push((key, value));
            i = i + 1;
        }
        assert(pairs.deep_view() =~= self@);
        pairs
    }
}

} // verus!
