//! The order of the tables: ascending by identifier, byte by byte, with
//! entries of equal identifier kept in the order in which they came.

use vstd::prelude::*;
use vstd::utf8::encode_utf8;

verus! {

/// `a` comes before `b`, or is `b`, in the lexicographic order of bytes.
pub open spec fn bytes_le(a: Seq<u8>, b: Seq<u8>) -> bool
    decreases a.len(),
{
    if a.len() == 0 {
        true
    } else if b.len() == 0 {
        false
    } else if a[0] != b[0] {
        a[0] < b[0]
    } else {
        bytes_le(a.drop_first(), b.drop_first())
    }
}

/// The identifier `a` comes before `b`, or is `b`, when both are compared by
/// the bytes of their UTF-8 form.
pub open spec fn id_le(a: Seq<char>, b: Seq<char>) -> bool {
    bytes_le(encode_utf8(a), encode_utf8(b))
}

/// Every sequence of bytes is at or before itself.
pub proof fn lemma_bytes_le_reflexive(a: Seq<u8>)
    ensures
        bytes_le(a, a),
    decreases a.len(),
{
    if a.len() > 0 {
        lemma_bytes_le_reflexive(a.drop_first());
    }
}

/// Of two sequences of bytes, one is at or before the other.
pub proof fn lemma_bytes_le_total(a: Seq<u8>, b: Seq<u8>)
    ensures
        bytes_le(a, b) || bytes_le(b, a),
    decreases a.len(),
{
    if a.len() > 0 && b.len() > 0 && a[0] == b[0] {
        lemma_bytes_le_total(a.drop_first(), b.drop_first());
    }
}

/// The order of bytes is transitive.
pub proof fn lemma_bytes_le_transitive(a: Seq<u8>, b: Seq<u8>, c: Seq<u8>)
    requires
        bytes_le(a, b),
        bytes_le(b, c),
    ensures
        bytes_le(a, c),
    decreases a.len(),
{
    if a.len() > 0 && b.len() > 0 && c.len() > 0 && a[0] == b[0] && b[0] == c[0] {
        lemma_bytes_le_transitive(a.drop_first(), b.drop_first(), c.drop_first());
    }
}

/// Two sequences of bytes that are each at or before the other are the same.
pub proof fn lemma_bytes_le_antisymmetric(a: Seq<u8>, b: Seq<u8>)
    requires
        bytes_le(a, b),
        bytes_le(b, a),
    ensures
        a == b,
    decreases a.len(),
{
    if a.len() > 0 && b.len() > 0 {
        lemma_bytes_le_antisymmetric(a.drop_first(), b.drop_first());
        assert(a =~= seq![a[0]] + a.drop_first());
        assert(b =~= seq![b[0]] + b.drop_first());
    } else {
        assert(a =~= b);
    }
}

/// Whether the bytes `a` are at or before the bytes `b`.
pub fn bytes_at_or_before(a: &[u8], b: &[u8]) -> (le: bool)
    ensures
        le == bytes_le(a@, b@),
{
    let mut i: usize = 0;
    assert(a@.skip(0) =~= a@ && b@.skip(0) =~= b@);
    while i < a.len() && i < b.len()
        invariant
            i <= a.len(),
            i <= b.len(),
            bytes_le(a@, b@) == bytes_le(a@.skip(i as int), b@.skip(i as int)),
        decreases a.len() - i,
    {
        let x: u8 = a[i];
        let y: u8 = b[i];
        assert(a@.skip(i as int)[0] == x && b@.skip(i as int)[0] == y);
        if x != y {
            return x < y;
        }
        assert(a@.skip(i as int).drop_first() =~= a@.skip(i as int + 1));
        assert(b@.skip(i as int).drop_first() =~= b@.skip(i as int + 1));
        i += 1;
    }
    i == a.len()
}

/// Whether the identifier `a` is at or before the identifier `b`.
pub fn at_or_before(a: &str, b: &str) -> (le: bool)
    ensures
        le == id_le(a@, b@),
{
    bytes_at_or_before(a.as_bytes(), b.as_bytes())
}

/// An entry of a table, filed under an identifier.
pub trait Identified: View + Sized {
    /// The identifier under which an entry with the view `entry` is filed.
    spec fn id_of(entry: Self::V) -> Seq<char>;

    /// The identifier under which this entry is filed.
    fn id(&self) -> (id: &str)
        ensures
            id@ == Self::id_of(self@),
    ;
}

/// The views of `entries`, in order.
pub open spec fn views<T: View>(entries: Seq<T>) -> Seq<T::V> {
    entries.map_values(|entry: T| entry@)
}

/// The test that an entry is filed under `id`.
pub open spec fn is_under<T: Identified>(id: Seq<char>) -> spec_fn(T::V) -> bool {
    |entry: T::V| T::id_of(entry) == id
}

/// The entries of `entries` filed under `id`, in the order in which they stand.
pub open spec fn filed_under<T: Identified>(entries: Seq<T::V>, id: Seq<char>) -> Seq<T::V> {
    entries.filter(is_under::<T>(id))
}

/// No entry of `entries` stands before one with a smaller identifier.
pub open spec fn sorted_by_id<T: Identified>(entries: Seq<T::V>) -> bool {
    forall|i: int, j: int|
        0 <= i <= j < entries.len() ==> id_le(
            T::id_of(#[trigger] entries[i]),
            T::id_of(#[trigger] entries[j]),
        )
}

/// `sorted` holds the entries of `entries` in ascending order of identifier,
/// those of one identifier in the order in which `entries` has them.
pub open spec fn is_stable_sort_of<T: Identified>(sorted: Seq<T::V>, entries: Seq<T::V>) -> bool {
    &&& sorted_by_id::<T>(sorted)
    &&& sorted.to_multiset() == entries.to_multiset()
    &&& forall|id: Seq<char>| #[trigger]
        filed_under::<T>(sorted, id) == filed_under::<T>(entries, id)
}

/// No two entries of `entries` are filed under one identifier.
pub open spec fn distinct_ids<T: Identified>(entries: Seq<T::V>) -> bool {
    forall|i: int, j: int|
        0 <= i < j < entries.len() ==> T::id_of(#[trigger] entries[i]) != T::id_of(
            #[trigger] entries[j],
        )
}

/// Every entry of `entries` stands before those with a greater identifier
/// only, and no identifier comes twice.
pub open spec fn strictly_sorted_by_id<T: Identified>(entries: Seq<T::V>) -> bool {
    forall|i: int, j: int|
        0 <= i < j < entries.len() ==> !id_le(
            T::id_of(#[trigger] entries[j]),
            T::id_of(#[trigger] entries[i]),
        )
}

/// A filter that no entry passes leaves nothing.
proof fn lemma_filter_none<A>(s: Seq<A>, pred: spec_fn(A) -> bool)
    requires
        forall|i: int| 0 <= i < s.len() ==> !pred(#[trigger] s[i]),
    ensures
        s.filter(pred) == Seq::<A>::empty(),
    decreases s.len(),
{
    reveal(Seq::filter);
    if s.len() > 0 {
        lemma_filter_none(s.drop_last(), pred);
    }
}

/// A filter keeps a single entry exactly when the entry passes.
proof fn lemma_filter_one<A>(a: A, pred: spec_fn(A) -> bool)
    ensures
        seq![a].filter(pred) == if pred(a) {
            seq![a]
        } else {
            Seq::<A>::empty()
        },
{
    reveal(Seq::filter);
    let s = seq![a];
    assert(s.drop_last() =~= Seq::<A>::empty());
    assert(s.drop_last().filter(pred) =~= Seq::<A>::empty());
    assert(s.last() == a);
    assert(Seq::<A>::empty().push(a) =~= seq![a]);
}

/// A filter that two entries pass leaves two entries at least.
proof fn lemma_filter_two<A>(s: Seq<A>, pred: spec_fn(A) -> bool, i: int, j: int)
    requires
        0 <= i < j < s.len(),
        pred(s[i]),
        pred(s[j]),
    ensures
        s.filter(pred).len() >= 2,
    decreases s.len(),
{
    reveal(Seq::filter);
    let front = s.drop_last();
    if j == s.len() - 1 {
        assert(front[i] == s[i]);
        front.lemma_filter_contains(pred, i);
    } else {
        lemma_filter_two(front, pred, i, j);
    }
}

/// A filter that one entry at most passes leaves one entry at most.
proof fn lemma_filter_at_most_one<A>(s: Seq<A>, pred: spec_fn(A) -> bool)
    requires
        forall|i: int, j: int|
            0 <= i < j < s.len() ==> !(pred(#[trigger] s[i]) && pred(#[trigger] s[j])),
    ensures
        s.filter(pred).len() <= 1,
    decreases s.len(),
{
    reveal(Seq::filter);
    if s.len() > 0 {
        let front = s.drop_last();
        assert forall|i: int, j: int| 0 <= i < j < front.len() implies !(pred(#[trigger] front[i])
            && pred(#[trigger] front[j])) by {
            assert(front[i] == s[i] && front[j] == s[j]);
        }
        if pred(s.last()) {
            assert forall|i: int| 0 <= i < front.len() implies !pred(#[trigger] front[i]) by {
                assert(front[i] == s[i]);
                assert(s[s.len() - 1] == s.last());
            }
            lemma_filter_none(front, pred);
        } else {
            lemma_filter_at_most_one(front, pred);
        }
    }
}

/// A table made of entries with pairwise distinct identifiers holds no
/// identifier twice, and its identifiers ascend strictly.
pub proof fn lemma_sort_keeps_ids_distinct<T: Identified>(sorted: Seq<T::V>, entries: Seq<T::V>)
    requires
        is_stable_sort_of::<T>(sorted, entries),
        distinct_ids::<T>(entries),
    ensures
        distinct_ids::<T>(sorted),
        strictly_sorted_by_id::<T>(sorted),
{
    assert forall|i: int, j: int| 0 <= i < j < sorted.len() implies T::id_of(
        #[trigger] sorted[i],
    ) != T::id_of(#[trigger] sorted[j]) by {
        let id = T::id_of(sorted[i]);
        if T::id_of(sorted[j]) == id {
            let pred = is_under::<T>(id);
            lemma_filter_two(sorted, pred, i, j);
            lemma_filter_at_most_one(entries, pred);
            assert(filed_under::<T>(sorted, id) == filed_under::<T>(entries, id));
        }
    }
    assert forall|i: int, j: int| 0 <= i < j < sorted.len() implies !id_le(
        T::id_of(#[trigger] sorted[j]),
        T::id_of(#[trigger] sorted[i]),
    ) by {
        let a = T::id_of(sorted[i]);
        let b = T::id_of(sorted[j]);
        assert(id_le(a, b));
        if id_le(b, a) {
            lemma_bytes_le_antisymmetric(encode_utf8(a), encode_utf8(b));
            vstd::utf8::encode_utf8_decode_utf8(a);
            vstd::utf8::encode_utf8_decode_utf8(b);
        }
    }
}

/// Putting `entry` before the first entry that is not smaller keeps a sorted
/// sequence sorted.
proof fn lemma_insert_keeps_sorted<T: Identified>(sorted: Seq<T::V>, at: int, entry: T::V)
    requires
        sorted_by_id::<T>(sorted),
        0 <= at <= sorted.len(),
        forall|i: int| 0 <= i < at ==> !id_le(T::id_of(entry), T::id_of(#[trigger] sorted[i])),
        at < sorted.len() ==> id_le(T::id_of(entry), T::id_of(sorted[at])),
    ensures
        sorted_by_id::<T>(sorted.insert(at, entry)),
{
    let after = sorted.insert(at, entry);
    let key = encode_utf8(T::id_of(entry));
    lemma_bytes_le_reflexive(key);
    assert forall|i: int, j: int| 0 <= i <= j < after.len() implies id_le(
        T::id_of(#[trigger] after[i]),
        T::id_of(#[trigger] after[j]),
    ) by {
        if i == at && j == at {
        } else if i == at {
            assert(after[j] == sorted[j - 1]);
            assert(id_le(T::id_of(sorted[at]), T::id_of(sorted[j - 1])));
            lemma_bytes_le_transitive(
                key,
                encode_utf8(T::id_of(sorted[at])),
                encode_utf8(T::id_of(sorted[j - 1])),
            );
        } else if j == at {
            assert(after[i] == sorted[i]);
            lemma_bytes_le_total(key, encode_utf8(T::id_of(sorted[i])));
        } else {
            let i0 = if i < at {
                i
            } else {
                i - 1
            };
            let j0 = if j < at {
                j
            } else {
                j - 1
            };
            assert(after[i] == sorted[i0] && after[j] == sorted[j0]);
            assert(id_le(T::id_of(sorted[i0]), T::id_of(sorted[j0])));
        }
    }
}

/// Putting `entry` behind entries of other identifiers only puts it at the
/// head of those filed under its own identifier, and changes nothing for the
/// other identifiers.
proof fn lemma_insert_keeps_groups<T: Identified>(
    sorted: Seq<T::V>,
    entries: Seq<T::V>,
    at: int,
    entry: T::V,
    id: Seq<char>,
)
    requires
        0 <= at <= sorted.len(),
        forall|i: int| 0 <= i < at ==> T::id_of(#[trigger] sorted[i]) != T::id_of(entry),
        filed_under::<T>(sorted, id) == filed_under::<T>(entries, id),
    ensures
        filed_under::<T>(sorted.insert(at, entry), id) == filed_under::<T>(
            seq![entry] + entries,
            id,
        ),
{
    let pred = is_under::<T>(id);
    let head = sorted.subrange(0, at);
    let tail = sorted.subrange(at, sorted.len() as int);
    assert(sorted =~= head + tail);
    assert(sorted.insert(at, entry) =~= (head + seq![entry]) + tail);
    Seq::filter_distributes_over_add(head, tail, pred);
    Seq::filter_distributes_over_add(head + seq![entry], tail, pred);
    Seq::filter_distributes_over_add(head, seq![entry], pred);
    Seq::filter_distributes_over_add(seq![entry], entries, pred);
    lemma_filter_one(entry, pred);
    if pred(entry) {
        assert forall|i: int| 0 <= i < head.len() implies !pred(#[trigger] head[i]) by {
            assert(head[i] == sorted[i]);
        }
        lemma_filter_none(head, pred);
        assert(filed_under::<T>(sorted.insert(at, entry), id) =~= seq![entry] + tail.filter(pred));
        assert(sorted.filter(pred) =~= tail.filter(pred));
    } else {
        assert(filed_under::<T>(sorted.insert(at, entry), id) =~= head.filter(pred) + tail.filter(
            pred,
        ));
        assert((seq![entry] + entries).filter(pred) =~= entries.filter(pred));
    }
}

/// The place in the sorted `entries` of the first entry whose identifier is
/// not smaller than `id`.
fn first_not_before<T: Identified>(entries: &Vec<T>, id: &str) -> (at: usize)
    ensures
        at <= entries.len(),
        forall|i: int| 0 <= i < at ==> !id_le(id@, T::id_of(#[trigger] views(entries@)[i])),
        at < entries.len() ==> id_le(id@, T::id_of(views(entries@)[at as int])),
{
    let mut at: usize = 0;
    while at < entries.len()
        invariant
            at <= entries.len(),
            forall|i: int| 0 <= i < at ==> !id_le(id@, T::id_of(#[trigger] views(entries@)[i])),
        decreases entries.len() - at,
    {
        if at_or_before(id, entries[at].id()) {
            return at;
        }
        at += 1;
    }
    at
}

/// Sorts `entries` by identifier, in the order of bytes. Entries of one
/// identifier stay in the order in which they came.
pub fn sort_by_id<T: Identified>(entries: Vec<T>) -> (sorted: Vec<T>)
    ensures
        is_stable_sort_of::<T>(views(sorted@), views(entries@)),
        sorted.len() == entries.len(),
{
    let ghost all = views(entries@);
    let mut rest = entries;
    let mut sorted: Vec<T> = Vec::new();
    assert(all.skip(all.len() as int) =~= views(sorted@));
    while rest.len() > 0
        invariant
            rest.len() <= all.len(),
            views(rest@) == all.take(rest.len() as int),
            sorted.len() + rest.len() == all.len(),
            sorted_by_id::<T>(views(sorted@)),
            views(sorted@).to_multiset() == all.skip(rest.len() as int).to_multiset(),
            forall|id: Seq<char>| #[trigger]
                filed_under::<T>(views(sorted@), id) == filed_under::<T>(
                    all.skip(rest.len() as int),
                    id,
                ),
        decreases rest.len(),
    {
        let ghost before = views(sorted@);
        let ghost done = all.skip(rest.len() as int);
        let ghost n = rest.len() as int;
        let entry = rest.pop().unwrap();
        let at = first_not_before(&sorted, entry.id());
        sorted.insert(at, entry);
        proof {
            let e = entry@;
            assert(e == all[n - 1]) by {
                assert(all.take(n)[n - 1] == all[n - 1]);
            }
            assert(views(rest@) =~= all.take(n - 1));
            assert(views(sorted@) =~= before.insert(at as int, e));
            assert(all.skip(n - 1) =~= seq![e] + done);
            lemma_bytes_le_reflexive(encode_utf8(T::id_of(e)));
            lemma_insert_keeps_sorted::<T>(before, at as int, e);
            assert forall|id: Seq<char>| #[trigger]
                filed_under::<T>(views(sorted@), id) == filed_under::<T>(
                    all.skip(n - 1),
                    id,
                ) by {
                lemma_insert_keeps_groups::<T>(before, done, at as int, e, id);
            }
            vstd::seq_lib::to_multiset_insert(before, at as int, e);
            assert(seq![e] + done =~= done.insert(0, e));
            vstd::seq_lib::to_multiset_insert(done, 0, e);
        }
    }
    assert(all.skip(0) =~= all);
    sorted
}

} // verus!
