use vstd::prelude::*;

verus! {

/// Filtering one more item keeps what was kept, and the item where it passes.
pub proof fn lemma_filter_take<A>(s: Seq<A>, pred: spec_fn(A) -> bool, i: int)
    requires
        0 <= i < s.len(),
    ensures
        s.take(i + 1).filter(pred) == if pred(s[i]) {
            s.take(i).filter(pred).push(s[i])
        } else {
            s.take(i).filter(pred)
        },
{
    reveal(Seq::filter);
    assert(s.take(i + 1).drop_last() =~= s.take(i));
    assert(s.take(i + 1).last() == s[i]);
}

/// Mapping one more item appends its image.
pub proof fn lemma_map_values_take<A, B>(s: Seq<A>, f: spec_fn(A) -> B, i: int)
    requires
        0 <= i < s.len(),
    ensures
        s.take(i + 1).map_values(f) == s.take(i).map_values(f).push(f(s[i])),
{
    assert(s.take(i + 1).map_values(f) =~= s.take(i).map_values(f).push(f(s[i])));
}

/// Flat-mapping one more item appends what the item gives.
pub proof fn lemma_flat_map_take<A, B>(s: Seq<A>, f: spec_fn(A) -> Seq<B>, i: int)
    requires
        0 <= i < s.len(),
    ensures
        s.take(i + 1).flat_map(f) == s.take(i).flat_map(f) + f(s[i]),
{
    lemma_map_values_take(s, f, i);
    s.take(i).map_values(f).lemma_flatten_push(f(s[i]));
}

/// A filter that every item passes keeps the sequence as it is.
pub proof fn lemma_filter_all<A>(s: Seq<A>, pred: spec_fn(A) -> bool)
    requires
        forall|i: int| 0 <= i < s.len() ==> pred(#[trigger] s[i]),
    ensures
        s.filter(pred) == s,
    decreases s.len(),
{
    reveal(Seq::filter);
    if s.len() > 0 {
        lemma_filter_all(s.drop_last(), pred);
        assert(s.drop_last().push(s.last()) =~= s);
    } else {
        assert(s.filter(pred) =~= s);
    }
}

/// A filter that no item passes keeps nothing.
pub proof fn lemma_filter_none<A>(s: Seq<A>, pred: spec_fn(A) -> bool)
    requires
        forall|i: int| 0 <= i < s.len() ==> !pred(#[trigger] s[i]),
    ensures
        s.filter(pred) == Seq::<A>::empty(),
    decreases s.len(),
{
    reveal(Seq::filter);
    if s.len() > 0 {
        lemma_filter_none(s.drop_last(), pred);
    } else {
        assert(s.filter(pred) =~= Seq::<A>::empty());
    }
}

/// Flat-mapping a concatenation concatenates the two flat-maps.
pub proof fn lemma_flat_map_concat<A, B>(a: Seq<A>, b: Seq<A>, f: spec_fn(A) -> Seq<B>)
    ensures
        (a + b).flat_map(f) == a.flat_map(f) + b.flat_map(f),
{
    assert((a + b).map_values(f) =~= a.map_values(f) + b.map_values(f));
    vstd::seq_lib::lemma_flatten_concat(a.map_values(f), b.map_values(f));
}

/// What holds of every item that any element gives holds of every item
/// of the flat-map.
pub proof fn lemma_flat_map_all<A, B>(s: Seq<A>, f: spec_fn(A) -> Seq<B>, holds: spec_fn(B) -> bool)
    requires
        forall|i: int, j: int|
            0 <= i < s.len() && 0 <= j < f(s[i]).len() ==> holds(#[trigger] f(s[i])[j]),
    ensures
        forall|k: int| 0 <= k < s.flat_map(f).len() ==> holds(#[trigger] s.flat_map(f)[k]),
    decreases s.len(),
{
    if s.len() == 0 {
        assert(s.flat_map(f) =~= Seq::<B>::empty());
    } else {
        let n = s.len() - 1;
        let front = s.take(n);
        assert forall|i: int, j: int| 0 <= i < front.len() && 0 <= j < f(front[i]).len() implies holds(
            #[trigger] f(front[i])[j],
        ) by {
            assert(front[i] == s[i]);
        }
        lemma_flat_map_all(front, f, holds);
        lemma_flat_map_take(s, f, n);
        assert(s.take(n + 1) =~= s);
        assert forall|k: int| 0 <= k < s.flat_map(f).len() implies holds(
            #[trigger] s.flat_map(f)[k],
        ) by {
            if k >= front.flat_map(f).len() {
                let j = k - front.flat_map(f).len();
                assert(s.flat_map(f)[k] == f(s[n])[j]);
            } else {
                assert(s.flat_map(f)[k] == front.flat_map(f)[k]);
            }
        }
    }
}

/// Where every element gives nothing, the flat-map is empty.
pub proof fn lemma_flat_map_nothing<A, B>(s: Seq<A>, f: spec_fn(A) -> Seq<B>)
    requires
        forall|i: int| 0 <= i < s.len() ==> (#[trigger] f(s[i])).len() == 0,
    ensures
        s.flat_map(f) == Seq::<B>::empty(),
{
    lemma_flat_map_all(s, f, |item: B| false);
    if s.flat_map(f).len() > 0 {
        assert((|item: B| false)(s.flat_map(f)[0]));
    }
    assert(s.flat_map(f) =~= Seq::<B>::empty());
}

} // verus!
