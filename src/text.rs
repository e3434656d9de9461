//! Joining pieces of text, and where each piece lands in the result.
use vstd::prelude::*;

verus! {

/// The pieces written one after another.
pub open spec fn concat(parts: Seq<Seq<char>>) -> Seq<char>
    decreases parts.len(),
{
    if parts.len() == 0 {
        Seq::empty()
    } else {
        concat(parts.drop_last()) + parts.last()
    }
}

/// Where piece `i` begins in `concat(parts)`.
pub open spec fn offset_of(parts: Seq<Seq<char>>, i: int) -> int {
    concat(parts.take(i)).len() as int
}

/// Joining splits at any piece boundary.
pub proof fn lemma_concat_split(parts: Seq<Seq<char>>, k: int)
    requires
        0 <= k <= parts.len(),
    ensures
        concat(parts) == concat(parts.take(k)) + concat(parts.skip(k)),
    decreases parts.len(),
{
    if k == parts.len() {
        assert(parts.take(k) =~= parts);
        assert(parts.skip(k) =~= Seq::<Seq<char>>::empty());
        assert(concat(parts) + Seq::<char>::empty() =~= concat(parts));
    } else {
        let dl = parts.drop_last();
        lemma_concat_split(dl, k);
        assert(dl.take(k) =~= parts.take(k));
        assert(parts.skip(k).drop_last() =~= dl.skip(k));
        assert(parts.skip(k).last() == parts.last());
        assert(concat(parts) =~= concat(parts.take(k)) + concat(parts.skip(k)));
    }
}

/// Piece `i` stands in `concat(parts)` at `offset_of(parts, i)`, and ends
/// where piece `i + 1` begins.
pub proof fn lemma_concat_piece(parts: Seq<Seq<char>>, i: int)
    requires
        0 <= i < parts.len(),
    ensures
        offset_of(parts, i) + parts[i].len() == offset_of(parts, i + 1),
        offset_of(parts, i + 1) <= concat(parts).len(),
        concat(parts).subrange(offset_of(parts, i), offset_of(parts, i) + parts[i].len())
            == parts[i],
{
    let t = parts.take(i + 1);
    assert(t.drop_last() =~= parts.take(i));
    assert(t.last() == parts[i]);
    lemma_concat_split(parts, i + 1);
    let c = concat(parts);
    let o = offset_of(parts, i);
    assert(c.subrange(o, o + parts[i].len()) =~= parts[i]);
}

/// Pieces keep their order: an earlier piece ends before a later one begins.
pub proof fn lemma_concat_order(parts: Seq<Seq<char>>, i: int, j: int)
    requires
        0 <= i < j <= parts.len(),
    ensures
        offset_of(parts, i) + parts[i].len() <= offset_of(parts, j),
{
    lemma_concat_piece(parts, i);
    let t = parts.take(j);
    lemma_concat_split(t, i + 1);
    assert(t.take(i + 1) =~= parts.take(i + 1));
}

} // verus!
