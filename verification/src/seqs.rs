//! Facts about sequences that grow by one element.
use vstd::prelude::*;

verus! {

/// What a sequence with one more element contains.
pub proof fn push_contains<A>(s: Seq<A>, x: A, y: A)
    ensures
        s.push(x).contains(y) <==> s.contains(y) || x == y,
{
    let t = s.push(x);
    assert(t[s.len() as int] == x);
    if s.contains(y) {
        let i = choose|i: int| 0 <= i < s.len() && s[i] == y;
        assert(t[i] == y);
    }
    if t.contains(y) {
        let i = choose|i: int| 0 <= i < t.len() && t[i] == y;
        if i < s.len() {
            assert(s[i] == y);
        }
    }
}

/// One more element of a filtered sequence.
pub proof fn filter_step<A>(s: Seq<A>, i: int, keep: spec_fn(A) -> bool)
    requires
        0 <= i < s.len(),
    ensures
        s.take(i + 1).filter(keep) == if keep(s[i]) {
            s.take(i).filter(keep).push(s[i])
        } else {
            s.take(i).filter(keep)
        },
{
    reveal(Seq::filter);
    assert(s.take(i + 1).drop_last() =~= s.take(i));
    assert(s.take(i + 1).last() == s[i]);
}

pub proof fn filter_none<A>(s: Seq<A>, keep: spec_fn(A) -> bool)
    ensures
        s.take(0).filter(keep) == Seq::<A>::empty(),
{
    reveal(Seq::filter);
    assert(s.take(0).filter(keep) =~= Seq::<A>::empty());
}

/// The image of a sequence with one more element.
pub proof fn map_push<A, B>(s: Seq<A>, x: A, f: spec_fn(A) -> B)
    ensures
        s.push(x).map_values(f) == s.map_values(f).push(f(x)),
{
    assert(s.push(x).map_values(f) =~= s.map_values(f).push(f(x)));
}

/// A filtered sequence is no longer than the sequence, and holds only what is kept.
pub proof fn filter_bound<A>(s: Seq<A>, keep: spec_fn(A) -> bool)
    ensures
        s.filter(keep).len() <= s.len(),
        forall|i: int| 0 <= i < s.filter(keep).len() ==> keep(#[trigger] s.filter(keep)[i]),
    decreases s.len(),
{
    reveal(Seq::filter);
    if s.len() > 0 {
        filter_bound(s.drop_last(), keep);
    }
}

/// A filtered sequence holds what the sequence holds and is kept.
pub proof fn filter_contains<A>(s: Seq<A>, keep: spec_fn(A) -> bool, x: A)
    ensures
        s.filter(keep).contains(x) <==> s.contains(x) && keep(x),
    decreases s.len(),
{
    reveal(Seq::filter);
    if s.len() > 0 {
        let init = s.drop_last();
        filter_contains(init, keep, x);
        push_contains(init, s.last(), x);
        push_contains(init.filter(keep), s.last(), x);
        assert(init.push(s.last()) =~= s);
    }
}

/// What a mapped sequence holds.
pub proof fn map_contains<A, B>(s: Seq<A>, f: spec_fn(A) -> B, y: B)
    ensures
        s.map_values(f).contains(y) <==> exists|x: A| #[trigger] s.contains(x) && f(x) == y,
{
    let mapped = s.map_values(f);
    if mapped.contains(y) {
        let i = choose|i: int| 0 <= i < mapped.len() && mapped[i] == y;
        assert(s.contains(s[i]) && f(s[i]) == y);
    }
    if exists|x: A| #[trigger] s.contains(x) && f(x) == y {
        let x = choose|x: A| #[trigger] s.contains(x) && f(x) == y;
        let i = choose|i: int| 0 <= i < s.len() && s[i] == x;
        assert(mapped[i] == y);
    }
}

/// The first element that is wanted.
pub open spec fn first_where<A>(s: Seq<A>, wanted: spec_fn(A) -> bool) -> Option<A>
    decreases s.len(),
{
    if s.len() == 0 {
        None
    } else if wanted(s[0]) {
        Some(s[0])
    } else {
        first_where(s.drop_first(), wanted)
    }
}

/// The first wanted element stands at `i`, if none before it is wanted.
pub proof fn first_at<A>(s: Seq<A>, i: int, wanted: spec_fn(A) -> bool)
    requires
        0 <= i < s.len(),
        wanted(s[i]),
        forall|k: int| 0 <= k < i ==> !wanted(#[trigger] s[k]),
    ensures
        first_where(s, wanted) == Some(s[i]),
    decreases i,
{
    if i > 0 {
        let rest = s.drop_first();
        assert forall|k: int| 0 <= k < i - 1 implies !wanted(#[trigger] rest[k]) by {
            assert(rest[k] == s[k + 1]);
        }
        first_at(rest, i - 1, wanted);
    }
}

/// There is no first wanted element if none is wanted.
pub proof fn first_nowhere<A>(s: Seq<A>, wanted: spec_fn(A) -> bool)
    requires
        forall|k: int| 0 <= k < s.len() ==> !wanted(#[trigger] s[k]),
    ensures
        first_where(s, wanted) is None,
    decreases s.len(),
{
    if s.len() > 0 {
        let rest = s.drop_first();
        assert forall|k: int| 0 <= k < rest.len() implies !wanted(#[trigger] rest[k]) by {
            assert(rest[k] == s[k + 1]);
        }
        first_nowhere(rest, wanted);
    }
}

/// What is found first is wanted, and is there.
pub proof fn first_is_wanted<A>(s: Seq<A>, wanted: spec_fn(A) -> bool)
    ensures
        first_where(s, wanted) matches Some(x) ==> wanted(x) && s.contains(x),
    decreases s.len(),
{
    if s.len() > 0 {
        if wanted(s[0]) {
            assert(s.contains(s[0]));
        } else {
            let rest = s.drop_first();
            first_is_wanted(rest, wanted);
            match first_where(rest, wanted) {
                Some(x) => {
                    let i = choose|i: int| 0 <= i < rest.len() && rest[i] == x;
                    assert(s[i + 1] == x);
                },
                None => {},
            }
        }
    }
}

/// The first wanted element is there, and none before it is wanted; there is none exactly if
/// nothing is wanted.
pub proof fn law_the_first_is_first<A>(s: Seq<A>, wanted: spec_fn(A) -> bool)
    ensures
        match first_where(s, wanted) {
            Some(x) => exists|i: int|
                0 <= i < s.len() && #[trigger] s[i] == x && wanted(x) && forall|k: int|
                    0 <= k < i ==> !wanted(#[trigger] s[k]),
            None => forall|x: A| #[trigger] s.contains(x) ==> !wanted(x),
        },
    decreases s.len(),
{
    if s.len() > 0 {
        if wanted(s[0]) {
            assert(s[0] == s[0]);
        } else {
            let rest = s.drop_first();
            law_the_first_is_first(rest, wanted);
            match first_where(rest, wanted) {
                Some(x) => {
                    let i = choose|i: int|
                        0 <= i < rest.len() && #[trigger] rest[i] == x && wanted(x) && forall|
                            k: int,
                        |
                            0 <= k < i ==> !wanted(#[trigger] rest[k]);
                    assert(s[i + 1] == x);
                    assert forall|k: int| 0 <= k < i + 1 implies !wanted(#[trigger] s[k]) by {
                        if k > 0 {
                            assert(rest[k - 1] == s[k]);
                        }
                    }
                },
                None => {
                    assert forall|x: A| #[trigger] s.contains(x) implies !wanted(x) by {
                        let i = choose|i: int| 0 <= i < s.len() && s[i] == x;
                        if i > 0 {
                            assert(rest[i - 1] == x);
                            assert(rest.contains(x));
                        }
                    }
                },
            }
        }
    }
}

} // verus!
