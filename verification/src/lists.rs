//! Filtering and rewriting of lists, stated over the views of their items.

use vstd::prelude::*;

verus! {

/// Filtering one item more: the item is kept or left out by the test on it alone.
pub proof fn lemma_filter_step<T>(s: Seq<T>, p: spec_fn(T) -> bool, i: int)
    requires
        0 <= i < s.len(),
    ensures
        s.take(i + 1).filter(p) == if p(s[i]) {
            s.take(i).filter(p).push(s[i])
        } else {
            s.take(i).filter(p)
        },
{
    reveal(Seq::filter);
    assert(s.take(i + 1).drop_last() =~= s.take(i));
}

/// The items of `v` whose views pass `p`, in their order. `keep` decides `p` on an item.
pub(crate) fn retain_by<T: DeepView, F: Fn(&T) -> bool>(
    v: Vec<T>,
    keep: F,
    Ghost(p): Ghost<spec_fn(T::V) -> bool>,
) -> (r: Vec<T>)
    requires
        forall|x: &T| #[trigger] keep.requires((x,)),
        forall|x: &T, b: bool| #[trigger] keep.ensures((x,), b) ==> b == p(x.deep_view()),
    ensures
        r.deep_view() == v.deep_view().filter(p),
{
    let mut out: Vec<T> = Vec::new();
    let ghost src = v.deep_view();
    proof {
        reveal(Seq::filter);
        assert(src.take(0).filter(p) =~= out.deep_view());
    }
    for x in it: v
        invariant
            it.seq() == v@,
            src == v.deep_view(),
            forall|x: &T| #[trigger] keep.requires((x,)),
            forall|x: &T, b: bool| #[trigger] keep.ensures((x,), b) ==> b == p(x.deep_view()),
            out.deep_view() == src.take(it.index()).filter(p),
    {
        proof {
            lemma_filter_step(src, p, it.index());
        }
        let ghost before = out.deep_view();
        if keep(&x) {
            out.push(x);
            assert(out.deep_view() =~= before.push(x.deep_view()));
        }
    }
    assert(src.take(src.len() as int) =~= src);
    out
}

/// Each item of `v` rewritten by `change`, whose effect on a view is `f`.
pub(crate) fn rewrite_by<T: DeepView, F: Fn(T) -> T>(
    v: Vec<T>,
    change: F,
    Ghost(f): Ghost<spec_fn(T::V) -> T::V>,
) -> (r: Vec<T>)
    requires
        forall|x: T| #[trigger] change.requires((x,)),
        forall|x: T, y: T| #[trigger] change.ensures((x,), y) ==> y.deep_view() == f(x.deep_view()),
    ensures
        r.deep_view() == v.deep_view().map_values(f),
{
    let mut out: Vec<T> = Vec::new();
    for x in it: v
        invariant
            it.seq() == v@,
            forall|x: T| #[trigger] change.requires((x,)),
            forall|x: T, y: T| #[trigger] change.ensures((x,), y) ==> y.deep_view() == f(x.deep_view()),
            out@.len() == it.index(),
            forall|j: int| 0 <= j < it.index() ==> out@[j].deep_view() == f(v@[j].deep_view()),
    {
        let y = change(x);
        out.push(y);
    }
    assert(out.deep_view() =~= v.deep_view().map_values(f));
    out
}

/// Whether `i` is the place of the first item of `s` that passes `p`.
pub open spec fn is_first<T>(s: Seq<T>, i: int, p: spec_fn(T) -> bool) -> bool {
    &&& 0 <= i < s.len()
    &&& p(s[i])
    &&& forall|j: int| 0 <= j < i ==> !p(s[j])
}

/// `s` with `f` applied to the first item that passes `p`, if there is one.
pub open spec fn rewrite_first<T>(s: Seq<T>, p: spec_fn(T) -> bool, f: spec_fn(T) -> T) -> Seq<T> {
    Seq::new(
        s.len(),
        |i: int|
            if is_first(s, i, p) {
                f(s[i])
            } else {
                s[i]
            },
    )
}

/// `v` with the first item that `test` accepts rewritten by `change`. `test` decides
/// `p` on an item, and the effect of `change` on a view is `f`.
pub(crate) fn rewrite_first_by<T: DeepView, P: Fn(&T) -> bool, F: Fn(T) -> T>(
    v: Vec<T>,
    test: P,
    change: F,
    Ghost(p): Ghost<spec_fn(T::V) -> bool>,
    Ghost(f): Ghost<spec_fn(T::V) -> T::V>,
) -> (r: Vec<T>)
    requires
        forall|x: &T| #[trigger] test.requires((x,)),
        forall|x: &T, b: bool| #[trigger] test.ensures((x,), b) ==> b == p(x.deep_view()),
        forall|x: T| #[trigger] change.requires((x,)),
        forall|x: T, y: T| #[trigger] change.ensures((x,), y) ==> y.deep_view() == f(x.deep_view()),
    ensures
        r.deep_view() == rewrite_first(v.deep_view(), p, f),
{
    let mut out: Vec<T> = Vec::new();
    let mut found = false;
    let ghost src = v.deep_view();
    for x in it: v
        invariant
            it.seq() == v@,
            src == v.deep_view(),
            forall|x: &T| #[trigger] test.requires((x,)),
            forall|x: &T, b: bool| #[trigger] test.ensures((x,), b) ==> b == p(x.deep_view()),
            forall|x: T| #[trigger] change.requires((x,)),
            forall|x: T, y: T| #[trigger] change.ensures((x,), y) ==> y.deep_view() == f(x.deep_view()),
            out@.len() == it.index(),
            found <==> exists|j: int| 0 <= j < it.index() && p(src[j]),
            forall|j: int|
                0 <= j < it.index() ==> out@[j].deep_view() == rewrite_first(src, p, f)[j],
    {
        let ghost i = it.index();
        assert(src[i] == x.deep_view());
        if !found && test(&x) {
            assert(is_first(src, i, p));
            let y = change(x);
            out.push(y);
            found = true;
        } else {
            assert(!is_first(src, i, p)) by {
                if found {
                    let j = choose|j: int| 0 <= j < i && p(src[j]);
                    assert(p(src[j]));
                }
            }
            out.push(x);
        }
    }
    assert(out.deep_view() =~= rewrite_first(src, p, f));
    out
}

/// Adds `x` at the end of `v`.
pub(crate) fn push_item<T: DeepView>(v: &mut Vec<T>, x: T)
    ensures
        final(v).deep_view() == old(v).deep_view().push(x.deep_view()),
{
    v.push(x);
    assert(v.deep_view() =~= old(v).deep_view().push(x.deep_view()));
}

/// Adds the items of `more` at the end of `v`.
pub(crate) fn append_items<T: DeepView>(v: &mut Vec<T>, more: Vec<T>)
    ensures
        final(v).deep_view() == old(v).deep_view() + more.deep_view(),
{
    let mut rest = more;
    v.append(&mut rest);
    assert(v.deep_view() =~= old(v).deep_view() + more.deep_view());
}

/// Takes the items out of `v` and leaves it empty.
pub(crate) fn take_all<T>(v: &mut Vec<T>) -> (r: Vec<T>)
    ensures
        r == *old(v),
        final(v)@ == Seq::<T>::empty(),
{
    let mut taken: Vec<T> = Vec::new();
    core::mem::swap(&mut taken, v);
    taken
}

} // verus!
