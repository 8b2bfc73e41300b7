use vstd::prelude::*;

use crate::cursor::IterTake;

verus! {

/// Traverses the whole vector, resolving every handle by keeping it, and
/// returns the vector. The traversal removes nothing, so the result equals
/// the input, element for element and in the same order.
pub fn keep_all<T>(v: Vec<T>) -> (r: Vec<T>)
    ensures
        r@ == v@,
{
    let ghost orig = v@;
    let mut it = IterTake::new(v);
    loop
        invariant
            it.wf(),
            !it.pending(),
            it.elems() == orig,
        ensures
            it.wf(),
            !it.pending(),
            it.elems() == orig,
        decreases orig.len() - it.pos(),
    {
        match it.next() {
            None => { break ; },
            Some(t) => {
                t.keep(&mut it);
            },
        }
    }
    it.into_inner()
}

/// Traverses the whole vector, extracting every element with the
/// order-preserving removal. The extracted values, in extraction order,
/// equal the original vector, and the backing vector is left empty.
pub fn take_all<T>(v: Vec<T>) -> (r: (Vec<T>, Vec<T>))
    ensures
        r.0@ == Seq::<T>::empty(),
        r.1@ == v@,
{
    let ghost orig = v@;
    let mut it = IterTake::new(v);
    let mut out: Vec<T> = Vec::new();
    loop
        invariant
            it.wf(),
            !it.pending(),
            it.pos() == 0,
            out@ + it.elems() == orig,
        ensures
            it.wf(),
            !it.pending(),
            it.elems().len() == 0,
            out@ == orig,
        decreases it.elems().len(),
    {
        match it.next() {
            None => {
                proof {
                    assert(out@ =~= orig);
                }
                break ;
            },
            Some(t) => {
                let x = t.take(&mut it);
                out.push(x);
                proof {
                    assert(out@ + it.elems() =~= orig);
                }
            },
        }
    }
    let rest = it.into_inner();
    proof {
        assert(rest@ =~= Seq::<T>::empty());
    }
    (rest, out)
}

/// Skips the first `a` elements, extracts the next `k` with the
/// order-preserving removal, and stops. The remaining vector and the
/// extracted values are exactly those of a range removal of `[a, a + k)`:
/// the remainder is the input with that window cut out, still in order, and
/// the extracted values are that window, in order.
pub fn take_range<T>(v: Vec<T>, a: usize, k: usize) -> (r: (Vec<T>, Vec<T>))
    requires
        a + k <= v@.len(),
    ensures
        r.0@ == v@.subrange(0, a as int) + v@.subrange(a + k, v@.len() as int),
        r.1@ == v@.subrange(a as int, a + k),
{
    let ghost orig = v@;
    let mut it = IterTake::new(v);
    let mut out: Vec<T> = Vec::new();
    let mut n: usize = 0;
    while n < a
        invariant
            it.wf(),
            !it.pending(),
            n <= a,
            a + k <= orig.len(),
            it.elems() == orig,
            it.pos() == n,
        decreases a - n,
    {
        match it.next() {
            None => {
                proof {
                    assert(false);
                }
            },
            Some(t) => {
                t.keep(&mut it);
                n = n + 1;
            },
        }
    }
    let mut m: usize = 0;
    while m < k
        invariant
            it.wf(),
            !it.pending(),
            m <= k,
            a + k <= orig.len(),
            it.pos() == a,
            it.elems() == orig.subrange(0, a as int) + orig.subrange(a + m, orig.len() as int),
            out@ == orig.subrange(a as int, a + m),
        decreases k - m,
    {
        match it.next() {
            None => {
                proof {
                    assert(false);
                }
            },
            Some(t) => {
                let ghost before = it.elems();
                let x = t.take(&mut it);
                out.push(x);
                m = m + 1;
                proof {
                    assert(before[a as int] == orig[a + m - 1]);
                    assert(it.elems() =~= orig.subrange(0, a as int) + orig.subrange(
                        a + m,
                        orig.len() as int,
                    ));
                    assert(out@ =~= orig.subrange(a as int, a + m));
                }
            },
        }
    }
    (it.into_inner(), out)
}

/// `f` implements the spec predicate `p`: the only result `f` can return on
/// an argument is `p`'s value on it.
pub open spec fn decides<T, F: Fn(&T) -> bool>(f: F, p: spec_fn(T) -> bool) -> bool {
    forall|x: &T, b: bool| #[trigger] call_ensures(f, (x,), b) ==> b == p(*x)
}

/// The pointwise negation of a spec predicate.
pub open spec fn negated<T>(p: spec_fn(T) -> bool) -> spec_fn(T) -> bool {
    |t: T| !p(t)
}

/// Traverses the whole vector, extracting, with the order-preserving
/// removal, exactly the elements on which `f` returns true, and keeping the
/// rest. For any predicate that `f` implements, the remainder is the input
/// filtered to the non-matching elements and the extracted values are the
/// input filtered to the matching ones, both in the original order: one
/// traversal does the work of "remove all matching, preserving order".
pub fn take_matching<T, F: Fn(&T) -> bool>(v: Vec<T>, f: F) -> (r: (Vec<T>, Vec<T>))
    requires
        forall|x: &T| #[trigger] call_requires(f, (x,)),
    ensures
        forall|p: spec_fn(T) -> bool| #[trigger] decides(f, p) ==> r.0@ == v@.filter(negated(p))
            && r.1@ == v@.filter(p),
{
    let ghost orig = v@;
    let mut it = IterTake::new(v);
    let mut out: Vec<T> = Vec::new();
    loop
        invariant
            forall|x: &T| #[trigger] call_requires(f, (x,)),
            it.wf(),
            !it.pending(),
            it.pos() + out@.len() <= orig.len(),
            it.elems().skip(it.pos()) == orig.skip(it.pos() + out@.len()),
            forall|p: spec_fn(T) -> bool| #[trigger] decides(f, p) ==> it.elems().take(it.pos())
                == orig.take(it.pos() + out@.len()).filter(negated(p)) && out@ == orig.take(
                it.pos() + out@.len(),
            ).filter(p),
        ensures
            it.wf(),
            !it.pending(),
            forall|p: spec_fn(T) -> bool| #[trigger] decides(f, p) ==> it.elems() == orig.filter(
                negated(p),
            ) && out@ == orig.filter(p),
        decreases it.elems().len() - it.pos(),
    {
        match it.next() {
            None => {
                proof {
                    let ghost n = it.pos() + out@.len();
                    assert(it.elems().skip(it.pos()).len() == orig.skip(n).len());
                    assert(n == orig.len());
                    assert(it.elems().take(it.pos()) =~= it.elems());
                    assert(orig.take(n) =~= orig);
                }
                break ;
            },
            Some(t) => {
                let ghost before = it.elems();
                let ghost pos0 = it.pos();
                let ghost n0 = it.pos() + out@.len();
                let ghost e = it.elems()[it.pos()];
                let x = t.get(&it);
                let b = f(x);
                proof {
                    assert(before.skip(pos0).len() == orig.skip(n0).len());
                    assert(before.skip(pos0)[0] == before[pos0]);
                    assert(orig.skip(n0)[0] == orig[n0]);
                    assert(e == orig[n0]);
                    assert forall|p: spec_fn(T) -> bool| #[trigger] decides(f, p) implies b == p(
                        e,
                    ) by {
                        assert(call_ensures(f, (x,), b));
                    }
                    assert(orig.take(n0 + 1).drop_last() =~= orig.take(n0));
                    assert(orig.take(n0 + 1).last() == e);
                }
                if b {
                    let y = t.take(&mut it);
                    out.push(y);
                    proof {
                        assert(it.elems().take(pos0) =~= before.take(pos0));
                        assert(it.elems().skip(pos0) =~= before.skip(pos0).skip(1));
                        assert(orig.skip(n0 + 1) =~= orig.skip(n0).skip(1));
                        assert(it.elems().skip(pos0) == orig.skip(n0 + 1));
                        assert forall|p: spec_fn(T) -> bool| #[trigger] decides(f, p) implies
                            it.elems().take(it.pos()) == orig.take(n0 + 1).filter(negated(p))
                            && out@ == orig.take(n0 + 1).filter(p) by {
                            reveal(Seq::filter);
                            assert(p(e));
                            assert(orig.take(n0 + 1).filter(p) == orig.take(n0).filter(p).push(e));
                            assert(negated(p)(e) == false);
                            assert(orig.take(n0 + 1).filter(negated(p)) == orig.take(n0).filter(
                                negated(p),
                            ));
                        }
                    }
                } else {
                    t.keep(&mut it);
                    proof {
                        assert(it.elems().take(pos0 + 1) =~= before.take(pos0).push(e));
                        assert(before.skip(pos0 + 1) =~= before.skip(pos0).skip(1));
                        assert(orig.skip(n0 + 1) =~= orig.skip(n0).skip(1));
                        assert(it.elems().skip(pos0 + 1) == orig.skip(n0 + 1));
                        assert forall|p: spec_fn(T) -> bool| #[trigger] decides(f, p) implies
                            it.elems().take(it.pos()) == orig.take(n0 + 1).filter(negated(p))
                            && out@ == orig.take(n0 + 1).filter(p) by {
                            reveal(Seq::filter);
                            assert(!p(e));
                            assert(negated(p)(e) == true);
                            assert(orig.take(n0 + 1).filter(negated(p)) == orig.take(n0).filter(
                                negated(p),
                            ).push(e));
                            assert(orig.take(n0 + 1).filter(p) == orig.take(n0).filter(p));
                        }
                    }
                }
            },
        }
    }
    (it.into_inner(), out)
}

} // verus!
