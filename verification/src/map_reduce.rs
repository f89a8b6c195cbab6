//! A reduction with no identity element: the first item is mapped to the
//! seed, the rest are folded onto it, and an empty input yields `None`.

use vstd::prelude::*;

verus! {

/// Whether folding `f` over `s`, starting from `acc`, can produce `out`:
/// each step relates one item through `f`'s postcondition.
pub open spec fn fold_rel<F: Fn(T, I) -> T, T, I>(f: F, s: Seq<I>, acc: T, out: T) -> bool
    decreases s.len(),
{
    if s.len() == 0 {
        out == acc
    } else {
        exists|mid: T|
            #[trigger] call_ensures(f, (acc, s[0]), mid) && fold_rel(
                f,
                s.subrange(1, s.len() as int),
                mid,
                out,
            )
    }
}

/// Extending a fold by one item on the right composes one more step of
/// `f`'s postcondition.
proof fn lemma_fold_rel_push<F: Fn(T, I) -> T, T, I>(f: F, s: Seq<I>, acc: T, out: T, x: I, out2: T)
    requires
        fold_rel(f, s, acc, out),
        call_ensures(f, (out, x), out2),
    ensures
        fold_rel(f, s.push(x), acc, out2),
    decreases s.len(),
{
    if s.len() == 0 {
        assert(s.push(x)[0] == x);
        assert(s.push(x).subrange(1, 1) =~= Seq::<I>::empty());
        assert(call_ensures(f, (acc, s.push(x)[0]), out2) && fold_rel(
            f,
            s.push(x).subrange(1, 1),
            out2,
            out2,
        ));
    } else {
        let mid = choose|mid: T|
            #[trigger] call_ensures(f, (acc, s[0]), mid) && fold_rel(
                f,
                s.subrange(1, s.len() as int),
                mid,
                out,
            );
        lemma_fold_rel_push(f, s.subrange(1, s.len() as int), mid, out, x, out2);
        assert(s.push(x).subrange(1, s.len() as int + 1) =~= s.subrange(1, s.len() as int).push(
            x,
        ));
        assert(s.push(x)[0] == s[0]);
        assert(call_ensures(f, (acc, s.push(x)[0]), mid) && fold_rel(
            f,
            s.push(x).subrange(1, s.len() as int + 1),
            mid,
            out2,
        ));
    }
}

/// A sequence that can be reduced without an identity element.
pub trait MapReduce: Sized {
    type Item;

    /// `None` on an empty input; otherwise the seed is `f0` of the first
    /// item and the result folds `f` over the remaining items in order.
    fn map_reduce<F0: FnOnce(Self::Item) -> T, F: Fn(T, Self::Item) -> T, T>(
        self,
        f0: F0,
        f: F,
    ) -> (r: Option<T>)
        requires
            self.seq_of_items().len() > 0 ==> call_requires(f0, (self.seq_of_items()[0],)),
            forall|t: T, x: Self::Item| #[trigger] call_requires(f, (t, x)),
        ensures
            self.seq_of_items().len() == 0 ==> r is None,
            self.seq_of_items().len() > 0 ==> (match r {
                Some(out) => exists|t0: T|
                    #[trigger] call_ensures(f0, (self.seq_of_items()[0],), t0) && fold_rel(
                        f,
                        self.seq_of_items().subrange(1, self.seq_of_items().len() as int),
                        t0,
                        out,
                    ),
                None => false,
            }),
    ;

    /// The items this value holds, in order.
    spec fn seq_of_items(self) -> Seq<Self::Item>;
}

impl<I> MapReduce for Vec<I> {
    type Item = I;

    open spec fn seq_of_items(self) -> Seq<I> {
        self@
    }

    fn map_reduce<F0: FnOnce(I) -> T, F: Fn(T, I) -> T, T>(self, f0: F0, f: F) -> (r: Option<T>) {
        let ghost orig = self@;
        let mut rest = self;
        if rest.len() == 0 {
            return None;
        }
        let first = rest.remove(0);
        let mut acc = f0(first);
        let ghost t0 = acc;
        proof {
            assert(orig.subrange(1, 1).len() == 0);
        }
        while rest.len() > 0
            invariant
                orig.len() >= 1,
                rest@.len() < orig.len(),
                rest@ =~= orig.subrange(orig.len() - rest@.len(), orig.len() as int),
                call_ensures(f0, (orig[0],), t0),
                fold_rel(f, orig.subrange(1, orig.len() - rest@.len()), t0, acc),
                forall|t: T, x: I| #[trigger] call_requires(f, (t, x)),
            decreases rest@.len(),
        {
            let ghost k = orig.len() - rest@.len();
            let x = rest.remove(0);
            proof {
                assert(x == orig[k]);
            }
            let next = f(acc, x);
            proof {
                lemma_fold_rel_push(f, orig.subrange(1, k), t0, acc, x, next);
                assert(orig.subrange(1, k).push(x) =~= orig.subrange(1, k + 1));
            }
            acc = next;
        }
        proof {
            assert(orig.subrange(1, orig.len() as int) == orig.subrange(
                1,
                orig.len() - rest@.len(),
            ));
        }
        Some(acc)
    }
}

} // verus!
