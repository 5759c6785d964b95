//! Keeping and transforming the items of a vector, with the result stated
//! over its view.

use vstd::prelude::*;

verus! {

proof fn lemma_filter_take_step<A>(s: Seq<A>, pred: spec_fn(A) -> bool, k: int)
    requires
        0 <= k < s.len(),
    ensures
        s.take(k + 1).filter(pred) == if pred(s[k]) {
            s.take(k).filter(pred).push(s[k])
        } else {
            s.take(k).filter(pred)
        },
{
    let t = s.take(k + 1);
    assert(t.drop_last() =~= s.take(k));
    assert(t.last() == s[k]);
    reveal_with_fuel(Seq::<_>::filter, 2);
}

/// The items of `items` whose `field` equals `value`, in their order
/// (`into_iter().filter(|x| field(x) == value).collect()`).
pub(crate) fn filter_by_field<T>(
    items: Vec<T>,
    field: impl Fn(&T) -> u128,
    value: u128,
    Ghost(spec_field): Ghost<spec_fn(T) -> u128>,
) -> (kept: Vec<T>)
    requires
        forall|x: &T| #[trigger] field.requires((x,)),
        forall|x: &T, v: u128| field.ensures((x,), v) ==> v == spec_field(*x),
    ensures
        kept@ == items@.filter(|x: T| spec_field(x) == value),
{
    let ghost pred = |x: T| spec_field(x) == value;
    let ghost whole = items@;
    let mut rest = items;
    let mut kept: Vec<T> = Vec::new();
    let mut k: usize = 0;
    let total = rest.len();
    assert(total == whole.len());
    proof {
        assert(whole.take(0) =~= Seq::<T>::empty());
        assert(whole.skip(0) =~= whole);
    }
    while rest.len() > 0
        invariant
            forall|x: &T| #[trigger] field.requires((x,)),
            forall|x: &T, v: u128| field.ensures((x,), v) ==> v == spec_field(*x),
            pred == (|x: T| spec_field(x) == value),
            k + rest@.len() == whole.len(),
            whole.len() <= usize::MAX,
            rest@ == whole.skip(k as int),
            kept@ == whole.take(k as int).filter(pred),
        decreases rest@.len(),
    {
        let x = rest.remove(0);
        proof {
            assert(x == whole[k as int]);
            lemma_filter_take_step(whole, pred, k as int);
            assert(rest@ =~= whole.skip(k + 1));
        }
        let v = field(&x);
        if v == value {
            kept.push(x);
        }
        k = k + 1;
    }
    proof {
        assert(whole.take(k as int) =~= whole);
    }
    kept
}

/// Each item of `items` transformed by `f`, in their order
/// (`into_iter().map(f).collect()`).
pub(crate) fn map_vec<T, U>(
    items: Vec<T>,
    f: impl Fn(T) -> U,
    Ghost(g): Ghost<spec_fn(T) -> U>,
) -> (mapped: Vec<U>)
    requires
        forall|x: T| #[trigger] f.requires((x,)),
        forall|x: T, y: U| f.ensures((x,), y) ==> y == g(x),
    ensures
        mapped@ == items@.map_values(g),
{
    let ghost whole = items@;
    let mut rest = items;
    let mut mapped: Vec<U> = Vec::new();
    let mut k: usize = 0;
    let total = rest.len();
    assert(total == whole.len());
    proof {
        assert(whole.skip(0) =~= whole);
    }
    while rest.len() > 0
        invariant
            forall|x: T| #[trigger] f.requires((x,)),
            forall|x: T, y: U| f.ensures((x,), y) ==> y == g(x),
            k + rest@.len() == whole.len(),
            whole.len() <= usize::MAX,
            rest@ == whole.skip(k as int),
            mapped@ == whole.take(k as int).map_values(g),
        decreases rest@.len(),
    {
        let x = rest.remove(0);
        proof {
            assert(x == whole[k as int]);
            assert(rest@ =~= whole.skip(k + 1));
        }
        let y = f(x);
        mapped.push(y);
        proof {
            assert(mapped@ =~= whole.take(k + 1).map_values(g));
        }
        k = k + 1;
    }
    proof {
        assert(whole.take(k as int) =~= whole);
    }
    mapped
}

} // verus!
