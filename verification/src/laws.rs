//! The laws the transform operations obey.
//!
//! Each operation's contract speaks of the supplied function through
//! `call_ensures`, the set of its possible argument/result pairs. The proof
//! functions here state what those contracts come to for a function that is
//! deterministic on the receiver it is given: the operation returns exactly
//! the function's output, a mutating function leaves exactly the value it
//! wrote, and repeating an operation with a non-mutating function gives the
//! same result both times.
use vstd::prelude::*;

verus! {

/// Transforming by value applies the function to the receiver: if `f` is
/// deterministic at `v` with output `fv`, then any result the by-value
/// transform may return for `v` and `f` (any `r` with
/// `call_ensures(f, (v,), r)`, which is exactly what `Over::over` ensures)
/// equals `f(v)`, that is, `fv`.
pub proof fn lemma_over_applies<T, Ret, F: FnOnce(T) -> Ret>(f: F, v: T, fv: Ret, r: Ret)
    requires
        forall|y: Ret| call_ensures(f, (v,), y) ==> y == fv,
        call_ensures(f, (v,), r),
    ensures
        r == fv,
{
}

/// Transforming by shared reference applies the function to the borrowed
/// receiver: if `f` is deterministic at `&v` with output `fv`, then any
/// result `OverRef::over_ref` may return equals `f(&v)`, that is, `fv`.
/// The receiver itself is untouched: `over_ref` borrows it only shared.
pub proof fn lemma_over_ref_applies<T, Ret, F: FnOnce(&T) -> Ret>(f: F, v: &T, fv: Ret, r: Ret)
    requires
        forall|y: Ret| call_ensures(f, (v,), y) ==> y == fv,
        call_ensures(f, (v,), r),
    ensures
        r == fv,
{
}

/// Transforming by unique reference leaves in the receiver exactly the value
/// the function wrote, and returns exactly what the function returned: if
/// `f`, started on the value `v0`, always writes `mv` and returns `rv`, then
/// after `OverMut::over_mut` the receiver holds `mv` and the call returned
/// `rv`. The second `requires` clause is what `over_mut` ensures of a
/// receiver that held `v0` and holds `vafter` once the call is over.
pub proof fn lemma_over_mut_applies<T, Ret, F: FnOnce(&mut T) -> Ret>(
    f: F,
    v0: T,
    mv: T,
    rv: Ret,
    vafter: T,
    r: Ret,
)
    requires
        forall|m: &mut T, y: Ret|
            *m == v0 && #[trigger] call_ensures(f, (m,), y) ==> *final(m) == mv && y == rv,
        exists|m: &mut T|
            {
                &&& *m == v0
                &&& *final(m) == vafter
                &&& #[trigger] call_ensures(f, (m,), r)
            },
    ensures
        vafter == mv,
        r == rv,
{
}

/// Transforming through a dereferenced shared view applies the function to
/// the receiver's inner target: if `f` is deterministic on targets of
/// content `dv` with output `fv`, then any result
/// `OverDeref::over_deref` may return for a receiver whose target has
/// content `dv` equals `f` of that target, that is, `fv`.
pub proof fn lemma_over_deref_applies<Tgt: DeepView, Ret, F: FnOnce(&Tgt) -> Ret>(
    f: F,
    dv: Tgt::V,
    fv: Ret,
    r: Ret,
)
    requires
        forall|t: &Tgt, y: Ret|
            t.deep_view() == dv && #[trigger] call_ensures(f, (t,), y) ==> y == fv,
        exists|t: &Tgt|
            {
                &&& t.deep_view() == dv
                &&& #[trigger] call_ensures(f, (t,), r)
            },
    ensures
        r == fv,
{
}

/// Transforming through a dereferenced unique view leaves in the receiver's
/// inner target exactly the content the function wrote, and returns exactly
/// what the function returned: if `f`, started on a target of content `dv`,
/// always leaves content `mv` and returns `rv`, then after
/// `OverDerefMut::over_deref_mut` the target's content is `mv` and the call
/// returned `rv`.
pub proof fn lemma_over_deref_mut_applies<Tgt: DeepView, Ret, F: FnOnce(&mut Tgt) -> Ret>(
    f: F,
    dv: Tgt::V,
    mv: Tgt::V,
    rv: Ret,
    dvafter: Tgt::V,
    r: Ret,
)
    requires
        forall|m: &mut Tgt, y: Ret|
            (*m).deep_view() == dv && #[trigger] call_ensures(f, (m,), y)
                ==> (*final(m)).deep_view() == mv && y == rv,
        exists|m: &mut Tgt|
            {
                &&& (*m).deep_view() == dv
                &&& (*final(m)).deep_view() == dvafter
                &&& #[trigger] call_ensures(f, (m,), r)
            },
    ensures
        dvafter == mv,
        r == rv,
{
}

/// Repeating the by-value transform with a deterministic function gives the
/// same result both times: any two results the transform may return for the
/// same receiver value and function are equal.
pub proof fn lemma_over_repeatable<T, Ret, F: FnOnce(T) -> Ret>(f: F, v: T, r1: Ret, r2: Ret)
    requires
        forall|y1: Ret, y2: Ret|
            #[trigger] call_ensures(f, (v,), y1) && #[trigger] call_ensures(f, (v,), y2) ==> y1
                == y2,
        call_ensures(f, (v,), r1),
        call_ensures(f, (v,), r2),
    ensures
        r1 == r2,
{
}

/// Repeating the by-shared-reference transform with a deterministic function
/// gives the same result both times.
pub proof fn lemma_over_ref_repeatable<T, Ret, F: FnOnce(&T) -> Ret>(
    f: F,
    v: &T,
    r1: Ret,
    r2: Ret,
)
    requires
        forall|y1: Ret, y2: Ret|
            #[trigger] call_ensures(f, (v,), y1) && #[trigger] call_ensures(f, (v,), y2) ==> y1
                == y2,
        call_ensures(f, (v,), r1),
        call_ensures(f, (v,), r2),
    ensures
        r1 == r2,
{
}

/// Repeating the by-unique-reference transform with a function that does not
/// mutate its view and is deterministic gives the same result both times,
/// and both calls leave the receiver as they found it.
pub proof fn lemma_over_mut_repeatable<T, Ret, F: FnOnce(&mut T) -> Ret>(
    f: F,
    v0: T,
    vafter1: T,
    r1: Ret,
    vafter2: T,
    r2: Ret,
)
    requires
        forall|m: &mut T, y: Ret|
            *m == v0 && #[trigger] call_ensures(f, (m,), y) ==> *final(m) == v0,
        forall|m1: &mut T, m2: &mut T, y1: Ret, y2: Ret|
            *m1 == v0 && *m2 == v0 && #[trigger] call_ensures(f, (m1,), y1)
                && #[trigger] call_ensures(f, (m2,), y2) ==> y1 == y2,
        exists|m: &mut T|
            {
                &&& *m == v0
                &&& *final(m) == vafter1
                &&& #[trigger] call_ensures(f, (m,), r1)
            },
        exists|m: &mut T|
            {
                &&& *m == v0
                &&& *final(m) == vafter2
                &&& #[trigger] call_ensures(f, (m,), r2)
            },
    ensures
        vafter1 == v0,
        vafter2 == v0,
        r1 == r2,
{
}

/// Repeating the dereferenced shared-view transform with a function that is
/// deterministic on the target's content gives the same result both times.
pub proof fn lemma_over_deref_repeatable<Tgt: DeepView, Ret, F: FnOnce(&Tgt) -> Ret>(
    f: F,
    dv: Tgt::V,
    r1: Ret,
    r2: Ret,
)
    requires
        forall|t1: &Tgt, t2: &Tgt, y1: Ret, y2: Ret|
            t1.deep_view() == dv && t2.deep_view() == dv && #[trigger] call_ensures(f, (t1,), y1)
                && #[trigger] call_ensures(f, (t2,), y2) ==> y1 == y2,
        exists|t: &Tgt|
            {
                &&& t.deep_view() == dv
                &&& #[trigger] call_ensures(f, (t,), r1)
            },
        exists|t: &Tgt|
            {
                &&& t.deep_view() == dv
                &&& #[trigger] call_ensures(f, (t,), r2)
            },
    ensures
        r1 == r2,
{
}

/// Repeating the dereferenced unique-view transform with a function that
/// does not mutate the target's content and is deterministic on it gives the
/// same result both times, and both calls leave the content as they found
/// it.
pub proof fn lemma_over_deref_mut_repeatable<Tgt: DeepView, Ret, F: FnOnce(&mut Tgt) -> Ret>(
    f: F,
    dv: Tgt::V,
    dvafter1: Tgt::V,
    r1: Ret,
    dvafter2: Tgt::V,
    r2: Ret,
)
    requires
        forall|m: &mut Tgt, y: Ret|
            (*m).deep_view() == dv && #[trigger] call_ensures(f, (m,), y)
                ==> (*final(m)).deep_view() == dv,
        forall|m1: &mut Tgt, m2: &mut Tgt, y1: Ret, y2: Ret|
            (*m1).deep_view() == dv && (*m2).deep_view() == dv && #[trigger] call_ensures(
                f,
                (m1,),
                y1,
            ) && #[trigger] call_ensures(f, (m2,), y2) ==> y1 == y2,
        exists|m: &mut Tgt|
            {
                &&& (*m).deep_view() == dv
                &&& (*final(m)).deep_view() == dvafter1
                &&& #[trigger] call_ensures(f, (m,), r1)
            },
        exists|m: &mut Tgt|
            {
                &&& (*m).deep_view() == dv
                &&& (*final(m)).deep_view() == dvafter2
                &&& #[trigger] call_ensures(f, (m,), r2)
            },
    ensures
        dvafter1 == dv,
        dvafter2 == dv,
        r1 == r2,
{
}

} // verus!
