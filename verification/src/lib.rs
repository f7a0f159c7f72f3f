//! Chainable transform operations: pass any value through a caller-supplied
//! function by value, by shared reference, by unique reference, or through a
//! dereferenced view of the receiver.
//!
//! Each trait has a single method named after the trait. `Over`, `OverRef`
//! and `OverMut` are implemented for all types. The dereferencing variants
//! are implemented for receiver types that expose an inner target whose
//! content the contracts can speak of: `String`, `Box`, `Vec`, shared
//! references, `Rc` and `Arc` for the shared view, and `String`, `Box` and
//! `Vec` for the unique view.
//!
//! The `laws` module states what the contracts come to for a function that
//! is deterministic on the view it is given.
use vstd::prelude::*;

pub mod laws;

verus! {

/// Transform by value (`self`): consumes the receiver and returns whatever
/// the supplied function returns for it.
pub trait Over: Sized {
    fn over<F, Ret>(self, f: F) -> (ret: Ret) where F: FnOnce(Self) -> Ret
        requires
            call_requires(f, (self,)),
        ensures
            call_ensures(f, (self,), ret),
    ;
}

impl<T> Over for T {
    fn over<F, Ret>(self, f: F) -> (ret: Ret) where F: FnOnce(Self) -> Ret
        ensures
            call_ensures(f, (self,), ret),
    {
        f(self)
    }
}

/// Transform by shared reference (`&self`): lends the receiver to the
/// supplied function for the duration of the call; the receiver is unchanged
/// and stays usable afterwards.
pub trait OverRef {
    fn over_ref<F, Ret>(&self, f: F) -> (ret: Ret) where F: FnOnce(&Self) -> Ret
        requires
            call_requires(f, (self,)),
        ensures
            call_ensures(f, (self,), ret),
    ;
}

impl<T> OverRef for T {
    fn over_ref<F, Ret>(&self, f: F) -> (ret: Ret) where F: FnOnce(&Self) -> Ret
        ensures
            call_ensures(f, (self,), ret),
    {
        f(self)
    }
}

/// Transform by unique reference (`&mut self`): lends the receiver
/// exclusively to the supplied function, which may mutate it in place; the
/// caller keeps ownership and sees the mutation.
pub trait OverMut: Sized {
    fn over_mut<F, Ret>(&mut self, f: F) -> (ret: Ret) where F: FnOnce(&mut Self) -> Ret
        requires
            forall|m: &mut Self| *m == *old(self) ==> call_requires(f, (m,)),
        ensures
            exists|m: &mut Self|
                {
                    &&& *m == *old(self)
                    &&& *final(m) == *final(self)
                    &&& call_ensures(f, (m,), ret)
                },
    ;
}

impl<T> OverMut for T {
    fn over_mut<F, Ret>(&mut self, f: F) -> (ret: Ret) where F: FnOnce(&mut Self) -> Ret
        ensures
            exists|m: &mut Self|
                {
                    &&& *m == *old(self)
                    &&& *final(m) == *final(self)
                    &&& call_ensures(f, (m,), ret)
                },
    {
        f(self)
    }
}

/// Transform through a dereferenced shared view: lends the receiver's inner
/// target to the supplied function and returns the function's result.
///
/// The receiver type must expose its inner target through a shared
/// dereferencing capability; `target_deep_view` is the mathematical content
/// of that target, and the contract speaks of the call through it.
pub trait OverDeref: core::ops::Deref where Self::Target: DeepView {
    /// The content of the inner target that dereferencing exposes.
    spec fn target_deep_view(&self) -> <Self::Target as DeepView>::V;

    fn over_deref<F, Ret>(&self, f: F) -> (ret: Ret) where F: FnOnce(&Self::Target) -> Ret
        requires
            forall|t: &Self::Target|
                t.deep_view() == self.target_deep_view() ==> #[trigger] call_requires(f, (t,)),
        ensures
            exists|t: &Self::Target|
                {
                    &&& t.deep_view() == self.target_deep_view()
                    &&& #[trigger] call_ensures(f, (t,), ret)
                },
    ;
}

impl OverDeref for String {
    open spec fn target_deep_view(&self) -> Seq<char> {
        self@
    }

    fn over_deref<F, Ret>(&self, f: F) -> (ret: Ret) where F: FnOnce(&str) -> Ret
        ensures
            exists|t: &str|
                {
                    &&& t@ == self@
                    &&& #[trigger] call_ensures(f, (t,), ret)
                },
    {
        let t = self.as_str();
        assert(t.deep_view() == self.target_deep_view());
        f(t)
    }
}

impl<T: DeepView> OverDeref for Box<T> {
    open spec fn target_deep_view(&self) -> T::V {
        (**self).deep_view()
    }

    fn over_deref<F, Ret>(&self, f: F) -> (ret: Ret) where F: FnOnce(&T) -> Ret
        ensures
            call_ensures(f, (&**self,), ret),
    {
        let t = &**self;
        assert(t.deep_view() == self.target_deep_view());
        f(t)
    }
}

impl<T: DeepView> OverDeref for Vec<T> {
    open spec fn target_deep_view(&self) -> Seq<T::V> {
        self.deep_view()
    }

    fn over_deref<F, Ret>(&self, f: F) -> (ret: Ret) where F: FnOnce(&[T]) -> Ret
        ensures
            exists|t: &[T]|
                {
                    &&& t@ == self@
                    &&& #[trigger] call_ensures(f, (t,), ret)
                },
    {
        let t = self.as_slice();
        assert(t.deep_view() == self.target_deep_view());
        f(t)
    }
}

impl<'a, T: DeepView> OverDeref for &'a T {
    open spec fn target_deep_view(&self) -> T::V {
        (**self).deep_view()
    }

    fn over_deref<F, Ret>(&self, f: F) -> (ret: Ret) where F: FnOnce(&T) -> Ret
        ensures
            call_ensures(f, (&**self,), ret),
    {
        let t = &**self;
        assert(t.deep_view() == self.target_deep_view());
        f(t)
    }
}

impl<T: DeepView> OverDeref for std::rc::Rc<T> {
    open spec fn target_deep_view(&self) -> T::V {
        (**self).deep_view()
    }

    fn over_deref<F, Ret>(&self, f: F) -> (ret: Ret) where F: FnOnce(&T) -> Ret
        ensures
            call_ensures(f, (&**self,), ret),
    {
        let t = &**self;
        assert(t.deep_view() == self.target_deep_view());
        f(t)
    }
}

impl<T: DeepView> OverDeref for std::sync::Arc<T> {
    open spec fn target_deep_view(&self) -> T::V {
        (**self).deep_view()
    }

    fn over_deref<F, Ret>(&self, f: F) -> (ret: Ret) where F: FnOnce(&T) -> Ret
        ensures
            call_ensures(f, (&**self,), ret),
    {
        let t = &**self;
        assert(t.deep_view() == self.target_deep_view());
        f(t)
    }
}

/// Transform through a dereferenced unique view: lends the receiver's inner
/// target exclusively to the supplied function, which may mutate the inner
/// value in place; the receiver reflects the mutation afterwards.
pub trait OverDerefMut: OverDeref + core::ops::DerefMut where Self::Target: DeepView {
    fn over_deref_mut<F, Ret>(&mut self, f: F) -> (ret: Ret) where
        F: FnOnce(&mut Self::Target) -> Ret
        requires
            forall|m: &mut Self::Target|
                (*m).deep_view() == old(self).target_deep_view() ==> #[trigger] call_requires(
                    f,
                    (m,),
                ),
        ensures
            exists|m: &mut Self::Target|
                {
                    &&& (*m).deep_view() == old(self).target_deep_view()
                    &&& (*final(m)).deep_view() == final(self).target_deep_view()
                    &&& #[trigger] call_ensures(f, (m,), ret)
                },
    ;
}

/// Relies on `<String as DerefMut>::deref_mut`: the returned `&mut str` is a
/// unique view of the string's own contents, so it reads as the string read,
/// and the string afterwards reads as the view was left.
pub assume_specification<'a>[ <String as core::ops::DerefMut>::deref_mut ](
    s: &'a mut String,
) -> (t: &'a mut str)
    ensures
        t@ == old(s)@,
        final(t)@ == final(s)@,
;

impl OverDerefMut for String {
    fn over_deref_mut<F, Ret>(&mut self, f: F) -> (ret: Ret) where F: FnOnce(&mut str) -> Ret
        ensures
            exists|m: &mut str|
                {
                    &&& m@ == old(self)@
                    &&& final(m)@ == final(self)@
                    &&& call_ensures(f, (m,), ret)
                },
    {
        let t = core::ops::DerefMut::deref_mut(self);
        f(t)
    }
}

impl<T: DeepView> OverDerefMut for Box<T> {
    fn over_deref_mut<F, Ret>(&mut self, f: F) -> (ret: Ret) where F: FnOnce(&mut T) -> Ret
        ensures
            exists|m: &mut T|
                {
                    &&& *m == **old(self)
                    &&& *final(m) == **final(self)
                    &&& #[trigger] call_ensures(f, (m,), ret)
                },
    {
        let ghost pre: T::V = (**self).deep_view();
        let t = &mut **self;
        proof {
            assert(pre == old(self).target_deep_view());
            assert((*t).deep_view() == pre);
        }
        f(t)
    }
}

impl<T: DeepView> OverDerefMut for Vec<T> {
    fn over_deref_mut<F, Ret>(&mut self, f: F) -> (ret: Ret) where F: FnOnce(&mut [T]) -> Ret
        ensures
            exists|m: &mut [T]|
                {
                    &&& m@ == old(self)@
                    &&& final(m)@ == final(self)@
                    &&& #[trigger] call_ensures(f, (m,), ret)
                },
    {
        let t = core::ops::DerefMut::deref_mut(self);
        f(t)
    }
}

} // verus!
