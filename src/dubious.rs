//! Dubious values.
//!
//! [`Dubious`] wraps a value that may be in an invalid state. Operations on the
//! wrapped value never check validity; a check happens only when the caller
//! explicitly validates, at which point the outcome is whatever the value's own
//! [`Validate`] implementation decides.
pub mod validate;

pub use validate::Validate;

use vstd::prelude::*;
use vstd::pervasive::strictly_cloned;
use vstd::std_specs::cmp::{PartialEqSpec, PartialEqSpecImpl};
use vstd::std_specs::convert::FromSpecImpl;

verus! {

/// A value of type `T` whose validity has not been checked.
#[derive(Clone, Copy, Debug, Hash, Eq, PartialOrd, Ord)]
pub struct Dubious<T>(T);

impl<T> View for Dubious<T> {
    type V = T;

    /// The held value.
    closed spec fn view(&self) -> T {
        self.0
    }
}

impl<T> Dubious<T> {
    /// The wrapper that holds `value`.
    pub closed spec fn wrap(value: T) -> Dubious<T> {
        Dubious(value)
    }

    /// Wraps `value` without checking it.
    pub fn new(value: T) -> (r: Dubious<T>)
        ensures
            r == Dubious::wrap(value),
    {
        Dubious(value)
    }

    /// Maps a `Dubious<T>` to a `Dubious<U>` by applying `f` to the held value.
    /// Nothing is validated.
    pub fn map<U, F>(self, f: F) -> (r: Dubious<U>)
        where
            F: FnOnce(T) -> U,
        requires
            f.requires((self@,)),
        ensures
            f.ensures((self@,), r@),
    {
        Dubious(f(self.0))
    }

    /// Applies `f`, which itself yields a wrapper, to the held value and returns
    /// that wrapper: `map` by `f` followed by `flatten`. Nothing is validated.
    pub fn chain<U, F>(self, f: F) -> (r: Dubious<U>)
        where
            F: FnOnce(T) -> Dubious<U>,
        requires
            f.requires((self@,)),
        ensures
            f.ensures((self@,), r),
    {
        f(self.0)
    }

    /// Validates the held value with `f`, for a `T` without a [`Validate`]
    /// implementation or where another policy is wanted.
    pub fn validate_with<F, E>(self, f: F) -> (r: Result<T, E>)
        where
            F: FnOnce(T) -> Result<T, E>,
        requires
            f.requires((self@,)),
        ensures
            f.ensures((self@,), r),
    {
        f(self.0)
    }

    /// Pairs the held value with the one held by `other`. Neither is validated.
    pub fn zip<U>(self, other: Dubious<U>) -> (r: Dubious<(T, U)>)
        ensures
            r@ == (self@, other@),
    {
        Dubious((self.0, other.0))
    }

    /// Pairs the held values and applies `f` to the pair, as `zip` followed by
    /// `map` would. Neither value is validated.
    pub fn zip_with<U, F, R>(self, other: Dubious<U>, f: F) -> (r: Dubious<R>)
        where
            F: FnOnce((T, U)) -> R,
        requires
            f.requires(((self@, other@),)),
        ensures
            f.ensures(((self@, other@),), r@),
    {
        Dubious(f((self.0, other.0)))
    }

    /// Validates both held values and, when both pass, pairs the values as they
    /// were before validation (not what validation returned).
    ///
    /// Each value is validated through a clone of it; where cloning gives back
    /// the same value, the result is present exactly when both values are valid.
    pub fn zip_ok<U>(self, other: Dubious<U>) -> (r: Option<Dubious<(T, U)>>)
        where
            T: Validate + Clone,
            U: Validate + Clone,
        ensures
            r matches Some(d) ==> d@ == (self@, other@),
            clone_is_exact(self@) && clone_is_exact(other@) ==> (r is Some <==> (
            self@.validation() is Ok && other@.validation() is Ok)),
    {
        let a = self.0.clone();
        let b = other.0.clone();
        proof {
            if clone_is_exact(self@) && clone_is_exact(other@) {
                assert(strictly_cloned(self@, a));
                assert(strictly_cloned(other@, b));
            }
        }
        let left = Dubious(a).ok();
        let right = Dubious(b).ok();
        if left.is_some() && right.is_some() {
            Some(Dubious((self.0, other.0)))
        } else {
            None
        }
    }
}

/// Every clone of `x` equals `x`.
pub open spec fn clone_is_exact<T: Clone>(x: T) -> bool {
    forall|c: T| strictly_cloned(x, c) ==> c == x
}

impl<T> Dubious<Dubious<T>> {
    /// Converts a `Dubious<Dubious<T>>` into a `Dubious<T>`, removing one level
    /// of nesting.
    pub fn flatten(self) -> (r: Dubious<T>)
        ensures
            r == self@,
    {
        self.0
    }
}

impl<T> Dubious<Option<T>> {
    /// What `invert` returns: the held option, with its value wrapped.
    pub open spec fn inverted(self) -> Option<Dubious<T>> {
        match self@ {
            Some(v) => Some(Dubious::wrap(v)),
            None => None,
        }
    }

    /// Converts a `Dubious<Option<T>>` into an `Option<Dubious<T>>`.
    ///
    /// There is no method for the other direction.
    pub fn invert(self) -> (r: Option<Dubious<T>>)
        ensures
            r == self.inverted(),
    {
        match self.0 {
            Some(x) => Some(Dubious(x)),
            None => None,
        }
    }
}

/// Validating a wrapper validates the value it holds.
impl<T: Validate> Validate<T> for Dubious<T> {
    type Error = T::Error;

    open spec fn validation(self) -> Result<T, T::Error> {
        self@.validation()
    }

    fn validate(self) -> (r: Result<T, T::Error>) {
        self.0.validate()
    }
}

impl<T> From<T> for Dubious<T> {
    fn from(x: T) -> (r: Dubious<T>) {
        Dubious(x)
    }
}

impl<T> FromSpecImpl<T> for Dubious<T> {
    open spec fn obeys_from_spec() -> bool {
        true
    }

    open spec fn from_spec(v: T) -> Dubious<T> {
        Dubious::wrap(v)
    }
}

/// Two wrappers are equal when the values they hold are.
impl<T: PartialEq> PartialEq for Dubious<T> {
    fn eq(&self, other: &Dubious<T>) -> (r: bool) {
        self.0 == other.0
    }
}

impl<T: PartialEq> PartialEqSpecImpl for Dubious<T> {
    open spec fn obeys_eq_spec() -> bool {
        <T as PartialEqSpec>::obeys_eq_spec()
    }

    open spec fn eq_spec(&self, other: &Dubious<T>) -> bool {
        self@.eq_spec(&other@)
    }
}

/// A wrapper equals a bare value when the value it holds does.
impl<T: PartialEq> PartialEq<T> for Dubious<T> {
    fn eq(&self, other: &T) -> (r: bool) {
        self.0 == *other
    }
}

impl<T: PartialEq> PartialEqSpecImpl<T> for Dubious<T> {
    open spec fn obeys_eq_spec() -> bool {
        <T as PartialEqSpec>::obeys_eq_spec()
    }

    open spec fn eq_spec(&self, other: &T) -> bool {
        self@.eq_spec(other)
    }
}

/// `f` returns `fs(a)` whenever it returns on `a`: it computes the function `fs`.
pub open spec fn computes<A, B, F: FnOnce(A) -> B>(f: F, fs: spec_fn(A) -> B) -> bool {
    forall|a: A, b: B| f.ensures((a,), b) ==> b == fs(a)
}

/// Wrapping a value and looking inside, without validating, gives the value
/// back; and every wrapper is the wrapping of the value it holds.
pub proof fn lemma_wrap_view<T>(value: T, w: Dubious<T>)
    ensures
        Dubious::wrap(value)@ == value,
        Dubious::wrap(w@) == w,
{
}

/// Mapping by `f` and then by `g` gives the same wrapper as mapping once by a
/// function `h` that computes `g(f(x))`, when `f`, `g` and `h` are pure.
pub proof fn lemma_map_map<T, U, V, F, G, H>(
    w: Dubious<T>,
    f: F,
    g: G,
    h: H,
    fs: spec_fn(T) -> U,
    gs: spec_fn(U) -> V,
    mid: Dubious<U>,
    two_steps: Dubious<V>,
    one_step: Dubious<V>,
)
    where
        F: FnOnce(T) -> U,
        G: FnOnce(U) -> V,
        H: FnOnce(T) -> V,
    requires
        computes(f, fs),
        computes(g, gs),
        computes(h, |x: T| gs(fs(x))),
        f.ensures((w@,), mid@),
        g.ensures((mid@,), two_steps@),
        h.ensures((w@,), one_step@),
    ensures
        two_steps == one_step,
{
    lemma_wrap_view(two_steps@, two_steps);
    lemma_wrap_view(one_step@, one_step);
}

/// Flattening the wrapping of the wrapping of `v` gives the wrapping of `v`.
pub proof fn lemma_flatten_wrap<T>(v: T)
    ensures
        Dubious::wrap(Dubious::wrap(v))@ == Dubious::wrap(v),
{
}

/// Inverting the wrapping of `Some(v)` gives `Some` of the wrapping of `v`;
/// inverting the wrapping of `None` gives `None`.
pub proof fn lemma_invert_wrap<T>(v: T)
    ensures
        Dubious::wrap(Some(v)).inverted() == Some(Dubious::wrap(v)),
        Dubious::wrap(None::<T>).inverted() == None::<Dubious<T>>,
{
}

/// Zipping and then mapping by a pure `f` gives the same wrapper as `zip_with`
/// by `f`.
pub proof fn lemma_zip_map<T, U, R, F>(
    a: Dubious<T>,
    b: Dubious<U>,
    f: F,
    fs: spec_fn((T, U)) -> R,
    zipped: Dubious<(T, U)>,
    mapped: Dubious<R>,
    direct: Dubious<R>,
)
    where
        F: FnOnce((T, U)) -> R,
    requires
        computes(f, fs),
        zipped@ == (a@, b@),
        f.ensures((zipped@,), mapped@),
        f.ensures(((a@, b@),), direct@),
    ensures
        mapped == direct,
{
    lemma_wrap_view(mapped@, mapped);
    lemma_wrap_view(direct@, direct);
}

/// Validating the wrapping of `v` has the outcome of validating `v` itself.
pub proof fn lemma_validation_delegates<T: Validate>(v: T)
    ensures
        Dubious::wrap(v).validation() == v.validation(),
{
}

/// The wrapping of `v` equals the bare value `v` whenever `v` equals itself.
pub proof fn lemma_wrap_eq_bare<T: PartialEq>(v: T)
    requires
        v.eq_spec(&v),
    ensures
        PartialEqSpec::<T>::eq_spec(&Dubious::wrap(v), &v),
{
}

} // verus!
