//! Marker types `Const` and `Mut` for distinguishing between mutable and
//! immutable program state at compile time, together with the capability
//! traits that resolve, per marker, a reference kind and a two-way choice of
//! types and values.

use vstd::prelude::*;
use vstd::std_specs::cmp::PartialOrdSpec;

mod private;

verus! {

/// Marks an immutable type.
#[derive(Copy, Clone, Debug, PartialEq, Eq, Ord, Hash, Structural)]
pub struct Const;

/// Marks a mutable type.
#[derive(Copy, Clone, Debug, PartialEq, Eq, Ord, Hash, Structural)]
pub struct Mut;

impl PartialOrd for Const {
    /// `Const` is its type's only value, so it compares equal to itself.
    fn partial_cmp(&self, other: &Const) -> (r: Option<core::cmp::Ordering>) {
        Some(core::cmp::Ordering::Equal)
    }
}

impl vstd::std_specs::cmp::PartialOrdSpecImpl for Const {
    open spec fn obeys_partial_cmp_spec() -> bool {
        true
    }

    open spec fn partial_cmp_spec(&self, other: &Const) -> Option<core::cmp::Ordering> {
        Some(core::cmp::Ordering::Equal)
    }
}

impl PartialOrd for Mut {
    /// `Mut` is its type's only value, so it compares equal to itself.
    fn partial_cmp(&self, other: &Mut) -> (r: Option<core::cmp::Ordering>) {
        Some(core::cmp::Ordering::Equal)
    }
}

impl vstd::std_specs::cmp::PartialOrdSpecImpl for Mut {
    open spec fn obeys_partial_cmp_spec() -> bool {
        true
    }

    open spec fn partial_cmp_spec(&self, other: &Mut) -> Option<core::cmp::Ordering> {
        Some(core::cmp::Ordering::Equal)
    }
}

impl Default for Const {
    /// The only value of the type: `Const` itself.
    fn default() -> (r: Self)
        ensures
            r == Const,
    {
        Const
    }
}

impl Default for Mut {
    /// The only value of the type: `Mut` itself.
    fn default() -> (r: Self)
        ensures
            r == Mut,
    {
        Mut
    }
}

/// Marks whether a type is mutable or immutable, and resolves the reference
/// kind for a target type `T` within a scope `'a`: a shared reference for
/// [`Const`], an exclusive one for [`Mut`].
///
/// Only [`Const`] and [`Mut`] can implement this trait: it requires a sealed
/// prerequisite that nothing outside this crate can name.
pub trait Mutability<'a, T: 'a + ?Sized>: private::MutabilityInner {
    /// The reference type associated with this mutability. Either kind
    /// permits reading a `T` through it, which the bound records.
    type Ref: core::ops::Deref<Target = T>;
}

impl<'a, T: 'a + ?Sized> Mutability<'a, T> for Const {
    type Ref = &'a T;
}

impl<'a, T: 'a + ?Sized> Mutability<'a, T> for Mut {
    type Ref = &'a mut T;
}

/// Chooses between one of two types, and between one of two values, based
/// upon whether the implementer is [`Const`] (in which case `I` and `immut`
/// are chosen) or [`Mut`] (in which case `M` and `mutable` are chosen).
///
/// The choice is made entirely at compile time: each marker's implementation
/// simply returns the corresponding argument. Like [`Mutability`], this trait
/// is sealed, so the two markers are its only implementers.
pub trait Selector<I, M>: private::MutabilityInner {
    /// The chosen type: `I` for [`Const`], `M` for [`Mut`].
    type Select;

    /// The chosen value, as a mathematical function of the two candidates.
    spec fn spec_select(immut: I, mutable: M) -> Self::Select;

    /// Returns `immut` for [`Const`] and `mutable` for [`Mut`].
    fn select(immut: I, mutable: M) -> (r: Self::Select)
        ensures
            r == Self::spec_select(immut, mutable),
    ;
}

impl<I, M> Selector<I, M> for Const {
    type Select = I;

    open spec fn spec_select(immut: I, mutable: M) -> I {
        immut
    }

    fn select(immut: I, mutable: M) -> (r: I) {
        immut
    }
}

impl<I, M> Selector<I, M> for Mut {
    type Select = M;

    open spec fn spec_select(immut: I, mutable: M) -> M {
        mutable
    }

    fn select(immut: I, mutable: M) -> (r: M) {
        mutable
    }
}

/// For every pair of candidate types, the type chosen by [`Const`] is exactly
/// the first: this function coerces it back, at no cost, for all `I` and `M`.
pub fn type_selected_by_const<I, M>(chosen: <Const as Selector<I, M>>::Select) -> (r: I)
    ensures
        r == chosen,
{
    chosen
}

/// For every pair of candidate types, the type chosen by [`Mut`] is exactly
/// the second: this function coerces it back, at no cost, for all `I` and `M`.
pub fn type_selected_by_mut<I, M>(chosen: <Mut as Selector<I, M>>::Select) -> (r: M)
    ensures
        r == chosen,
{
    chosen
}

/// For every pair of candidate values, the value selected by [`Const`] is the
/// first, and the value selected by [`Mut`] is the second.
pub proof fn lemma_select_values<I, M>(immut: I, mutable: M)
    ensures
        <Const as Selector<I, M>>::spec_select(immut, mutable) == immut,
        <Mut as Selector<I, M>>::spec_select(immut, mutable) == mutable,
{
}

/// The reference kind of [`Const`] permits reading the target: for every `T`,
/// it yields a shared reference to the very value it was made from.
pub fn read_through_const<'a, T>(r: <Const as Mutability<'a, T>>::Ref) -> (out: &'a T)
    ensures
        out == r,
{
    r
}

/// The reference kind of [`Mut`] permits reading the target: the value behind
/// it can be copied out, and is left unchanged by doing so.
pub fn read_through_mut<'a, T: Copy>(r: <Mut as Mutability<'a, T>>::Ref) -> (out: T)
    ensures
        out == *old(r),
        *final(r) == *old(r),
{
    *r
}

/// The reference kind of [`Mut`] permits writing the target: for every `T`,
/// the value behind it can be replaced by any other.
pub fn write_through_mut<'a, T>(r: <Mut as Mutability<'a, T>>::Ref, value: T)
    ensures
        *final(r) == value,
{
    *r = value;
}

/// Each marker type has exactly one value, so any two of its values are
/// equal: a marker compares equal only to itself, and duplicating a marker
/// yields a value equal to the original.
pub proof fn lemma_markers_equal_to_self(a: Const, b: Const, x: Mut, y: Mut)
    ensures
        a == b,
        x == y,
{
}

/// The markers' ordering agrees with their equality: a marker always compares
/// to itself as equal.
pub proof fn lemma_markers_ordered_equal_to_self(a: Const, b: Const, x: Mut, y: Mut)
    ensures
        a.partial_cmp_spec(&b) == Some(core::cmp::Ordering::Equal),
        x.partial_cmp_spec(&y) == Some(core::cmp::Ordering::Equal),
{
}

} // verus!
