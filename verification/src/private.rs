//! Sealing boundary for the mutability markers.
//!
//! This module is not exported, so code outside the crate cannot name
//! [`MutabilityInner`], and therefore cannot implement the public capability
//! traits for any further type: the set of modes is closed to exactly
//! [`Const`](crate::Const) and [`Mut`](crate::Mut).

use vstd::prelude::*;

use crate::Const;
use crate::Mut;

verus! {

/// Seals the mutability marker types.
pub trait MutabilityInner: 'static + Copy + Clone + Send + Sync + core::fmt::Debug + Default + PartialEq + Eq + PartialOrd + Ord + core::hash::Hash {
}

impl MutabilityInner for Const {
}

impl MutabilityInner for Mut {
}

} // verus!
