//! Marker types that give a lifetime parameter its variance.
//!
//! Such markers are confusing when they are spelled out where they are used, so
//! they are defined once, here.

use std::marker::PhantomData;
use vstd::prelude::*;

verus! {

/// Marks a lifetime as being invariant.
#[derive(Copy, Clone, Debug)]
pub struct Invariant<'a>(PhantomData<&'a mut &'a ()>);

impl<'a> Invariant<'a> {
    /// The one value of this type.
    pub closed spec fn marker() -> Self {
        Invariant(PhantomData)
    }

    /// Create the marker.
    pub fn new() -> (marker: Self)
        ensures
            marker == Self::marker(),
    {
        Invariant(PhantomData)
    }
}

impl<'a> Default for Invariant<'a> {
    fn default() -> (marker: Self)
        ensures
            marker == Self::marker(),
    {
        Invariant::new()
    }
}

/// Marks a lifetime as being covariant.
#[derive(Copy, Clone, Debug)]
pub struct Covariant<'a>(PhantomData<&'a ()>);

impl<'a> Covariant<'a> {
    /// The one value of this type.
    pub closed spec fn marker() -> Self {
        Covariant(PhantomData)
    }

    /// Create the marker.
    pub fn new() -> (marker: Self)
        ensures
            marker == Self::marker(),
    {
        Covariant(PhantomData)
    }
}

impl<'a> Default for Covariant<'a> {
    fn default() -> (marker: Self)
        ensures
            marker == Self::marker(),
    {
        Covariant::new()
    }
}

} // verus!
