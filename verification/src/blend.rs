use vstd::prelude::*;
use crate::primitive::Primitive;
use crate::luma::Luma;
use crate::rgb::Rgb;
use crate::bgr::Bgr;

verus! {

/// Blends a color inter another one
pub trait Blend: Sized {
    /// The pixel that blending `other` into `self` gives.
    spec fn spec_blend(&self, other: &Self) -> Self;

    /// Blends a color in-place.
    fn blend(&mut self, other: &Self)
        ensures
            *final(self) == old(self).spec_blend(other),
    ;
}

impl<T: Primitive> Blend for Luma<T> {
    /// A pixel without an alpha channel is opaque: blending one over
    /// another gives the one on top.
    open spec fn spec_blend(&self, other: &Self) -> Self {
        *other
    }

    fn blend(&mut self, other: &Luma<T>) {
        *self = *other
    }
}

impl<T: Primitive> Blend for Rgb<T> {
    /// A pixel without an alpha channel is opaque: blending one over
    /// another gives the one on top.
    open spec fn spec_blend(&self, other: &Self) -> Self {
        *other
    }

    fn blend(&mut self, other: &Rgb<T>) {
        *self = *other
    }
}

impl<T: Primitive> Blend for Bgr<T> {
    /// A pixel without an alpha channel is opaque: blending one over
    /// another gives the one on top.
    open spec fn spec_blend(&self, other: &Self) -> Self {
        *other
    }

    fn blend(&mut self, other: &Bgr<T>) {
        *self = *other
    }
}

} // verus!
