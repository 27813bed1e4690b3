use vstd::prelude::*;
use crate::primitive::{can_invert, spec_invert, Primitive};
use crate::rgb::Rgb;
use crate::bgr::Bgr;
use crate::luma::Luma;
use crate::rgba::Rgba;
use crate::bgra::Bgra;
use crate::luma_a::LumaA;

verus! {

/// Invert a color
pub trait Invert: Sized {
    /// Whether every channel that `invert` inverts can be inverted in the
    /// channel type (see [`can_invert`]).
    spec fn spec_can_invert(&self) -> bool;

    /// The pixel that `invert` leaves.
    spec fn spec_inverted(&self) -> Self;

    /// Inverts a color in-place.
    fn invert(&mut self)
        requires
            old(self).spec_can_invert(),
        ensures
            *final(self) == old(self).spec_inverted(),
    ;
}

impl<T: Primitive> Invert for LumaA<T> {
    open spec fn spec_can_invert(&self) -> bool {
        can_invert(self.data[0])
    }

    open spec fn spec_inverted(&self) -> Self {
        LumaA { data: [spec_invert(self.data[0]), self.data[1]] }
    }

    fn invert(&mut self) {
        let l = self.data;
        let max = T::max_value();

        *self = LumaA([max.minus(l[0]), l[1]])
    }
}

impl<T: Primitive> Invert for Luma<T> {
    open spec fn spec_can_invert(&self) -> bool {
        can_invert(self.data[0])
    }

    open spec fn spec_inverted(&self) -> Self {
        Luma { data: [spec_invert(self.data[0])] }
    }

    fn invert(&mut self) {
        let l = self.data;

        let max = T::max_value();
        let l1 = max.minus(l[0]);

        *self = Luma { data: [l1] }
    }
}

impl<T: Primitive> Invert for Rgba<T> {
    open spec fn spec_can_invert(&self) -> bool {
        can_invert(self.data[0]) && can_invert(self.data[1]) && can_invert(self.data[2])
    }

    open spec fn spec_inverted(&self) -> Self {
        Rgba { data: [spec_invert(self.data[0]), spec_invert(self.data[1]), spec_invert(self.data[2]), self.data[3]] }
    }

    fn invert(&mut self) {
        let rgba = self.data;

        let max = T::max_value();

        *self = Rgba([max.minus(rgba[0]), max.minus(rgba[1]), max.minus(rgba[2]), rgba[3]])
    }
}

impl<T: Primitive> Invert for Bgra<T> {
    open spec fn spec_can_invert(&self) -> bool {
        can_invert(self.data[0]) && can_invert(self.data[1]) && can_invert(self.data[2])
    }

    open spec fn spec_inverted(&self) -> Self {
        Bgra { data: [spec_invert(self.data[0]), spec_invert(self.data[1]), spec_invert(self.data[2]), self.data[3]] }
    }

    fn invert(&mut self) {
        let bgra = self.data;

        let max = T::max_value();

        *self = Bgra([max.minus(bgra[0]), max.minus(bgra[1]), max.minus(bgra[2]), bgra[3]])
    }
}

impl<T: Primitive> Invert for Rgb<T> {
    open spec fn spec_can_invert(&self) -> bool {
        can_invert(self.data[0]) && can_invert(self.data[1]) && can_invert(self.data[2])
    }

    open spec fn spec_inverted(&self) -> Self {
        Rgb { data: [spec_invert(self.data[0]), spec_invert(self.data[1]), spec_invert(self.data[2])] }
    }

    fn invert(&mut self) {
        let rgb = self.data;

        let max = T::max_value();

        let r1 = max.minus(rgb[0]);
        let g1 = max.minus(rgb[1]);
        let b1 = max.minus(rgb[2]);

        *self = Rgb([r1, g1, b1])
    }
}

impl<T: Primitive> Invert for Bgr<T> {
    open spec fn spec_can_invert(&self) -> bool {
        can_invert(self.data[0]) && can_invert(self.data[1]) && can_invert(self.data[2])
    }

    open spec fn spec_inverted(&self) -> Self {
        Bgr { data: [spec_invert(self.data[0]), spec_invert(self.data[1]), spec_invert(self.data[2])] }
    }

    fn invert(&mut self) {
        let bgr = self.data;

        let max = T::max_value();

        let r1 = max.minus(bgr[2]);
        let g1 = max.minus(bgr[1]);
        let b1 = max.minus(bgr[0]);

        *self = Bgr([b1, g1, r1])
    }
}

} // verus!
