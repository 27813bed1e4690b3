use vstd::prelude::*;
use crate::primitive::Primitive;
use crate::rgb::Rgb;
use crate::bgr::Bgr;
use crate::luma::Luma;
use crate::rgba::Rgba;
use crate::bgra::Bgra;
use crate::luma_a::LumaA;

verus! {

/// Provides color conversions for the different pixel types.
pub trait FromColor<Other>: Sized {
    /// The pixel of type `Self` that represents `other`.
    spec fn spec_from_color(other: Other) -> Self;

    /// Changes `self` to represent `Other` in the color space of `Self`
    fn from_color(&mut self, other: &Other)
        ensures
            *final(self) == Self::spec_from_color(*other),
    ;
}

// Self->Self: just copy
impl<A: Copy> FromColor<A> for A {
    open spec fn spec_from_color(other: A) -> A {
        other
    }

    fn from_color(&mut self, other: &A) {
        *self = *other;
    }
}

impl<T: Primitive> FromColor<LumaA<T>> for Luma<T> {
    open spec fn spec_from_color(other: LumaA<T>) -> Luma<T> {
        Luma { data: [other.data[0]] }
    }

    fn from_color(&mut self, other: &LumaA<T>) {
        self.data[0] = other.data[0];
        assert(self.data =~= Self::spec_from_color(*other).data);
    }
}

impl<T: Primitive> FromColor<Luma<T>> for LumaA<T> {
    open spec fn spec_from_color(other: Luma<T>) -> LumaA<T> {
        LumaA { data: [other.data[0], T::spec_max_value()] }
    }

    fn from_color(&mut self, other: &Luma<T>) {
        self.data[0] = other.data[0];
        self.data[1] = T::max_value();
        assert(self.data =~= Self::spec_from_color(*other).data);
    }
}

impl<T: Primitive> FromColor<Rgb<T>> for Rgba<T> {
    open spec fn spec_from_color(other: Rgb<T>) -> Rgba<T> {
        Rgba { data: [other.data[0], other.data[1], other.data[2], T::spec_max_value()] }
    }

    fn from_color(&mut self, other: &Rgb<T>) {
        self.data[0] = other.data[0];
        self.data[1] = other.data[1];
        self.data[2] = other.data[2];
        self.data[3] = T::max_value();
        assert(self.data =~= Self::spec_from_color(*other).data);
    }
}

impl<T: Primitive> FromColor<Bgr<T>> for Rgba<T> {
    open spec fn spec_from_color(other: Bgr<T>) -> Rgba<T> {
        Rgba { data: [other.data[2], other.data[1], other.data[0], T::spec_max_value()] }
    }

    fn from_color(&mut self, other: &Bgr<T>) {
        self.data[0] = other.data[2];
        self.data[1] = other.data[1];
        self.data[2] = other.data[0];
        self.data[3] = T::max_value();
        assert(self.data =~= Self::spec_from_color(*other).data);
    }
}

impl<T: Primitive> FromColor<Bgra<T>> for Rgba<T> {
    open spec fn spec_from_color(other: Bgra<T>) -> Rgba<T> {
        Rgba { data: [other.data[2], other.data[1], other.data[0], other.data[3]] }
    }

    fn from_color(&mut self, other: &Bgra<T>) {
        self.data[0] = other.data[2];
        self.data[1] = other.data[1];
        self.data[2] = other.data[0];
        self.data[3] = other.data[3];
        assert(self.data =~= Self::spec_from_color(*other).data);
    }
}

impl<T: Primitive> FromColor<LumaA<T>> for Rgba<T> {
    open spec fn spec_from_color(other: LumaA<T>) -> Rgba<T> {
        Rgba { data: [other.data[0], other.data[0], other.data[0], other.data[1]] }
    }

    fn from_color(&mut self, other: &LumaA<T>) {
        self.data[0] = other.data[0];
        self.data[1] = other.data[0];
        self.data[2] = other.data[0];
        self.data[3] = other.data[1];
        assert(self.data =~= Self::spec_from_color(*other).data);
    }
}

impl<T: Primitive> FromColor<Luma<T>> for Rgba<T> {
    open spec fn spec_from_color(other: Luma<T>) -> Rgba<T> {
        Rgba { data: [other.data[0], other.data[0], other.data[0], T::spec_max_value()] }
    }

    fn from_color(&mut self, other: &Luma<T>) {
        self.data[0] = other.data[0];
        self.data[1] = other.data[0];
        self.data[2] = other.data[0];
        self.data[3] = T::max_value();
        assert(self.data =~= Self::spec_from_color(*other).data);
    }
}

impl<T: Primitive> FromColor<Rgb<T>> for Bgra<T> {
    open spec fn spec_from_color(other: Rgb<T>) -> Bgra<T> {
        Bgra { data: [other.data[2], other.data[1], other.data[0], T::spec_max_value()] }
    }

    fn from_color(&mut self, other: &Rgb<T>) {
        self.data[0] = other.data[2];
        self.data[1] = other.data[1];
        self.data[2] = other.data[0];
        self.data[3] = T::max_value();
        assert(self.data =~= Self::spec_from_color(*other).data);
    }
}

impl<T: Primitive> FromColor<Bgr<T>> for Bgra<T> {
    open spec fn spec_from_color(other: Bgr<T>) -> Bgra<T> {
        Bgra { data: [other.data[0], other.data[1], other.data[2], T::spec_max_value()] }
    }

    fn from_color(&mut self, other: &Bgr<T>) {
        self.data[0] = other.data[0];
        self.data[1] = other.data[1];
        self.data[2] = other.data[2];
        self.data[3] = T::max_value();
        assert(self.data =~= Self::spec_from_color(*other).data);
    }
}

impl<T: Primitive> FromColor<Rgba<T>> for Bgra<T> {
    open spec fn spec_from_color(other: Rgba<T>) -> Bgra<T> {
        Bgra { data: [other.data[2], other.data[1], other.data[0], other.data[3]] }
    }

    fn from_color(&mut self, other: &Rgba<T>) {
        self.data[0] = other.data[2];
        self.data[1] = other.data[1];
        self.data[2] = other.data[0];
        self.data[3] = other.data[3];
        assert(self.data =~= Self::spec_from_color(*other).data);
    }
}

impl<T: Primitive> FromColor<LumaA<T>> for Bgra<T> {
    open spec fn spec_from_color(other: LumaA<T>) -> Bgra<T> {
        Bgra { data: [other.data[0], other.data[0], other.data[0], other.data[1]] }
    }

    fn from_color(&mut self, other: &LumaA<T>) {
        self.data[0] = other.data[0];
        self.data[1] = other.data[0];
        self.data[2] = other.data[0];
        self.data[3] = other.data[1];
        assert(self.data =~= Self::spec_from_color(*other).data);
    }
}

impl<T: Primitive> FromColor<Luma<T>> for Bgra<T> {
    open spec fn spec_from_color(other: Luma<T>) -> Bgra<T> {
        Bgra { data: [other.data[0], other.data[0], other.data[0], T::spec_max_value()] }
    }

    fn from_color(&mut self, other: &Luma<T>) {
        self.data[0] = other.data[0];
        self.data[1] = other.data[0];
        self.data[2] = other.data[0];
        self.data[3] = T::max_value();
        assert(self.data =~= Self::spec_from_color(*other).data);
    }
}

impl<T: Primitive> FromColor<Rgba<T>> for Rgb<T> {
    open spec fn spec_from_color(other: Rgba<T>) -> Rgb<T> {
        Rgb { data: [other.data[0], other.data[1], other.data[2]] }
    }

    fn from_color(&mut self, other: &Rgba<T>) {
        self.data[0] = other.data[0];
        self.data[1] = other.data[1];
        self.data[2] = other.data[2];
        assert(self.data =~= Self::spec_from_color(*other).data);
    }
}

impl<T: Primitive> FromColor<Bgra<T>> for Rgb<T> {
    open spec fn spec_from_color(other: Bgra<T>) -> Rgb<T> {
        Rgb { data: [other.data[2], other.data[1], other.data[0]] }
    }

    fn from_color(&mut self, other: &Bgra<T>) {
        self.data[0] = other.data[2];
        self.data[1] = other.data[1];
        self.data[2] = other.data[0];
        assert(self.data =~= Self::spec_from_color(*other).data);
    }
}

impl<T: Primitive> FromColor<Bgr<T>> for Rgb<T> {
    open spec fn spec_from_color(other: Bgr<T>) -> Rgb<T> {
        Rgb { data: [other.data[2], other.data[1], other.data[0]] }
    }

    fn from_color(&mut self, other: &Bgr<T>) {
        self.data[0] = other.data[2];
        self.data[1] = other.data[1];
        self.data[2] = other.data[0];
        assert(self.data =~= Self::spec_from_color(*other).data);
    }
}

impl<T: Primitive> FromColor<LumaA<T>> for Rgb<T> {
    open spec fn spec_from_color(other: LumaA<T>) -> Rgb<T> {
        Rgb { data: [other.data[0], other.data[0], other.data[0]] }
    }

    fn from_color(&mut self, other: &LumaA<T>) {
        self.data[0] = other.data[0];
        self.data[1] = other.data[0];
        self.data[2] = other.data[0];
        assert(self.data =~= Self::spec_from_color(*other).data);
    }
}

impl<T: Primitive> FromColor<Luma<T>> for Rgb<T> {
    open spec fn spec_from_color(other: Luma<T>) -> Rgb<T> {
        Rgb { data: [other.data[0], other.data[0], other.data[0]] }
    }

    fn from_color(&mut self, other: &Luma<T>) {
        self.data[0] = other.data[0];
        self.data[1] = other.data[0];
        self.data[2] = other.data[0];
        assert(self.data =~= Self::spec_from_color(*other).data);
    }
}

impl<T: Primitive> FromColor<Rgba<T>> for Bgr<T> {
    open spec fn spec_from_color(other: Rgba<T>) -> Bgr<T> {
        Bgr { data: [other.data[2], other.data[1], other.data[0]] }
    }

    fn from_color(&mut self, other: &Rgba<T>) {
        self.data[0] = other.data[2];
        self.data[1] = other.data[1];
        self.data[2] = other.data[0];
        assert(self.data =~= Self::spec_from_color(*other).data);
    }
}

impl<T: Primitive> FromColor<Rgb<T>> for Bgr<T> {
    open spec fn spec_from_color(other: Rgb<T>) -> Bgr<T> {
        Bgr { data: [other.data[2], other.data[1], other.data[0]] }
    }

    fn from_color(&mut self, other: &Rgb<T>) {
        self.data[0] = other.data[2];
        self.data[1] = other.data[1];
        self.data[2] = other.data[0];
        assert(self.data =~= Self::spec_from_color(*other).data);
    }
}

impl<T: Primitive> FromColor<Bgra<T>> for Bgr<T> {
    open spec fn spec_from_color(other: Bgra<T>) -> Bgr<T> {
        Bgr { data: [other.data[0], other.data[1], other.data[2]] }
    }

    fn from_color(&mut self, other: &Bgra<T>) {
        self.data[0] = other.data[0];
        self.data[1] = other.data[1];
        self.data[2] = other.data[2];
        assert(self.data =~= Self::spec_from_color(*other).data);
    }
}

impl<T: Primitive> FromColor<LumaA<T>> for Bgr<T> {
    open spec fn spec_from_color(other: LumaA<T>) -> Bgr<T> {
        Bgr { data: [other.data[0], other.data[0], other.data[0]] }
    }

    fn from_color(&mut self, other: &LumaA<T>) {
        self.data[0] = other.data[0];
        self.data[1] = other.data[0];
        self.data[2] = other.data[0];
        assert(self.data =~= Self::spec_from_color(*other).data);
    }
}

impl<T: Primitive> FromColor<Luma<T>> for Bgr<T> {
    open spec fn spec_from_color(other: Luma<T>) -> Bgr<T> {
        Bgr { data: [other.data[0], other.data[0], other.data[0]] }
    }

    fn from_color(&mut self, other: &Luma<T>) {
        self.data[0] = other.data[0];
        self.data[1] = other.data[0];
        self.data[2] = other.data[0];
        assert(self.data =~= Self::spec_from_color(*other).data);
    }
}

} // verus!
