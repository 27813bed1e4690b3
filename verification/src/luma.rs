use vstd::prelude::*;
use crate::color_type::ColorType;
use crate::primitive::Primitive;
use crate::pixel::{apply_range, apply2_all, Pixel};
use crate::invert::Invert;
use crate::from_color::FromColor;
use crate::rgb::Rgb;
use crate::bgr::Bgr;
use crate::rgba::Rgba;
use crate::bgra::Bgra;
use crate::luma_a::LumaA;

verus! {

/// Grayscale colors
#[derive(PartialEq, Eq, Clone, Debug, Copy, Hash)]
pub struct Luma<T: Primitive> {
    pub data: [T; 1],
}

/// Builds a pixel from its channels.
#[allow(non_snake_case)]
pub fn Luma<T: Primitive>(data: [T; 1]) -> (p: Luma<T>)
    ensures
        p.data == data,
{
    Luma { data: data }
}

impl<T: Primitive> Pixel for Luma<T> {
    type Subpixel = T;

    open spec fn spec_channels(&self) -> Seq<T> {
        self.data@
    }

    open spec fn spec_channel_count() -> nat {
        1
    }

    open spec fn spec_alpha_count() -> nat {
        0
    }

    open spec fn spec_color_type_defined() -> bool {
        vstd::layout::size_of::<T>() == 1 || (vstd::layout::size_of::<T>() as u8) * 8 <= u8::MAX
    }

    open spec fn spec_color_type() -> ColorType {
        if vstd::layout::size_of::<T>() == 1 {
            ColorType::L(8)
        } else {
            ColorType::L(((vstd::layout::size_of::<T>() as u8) * 8) as u8)
        }
    }

    open spec fn spec_color_model() -> Seq<char> {
        "Y"@
    }

    open spec fn spec_to_rgb(&self) -> Rgb<T> {
        <Rgb<T> as FromColor<Luma<T>>>::spec_from_color(*self)
    }

    open spec fn spec_to_bgr(&self) -> Bgr<T> {
        <Bgr<T> as FromColor<Luma<T>>>::spec_from_color(*self)
    }

    open spec fn spec_to_rgba(&self) -> Rgba<T> {
        <Rgba<T> as FromColor<Luma<T>>>::spec_from_color(*self)
    }

    open spec fn spec_to_bgra(&self) -> Bgra<T> {
        <Bgra<T> as FromColor<Luma<T>>>::spec_from_color(*self)
    }

    proof fn lemma_pixel(p: Self) {
    }

    fn channel_count() -> (n: u8) {
        1
    }

    fn color_model() -> (s: &'static str) {
        "Y"
    }

    fn color_type() -> (c: ColorType) {
        if core::mem::size_of::<T>() == 1 {
            ColorType::L(8)
        } else {
            ColorType::L(core::mem::size_of::<T>() as u8 * 8)
        }
    }

    fn channels(&self) -> (s: &[T]) {
        self.data.as_slice()
    }

    fn channels_mut(&mut self) -> (s: &mut [T]) {
        &mut self.data
    }

    fn channels4(&self) -> (r: (T, T, T, T)) {
        let max = T::max_value();
        (self.data[0], max, max, max)
    }

    fn from_channels(a: T, b: T, c: T, d: T) -> (p: Self) {
        let p = Luma { data: [a] };
        assert(p.data@ == seq![a, b, c, d].take(1));
        p
    }

    fn from_slice(slice: &[T]) -> (p: Self) {
        let p = Luma { data: [slice[0]] };
        assert(p.data@ == slice@);
        p
    }

    fn to_rgb(&self) -> (r: Rgb<T>) {
        let z = T::zero();
        let mut pix = Rgb { data: [z, z, z] };
        pix.from_color(self);
        pix
    }

    fn to_bgr(&self) -> (r: Bgr<T>) {
        let z = T::zero();
        let mut pix = Bgr { data: [z, z, z] };
        pix.from_color(self);
        pix
    }

    fn to_rgba(&self) -> (r: Rgba<T>) {
        let z = T::zero();
        let mut pix = Rgba { data: [z, z, z, z] };
        pix.from_color(self);
        pix
    }

    fn to_bgra(&self) -> (r: Bgra<T>) {
        let z = T::zero();
        let mut pix = Bgra { data: [z, z, z, z] };
        pix.from_color(self);
        pix
    }

    fn map<F: FnMut(T) -> T>(&self, f: F) -> (r: Self) {
        let mut this = *self;
        this.apply(f);
        this
    }

    fn apply<F: FnMut(T) -> T>(&mut self, f: F) {
        apply_range(&mut self.data, f, 0, 1);
    }

    fn map_with_alpha<F, G>(&self, f: F, g: G) -> (r: Self) where
        F: FnMut(T) -> T,
        G: FnMut(T) -> T,
     {
        let mut this = *self;
        this.apply_with_alpha(f, g);
        this
    }

    fn apply_with_alpha<F, G>(&mut self, f: F, g: G) where
        F: FnMut(T) -> T,
        G: FnMut(T) -> T,
     {
        apply_range(&mut self.data, f, 0, 1);
    }

    fn map2<F: FnMut(T, T) -> T>(&self, other: &Self, f: F) -> (r: Self) {
        let mut this = *self;
        this.apply2(other, f);
        this
    }

    fn apply2<F: FnMut(T, T) -> T>(&mut self, other: &Self, f: F) {
        apply2_all(&mut self.data, &other.data, f);
    }

    fn invert(&mut self) {
        Invert::invert(self)
    }
}

impl<T: Primitive> Luma<T> {
    /// Convert this pixel to luma
    pub fn to_luma(&self) -> (r: Luma<T>)
        ensures
            r == <Luma<T> as FromColor<Luma<T>>>::spec_from_color(*self),
    {
        let z = T::zero();
        let mut pix = Luma { data: [z] };
        pix.from_color(self);
        pix
    }

    /// Convert this pixel to luma with an alpha channel
    pub fn to_luma_alpha(&self) -> (r: LumaA<T>)
        ensures
            r == <LumaA<T> as FromColor<Luma<T>>>::spec_from_color(*self),
    {
        let z = T::zero();
        let mut pix = LumaA { data: [z, z] };
        pix.from_color(self);
        pix
    }
}

impl<T: Primitive> core::ops::Index<usize> for Luma<T> {
    type Output = T;

    fn index(&self, index: usize) -> (r: &T)
        ensures
            *r == self.data@[index as int],
    {
        &self.data[index]
    }
}

impl<T: Primitive> vstd::std_specs::core::IndexSpecImpl<usize> for Luma<T> {
    open spec fn index_req(&self, index: &usize) -> bool {
        *index < 1
    }
}

} // verus!
