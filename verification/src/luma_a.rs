use vstd::prelude::*;
use crate::color_type::ColorType;
use crate::primitive::Primitive;
use crate::pixel::{apply_range, apply2_all, Pixel};
use crate::invert::Invert;
use crate::from_color::FromColor;
use crate::rgb::Rgb;
use crate::bgr::Bgr;
use crate::rgba::Rgba;
use crate::bgra::Bgra;
use crate::luma::Luma;

verus! {

/// Grayscale colors + alpha channel
#[derive(PartialEq, Eq, Clone, Debug, Copy, Hash)]
pub struct LumaA<T: Primitive> {
    pub data: [T; 2],
}

/// Builds a pixel from its channels.
#[allow(non_snake_case)]
pub fn LumaA<T: Primitive>(data: [T; 2]) -> (p: LumaA<T>)
    ensures
        p.data == data,
{
    LumaA { data: data }
}

impl<T: Primitive> Pixel for LumaA<T> {
    type Subpixel = T;

    open spec fn spec_channels(&self) -> Seq<T> {
        self.data@
    }

    open spec fn spec_channel_count() -> nat {
        2
    }

    open spec fn spec_alpha_count() -> nat {
        1
    }

    open spec fn spec_color_type_defined() -> bool {
        vstd::layout::size_of::<T>() == 1
    }

    open spec fn spec_color_type() -> ColorType {
        ColorType::LA
    }

    open spec fn spec_color_model() -> Seq<char> {
        "YA"@
    }

    open spec fn spec_to_rgb(&self) -> Rgb<T> {
        <Rgb<T> as FromColor<LumaA<T>>>::spec_from_color(*self)
    }

    open spec fn spec_to_bgr(&self) -> Bgr<T> {
        <Bgr<T> as FromColor<LumaA<T>>>::spec_from_color(*self)
    }

    open spec fn spec_to_rgba(&self) -> Rgba<T> {
        <Rgba<T> as FromColor<LumaA<T>>>::spec_from_color(*self)
    }

    open spec fn spec_to_bgra(&self) -> Bgra<T> {
        <Bgra<T> as FromColor<LumaA<T>>>::spec_from_color(*self)
    }

    proof fn lemma_pixel(p: Self) {
    }

    fn channel_count() -> (n: u8) {
        2
    }

    fn color_model() -> (s: &'static str) {
        "YA"
    }

    fn color_type() -> (c: ColorType) {
        ColorType::LA
    }

    fn channels(&self) -> (s: &[T]) {
        self.data.as_slice()
    }

    fn channels_mut(&mut self) -> (s: &mut [T]) {
        &mut self.data
    }

    fn channels4(&self) -> (r: (T, T, T, T)) {
        let max = T::max_value();
        (self.data[0], self.data[1], max, max)
    }

    fn from_channels(a: T, b: T, c: T, d: T) -> (p: Self) {
        let p = LumaA { data: [a, b] };
        assert(p.data@ == seq![a, b, c, d].take(2));
        p
    }

    fn from_slice(slice: &[T]) -> (p: Self) {
        let p = LumaA { data: [slice[0], slice[1]] };
        assert(p.data@ == slice@);
        p
    }

    fn to_rgb(&self) -> (r: Rgb<T>) {
        let z = T::zero();
        let mut pix = Rgb { data: [z, z, z] };
        pix.from_color(self);
        pix
    }

    fn to_bgr(&self) -> (r: Bgr<T>) {
        let z = T::zero();
        let mut pix = Bgr { data: [z, z, z] };
        pix.from_color(self);
        pix
    }

    fn to_rgba(&self) -> (r: Rgba<T>) {
        let z = T::zero();
        let mut pix = Rgba { data: [z, z, z, z] };
        pix.from_color(self);
        pix
    }

    fn to_bgra(&self) -> (r: Bgra<T>) {
        let z = T::zero();
        let mut pix = Bgra { data: [z, z, z, z] };
        pix.from_color(self);
        pix
    }

    fn map<F: FnMut(T) -> T>(&self, f: F) -> (r: Self) {
        let mut this = *self;
        this.apply(f);
        this
    }

    fn apply<F: FnMut(T) -> T>(&mut self, f: F) {
        apply_range(&mut self.data, f, 0, 2);
    }

    fn map_with_alpha<F, G>(&self, f: F, g: G) -> (r: Self) where
        F: FnMut(T) -> T,
        G: FnMut(T) -> T,
     {
        let mut this = *self;
        this.apply_with_alpha(f, g);
        this
    }

    fn apply_with_alpha<F, G>(&mut self, f: F, mut g: G) where
        F: FnMut(T) -> T,
        G: FnMut(T) -> T,
     {
        apply_range(&mut self.data, f, 0, 1);
        let v = g(self.data[1]);
        self.data[1] = v;
    }

    fn map2<F: FnMut(T, T) -> T>(&self, other: &Self, f: F) -> (r: Self) {
        let mut this = *self;
        this.apply2(other, f);
        this
    }

    fn apply2<F: FnMut(T, T) -> T>(&mut self, other: &Self, f: F) {
        apply2_all(&mut self.data, &other.data, f);
    }

    fn invert(&mut self) {
        Invert::invert(self)
    }
}

impl<T: Primitive> LumaA<T> {
    /// Convert this pixel to luma
    pub fn to_luma(&self) -> (r: Luma<T>)
        ensures
            r == <Luma<T> as FromColor<LumaA<T>>>::spec_from_color(*self),
    {
        let z = T::zero();
        let mut pix = Luma { data: [z] };
        pix.from_color(self);
        pix
    }

    /// Convert this pixel to luma with an alpha channel
    pub fn to_luma_alpha(&self) -> (r: LumaA<T>)
        ensures
            r == <LumaA<T> as FromColor<LumaA<T>>>::spec_from_color(*self),
    {
        let z = T::zero();
        let mut pix = LumaA { data: [z, z] };
        pix.from_color(self);
        pix
    }
}

impl<T: Primitive> core::ops::Index<usize> for LumaA<T> {
    type Output = T;

    fn index(&self, index: usize) -> (r: &T)
        ensures
            *r == self.data@[index as int],
    {
        &self.data[index]
    }
}

impl<T: Primitive> vstd::std_specs::core::IndexSpecImpl<usize> for LumaA<T> {
    open spec fn index_req(&self, index: &usize) -> bool {
        *index < 2
    }
}

} // verus!
