use vstd::prelude::*;
use crate::color_type::ColorType;
use crate::primitive::Primitive;
use crate::pixel::{apply_range, apply2_all, Pixel};
use crate::invert::Invert;
use crate::from_color::FromColor;
use crate::rgb::Rgb;
use crate::bgr::Bgr;
use crate::rgba::Rgba;

verus! {

/// BGR colors + alpha channel
#[derive(PartialEq, Eq, Clone, Debug, Copy, Hash)]
pub struct Bgra<T: Primitive> {
    pub data: [T; 4],
}

/// Builds a pixel from its channels.
#[allow(non_snake_case)]
pub fn Bgra<T: Primitive>(data: [T; 4]) -> (p: Bgra<T>)
    ensures
        p.data == data,
{
    Bgra { data: data }
}

impl<T: Primitive> Pixel for Bgra<T> {
    type Subpixel = T;

    open spec fn spec_channels(&self) -> Seq<T> {
        self.data@
    }

    open spec fn spec_channel_count() -> nat {
        4
    }

    open spec fn spec_alpha_count() -> nat {
        1
    }

    open spec fn spec_color_type_defined() -> bool {
        vstd::layout::size_of::<T>() == 1
    }

    open spec fn spec_color_type() -> ColorType {
        ColorType::BGRA
    }

    open spec fn spec_color_model() -> Seq<char> {
        "BGRA"@
    }

    open spec fn spec_to_rgb(&self) -> Rgb<T> {
        <Rgb<T> as FromColor<Bgra<T>>>::spec_from_color(*self)
    }

    open spec fn spec_to_bgr(&self) -> Bgr<T> {
        <Bgr<T> as FromColor<Bgra<T>>>::spec_from_color(*self)
    }

    open spec fn spec_to_rgba(&self) -> Rgba<T> {
        <Rgba<T> as FromColor<Bgra<T>>>::spec_from_color(*self)
    }

    open spec fn spec_to_bgra(&self) -> Bgra<T> {
        <Bgra<T> as FromColor<Bgra<T>>>::spec_from_color(*self)
    }

    proof fn lemma_pixel(p: Self) {
    }

    fn channel_count() -> (n: u8) {
        4
    }

    fn color_model() -> (s: &'static str) {
        "BGRA"
    }

    fn color_type() -> (c: ColorType) {
        ColorType::BGRA
    }

    fn channels(&self) -> (s: &[T]) {
        self.data.as_slice()
    }

    fn channels_mut(&mut self) -> (s: &mut [T]) {
        &mut self.data
    }

    fn channels4(&self) -> (r: (T, T, T, T)) {
        (self.data[0], self.data[1], self.data[2], self.data[3])
    }

    fn from_channels(a: T, b: T, c: T, d: T) -> (p: Self) {
        let p = Bgra { data: [a, b, c, d] };
        assert(p.data@ == seq![a, b, c, d].take(4));
        p
    }

    fn from_slice(slice: &[T]) -> (p: Self) {
        let p = Bgra { data: [slice[0], slice[1], slice[2], slice[3]] };
        assert(p.data@ == slice@);
        p
    }

    fn to_rgb(&self) -> (r: Rgb<T>) {
        let z = T::zero();
        let mut pix = Rgb { data: [z, z, z] };
        pix.from_color(self);
        pix
    }

    fn to_bgr(&self) -> (r: Bgr<T>) {
        let z = T::zero();
        let mut pix = Bgr { data: [z, z, z] };
        pix.from_color(self);
        pix
    }

    fn to_rgba(&self) -> (r: Rgba<T>) {
        let z = T::zero();
        let mut pix = Rgba { data: [z, z, z, z] };
        pix.from_color(self);
        pix
    }

    fn to_bgra(&self) -> (r: Bgra<T>) {
        let z = T::zero();
        let mut pix = Bgra { data: [z, z, z, z] };
        pix.from_color(self);
        pix
    }

    fn map<F: FnMut(T) -> T>(&self, f: F) -> (r: Self) {
        let mut this = *self;
        this.apply(f);
        this
    }

    fn apply<F: FnMut(T) -> T>(&mut self, f: F) {
        apply_range(&mut self.data, f, 0, 4);
    }

    fn map_with_alpha<F, G>(&self, f: F, g: G) -> (r: Self) where
        F: FnMut(T) -> T,
        G: FnMut(T) -> T,
     {
        let mut this = *self;
        this.apply_with_alpha(f, g);
        this
    }

    fn apply_with_alpha<F, G>(&mut self, f: F, mut g: G) where
        F: FnMut(T) -> T,
        G: FnMut(T) -> T,
     {
        apply_range(&mut self.data, f, 0, 3);
        let v = g(self.data[3]);
        self.data[3] = v;
    }

    fn map2<F: FnMut(T, T) -> T>(&self, other: &Self, f: F) -> (r: Self) {
        let mut this = *self;
        this.apply2(other, f);
        this
    }

    fn apply2<F: FnMut(T, T) -> T>(&mut self, other: &Self, f: F) {
        apply2_all(&mut self.data, &other.data, f);
    }

    fn invert(&mut self) {
        Invert::invert(self)
    }
}

impl<T: Primitive> core::ops::Index<usize> for Bgra<T> {
    type Output = T;

    fn index(&self, index: usize) -> (r: &T)
        ensures
            *r == self.data@[index as int],
    {
        &self.data[index]
    }
}

impl<T: Primitive> vstd::std_specs::core::IndexSpecImpl<usize> for Bgra<T> {
    open spec fn index_req(&self, index: &usize) -> bool {
        *index < 4
    }
}

} // verus!
