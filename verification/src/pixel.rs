use vstd::prelude::*;
use crate::color_type::ColorType;
use crate::primitive::Primitive;
use crate::invert::Invert;
use crate::rgb::Rgb;
use crate::bgr::Bgr;
use crate::rgba::Rgba;
use crate::bgra::Bgra;

verus! {

/// Channel `i` of `s`, or the greatest channel value where `s` has fewer
/// than `i + 1` channels.
pub open spec fn channel_or_max<T: Primitive>(s: Seq<T>, i: int) -> T {
    if 0 <= i < s.len() {
        s[i]
    } else {
        T::spec_max_value()
    }
}

/// The first four channels of `s`, padded with the greatest channel value.
pub open spec fn padded4<T: Primitive>(s: Seq<T>) -> (T, T, T, T) {
    (channel_or_max(s, 0), channel_or_max(s, 1), channel_or_max(s, 2), channel_or_max(s, 3))
}

/// `f` may be called on each of the channels of `s` with index in `[lo, hi)`.
pub open spec fn callable_on<T, F: FnMut(T) -> T>(f: F, s: Seq<T>, lo: int, hi: int) -> bool {
    forall|i: int| lo <= i < hi && 0 <= i < s.len() ==> call_requires(f, (#[trigger] s[i],))
}

/// Each channel of `out` with index in `[lo, hi)` is what `f` returns for the
/// same channel of `inp`.
pub open spec fn mapped_on<T, F: FnMut(T) -> T>(
    f: F,
    inp: Seq<T>,
    out: Seq<T>,
    lo: int,
    hi: int,
) -> bool {
    forall|i: int| lo <= i < hi && 0 <= i < inp.len() ==> call_ensures(f, (inp[i],), #[trigger] out[i])
}

/// `f` may be called on each pair of channels at the same index of `a` and `b`.
pub open spec fn callable_on2<T, F: FnMut(T, T) -> T>(f: F, a: Seq<T>, b: Seq<T>) -> bool {
    forall|i: int| 0 <= i < a.len() ==> call_requires(f, (#[trigger] a[i], b[i]))
}

/// Each channel of `out` is what `f` returns for the channels of `a` and `b`
/// at the same index.
pub open spec fn mapped2<T, F: FnMut(T, T) -> T>(f: F, a: Seq<T>, b: Seq<T>, out: Seq<T>) -> bool {
    forall|i: int| 0 <= i < a.len() ==> call_ensures(f, (a[i], b[i]), #[trigger] out[i])
}

/// A pixel: a fixed number of channels of one primitive type, of which the
/// last may be an alpha channel.
pub trait Pixel: Copy + Sized + Invert {
    /// The type of each channel.
    type Subpixel: Primitive;

    /// The channels, in the order in which they are stored.
    spec fn spec_channels(&self) -> Seq<Self::Subpixel>;

    /// The number of channels.
    spec fn spec_channel_count() -> nat;

    /// The number of alpha channels (zero or one); an alpha channel is the last.
    spec fn spec_alpha_count() -> nat;

    /// Whether `color_type` is defined for this channel type.
    spec fn spec_color_type_defined() -> bool;

    /// What `color_type` returns.
    spec fn spec_color_type() -> ColorType;

    /// The string that `color_model` returns.
    spec fn spec_color_model() -> Seq<char>;

    /// The pixel that `to_rgb` returns.
    spec fn spec_to_rgb(&self) -> Rgb<Self::Subpixel>;

    /// The pixel that `to_bgr` returns.
    spec fn spec_to_bgr(&self) -> Bgr<Self::Subpixel>;

    /// The pixel that `to_rgba` returns.
    spec fn spec_to_rgba(&self) -> Rgba<Self::Subpixel>;

    /// The pixel that `to_bgra` returns.
    spec fn spec_to_bgra(&self) -> Bgra<Self::Subpixel>;

    /// What every pixel type guarantees of its shape.
    proof fn lemma_pixel(p: Self)
        ensures
            p.spec_channels().len() == Self::spec_channel_count(),
            1 <= Self::spec_channel_count() <= 4,
            Self::spec_alpha_count() <= 1,
            Self::spec_alpha_count() < Self::spec_channel_count(),
    ;

    /// The number of channels of this pixel type.
    fn channel_count() -> (n: u8)
        ensures
            n == Self::spec_channel_count(),
    ;

    /// A string that can help to interpret the meaning each channel
    /// See [gimp babl](http://gegl.org/babl/).
    fn color_model() -> (s: &'static str)
        ensures
            s@ == Self::spec_color_model(),
    ;

    /// Returns the ColorType for this pixel format
    fn color_type() -> (c: ColorType)
        requires
            Self::spec_color_type_defined(),
        ensures
            c == Self::spec_color_type(),
    ;

    /// Returns the channels of this pixel as a slice
    fn channels(&self) -> (s: &[Self::Subpixel])
        ensures
            s@ == self.spec_channels(),
    ;

    /// Returns the channels of this pixel as a mutable slice: what is
    /// written through it becomes the channels of the pixel.
    fn channels_mut(&mut self) -> (s: &mut [Self::Subpixel])
        ensures
            s@ == old(self).spec_channels(),
            final(self).spec_channels() == final(s)@,
    ;

    /// Returns the channels of this pixel as a 4 tuple. If the pixel
    /// has less than 4 channels the remainder is filled with the maximum value
    fn channels4(&self) -> (r: (Self::Subpixel, Self::Subpixel, Self::Subpixel, Self::Subpixel))
        ensures
            r == padded4(self.spec_channels()),
    ;

    /// Construct a pixel from the 4 channels a, b, c and d.
    /// If the pixel does not contain 4 channels the extra are ignored.
    fn from_channels(
        a: Self::Subpixel,
        b: Self::Subpixel,
        c: Self::Subpixel,
        d: Self::Subpixel,
    ) -> (p: Self)
        ensures
            p.spec_channels() == seq![a, b, c, d].take(Self::spec_channel_count() as int),
    ;

    /// Returns a pixel with the channels of `slice`, which must have
    /// exactly as many entries as the pixel has channels.
    fn from_slice(slice: &[Self::Subpixel]) -> (p: Self)
        requires
            slice@.len() == Self::spec_channel_count(),
        ensures
            p.spec_channels() == slice@,
    ;

    /// Convert this pixel to RGB
    fn to_rgb(&self) -> (r: Rgb<Self::Subpixel>)
        ensures
            r == self.spec_to_rgb(),
    ;

    /// Convert this pixel to BGR
    fn to_bgr(&self) -> (r: Bgr<Self::Subpixel>)
        ensures
            r == self.spec_to_bgr(),
    ;

    /// Convert this pixel to RGB with an alpha channel
    fn to_rgba(&self) -> (r: Rgba<Self::Subpixel>)
        ensures
            r == self.spec_to_rgba(),
    ;

    /// Convert this pixel to BGR with an alpha channel
    fn to_bgra(&self) -> (r: Bgra<Self::Subpixel>)
        ensures
            r == self.spec_to_bgra(),
    ;

    /// Apply the function ```f``` to each channel of this pixel.
    fn map<F: FnMut(Self::Subpixel) -> Self::Subpixel>(&self, f: F) -> (r: Self)
        requires
            callable_on(f, self.spec_channels(), 0, Self::spec_channel_count() as int),
        ensures
            mapped_on(f, self.spec_channels(), r.spec_channels(), 0, Self::spec_channel_count() as int),
    ;

    /// Apply the function ```f``` to each channel of this pixel.
    fn apply<F: FnMut(Self::Subpixel) -> Self::Subpixel>(&mut self, f: F)
        requires
            callable_on(f, old(self).spec_channels(), 0, Self::spec_channel_count() as int),
        ensures
            mapped_on(
                f,
                old(self).spec_channels(),
                final(self).spec_channels(),
                0,
                Self::spec_channel_count() as int,
            ),
    ;

    /// Apply the function ```f``` to each channel except the alpha channel.
    /// Apply the function ```g``` to the alpha channel.
    fn map_with_alpha<F, G>(&self, f: F, g: G) -> (r: Self) where
        F: FnMut(Self::Subpixel) -> Self::Subpixel,
        G: FnMut(Self::Subpixel) -> Self::Subpixel,
        requires
            callable_on(
                f,
                self.spec_channels(),
                0,
                Self::spec_channel_count() - Self::spec_alpha_count(),
            ),
            callable_on(
                g,
                self.spec_channels(),
                Self::spec_channel_count() - Self::spec_alpha_count(),
                Self::spec_channel_count() as int,
            ),
        ensures
            mapped_on(
                f,
                self.spec_channels(),
                r.spec_channels(),
                0,
                Self::spec_channel_count() - Self::spec_alpha_count(),
            ),
            mapped_on(
                g,
                self.spec_channels(),
                r.spec_channels(),
                Self::spec_channel_count() - Self::spec_alpha_count(),
                Self::spec_channel_count() as int,
            ),
    ;

    /// Apply the function ```f``` to each channel except the alpha channel.
    /// Apply the function ```g``` to the alpha channel. Works in-place.
    fn apply_with_alpha<F, G>(&mut self, f: F, g: G) where
        F: FnMut(Self::Subpixel) -> Self::Subpixel,
        G: FnMut(Self::Subpixel) -> Self::Subpixel,
        requires
            callable_on(
                f,
                old(self).spec_channels(),
                0,
                Self::spec_channel_count() - Self::spec_alpha_count(),
            ),
            callable_on(
                g,
                old(self).spec_channels(),
                Self::spec_channel_count() - Self::spec_alpha_count(),
                Self::spec_channel_count() as int,
            ),
        ensures
            mapped_on(
                f,
                old(self).spec_channels(),
                final(self).spec_channels(),
                0,
                Self::spec_channel_count() - Self::spec_alpha_count(),
            ),
            mapped_on(
                g,
                old(self).spec_channels(),
                final(self).spec_channels(),
                Self::spec_channel_count() - Self::spec_alpha_count(),
                Self::spec_channel_count() as int,
            ),
    ;

    /// Apply the function ```f``` to each channel of this pixel and
    /// ```other``` pairwise.
    fn map2<F: FnMut(Self::Subpixel, Self::Subpixel) -> Self::Subpixel>(
        &self,
        other: &Self,
        f: F,
    ) -> (r: Self)
        requires
            callable_on2(f, self.spec_channels(), other.spec_channels()),
        ensures
            mapped2(f, self.spec_channels(), other.spec_channels(), r.spec_channels()),
    ;

    /// Apply the function ```f``` to each channel of this pixel and
    /// ```other``` pairwise. Works in-place.
    fn apply2<F: FnMut(Self::Subpixel, Self::Subpixel) -> Self::Subpixel>(
        &mut self,
        other: &Self,
        f: F,
    )
        requires
            callable_on2(f, old(self).spec_channels(), other.spec_channels()),
        ensures
            mapped2(f, old(self).spec_channels(), other.spec_channels(), final(self).spec_channels()),
    ;

    /// Invert this pixel
    fn invert(&mut self)
        requires
            old(self).spec_can_invert(),
        ensures
            *final(self) == old(self).spec_inverted(),
    ;
}

/// Replaces each entry of `data` with index in `[lo, hi)` by what `f`
/// returns for it, in order of increasing index.
pub(crate) fn apply_range<T, F: FnMut(T) -> T, const N: usize>(
    data: &mut [T; N],
    mut f: F,
    lo: usize,
    hi: usize,
) where T: Copy
    requires
        lo <= hi <= N,
        callable_on(f, old(data)@, lo as int, hi as int),
    ensures
        mapped_on(f, old(data)@, final(data)@, lo as int, hi as int),
        forall|j: int| 0 <= j < N && !(lo <= j < hi) ==> #[trigger] final(data)@[j] == old(data)@[j],
{
    let ghost start = data@;
    let ghost f0 = f;
    let mut i: usize = lo;
    while i < hi
        invariant
            lo <= i <= hi <= N,
            f == f0,
            start.len() == N,
            data@.len() == N,
            callable_on(f, start, lo as int, hi as int),
            mapped_on(f, start, data@, lo as int, i as int),
            forall|j: int| 0 <= j < N && !(lo <= j < i) ==> #[trigger] data@[j] == start[j],
        decreases hi - i,
    {
        let v = f(data[i]);
        data[i] = v;
        i += 1;
    }
}

/// Replaces each entry of `data` by what `f` returns for it and the entry of
/// `other` at the same index, in order of increasing index.
pub(crate) fn apply2_all<T, F: FnMut(T, T) -> T, const N: usize>(
    data: &mut [T; N],
    other: &[T; N],
    mut f: F,
) where T: Copy
    requires
        callable_on2(f, old(data)@, other@),
    ensures
        mapped2(f, old(data)@, other@, final(data)@),
{
    let ghost start = data@;
    let ghost f0 = f;
    let mut i: usize = 0;
    while i < N
        invariant
            i <= N,
            f == f0,
            start.len() == N,
            data@.len() == N,
            other@.len() == N,
            callable_on2(f, start, other@),
            forall|j: int| 0 <= j < i ==> call_ensures(f, (start[j], other@[j]), #[trigger] data@[j]),
            forall|j: int| i <= j < N ==> #[trigger] data@[j] == start[j],
        decreases N - i,
    {
        let v = f(data[i], other[i]);
        data[i] = v;
        i += 1;
    }
}

} // verus!
