//! Properties that relate several operations of the library.
use vstd::prelude::*;
use crate::primitive::{lemma_invert_channel, Primitive};
use crate::pixel::{mapped2, mapped_on, padded4, Pixel};
use crate::invert::Invert;
use crate::from_color::FromColor;
use crate::rgb::Rgb;
use crate::bgr::Bgr;
use crate::luma::Luma;
use crate::rgba::Rgba;
use crate::bgra::Bgra;
use crate::luma_a::LumaA;
use crate::blend::Blend;
use crate::color_type::{spec_bits_per_pixel, spec_num_components, ColorType};

verus! {

// ---------------------------------------------------------------------------
// Inverting twice gives back the pixel.
// ---------------------------------------------------------------------------

/// Inverting an RGB pixel twice gives back the pixel.
pub proof fn lemma_rgb_invert_involution<T: Primitive>(p: Rgb<T>)
    requires
        p.spec_can_invert(),
    ensures
        p.spec_inverted().spec_can_invert(),
        p.spec_inverted().spec_inverted() == p,
{
    lemma_invert_channel(p.data[0]);
    lemma_invert_channel(p.data[1]);
    lemma_invert_channel(p.data[2]);
    assert(p.spec_inverted().spec_inverted().data =~= p.data);
}

/// Inverting a BGR pixel twice gives back the pixel.
pub proof fn lemma_bgr_invert_involution<T: Primitive>(p: Bgr<T>)
    requires
        p.spec_can_invert(),
    ensures
        p.spec_inverted().spec_can_invert(),
        p.spec_inverted().spec_inverted() == p,
{
    lemma_invert_channel(p.data[0]);
    lemma_invert_channel(p.data[1]);
    lemma_invert_channel(p.data[2]);
    assert(p.spec_inverted().spec_inverted().data =~= p.data);
}

/// Inverting a grayscale pixel twice gives back the pixel.
pub proof fn lemma_luma_invert_involution<T: Primitive>(p: Luma<T>)
    requires
        p.spec_can_invert(),
    ensures
        p.spec_inverted().spec_can_invert(),
        p.spec_inverted().spec_inverted() == p,
{
    lemma_invert_channel(p.data[0]);
    assert(p.spec_inverted().spec_inverted().data =~= p.data);
}

/// Inverting an RGBA pixel twice gives back the pixel.
pub proof fn lemma_rgba_invert_involution<T: Primitive>(p: Rgba<T>)
    requires
        p.spec_can_invert(),
    ensures
        p.spec_inverted().spec_can_invert(),
        p.spec_inverted().spec_inverted() == p,
{
    lemma_invert_channel(p.data[0]);
    lemma_invert_channel(p.data[1]);
    lemma_invert_channel(p.data[2]);
    assert(p.spec_inverted().spec_inverted().data =~= p.data);
}

/// Inverting a BGRA pixel twice gives back the pixel.
pub proof fn lemma_bgra_invert_involution<T: Primitive>(p: Bgra<T>)
    requires
        p.spec_can_invert(),
    ensures
        p.spec_inverted().spec_can_invert(),
        p.spec_inverted().spec_inverted() == p,
{
    lemma_invert_channel(p.data[0]);
    lemma_invert_channel(p.data[1]);
    lemma_invert_channel(p.data[2]);
    assert(p.spec_inverted().spec_inverted().data =~= p.data);
}

/// Inverting a grayscale pixel with alpha twice gives back the pixel.
pub proof fn lemma_luma_a_invert_involution<T: Primitive>(p: LumaA<T>)
    requires
        p.spec_can_invert(),
    ensures
        p.spec_inverted().spec_can_invert(),
        p.spec_inverted().spec_inverted() == p,
{
    lemma_invert_channel(p.data[0]);
    assert(p.spec_inverted().spec_inverted().data =~= p.data);
}

// ---------------------------------------------------------------------------
// Converting to a type that keeps every channel and back gives back the pixel.
// ---------------------------------------------------------------------------

/// An RGB pixel converted to BGR, RGBA or BGRA and back is unchanged, and
/// the converted pixels with alpha are opaque.
pub proof fn lemma_rgb_round_trips<T: Primitive>(p: Rgb<T>)
    ensures
        <Rgb<T> as FromColor<Bgr<T>>>::spec_from_color(
            <Bgr<T> as FromColor<Rgb<T>>>::spec_from_color(p),
        ) == p,
        <Rgb<T> as FromColor<Rgba<T>>>::spec_from_color(
            <Rgba<T> as FromColor<Rgb<T>>>::spec_from_color(p),
        ) == p,
        <Rgb<T> as FromColor<Bgra<T>>>::spec_from_color(
            <Bgra<T> as FromColor<Rgb<T>>>::spec_from_color(p),
        ) == p,
        <Rgba<T> as FromColor<Rgb<T>>>::spec_from_color(p).data[3] == T::spec_max_value(),
        <Bgra<T> as FromColor<Rgb<T>>>::spec_from_color(p).data[3] == T::spec_max_value(),
{
    assert(<Rgb<T> as FromColor<Bgr<T>>>::spec_from_color(
        <Bgr<T> as FromColor<Rgb<T>>>::spec_from_color(p),
    ).data =~= p.data);
    assert(<Rgb<T> as FromColor<Rgba<T>>>::spec_from_color(
        <Rgba<T> as FromColor<Rgb<T>>>::spec_from_color(p),
    ).data =~= p.data);
    assert(<Rgb<T> as FromColor<Bgra<T>>>::spec_from_color(
        <Bgra<T> as FromColor<Rgb<T>>>::spec_from_color(p),
    ).data =~= p.data);
}

/// A BGR pixel converted to RGB, RGBA or BGRA and back is unchanged, and
/// the converted pixels with alpha are opaque.
pub proof fn lemma_bgr_round_trips<T: Primitive>(p: Bgr<T>)
    ensures
        <Bgr<T> as FromColor<Rgb<T>>>::spec_from_color(
            <Rgb<T> as FromColor<Bgr<T>>>::spec_from_color(p),
        ) == p,
        <Bgr<T> as FromColor<Rgba<T>>>::spec_from_color(
            <Rgba<T> as FromColor<Bgr<T>>>::spec_from_color(p),
        ) == p,
        <Bgr<T> as FromColor<Bgra<T>>>::spec_from_color(
            <Bgra<T> as FromColor<Bgr<T>>>::spec_from_color(p),
        ) == p,
        <Rgba<T> as FromColor<Bgr<T>>>::spec_from_color(p).data[3] == T::spec_max_value(),
        <Bgra<T> as FromColor<Bgr<T>>>::spec_from_color(p).data[3] == T::spec_max_value(),
{
    assert(<Bgr<T> as FromColor<Rgb<T>>>::spec_from_color(
        <Rgb<T> as FromColor<Bgr<T>>>::spec_from_color(p),
    ).data =~= p.data);
    assert(<Bgr<T> as FromColor<Rgba<T>>>::spec_from_color(
        <Rgba<T> as FromColor<Bgr<T>>>::spec_from_color(p),
    ).data =~= p.data);
    assert(<Bgr<T> as FromColor<Bgra<T>>>::spec_from_color(
        <Bgra<T> as FromColor<Bgr<T>>>::spec_from_color(p),
    ).data =~= p.data);
}

/// An RGBA pixel converted to BGRA and back is unchanged; converted to RGB
/// and back it keeps its colors and becomes opaque.
pub proof fn lemma_rgba_round_trips<T: Primitive>(p: Rgba<T>)
    ensures
        <Rgba<T> as FromColor<Bgra<T>>>::spec_from_color(
            <Bgra<T> as FromColor<Rgba<T>>>::spec_from_color(p),
        ) == p,
        <Rgba<T> as FromColor<Rgb<T>>>::spec_from_color(
            <Rgb<T> as FromColor<Rgba<T>>>::spec_from_color(p),
        ) == (Rgba { data: [p.data[0], p.data[1], p.data[2], T::spec_max_value()] }),
{
    assert(<Rgba<T> as FromColor<Bgra<T>>>::spec_from_color(
        <Bgra<T> as FromColor<Rgba<T>>>::spec_from_color(p),
    ).data =~= p.data);
    assert(<Rgba<T> as FromColor<Rgb<T>>>::spec_from_color(
        <Rgb<T> as FromColor<Rgba<T>>>::spec_from_color(p),
    ).data =~= [p.data[0], p.data[1], p.data[2], T::spec_max_value()]);
}

/// A BGRA pixel converted to RGBA and back is unchanged; converted to BGR
/// and back it keeps its colors and becomes opaque.
pub proof fn lemma_bgra_round_trips<T: Primitive>(p: Bgra<T>)
    ensures
        <Bgra<T> as FromColor<Rgba<T>>>::spec_from_color(
            <Rgba<T> as FromColor<Bgra<T>>>::spec_from_color(p),
        ) == p,
        <Bgra<T> as FromColor<Bgr<T>>>::spec_from_color(
            <Bgr<T> as FromColor<Bgra<T>>>::spec_from_color(p),
        ) == (Bgra { data: [p.data[0], p.data[1], p.data[2], T::spec_max_value()] }),
{
    assert(<Bgra<T> as FromColor<Rgba<T>>>::spec_from_color(
        <Rgba<T> as FromColor<Bgra<T>>>::spec_from_color(p),
    ).data =~= p.data);
    assert(<Bgra<T> as FromColor<Bgr<T>>>::spec_from_color(
        <Bgr<T> as FromColor<Bgra<T>>>::spec_from_color(p),
    ).data =~= [p.data[0], p.data[1], p.data[2], T::spec_max_value()]);
}

/// A grayscale pixel converted to grayscale with alpha and back is
/// unchanged, and the converted pixel is opaque; a gray pixel converted to
/// any color type has all three colors equal to its gray level.
pub proof fn lemma_luma_round_trips<T: Primitive>(p: Luma<T>)
    ensures
        <Luma<T> as FromColor<LumaA<T>>>::spec_from_color(
            <LumaA<T> as FromColor<Luma<T>>>::spec_from_color(p),
        ) == p,
        <LumaA<T> as FromColor<Luma<T>>>::spec_from_color(p).data[1] == T::spec_max_value(),
        <Rgb<T> as FromColor<Luma<T>>>::spec_from_color(p).data@ == seq![p.data[0], p.data[0], p.data[0]],
        <Bgr<T> as FromColor<Luma<T>>>::spec_from_color(p).data@ == seq![p.data[0], p.data[0], p.data[0]],
        <Rgba<T> as FromColor<Luma<T>>>::spec_from_color(p).data@
            == seq![p.data[0], p.data[0], p.data[0], T::spec_max_value()],
        <Bgra<T> as FromColor<Luma<T>>>::spec_from_color(p).data@
            == seq![p.data[0], p.data[0], p.data[0], T::spec_max_value()],
{
    assert(<Luma<T> as FromColor<LumaA<T>>>::spec_from_color(
        <LumaA<T> as FromColor<Luma<T>>>::spec_from_color(p),
    ).data =~= p.data);
}

// ---------------------------------------------------------------------------
// Inverting commutes with converting.
// ---------------------------------------------------------------------------

/// Inverting an RGB pixel and then converting it to BGR, RGBA or BGRA gives
/// what converting it first and then inverting gives.
pub proof fn lemma_rgb_invert_commutes<T: Primitive>(p: Rgb<T>)
    requires
        p.spec_can_invert(),
    ensures
        <Bgr<T> as FromColor<Rgb<T>>>::spec_from_color(p).spec_can_invert(),
        <Bgr<T> as FromColor<Rgb<T>>>::spec_from_color(p.spec_inverted())
            == <Bgr<T> as FromColor<Rgb<T>>>::spec_from_color(p).spec_inverted(),
        <Rgba<T> as FromColor<Rgb<T>>>::spec_from_color(p).spec_can_invert(),
        <Rgba<T> as FromColor<Rgb<T>>>::spec_from_color(p.spec_inverted())
            == <Rgba<T> as FromColor<Rgb<T>>>::spec_from_color(p).spec_inverted(),
        <Bgra<T> as FromColor<Rgb<T>>>::spec_from_color(p).spec_can_invert(),
        <Bgra<T> as FromColor<Rgb<T>>>::spec_from_color(p.spec_inverted())
            == <Bgra<T> as FromColor<Rgb<T>>>::spec_from_color(p).spec_inverted(),
{
    assert(<Bgr<T> as FromColor<Rgb<T>>>::spec_from_color(p.spec_inverted()).data
        =~= <Bgr<T> as FromColor<Rgb<T>>>::spec_from_color(p).spec_inverted().data);
    assert(<Rgba<T> as FromColor<Rgb<T>>>::spec_from_color(p.spec_inverted()).data
        =~= <Rgba<T> as FromColor<Rgb<T>>>::spec_from_color(p).spec_inverted().data);
    assert(<Bgra<T> as FromColor<Rgb<T>>>::spec_from_color(p.spec_inverted()).data
        =~= <Bgra<T> as FromColor<Rgb<T>>>::spec_from_color(p).spec_inverted().data);
}

/// Inverting a grayscale pixel and then converting it gives what
/// converting it first and then inverting gives, for every target type.
pub proof fn lemma_luma_invert_commutes<T: Primitive>(p: Luma<T>)
    requires
        p.spec_can_invert(),
    ensures
        <LumaA<T> as FromColor<Luma<T>>>::spec_from_color(p.spec_inverted())
            == <LumaA<T> as FromColor<Luma<T>>>::spec_from_color(p).spec_inverted(),
        <Rgb<T> as FromColor<Luma<T>>>::spec_from_color(p.spec_inverted())
            == <Rgb<T> as FromColor<Luma<T>>>::spec_from_color(p).spec_inverted(),
        <Bgr<T> as FromColor<Luma<T>>>::spec_from_color(p.spec_inverted())
            == <Bgr<T> as FromColor<Luma<T>>>::spec_from_color(p).spec_inverted(),
        <Rgba<T> as FromColor<Luma<T>>>::spec_from_color(p.spec_inverted())
            == <Rgba<T> as FromColor<Luma<T>>>::spec_from_color(p).spec_inverted(),
        <Bgra<T> as FromColor<Luma<T>>>::spec_from_color(p.spec_inverted())
            == <Bgra<T> as FromColor<Luma<T>>>::spec_from_color(p).spec_inverted(),
{
    assert(<LumaA<T> as FromColor<Luma<T>>>::spec_from_color(p.spec_inverted()).data
        =~= <LumaA<T> as FromColor<Luma<T>>>::spec_from_color(p).spec_inverted().data);
    assert(<Rgb<T> as FromColor<Luma<T>>>::spec_from_color(p.spec_inverted()).data
        =~= <Rgb<T> as FromColor<Luma<T>>>::spec_from_color(p).spec_inverted().data);
    assert(<Bgr<T> as FromColor<Luma<T>>>::spec_from_color(p.spec_inverted()).data
        =~= <Bgr<T> as FromColor<Luma<T>>>::spec_from_color(p).spec_inverted().data);
    assert(<Rgba<T> as FromColor<Luma<T>>>::spec_from_color(p.spec_inverted()).data
        =~= <Rgba<T> as FromColor<Luma<T>>>::spec_from_color(p).spec_inverted().data);
    assert(<Bgra<T> as FromColor<Luma<T>>>::spec_from_color(p.spec_inverted()).data
        =~= <Bgra<T> as FromColor<Luma<T>>>::spec_from_color(p).spec_inverted().data);
}

// ---------------------------------------------------------------------------
// Channels as a 4-tuple.
// ---------------------------------------------------------------------------

/// The four channels that `channels4` returns give back the pixel's
/// channels through `from_channels`.
pub proof fn lemma_channels4_from_channels<P: Pixel>(p: P)
    ensures
        ({
            let c = padded4(p.spec_channels());
            seq![c.0, c.1, c.2, c.3].take(P::spec_channel_count() as int) == p.spec_channels()
        }),
{
    P::lemma_pixel(p);
    let c = padded4(p.spec_channels());
    assert(seq![c.0, c.1, c.2, c.3].take(P::spec_channel_count() as int) =~= p.spec_channels());
}

// ---------------------------------------------------------------------------
// What the channels of each pixel type mean.
// ---------------------------------------------------------------------------

/// The color that a pixel stands for: its red, green, blue and alpha, read
/// from the channels by what each channel of its type means.  A pixel type
/// without an alpha channel is opaque: its alpha is the greatest value.
pub trait ColorMeaning<T: Primitive> {
    /// Red, green, blue and alpha.
    spec fn rgba_meaning(self) -> (T, T, T, T);
}

/// The same color, made opaque.
pub open spec fn opaque<T: Primitive>(c: (T, T, T, T)) -> (T, T, T, T) {
    (c.0, c.1, c.2, T::spec_max_value())
}

/// The channels of a `Rgb` pixel are red, green, blue; opaque.
impl<T: Primitive> ColorMeaning<T> for Rgb<T> {
    open spec fn rgba_meaning(self) -> (T, T, T, T) {
        let p = self;
        (p.data[0], p.data[1], p.data[2], T::spec_max_value())
    }
}

/// The channels of a `Bgr` pixel are blue, green, red; opaque.
impl<T: Primitive> ColorMeaning<T> for Bgr<T> {
    open spec fn rgba_meaning(self) -> (T, T, T, T) {
        let p = self;
        (p.data[2], p.data[1], p.data[0], T::spec_max_value())
    }
}

/// The channels of a `Rgba` pixel are red, green, blue, alpha.
impl<T: Primitive> ColorMeaning<T> for Rgba<T> {
    open spec fn rgba_meaning(self) -> (T, T, T, T) {
        let p = self;
        (p.data[0], p.data[1], p.data[2], p.data[3])
    }
}

/// The channels of a `Bgra` pixel are blue, green, red, alpha.
impl<T: Primitive> ColorMeaning<T> for Bgra<T> {
    open spec fn rgba_meaning(self) -> (T, T, T, T) {
        let p = self;
        (p.data[2], p.data[1], p.data[0], p.data[3])
    }
}

/// The channels of a `Luma` pixel are one gray level, standing for equal red, green and blue; opaque.
impl<T: Primitive> ColorMeaning<T> for Luma<T> {
    open spec fn rgba_meaning(self) -> (T, T, T, T) {
        let p = self;
        (p.data[0], p.data[0], p.data[0], T::spec_max_value())
    }
}

/// The channels of a `LumaA` pixel are one gray level, standing for equal red, green and blue, then alpha.
impl<T: Primitive> ColorMeaning<T> for LumaA<T> {
    open spec fn rgba_meaning(self) -> (T, T, T, T) {
        let p = self;
        (p.data[0], p.data[0], p.data[0], p.data[1])
    }
}

// ---------------------------------------------------------------------------
// Conversions keep the color.
// ---------------------------------------------------------------------------

/// Converting a `Rgb` pixel, with `from_color` or with the `to_*` methods of
/// `Pixel`, keeps its red, green and blue; a target with an alpha channel
/// also keeps its alpha, and one without is opaque.
pub proof fn lemma_rgb_conversions_keep_color<T: Primitive>(p: Rgb<T>)
    ensures
        <Rgb<T> as FromColor<Rgb<T>>>::spec_from_color(p).rgba_meaning() == opaque(p.rgba_meaning()),
        <Bgr<T> as FromColor<Rgb<T>>>::spec_from_color(p).rgba_meaning() == opaque(p.rgba_meaning()),
        <Rgba<T> as FromColor<Rgb<T>>>::spec_from_color(p).rgba_meaning() == p.rgba_meaning(),
        <Bgra<T> as FromColor<Rgb<T>>>::spec_from_color(p).rgba_meaning() == p.rgba_meaning(),
        p.spec_to_rgb().rgba_meaning() == opaque(p.rgba_meaning()),
        p.spec_to_bgr().rgba_meaning() == opaque(p.rgba_meaning()),
        p.spec_to_rgba().rgba_meaning() == p.rgba_meaning(),
        p.spec_to_bgra().rgba_meaning() == p.rgba_meaning(),
{
}

/// Converting a `Bgr` pixel, with `from_color` or with the `to_*` methods of
/// `Pixel`, keeps its red, green and blue; a target with an alpha channel
/// also keeps its alpha, and one without is opaque.
pub proof fn lemma_bgr_conversions_keep_color<T: Primitive>(p: Bgr<T>)
    ensures
        <Rgb<T> as FromColor<Bgr<T>>>::spec_from_color(p).rgba_meaning() == opaque(p.rgba_meaning()),
        <Bgr<T> as FromColor<Bgr<T>>>::spec_from_color(p).rgba_meaning() == opaque(p.rgba_meaning()),
        <Rgba<T> as FromColor<Bgr<T>>>::spec_from_color(p).rgba_meaning() == p.rgba_meaning(),
        <Bgra<T> as FromColor<Bgr<T>>>::spec_from_color(p).rgba_meaning() == p.rgba_meaning(),
        p.spec_to_rgb().rgba_meaning() == opaque(p.rgba_meaning()),
        p.spec_to_bgr().rgba_meaning() == opaque(p.rgba_meaning()),
        p.spec_to_rgba().rgba_meaning() == p.rgba_meaning(),
        p.spec_to_bgra().rgba_meaning() == p.rgba_meaning(),
{
}

/// Converting a `Rgba` pixel, with `from_color` or with the `to_*` methods of
/// `Pixel`, keeps its red, green and blue; a target with an alpha channel
/// also keeps its alpha, and one without is opaque.
pub proof fn lemma_rgba_conversions_keep_color<T: Primitive>(p: Rgba<T>)
    ensures
        <Rgb<T> as FromColor<Rgba<T>>>::spec_from_color(p).rgba_meaning() == opaque(p.rgba_meaning()),
        <Bgr<T> as FromColor<Rgba<T>>>::spec_from_color(p).rgba_meaning() == opaque(p.rgba_meaning()),
        <Rgba<T> as FromColor<Rgba<T>>>::spec_from_color(p).rgba_meaning() == p.rgba_meaning(),
        <Bgra<T> as FromColor<Rgba<T>>>::spec_from_color(p).rgba_meaning() == p.rgba_meaning(),
        p.spec_to_rgb().rgba_meaning() == opaque(p.rgba_meaning()),
        p.spec_to_bgr().rgba_meaning() == opaque(p.rgba_meaning()),
        p.spec_to_rgba().rgba_meaning() == p.rgba_meaning(),
        p.spec_to_bgra().rgba_meaning() == p.rgba_meaning(),
{
}

/// Converting a `Bgra` pixel, with `from_color` or with the `to_*` methods of
/// `Pixel`, keeps its red, green and blue; a target with an alpha channel
/// also keeps its alpha, and one without is opaque.
pub proof fn lemma_bgra_conversions_keep_color<T: Primitive>(p: Bgra<T>)
    ensures
        <Rgb<T> as FromColor<Bgra<T>>>::spec_from_color(p).rgba_meaning() == opaque(p.rgba_meaning()),
        <Bgr<T> as FromColor<Bgra<T>>>::spec_from_color(p).rgba_meaning() == opaque(p.rgba_meaning()),
        <Rgba<T> as FromColor<Bgra<T>>>::spec_from_color(p).rgba_meaning() == p.rgba_meaning(),
        <Bgra<T> as FromColor<Bgra<T>>>::spec_from_color(p).rgba_meaning() == p.rgba_meaning(),
        p.spec_to_rgb().rgba_meaning() == opaque(p.rgba_meaning()),
        p.spec_to_bgr().rgba_meaning() == opaque(p.rgba_meaning()),
        p.spec_to_rgba().rgba_meaning() == p.rgba_meaning(),
        p.spec_to_bgra().rgba_meaning() == p.rgba_meaning(),
{
}

/// Converting a `Luma` pixel, with `from_color` or with the `to_*` methods of
/// `Pixel`, keeps its red, green and blue; a target with an alpha channel
/// also keeps its alpha, and one without is opaque.
pub proof fn lemma_luma_conversions_keep_color<T: Primitive>(p: Luma<T>)
    ensures
        <Rgb<T> as FromColor<Luma<T>>>::spec_from_color(p).rgba_meaning() == opaque(p.rgba_meaning()),
        <Bgr<T> as FromColor<Luma<T>>>::spec_from_color(p).rgba_meaning() == opaque(p.rgba_meaning()),
        <Rgba<T> as FromColor<Luma<T>>>::spec_from_color(p).rgba_meaning() == p.rgba_meaning(),
        <Bgra<T> as FromColor<Luma<T>>>::spec_from_color(p).rgba_meaning() == p.rgba_meaning(),
        <Luma<T> as FromColor<Luma<T>>>::spec_from_color(p).rgba_meaning() == opaque(p.rgba_meaning()),
        <LumaA<T> as FromColor<Luma<T>>>::spec_from_color(p).rgba_meaning() == p.rgba_meaning(),
        p.spec_to_rgb().rgba_meaning() == opaque(p.rgba_meaning()),
        p.spec_to_bgr().rgba_meaning() == opaque(p.rgba_meaning()),
        p.spec_to_rgba().rgba_meaning() == p.rgba_meaning(),
        p.spec_to_bgra().rgba_meaning() == p.rgba_meaning(),
{
}

/// Converting a `LumaA` pixel, with `from_color` or with the `to_*` methods of
/// `Pixel`, keeps its red, green and blue; a target with an alpha channel
/// also keeps its alpha, and one without is opaque.
pub proof fn lemma_luma_a_conversions_keep_color<T: Primitive>(p: LumaA<T>)
    ensures
        <Rgb<T> as FromColor<LumaA<T>>>::spec_from_color(p).rgba_meaning() == opaque(p.rgba_meaning()),
        <Bgr<T> as FromColor<LumaA<T>>>::spec_from_color(p).rgba_meaning() == opaque(p.rgba_meaning()),
        <Rgba<T> as FromColor<LumaA<T>>>::spec_from_color(p).rgba_meaning() == p.rgba_meaning(),
        <Bgra<T> as FromColor<LumaA<T>>>::spec_from_color(p).rgba_meaning() == p.rgba_meaning(),
        <Luma<T> as FromColor<LumaA<T>>>::spec_from_color(p).rgba_meaning() == opaque(p.rgba_meaning()),
        <LumaA<T> as FromColor<LumaA<T>>>::spec_from_color(p).rgba_meaning() == p.rgba_meaning(),
        p.spec_to_rgb().rgba_meaning() == opaque(p.rgba_meaning()),
        p.spec_to_bgr().rgba_meaning() == opaque(p.rgba_meaning()),
        p.spec_to_rgba().rgba_meaning() == p.rgba_meaning(),
        p.spec_to_bgra().rgba_meaning() == p.rgba_meaning(),
{
}

// ---------------------------------------------------------------------------
// Inverting replaces each color by the greatest value less it.
// ---------------------------------------------------------------------------

/// A `Rgb` pixel can be inverted exactly when its red, green and blue are not
/// negative; inverting replaces each of them by the greatest channel value
/// less it and keeps the alpha.
pub proof fn lemma_rgb_invert_each_color<T: Primitive>(p: Rgb<T>)
    ensures
        p.spec_can_invert() <==> (p.rgba_meaning().0.spec_int() >= 0
            && p.rgba_meaning().1.spec_int() >= 0 && p.rgba_meaning().2.spec_int() >= 0),
        p.spec_can_invert() ==> ({
            let c = p.rgba_meaning();
            let d = p.spec_inverted().rgba_meaning();
            &&& d.0.spec_int() == T::spec_max() - c.0.spec_int()
            &&& d.1.spec_int() == T::spec_max() - c.1.spec_int()
            &&& d.2.spec_int() == T::spec_max() - c.2.spec_int()
            &&& d.3 == c.3
        }),
{
    lemma_invert_channel(p.data[0]);
    lemma_invert_channel(p.data[1]);
    lemma_invert_channel(p.data[2]);
}

/// A `Bgr` pixel can be inverted exactly when its red, green and blue are not
/// negative; inverting replaces each of them by the greatest channel value
/// less it and keeps the alpha.
pub proof fn lemma_bgr_invert_each_color<T: Primitive>(p: Bgr<T>)
    ensures
        p.spec_can_invert() <==> (p.rgba_meaning().0.spec_int() >= 0
            && p.rgba_meaning().1.spec_int() >= 0 && p.rgba_meaning().2.spec_int() >= 0),
        p.spec_can_invert() ==> ({
            let c = p.rgba_meaning();
            let d = p.spec_inverted().rgba_meaning();
            &&& d.0.spec_int() == T::spec_max() - c.0.spec_int()
            &&& d.1.spec_int() == T::spec_max() - c.1.spec_int()
            &&& d.2.spec_int() == T::spec_max() - c.2.spec_int()
            &&& d.3 == c.3
        }),
{
    lemma_invert_channel(p.data[0]);
    lemma_invert_channel(p.data[1]);
    lemma_invert_channel(p.data[2]);
}

/// A `Rgba` pixel can be inverted exactly when its red, green and blue are not
/// negative; inverting replaces each of them by the greatest channel value
/// less it and keeps the alpha.
pub proof fn lemma_rgba_invert_each_color<T: Primitive>(p: Rgba<T>)
    ensures
        p.spec_can_invert() <==> (p.rgba_meaning().0.spec_int() >= 0
            && p.rgba_meaning().1.spec_int() >= 0 && p.rgba_meaning().2.spec_int() >= 0),
        p.spec_can_invert() ==> ({
            let c = p.rgba_meaning();
            let d = p.spec_inverted().rgba_meaning();
            &&& d.0.spec_int() == T::spec_max() - c.0.spec_int()
            &&& d.1.spec_int() == T::spec_max() - c.1.spec_int()
            &&& d.2.spec_int() == T::spec_max() - c.2.spec_int()
            &&& d.3 == c.3
        }),
{
    lemma_invert_channel(p.data[0]);
    lemma_invert_channel(p.data[1]);
    lemma_invert_channel(p.data[2]);
}

/// A `Bgra` pixel can be inverted exactly when its red, green and blue are not
/// negative; inverting replaces each of them by the greatest channel value
/// less it and keeps the alpha.
pub proof fn lemma_bgra_invert_each_color<T: Primitive>(p: Bgra<T>)
    ensures
        p.spec_can_invert() <==> (p.rgba_meaning().0.spec_int() >= 0
            && p.rgba_meaning().1.spec_int() >= 0 && p.rgba_meaning().2.spec_int() >= 0),
        p.spec_can_invert() ==> ({
            let c = p.rgba_meaning();
            let d = p.spec_inverted().rgba_meaning();
            &&& d.0.spec_int() == T::spec_max() - c.0.spec_int()
            &&& d.1.spec_int() == T::spec_max() - c.1.spec_int()
            &&& d.2.spec_int() == T::spec_max() - c.2.spec_int()
            &&& d.3 == c.3
        }),
{
    lemma_invert_channel(p.data[0]);
    lemma_invert_channel(p.data[1]);
    lemma_invert_channel(p.data[2]);
}

/// A `Luma` pixel can be inverted exactly when its red, green and blue are not
/// negative; inverting replaces each of them by the greatest channel value
/// less it and keeps the alpha.
pub proof fn lemma_luma_invert_each_color<T: Primitive>(p: Luma<T>)
    ensures
        p.spec_can_invert() <==> (p.rgba_meaning().0.spec_int() >= 0
            && p.rgba_meaning().1.spec_int() >= 0 && p.rgba_meaning().2.spec_int() >= 0),
        p.spec_can_invert() ==> ({
            let c = p.rgba_meaning();
            let d = p.spec_inverted().rgba_meaning();
            &&& d.0.spec_int() == T::spec_max() - c.0.spec_int()
            &&& d.1.spec_int() == T::spec_max() - c.1.spec_int()
            &&& d.2.spec_int() == T::spec_max() - c.2.spec_int()
            &&& d.3 == c.3
        }),
{
    lemma_invert_channel(p.data[0]);
    lemma_invert_channel(p.data[0]);
    lemma_invert_channel(p.data[0]);
}

/// A `LumaA` pixel can be inverted exactly when its red, green and blue are not
/// negative; inverting replaces each of them by the greatest channel value
/// less it and keeps the alpha.
pub proof fn lemma_luma_a_invert_each_color<T: Primitive>(p: LumaA<T>)
    ensures
        p.spec_can_invert() <==> (p.rgba_meaning().0.spec_int() >= 0
            && p.rgba_meaning().1.spec_int() >= 0 && p.rgba_meaning().2.spec_int() >= 0),
        p.spec_can_invert() ==> ({
            let c = p.rgba_meaning();
            let d = p.spec_inverted().rgba_meaning();
            &&& d.0.spec_int() == T::spec_max() - c.0.spec_int()
            &&& d.1.spec_int() == T::spec_max() - c.1.spec_int()
            &&& d.2.spec_int() == T::spec_max() - c.2.spec_int()
            &&& d.3 == c.3
        }),
{
    lemma_invert_channel(p.data[0]);
    lemma_invert_channel(p.data[0]);
    lemma_invert_channel(p.data[0]);
}

// ---------------------------------------------------------------------------
// Blending opaque pixels.
// ---------------------------------------------------------------------------

/// A pixel without an alpha channel is opaque, so blending one over another
/// leaves exactly the one on top, whatever lay below, for every channel type.
pub proof fn lemma_blend_opaque_takes_top<T: Primitive>(
    a: Rgb<T>,
    b: Rgb<T>,
    c: Bgr<T>,
    d: Bgr<T>,
    e: Luma<T>,
    f: Luma<T>,
)
    ensures
        a.spec_blend(&b) == b,
        c.spec_blend(&d) == d,
        e.spec_blend(&f) == f,
{
}

// ---------------------------------------------------------------------------
// Color types: bits and channels.
// ---------------------------------------------------------------------------

/// The number of bits in each channel of color type `c`: `n` for `L(n)`
/// and `Palette(n)`, 16 for the types named "16-bit", and 8 for the other
/// types, which are named "8-bit".
pub open spec fn bits_per_channel(c: ColorType) -> nat {
    match c {
        ColorType::L(n) | ColorType::Palette(n) => n as nat,
        ColorType::LA16 | ColorType::RGB16 | ColorType::RGBA16 => 16,
        ColorType::LA | ColorType::RGB | ColorType::RGBA | ColorType::BGR | ColorType::BGRA => 8,
    }
}

/// The bits of a pixel are its channels' bits: the depth of one channel
/// times the number of channels; in particular a grayscale pixel `L(n)`
/// has exactly `n` bits, and every color type has one to four channels,
/// with an alpha channel for the types named with A.
pub proof fn lemma_bits_per_pixel_is_depth_times_channels(c: ColorType, n: u8)
    ensures
        spec_bits_per_pixel(c) == bits_per_channel(c) * spec_num_components(c),
        spec_bits_per_pixel(ColorType::L(n)) == n,
        spec_bits_per_pixel(ColorType::Palette(n)) == 3 * (n as nat),
        spec_num_components(ColorType::L(n)) == 1,
        spec_num_components(ColorType::Palette(n)) == 3,
        spec_num_components(ColorType::LA) == 2 && spec_num_components(ColorType::LA16) == 2,
        spec_num_components(ColorType::RGB) == 3 && spec_num_components(ColorType::BGR) == 3,
        spec_num_components(ColorType::RGB16) == 3,
        spec_num_components(ColorType::RGBA) == 4 && spec_num_components(ColorType::BGRA) == 4,
        spec_num_components(ColorType::RGBA16) == 4,
{
    let d = bits_per_channel(c) as int;
    let m = spec_num_components(c) as int;
    assert(spec_bits_per_pixel(c) == d * m);
}

/// The color type that a pixel type reports describes it: as many
/// components as the pixel has channels, eight bits per byte of the channel
/// type in each, and the color type named after the pixel type.
pub proof fn lemma_color_type_describes_pixel<T: Primitive>()
    requires
        vstd::layout::size_of::<T>() < 32,
    ensures
        Rgb::<T>::spec_color_type_defined() ==> Rgb::<T>::spec_color_type() == ColorType::RGB,
        Bgr::<T>::spec_color_type_defined() ==> Bgr::<T>::spec_color_type() == ColorType::BGR,
        Rgba::<T>::spec_color_type_defined() ==> Rgba::<T>::spec_color_type() == ColorType::RGBA,
        Bgra::<T>::spec_color_type_defined() ==> Bgra::<T>::spec_color_type() == ColorType::BGRA,
        LumaA::<T>::spec_color_type_defined() ==> LumaA::<T>::spec_color_type() == ColorType::LA,
        Luma::<T>::spec_color_type_defined() ==> Luma::<T>::spec_color_type() == ColorType::L(
            (8 * vstd::layout::size_of::<T>()) as u8,
        ),
        Rgb::<T>::spec_color_type_defined() ==> spec_num_components(Rgb::<T>::spec_color_type())
            == Rgb::<T>::spec_channel_count() && spec_bits_per_pixel(Rgb::<T>::spec_color_type())
            == 8 * vstd::layout::size_of::<T>() * Rgb::<T>::spec_channel_count(),
        Bgr::<T>::spec_color_type_defined() ==> spec_num_components(Bgr::<T>::spec_color_type())
            == Bgr::<T>::spec_channel_count() && spec_bits_per_pixel(Bgr::<T>::spec_color_type())
            == 8 * vstd::layout::size_of::<T>() * Bgr::<T>::spec_channel_count(),
        Rgba::<T>::spec_color_type_defined() ==> spec_num_components(Rgba::<T>::spec_color_type())
            == Rgba::<T>::spec_channel_count() && spec_bits_per_pixel(Rgba::<T>::spec_color_type())
            == 8 * vstd::layout::size_of::<T>() * Rgba::<T>::spec_channel_count(),
        Bgra::<T>::spec_color_type_defined() ==> spec_num_components(Bgra::<T>::spec_color_type())
            == Bgra::<T>::spec_channel_count() && spec_bits_per_pixel(Bgra::<T>::spec_color_type())
            == 8 * vstd::layout::size_of::<T>() * Bgra::<T>::spec_channel_count(),
        LumaA::<T>::spec_color_type_defined() ==> spec_num_components(LumaA::<T>::spec_color_type())
            == LumaA::<T>::spec_channel_count() && spec_bits_per_pixel(LumaA::<T>::spec_color_type())
            == 8 * vstd::layout::size_of::<T>() * LumaA::<T>::spec_channel_count(),
        Luma::<T>::spec_color_type_defined() ==> spec_num_components(Luma::<T>::spec_color_type())
            == Luma::<T>::spec_channel_count() && spec_bits_per_pixel(Luma::<T>::spec_color_type())
            == 8 * vstd::layout::size_of::<T>() * Luma::<T>::spec_channel_count(),
{
    let n = vstd::layout::size_of::<T>();
    if n == 1 {
        assert(8 * n * 3 == 24);
        assert(8 * n * 4 == 32);
        assert(8 * n * 2 == 16);
    }
    assert(8 * n * 1 == 8 * n);
}

/// The color model names the channels in the order in which they are
/// stored, one letter per channel: R, G, B for red, green, blue, Y for a
/// gray level and A for alpha.
pub proof fn lemma_color_model_names_channels<T: Primitive>()
    ensures
        Rgb::<T>::spec_color_model() == seq!['R', 'G', 'B'],
        Bgr::<T>::spec_color_model() == seq!['B', 'G', 'R'],
        Rgba::<T>::spec_color_model() == seq!['R', 'G', 'B', 'A'],
        Bgra::<T>::spec_color_model() == seq!['B', 'G', 'R', 'A'],
        Luma::<T>::spec_color_model() == seq!['Y'],
        LumaA::<T>::spec_color_model() == seq!['Y', 'A'],
{
    reveal_strlit("RGB");
    reveal_strlit("BGR");
    reveal_strlit("RGBA");
    reveal_strlit("BGRA");
    reveal_strlit("Y");
    reveal_strlit("YA");
}

// ---------------------------------------------------------------------------
// Channel types.
// ---------------------------------------------------------------------------

/// Each channel type stands for its own integer values, from its least to
/// its greatest, and subtracts as integers do.
pub proof fn lemma_primitive_types_are_their_integers(
    a: u8, b: u16, c: u32, d: u64, e: usize, f: i8, g: i16, h: i32, i: i64, j: isize,
)
    ensures
        a.spec_int() == a as int && <u8 as Primitive>::spec_min() == 0
            && <u8 as Primitive>::spec_max() == u8::MAX,
        b.spec_int() == b as int && <u16 as Primitive>::spec_min() == 0
            && <u16 as Primitive>::spec_max() == u16::MAX,
        c.spec_int() == c as int && <u32 as Primitive>::spec_min() == 0
            && <u32 as Primitive>::spec_max() == u32::MAX,
        d.spec_int() == d as int && <u64 as Primitive>::spec_min() == 0
            && <u64 as Primitive>::spec_max() == u64::MAX,
        e.spec_int() == e as int && <usize as Primitive>::spec_min() == 0
            && <usize as Primitive>::spec_max() == usize::MAX,
        f.spec_int() == f as int && <i8 as Primitive>::spec_min() == i8::MIN
            && <i8 as Primitive>::spec_max() == i8::MAX,
        g.spec_int() == g as int && <i16 as Primitive>::spec_min() == i16::MIN
            && <i16 as Primitive>::spec_max() == i16::MAX,
        h.spec_int() == h as int && <i32 as Primitive>::spec_min() == i32::MIN
            && <i32 as Primitive>::spec_max() == i32::MAX,
        i.spec_int() == i as int && <i64 as Primitive>::spec_min() == i64::MIN
            && <i64 as Primitive>::spec_max() == i64::MAX,
        j.spec_int() == j as int && <isize as Primitive>::spec_min() == isize::MIN
            && <isize as Primitive>::spec_max() == isize::MAX,
{
}

// ---------------------------------------------------------------------------
// The layout of each pixel type.
// ---------------------------------------------------------------------------

/// A `Rgb` pixel has 3 channel(s), stored in its array in order, of
/// which none is an alpha channel.
pub proof fn lemma_rgb_layout<T: Primitive>(p: Rgb<T>)
    ensures
        p.spec_channels() == p.data@,
        p.spec_channels().len() == 3,
        Rgb::<T>::spec_channel_count() == 3,
        Rgb::<T>::spec_alpha_count() == 0,
        p.rgba_meaning().3 == T::spec_max_value(),
{
}

/// A `Bgr` pixel has 3 channel(s), stored in its array in order, of
/// which none is an alpha channel.
pub proof fn lemma_bgr_layout<T: Primitive>(p: Bgr<T>)
    ensures
        p.spec_channels() == p.data@,
        p.spec_channels().len() == 3,
        Bgr::<T>::spec_channel_count() == 3,
        Bgr::<T>::spec_alpha_count() == 0,
        p.rgba_meaning().3 == T::spec_max_value(),
{
}

/// A `Rgba` pixel has 4 channel(s), stored in its array in order, of
/// which the last is its alpha.
pub proof fn lemma_rgba_layout<T: Primitive>(p: Rgba<T>)
    ensures
        p.spec_channels() == p.data@,
        p.spec_channels().len() == 4,
        Rgba::<T>::spec_channel_count() == 4,
        Rgba::<T>::spec_alpha_count() == 1,
        p.rgba_meaning().3 == p.spec_channels()[3],
{
}

/// A `Bgra` pixel has 4 channel(s), stored in its array in order, of
/// which the last is its alpha.
pub proof fn lemma_bgra_layout<T: Primitive>(p: Bgra<T>)
    ensures
        p.spec_channels() == p.data@,
        p.spec_channels().len() == 4,
        Bgra::<T>::spec_channel_count() == 4,
        Bgra::<T>::spec_alpha_count() == 1,
        p.rgba_meaning().3 == p.spec_channels()[3],
{
}

/// A `Luma` pixel has 1 channel(s), stored in its array in order, of
/// which none is an alpha channel.
pub proof fn lemma_luma_layout<T: Primitive>(p: Luma<T>)
    ensures
        p.spec_channels() == p.data@,
        p.spec_channels().len() == 1,
        Luma::<T>::spec_channel_count() == 1,
        Luma::<T>::spec_alpha_count() == 0,
        p.rgba_meaning().3 == T::spec_max_value(),
{
}

/// A `LumaA` pixel has 2 channel(s), stored in its array in order, of
/// which the last is its alpha.
pub proof fn lemma_luma_a_layout<T: Primitive>(p: LumaA<T>)
    ensures
        p.spec_channels() == p.data@,
        p.spec_channels().len() == 2,
        LumaA::<T>::spec_channel_count() == 2,
        LumaA::<T>::spec_alpha_count() == 1,
        p.rgba_meaning().3 == p.spec_channels()[1],
{
}

/// `channels4` pads a pixel with fewer than four channels with the greatest
/// channel value.
pub proof fn lemma_channels4_pads_with_max<P: Pixel>(p: P)
    ensures
        ({
            let c = padded4(p.spec_channels());
            &&& P::spec_channel_count() <= 1 ==> c.1 == P::Subpixel::spec_max_value()
            &&& P::spec_channel_count() <= 2 ==> c.2 == P::Subpixel::spec_max_value()
            &&& P::spec_channel_count() <= 3 ==> c.3 == P::Subpixel::spec_max_value()
            &&& c.0 == p.spec_channels()[0]
        }),
{
    P::lemma_pixel(p);
}

/// Mapping with a function that returns its argument gives back the
/// channels it was applied to.
pub proof fn lemma_map_identity<T, F: FnMut(T) -> T>(f: F, inp: Seq<T>, out: Seq<T>, lo: int, hi: int)
    requires
        forall|x: T, y: T| call_ensures(f, (x,), y) ==> y == x,
        mapped_on(f, inp, out, lo, hi),
    ensures
        forall|i: int| lo <= i < hi && 0 <= i < inp.len() ==> out[i] == inp[i],
{
    assert forall|i: int| lo <= i < hi && 0 <= i < inp.len() implies out[i] == inp[i] by {
        assert(call_ensures(f, (inp[i],), out[i]));
    }
}

/// Mapping two pixels with a function that returns its first argument gives
/// back the channels of the first.
pub proof fn lemma_map2_first<T, F: FnMut(T, T) -> T>(f: F, a: Seq<T>, b: Seq<T>, out: Seq<T>)
    requires
        forall|x: T, y: T, z: T| call_ensures(f, (x, y), z) ==> z == x,
        mapped2(f, a, b, out),
    ensures
        forall|i: int| 0 <= i < a.len() ==> out[i] == a[i],
{
    assert forall|i: int| 0 <= i < a.len() implies out[i] == a[i] by {
        assert(call_ensures(f, (a[i], b[i]), out[i]));
    }
}

} // verus!
