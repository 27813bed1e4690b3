use image_color::{
    bits_per_pixel, num_components, Bgr, Bgra, Blend, ColorType, FromColor, Invert, Luma, LumaA,
    Pixel, Primitive, Rgb, Rgba,
};

const ALL_COLOR_TYPES: [ColorType; 12] = [
    ColorType::Palette(8),
    ColorType::Palette(4),
    ColorType::L(8),
    ColorType::L(16),
    ColorType::LA,
    ColorType::RGB,
    ColorType::RGBA,
    ColorType::LA16,
    ColorType::RGB16,
    ColorType::RGBA16,
    ColorType::BGR,
    ColorType::BGRA,
];

#[test]
fn bits_per_pixel_of_each_color_type() {
    let expected: [usize; 12] = [24, 12, 8, 16, 16, 24, 32, 32, 48, 64, 24, 32];
    for (c, e) in ALL_COLOR_TYPES.iter().zip(expected.iter()) {
        assert_eq!(bits_per_pixel(*c), *e, "{:?}", c);
    }
    assert_eq!(bits_per_pixel(ColorType::Palette(255)), 765);
    assert_eq!(bits_per_pixel(ColorType::L(255)), 255);
}

#[test]
fn num_components_of_each_color_type() {
    let expected: [usize; 12] = [3, 3, 1, 1, 2, 3, 4, 2, 3, 4, 3, 4];
    for (c, e) in ALL_COLOR_TYPES.iter().zip(expected.iter()) {
        assert_eq!(num_components(*c), *e, "{:?}", c);
    }
}

#[test]
fn bits_divide_evenly_among_channels() {
    for c in ALL_COLOR_TYPES.iter() {
        assert_eq!(bits_per_pixel(*c) % num_components(*c), 0, "{:?}", c);
    }
}

#[test]
fn invert_each_pixel_type() {
    let mut p = Rgb([10u8, 20, 30]);
    Invert::invert(&mut p);
    assert_eq!(p, Rgb([245, 235, 225]));

    let mut p = Bgr([10u8, 20, 30]);
    Invert::invert(&mut p);
    assert_eq!(p, Bgr([245, 235, 225]));

    let mut p = Luma([0u16]);
    Invert::invert(&mut p);
    assert_eq!(p, Luma([u16::MAX]));

    let mut p = LumaA([200u8, 7]);
    Invert::invert(&mut p);
    assert_eq!(p, LumaA([55, 7]));

    let mut p = Rgba([10u8, 20, 30, 40]);
    Invert::invert(&mut p);
    assert_eq!(p, Rgba([245, 235, 225, 40]));
}

#[test]
fn invert_bgra_keeps_each_channel_in_its_slot() {
    let mut p = Bgra([10u8, 20, 30, 40]);
    Invert::invert(&mut p);
    assert_eq!(p, Bgra([245, 235, 225, 40]));

    let mut p = Bgra([0u8, 100, 200, 7]);
    Pixel::invert(&mut p);
    assert_eq!(p, Bgra([255, 155, 55, 7]));
}

#[test]
fn invert_signed_channels() {
    let mut p = Rgb([0i8, 27, 127]);
    Invert::invert(&mut p);
    assert_eq!(p, Rgb([127, 100, 0]));

    let mut p = Rgba([0i32, 0, 0, 0]);
    Pixel::invert(&mut p);
    assert_eq!(p, Rgba([i32::MAX, i32::MAX, i32::MAX, 0]));
}

#[test]
fn invert_twice_gives_back_the_pixel() {
    let original = Bgra([1u8, 2, 3, 4]);
    let mut p = original;
    Invert::invert(&mut p);
    Invert::invert(&mut p);
    assert_eq!(p, original);

    let original = LumaA([77u16, 9000]);
    let mut p = original;
    Invert::invert(&mut p);
    Invert::invert(&mut p);
    assert_eq!(p, original);
}

#[test]
fn from_color_into_luma_and_luma_alpha() {
    let mut l = Luma([0u8]);
    l.from_color(&LumaA([9u8, 3]));
    assert_eq!(l, Luma([9]));

    let mut la = LumaA([0u8, 0]);
    la.from_color(&Luma([9u8]));
    assert_eq!(la, LumaA([9, 255]));

    let mut l = Luma([0u8]);
    l.from_color(&Luma([42u8]));
    assert_eq!(l, Luma([42]));
}

#[test]
fn from_color_into_rgba() {
    let mut p = Rgba([0u8; 4]);
    p.from_color(&Rgb([1u8, 2, 3]));
    assert_eq!(p, Rgba([1, 2, 3, 255]));
    p.from_color(&Bgr([1u8, 2, 3]));
    assert_eq!(p, Rgba([3, 2, 1, 255]));
    p.from_color(&Bgra([1u8, 2, 3, 4]));
    assert_eq!(p, Rgba([3, 2, 1, 4]));
    p.from_color(&LumaA([5u8, 6]));
    assert_eq!(p, Rgba([5, 5, 5, 6]));
    p.from_color(&Luma([5u8]));
    assert_eq!(p, Rgba([5, 5, 5, 255]));
    p.from_color(&Rgba([9u8, 8, 7, 6]));
    assert_eq!(p, Rgba([9, 8, 7, 6]));
}

#[test]
fn from_color_into_bgra() {
    let mut p = Bgra([0u16; 4]);
    p.from_color(&Rgb([1u16, 2, 3]));
    assert_eq!(p, Bgra([3, 2, 1, u16::MAX]));
    p.from_color(&Bgr([1u16, 2, 3]));
    assert_eq!(p, Bgra([1, 2, 3, u16::MAX]));
    p.from_color(&Rgba([1u16, 2, 3, 4]));
    assert_eq!(p, Bgra([3, 2, 1, 4]));
    p.from_color(&LumaA([5u16, 6]));
    assert_eq!(p, Bgra([5, 5, 5, 6]));
    p.from_color(&Luma([5u16]));
    assert_eq!(p, Bgra([5, 5, 5, u16::MAX]));
}

#[test]
fn from_color_into_rgb() {
    let mut p = Rgb([0u8; 3]);
    p.from_color(&Rgba([1u8, 2, 3, 4]));
    assert_eq!(p, Rgb([1, 2, 3]));
    p.from_color(&Bgra([1u8, 2, 3, 4]));
    assert_eq!(p, Rgb([3, 2, 1]));
    p.from_color(&Bgr([1u8, 2, 3]));
    assert_eq!(p, Rgb([3, 2, 1]));
    p.from_color(&LumaA([7u8, 0]));
    assert_eq!(p, Rgb([7, 7, 7]));
    p.from_color(&Luma([8u8]));
    assert_eq!(p, Rgb([8, 8, 8]));
}

#[test]
fn from_color_into_bgr() {
    let mut p = Bgr([0u8; 3]);
    p.from_color(&Rgba([1u8, 2, 3, 4]));
    assert_eq!(p, Bgr([3, 2, 1]));
    p.from_color(&Rgb([1u8, 2, 3]));
    assert_eq!(p, Bgr([3, 2, 1]));
    p.from_color(&Bgra([1u8, 2, 3, 4]));
    assert_eq!(p, Bgr([1, 2, 3]));
    p.from_color(&LumaA([7u8, 0]));
    assert_eq!(p, Bgr([7, 7, 7]));
    p.from_color(&Luma([8u8]));
    assert_eq!(p, Bgr([8, 8, 8]));
}

#[test]
fn conversions_round_trip() {
    let p = Rgb([11u8, 22, 33]);
    assert_eq!(p.to_bgr().to_rgb(), p);
    assert_eq!(p.to_rgba().to_rgb(), p);
    assert_eq!(p.to_bgra().to_rgb(), p);

    let q = Rgba([11u8, 22, 33, 44]);
    assert_eq!(q.to_bgra().to_rgba(), q);
    assert_eq!(q.to_rgb().to_rgba(), Rgba([11, 22, 33, 255]));

    let g = Luma([5u8]);
    let mut ga = LumaA([0u8, 0]);
    ga.from_color(&g);
    let mut back = Luma([0u8]);
    back.from_color(&ga);
    assert_eq!(back, g);
}

#[test]
fn invert_commutes_with_conversion() {
    let p = Rgb([11u8, 22, 33]);
    let mut inverted = p;
    Invert::invert(&mut inverted);
    let mut converted = p.to_bgr();
    Invert::invert(&mut converted);
    assert_eq!(inverted.to_bgr(), converted);
    let mut converted = p.to_rgba();
    Invert::invert(&mut converted);
    assert_eq!(inverted.to_rgba(), converted);
    let mut converted = p.to_bgra();
    Invert::invert(&mut converted);
    assert_eq!(inverted.to_bgra(), converted);
}

#[test]
fn blend_opaque_pixels_takes_the_top() {
    let mut a = Rgb([1u8, 2, 3]);
    a.blend(&Rgb([4u8, 5, 6]));
    assert_eq!(a, Rgb([4, 5, 6]));

    let mut a = Bgr([1u8, 2, 3]);
    a.blend(&Bgr([4u8, 5, 6]));
    assert_eq!(a, Bgr([4, 5, 6]));

    let mut a = Luma([1u8]);
    a.blend(&Luma([200u8]));
    assert_eq!(a, Luma([200]));
}

#[test]
fn pixel_shape() {
    assert_eq!(<Rgb<u8> as Pixel>::channel_count(), 3);
    assert_eq!(<Bgr<u8> as Pixel>::channel_count(), 3);
    assert_eq!(<Luma<u8> as Pixel>::channel_count(), 1);
    assert_eq!(<Rgba<u8> as Pixel>::channel_count(), 4);
    assert_eq!(<Bgra<u8> as Pixel>::channel_count(), 4);
    assert_eq!(<LumaA<u8> as Pixel>::channel_count(), 2);

    assert_eq!(<Rgb<u8> as Pixel>::color_model(), "RGB");
    assert_eq!(<Bgr<u8> as Pixel>::color_model(), "BGR");
    assert_eq!(<Luma<u8> as Pixel>::color_model(), "Y");
    assert_eq!(<Rgba<u8> as Pixel>::color_model(), "RGBA");
    assert_eq!(<Bgra<u8> as Pixel>::color_model(), "BGRA");
    assert_eq!(<LumaA<u8> as Pixel>::color_model(), "YA");
}

#[test]
fn pixel_color_type() {
    assert_eq!(<Rgb<u8> as Pixel>::color_type(), ColorType::RGB);
    assert_eq!(<Bgr<u8> as Pixel>::color_type(), ColorType::BGR);
    assert_eq!(<Luma<u8> as Pixel>::color_type(), ColorType::L(8));
    assert_eq!(<Luma<u16> as Pixel>::color_type(), ColorType::L(16));
    assert_eq!(<Luma<u32> as Pixel>::color_type(), ColorType::L(32));
    assert_eq!(<Rgba<u8> as Pixel>::color_type(), ColorType::RGBA);
    assert_eq!(<Bgra<i8> as Pixel>::color_type(), ColorType::BGRA);
    assert_eq!(<LumaA<u8> as Pixel>::color_type(), ColorType::LA);
}

#[test]
fn channels_and_channels4() {
    let p = Rgb([1u8, 2, 3]);
    assert_eq!(p.channels(), &[1, 2, 3]);
    assert_eq!(p.channels4(), (1, 2, 3, 255));
    assert_eq!(Luma([7u16]).channels4(), (7, u16::MAX, u16::MAX, u16::MAX));
    assert_eq!(LumaA([7u8, 8]).channels4(), (7, 8, 255, 255));
    assert_eq!(Bgra([1u8, 2, 3, 4]).channels4(), (1, 2, 3, 4));
    assert_eq!(p[0], 1);
    assert_eq!(p[2], 3);
    assert_eq!(Rgba([1u8, 2, 3, 4])[3], 4);
}

#[test]
fn from_channels_and_from_slice() {
    assert_eq!(<Rgb<u8> as Pixel>::from_channels(1, 2, 3, 4), Rgb([1, 2, 3]));
    assert_eq!(<Luma<u8> as Pixel>::from_channels(1, 2, 3, 4), Luma([1]));
    assert_eq!(<LumaA<u8> as Pixel>::from_channels(1, 2, 3, 4), LumaA([1, 2]));
    assert_eq!(<Bgra<u8> as Pixel>::from_channels(1, 2, 3, 4), Bgra([1, 2, 3, 4]));
    assert_eq!(<Bgr<u8> as Pixel>::from_slice(&[9, 8, 7]), Bgr([9, 8, 7]));
    assert_eq!(<Rgba<u8> as Pixel>::from_slice(&[9, 8, 7, 6]), Rgba([9, 8, 7, 6]));

    let p = LumaA([3u8, 4]);
    let (a, b, c, d) = p.channels4();
    assert_eq!(<LumaA<u8> as Pixel>::from_channels(a, b, c, d), p);
}

#[test]
fn map_apply_and_map2() {
    let p = Rgba([1u8, 2, 3, 4]);
    assert_eq!(p.map(|x| x * 2), Rgba([2, 4, 6, 8]));
    let mut q = p;
    q.apply(|x| x + 10);
    assert_eq!(q, Rgba([11, 12, 13, 14]));
    assert_eq!(p.map_with_alpha(|x| x + 1, |a| a * 10), Rgba([2, 3, 4, 40]));
    assert_eq!(LumaA([1u8, 2]).map_with_alpha(|x| x + 1, |a| a * 10), LumaA([2, 20]));
    assert_eq!(Luma([1u8]).map_with_alpha(|x| x + 1, |_| panic!("no alpha")), Luma([2]));

    let a = Rgb([1u8, 2, 3]);
    let b = Rgb([10u8, 20, 30]);
    assert_eq!(a.map2(&b, |x, y| x + y), Rgb([11, 22, 33]));
    let mut c = b;
    c.apply2(&a, |x, y| x - y);
    assert_eq!(c, Rgb([9, 18, 27]));
}

#[test]
fn map_calls_in_channel_order() {
    let mut seen = Vec::new();
    let mut p = Bgr([5u8, 6, 7]);
    p.apply(|x| {
        seen.push(x);
        x
    });
    assert_eq!(seen, vec![5, 6, 7]);
}

#[test]
fn to_conversions() {
    let p = Bgra([1u8, 2, 3, 4]);
    assert_eq!(p.to_rgb(), Rgb([3, 2, 1]));
    assert_eq!(p.to_bgr(), Bgr([1, 2, 3]));
    assert_eq!(p.to_rgba(), Rgba([3, 2, 1, 4]));
    assert_eq!(p.to_bgra(), p);
    let g = LumaA([9u8, 1]);
    assert_eq!(g.to_rgb(), Rgb([9, 9, 9]));
    assert_eq!(g.to_bgra(), Bgra([9, 9, 9, 1]));
    let l = Luma([9u8]);
    assert_eq!(l.to_rgba(), Rgba([9, 9, 9, 255]));
}

#[test]
fn primitive_values() {
    assert_eq!(<u8 as Primitive>::max_value(), 255);
    assert_eq!(<i16 as Primitive>::max_value(), i16::MAX);
    assert_eq!(<u64 as Primitive>::zero(), 0);
    assert_eq!(<i32 as Primitive>::minus(5, 7), -2);
    assert_eq!(<usize as Primitive>::minus(7, 5), 2);
}

#[test]
fn channels_mut_writes_through() {
    let mut p = LumaA([1u8, 2]);
    {
        let s = p.channels_mut();
        assert_eq!(s, &[1, 2]);
        s[1] = 99;
    }
    assert_eq!(p, LumaA([1, 99]));
}

#[test]
fn gray_pixels_to_luma() {
    assert_eq!(Luma([9u8]).to_luma(), Luma([9]));
    assert_eq!(Luma([9u8]).to_luma_alpha(), LumaA([9, 255]));
    assert_eq!(LumaA([9u8, 4]).to_luma(), Luma([9]));
    assert_eq!(LumaA([9u8, 4]).to_luma_alpha(), LumaA([9, 4]));
}
