use image_color::{Bgr, Bgra, Pixel, Rgb, Rgba};

#[test]
fn test_apply_with_alpha_rgba() {
    let mut rgba = Rgba { data: [0, 0, 0, 0] };
    rgba.apply_with_alpha(|s| s, |_| 0xFF);
    assert_eq!(
        rgba,
        Rgba {
            data: [0, 0, 0, 0xFF]
        }
    );
}

#[test]
fn test_apply_with_alpha_bgra() {
    let mut bgra = Bgra { data: [0, 0, 0, 0] };
    bgra.apply_with_alpha(|s| s, |_| 0xFF);
    assert_eq!(
        bgra,
        Bgra {
            data: [0, 0, 0, 0xFF]
        }
    );
}

#[test]
fn test_apply_with_alpha_rgb() {
    let mut rgb = Rgb { data: [0, 0, 0] };
    rgb.apply_with_alpha(|s| s, |_| panic!("bug"));
    assert_eq!(rgb, Rgb { data: [0, 0, 0] });
}

#[test]
fn test_apply_with_alpha_bgr() {
    let mut bgr = Bgr { data: [0, 0, 0] };
    bgr.apply_with_alpha(|s| s, |_| panic!("bug"));
    assert_eq!(bgr, Bgr { data: [0, 0, 0] });
}

#[test]
fn test_map_with_alpha_rgba() {
    let rgba = Rgba { data: [0, 0, 0, 0] }.map_with_alpha(|s| s, |_| 0xFF);
    assert_eq!(
        rgba,
        Rgba {
            data: [0, 0, 0, 0xFF]
        }
    );
}

#[test]
fn test_map_with_alpha_rgb() {
    let rgb = Rgb { data: [0, 0, 0] }.map_with_alpha(|s| s, |_| panic!("bug"));
    assert_eq!(rgb, Rgb { data: [0, 0, 0] });
}

#[test]
fn test_map_with_alpha_bgr() {
    let bgr = Bgr { data: [0, 0, 0] }.map_with_alpha(|s| s, |_| panic!("bug"));
    assert_eq!(bgr, Bgr { data: [0, 0, 0] });
}

#[test]
fn test_map_with_alpha_bgra() {
    let bgra = Bgra { data: [0, 0, 0, 0] }.map_with_alpha(|s| s, |_| 0xFF);
    assert_eq!(
        bgra,
        Bgra {
            data: [0, 0, 0, 0xFF]
        }
    );
}
