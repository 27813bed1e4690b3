# image_color

Pixel types (`Rgb`, `Bgr`, `Luma`, `Rgba`, `Bgra`, `LumaA`) over the primitive
integer channel types, with their color conversions (`FromColor`), inversion
(`Invert`), blending of opaque pixels (`Blend`), per-channel maps (`Pixel`),
and the `ColorType` descriptions (`bits_per_pixel`, `num_components`).

Layout:

- `src/` — the library, verified with Verus: every public function, and
  every method of the `Pixel`, `FromColor`, `Invert` and `Blend` traits, has
  a contract that fixes its result; the one exception is the per-channel maps,
  whose contracts fix each channel up to what the closure's own contract says.
  `src/laws.rs` proves the properties
  that relate several operations (inverting twice, conversion round trips,
  inverting commuting with conversion, `channels4`/`from_channels`).
- `app/` — the operations that compute in floating point (grayscale
  conversion of color pixels, alpha compositing), built on the library and
  `num-traits`.
- `tests/` — tests of the library on concrete pixels.
