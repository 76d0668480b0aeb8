//! From pixels to the text that draws them in the terminal.

use vstd::prelude::*;
use vstd::string::*;

use icy_sixel::dither::sixel_dither;
use icy_sixel::output::sixel_output;
use icy_sixel::DiffusionMethod as SixelDiffusion;
use icy_sixel::MethodForLargest as SixelLargest;
use icy_sixel::MethodForRep as SixelRep;
use icy_sixel::PixelFormat;
use icy_sixel::Quality as SixelQuality;

use crate::geometry::Geometry;
use crate::palette::{
    are_places_in, colors_are_numbered_once, colors_at, number_by_use, numbered_by_use,
    order_of_use, overfilling_takes_the_last_color_twice, overfills, overfills_palette, pick_colors,
    Numbering,
};

verus! {

/// A pixel.
#[derive(Clone, Copy, PartialEq, Eq, Debug, Structural)]
pub struct Rgb {
    /// Red channel.
    pub r: u8,
    /// Green channel.
    pub g: u8,
    /// Blue channel.
    pub b: u8,
}

/// How the encoder spreads the error of a pixel over its neighbours.
#[derive(Clone, Copy, PartialEq, Eq, Debug, Structural)]
pub enum Diffusion {
    /// Not at all.
    Off,
    /// Atkinson's method.
    Atkinson,
}

/// How the encoder finds the largest side of a box of colours.
#[derive(Clone, Copy, PartialEq, Eq, Debug, Structural)]
pub enum Largest {
    /// Left to the encoder.
    Auto,
    /// By luminosity.
    Lum,
}

/// How the encoder picks the colour that stands for a box of colours.
#[derive(Clone, Copy, PartialEq, Eq, Debug, Structural)]
pub enum Rep {
    /// Left to the encoder.
    Auto,
    /// The average of its colours.
    Colors,
}

/// How much care the encoder takes over the palette.
#[derive(Clone, Copy, PartialEq, Eq, Debug, Structural)]
pub enum Quality {
    /// High quality.
    High,
    /// Low quality.
    Low,
}

/// Settings of the encoder. It offers more of each than are named here.
#[derive(Clone, Copy, PartialEq, Eq, Debug, Structural)]
pub struct EncoderSettings {
    /// Diffusion of errors.
    pub diffusion: Diffusion,
    /// Splitting of boxes of colours.
    pub largest: Largest,
    /// Choice of colours.
    pub rep: Rep,
    /// Quality of the palette.
    pub quality: Quality,
}

/// The settings that frames are encoded with.
pub open spec fn frame_settings() -> EncoderSettings {
    EncoderSettings {
        diffusion: Diffusion::Atkinson,
        largest: Largest::Auto,
        rep: Rep::Auto,
        quality: Quality::Low,
    }
}

/// Distance between the pixels that the encoder looks at to build a palette for `n` pixels. Of a
/// large image it looks at 18383 pixels, or somewhat more.
pub open spec fn sample_stride(n: int) -> int {
    if n < 18383 { 6 } else { n / 18383 }
}

/// Where the encoder stops to look: the first multiple of the stride that is not below `n`.
pub open spec fn sample_end(n: int) -> int {
    ((n + sample_stride(n) - 1) / sample_stride(n)) * sample_stride(n)
}

/// Whether the encoder can take an image of this size: it counts bytes, three per pixel, in 32
/// bits, up to where it stops to look.
pub open spec fn encoder_takes(width: int, height: int) -> bool {
    &&& 0 <= width <= i32::MAX
    &&& 0 <= height <= i32::MAX
    &&& 3 * sample_end(width * height) <= i32::MAX
}

/// The palette, three bytes a colour, that icy_sixel's `sixel_dither` chooses for an image in RGB
/// order when it may use 256 colours, and the place in it of the colour of every pixel, if it
/// succeeds.
pub uninterp spec fn palette_and_places(
    bytes: Seq<u8>,
    width: i32,
    height: i32,
    settings: EncoderSettings,
) -> Option<(Seq<u8>, Seq<u8>)>;

/// The text that icy_sixel's `sixel_string` makes of an image in RGB order, if it succeeds.
pub uninterp spec fn sixel_encoding(
    bytes: Seq<u8>,
    width: i32,
    height: i32,
    settings: EncoderSettings,
) -> Option<Seq<char>>;

/// The text that icy_sixel's `sixel_output` makes of an image that is given by its colours, three
/// bytes each, and the number of the colour of every pixel, if it succeeds.
pub uninterp spec fn indexed_encoding(
    colors: Seq<u8>,
    count: i32,
    numbers: Seq<u8>,
    width: i32,
    height: i32,
) -> Option<Seq<char>>;

/// The characters of a text, if there is one.
pub open spec fn chars_of(text: Option<String>) -> Option<Seq<char>> {
    match text {
        Some(s) => Some(s@),
        None => None,
    }
}

/// Lets icy_sixel's `sixel_dither` choose a palette of up to 256 colours with `initialize` and look
/// every pixel up in it with `apply_palette`, as `sixel_string` does on its way.
///
/// Trusted: the palette and the places found depend on the arguments alone, there is a place for
/// every pixel, and every place is that of a colour in the palette. Which colours the palette holds
/// is not stated. `None` stands for an error of the encoder; which one is not told apart.
#[verifier::external_body]
fn apply_palette(bytes: &Vec<u8>, width: i32, height: i32, settings: EncoderSettings) -> (found:
    Option<(Vec<u8>, Vec<u8>)>)
    requires
        encoder_takes(width as int, height as int),
        bytes@.len() == 3 * (width * height),
    ensures
        match found {
            Some((palette, places)) => {
                &&& palette_and_places(bytes@, width, height, settings) == Some(
                    (palette@, places@),
                )
                &&& places@.len() == width * height
                &&& are_places_in(places@, palette@)
            },
            None => palette_and_places(bytes@, width, height, settings) is None,
        },
{
    let diffusion = match settings.diffusion {
        Diffusion::Off => SixelDiffusion::None, Diffusion::Atkinson => SixelDiffusion::Atkinson,
    };
    let largest = match settings.largest { Largest::Auto => SixelLargest::Auto, Largest::Lum => SixelLargest::Lum };
    let rep = match settings.rep { Rep::Auto => SixelRep::Auto, Rep::Colors => SixelRep::AverageColors };
    let quality = match settings.quality { Quality::High => SixelQuality::HIGH, Quality::Low => SixelQuality::LOW };
    let mut dither = sixel_dither::new(256).ok()?;
    dither.initialize(bytes, width, height, PixelFormat::RGB888, largest, rep, quality).ok()?;
    dither.set_diffusion_type(diffusion);
    let places = dither.apply_palette(bytes, width, height).ok()?;
    Some((dither.get_palette().to_vec(), places))
}

/// Calls icy_sixel's `sixel_string` on bytes in the order red, green, blue.
///
/// Trusted: the result depends on the arguments alone. An image without pixels is an error; an
/// image with pixels is none, unless it is so wide that 256 of its rows cannot be counted in 32
/// bits. `None` stands for an error; which one is not told apart. What the text says is not stated:
/// that takes the whole of the sixel format.
///
/// `sixel_string` numbers the colours anew in the order in which [`apply_palette`] meets them. It
/// keeps each number, counted from 1, and takes 1 from it in 8 bits when it meets the colour again.
/// That overflows when the last number of all occurs again, and only then.
#[verifier::external_body]
fn sixel_string(bytes: &Vec<u8>, width: i32, height: i32, settings: EncoderSettings) -> (text:
    Option<String>)
    requires
        encoder_takes(width as int, height as int),
        bytes@.len() == 3 * (width * height),
        palette_and_places(bytes@, width, height, settings) matches Some((_, places)) ==> !overfills(
            numbered_by_use(places),
        ),
    ensures
        chars_of(text) == sixel_encoding(bytes@, width, height, settings),
        width == 0 || height == 0 ==> text is None,
        1 <= width <= i32::MAX / 256 && height >= 1 ==> text is Some,
{
    let diffusion = match settings.diffusion {
        Diffusion::Off => SixelDiffusion::None, Diffusion::Atkinson => SixelDiffusion::Atkinson,
    };
    let largest = match settings.largest { Largest::Auto => SixelLargest::Auto, Largest::Lum => SixelLargest::Lum };
    let rep = match settings.rep { Rep::Auto => SixelRep::Auto, Rep::Colors => SixelRep::AverageColors };
    let quality = match settings.quality { Quality::High => SixelQuality::HIGH, Quality::Low => SixelQuality::LOW };
    let format = PixelFormat::RGB888;
    icy_sixel::sixel_string(bytes, width, height, format, diffusion, largest, rep, quality).ok()
}

/// Lets icy_sixel's `sixel_output` write out, with `encode`, an image whose colours are numbered
/// already, as `sixel_string` does in the end: with the given colours as the palette of a
/// `sixel_dither`, and one byte a pixel.
///
/// Trusted: the result depends on the arguments alone. An image without pixels is an error; an
/// image with pixels is none, unless it is so wide that 256 of its rows cannot be counted in 32
/// bits. `None` stands for an error; which one is not told apart. What the text says is not stated:
/// that takes the whole of the sixel format.
#[verifier::external_body]
fn encode_indexed(colors: &Vec<u8>, count: i32, numbers: &Vec<u8>, width: i32, height: i32) -> (text:
    Option<String>)
    requires
        encoder_takes(width as int, height as int),
        numbers@.len() == width * height,
        1 <= count <= 256,
        colors@.len() == 3 * count,
        forall|i: int| 0 <= i < numbers@.len() ==> #[trigger] numbers@[i] < count,
    ensures
        chars_of(text) == indexed_encoding(colors@, count, numbers@, width, height),
        width == 0 || height == 0 ==> text is None,
        1 <= width <= i32::MAX / 256 && height >= 1 ==> text is Some,
{
    let mut written: Vec<u8> = Vec::new();
    let mut dither = sixel_dither::new(count).ok()?;
    dither.set_palette(colors.clone());
    dither.set_pixelformat(PixelFormat::PAL8);
    let mut output = sixel_output::new(&mut written);
    output.encode(&mut numbers.clone(), width, height, 0, &mut dither).ok()?;
    Some(String::from_utf8_lossy(&written).to_string())
}

/// Channel `i` of a pixel, in the order red, green, blue.
pub open spec fn channel(pixel: Rgb, i: int) -> u8 {
    if i == 0 {
        pixel.r
    } else if i == 1 {
        pixel.g
    } else {
        pixel.b
    }
}

/// The channels of all pixels one after the other.
pub open spec fn rgb_bytes(pixels: Seq<Rgb>) -> Seq<u8> {
    Seq::new(3 * pixels.len(), |i: int| channel(pixels[i / 3], i % 3))
}

/// Lays the channels of all pixels out one after the other.
pub fn flatten(pixels: &Vec<Rgb>) -> (bytes: Vec<u8>)
    requires
        3 * pixels@.len() <= isize::MAX,
    ensures
        bytes@ == rgb_bytes(pixels@),
{
    let mut bytes: Vec<u8> = Vec::with_capacity(pixels.len() * 3);
    for k in 0..pixels.len()
        invariant
            bytes@ == rgb_bytes(pixels@.take(k as int)),
    {
        let px: Rgb = pixels[k];
        bytes.push(px.r);
        bytes.push(px.g);
        bytes.push(px.b);
        assert(bytes@ =~= rgb_bytes(pixels@.take(k + 1)));
    }
    assert(pixels@.take(pixels@.len() as int) =~= pixels@);
    bytes
}

/// The encoder counts past the last pixel, if at all.
proof fn lemma_sample_end(n: int)
    requires
        n >= 0,
    ensures
        n <= sample_end(n),
        sample_end(n) < n + sample_stride(n),
{
    let (s, m) = (sample_stride(n), n + sample_stride(n) - 1);
    assert(s >= 1);
    assert((m / s) * s == m - m % s && 0 <= m % s < s) by (nonlinear_arith)
        requires
            s >= 1,
    ;
}

/// Tests whether the encoder can take an image of this size.
fn takes_size(width: u32, height: u32) -> (takes: bool)
    ensures
        takes == encoder_takes(width as int, height as int),
{
    if width > i32::MAX as u32 || height > i32::MAX as u32 {
        return false;
    }
    let (w, h): (u64, u64) = (width as u64, height as u64);
    assert(0 <= w * h <= u32::MAX * u32::MAX) by (nonlinear_arith)
        requires
            0 <= w <= u32::MAX,
            0 <= h <= u32::MAX,
    ;
    let n: u64 = w * h;
    proof {
        lemma_sample_end(n as int);
    }
    if n > i32::MAX as u64 {
        return false;
    }
    let stride: u64 = if n < 18383 { 6 } else { n / 18383 };
    let steps: u64 = (n + stride - 1) / stride;
    assert(steps * stride == sample_end(n as int));
    3 * (steps * stride) <= i32::MAX as u64
}

/// What came of encoding an image.
#[derive(PartialEq, Eq, Debug)]
pub enum Encoded {
    /// The text of the image.
    Image(String),
    /// The encoder reported an error.
    Failed,
    /// The encoder was not run: it cannot count the bytes of this image.
    TooLarge,
}

/// Whether the encoder is sure to succeed on an image of this size, if it can count its bytes.
pub open spec fn encoder_succeeds(width: u32, height: u32) -> bool {
    1 <= width <= i32::MAX / 256 && height >= 1
}

/// The text of an image that is given by a palette and the place in it of the colour of every
/// pixel: the colours that are used are numbered in the order of their use.
pub open spec fn paletted_encoding(
    palette: Seq<u8>,
    places: Seq<u8>,
    width: i32,
    height: i32,
) -> Option<Seq<char>> {
    indexed_encoding(
        colors_at(palette, order_of_use(places)),
        order_of_use(places).len() as i32,
        numbered_by_use(places),
        width,
        height,
    )
}

/// The text of an image, if the encoder succeeds. Where counting the colours makes `sixel_string`
/// overflow, its steps are taken one by one, with colours that are numbered without an overflow: the
/// text is the one that `sixel_string` gives when it is built without overflow checks.
pub open spec fn frame_encoding(pixels: Seq<Rgb>, width: u32, height: u32) -> Option<Seq<char>> {
    let (bytes, w, h) = (rgb_bytes(pixels), width as i32, height as i32);
    match palette_and_places(bytes, w, h, frame_settings()) {
        Some((palette, places)) if overfills(numbered_by_use(places)) => paletted_encoding(
            palette,
            places,
            w,
            h,
        ),
        _ => sixel_encoding(bytes, w, h, frame_settings()),
    }
}

/// Encodes an image that is given by a palette and the place in it of the colour of every pixel.
/// `None` stands for an error of the encoder.
pub fn encode_paletted(palette: &Vec<u8>, places: &Vec<u8>, width: i32, height: i32) -> (text: Option<
    String,
>)
    requires
        encoder_takes(width as int, height as int),
        places@.len() == width * height,
        places@.len() > 0,
        are_places_in(places@, palette@),
    ensures
        chars_of(text) == paletted_encoding(palette@, places@, width, height),
        1 <= width <= i32::MAX / 256 ==> text is Some,
{
    let Numbering { order, numbers } = number_by_use(places);
    proof {
        colors_are_numbered_once(places@);
        assert forall|i: int| 0 <= i < places@.len() implies #[trigger] numbers@[i]
            < order@.len() by {
            assert(order@.contains(places@[i]));
        }
        assert(numbers@[0] < order@.len());
        assert forall|k: int| 0 <= k < order@.len() implies 3 * #[trigger] order@[k] + 2
            < palette@.len() by {
            assert(order@.contains(order@[k]));
            let i = choose|i: int| 0 <= i < places@.len() && places@[i] == order@[k];
            assert(3 * places@[i] + 2 < palette@.len());
        }
        assert(height >= 1) by (nonlinear_arith)
            requires
                width * height > 0,
                width >= 0,
                height >= 0,
        ;
    }
    let colors: Vec<u8> = pick_colors(palette, &order);
    encode_indexed(&colors, order.len() as i32, &numbers, width, height)
}

/// Encodes the pixels of an image of the given geometry as sixels.
pub fn encode_frame(pixels: &Vec<Rgb>, geometry: &Geometry) -> (encoded: Encoded)
    requires
        pixels@.len() == geometry.area(),
    ensures
        match encoded {
            Encoded::TooLarge => !encoder_takes(geometry.width as int, geometry.height as int),
            Encoded::Failed => {
                &&& encoder_takes(geometry.width as int, geometry.height as int)
                &&& !encoder_succeeds(geometry.width, geometry.height)
                &&& frame_encoding(pixels@, geometry.width, geometry.height) is None
            },
            Encoded::Image(text) => {
                &&& encoder_takes(geometry.width as int, geometry.height as int)
                &&& geometry.width != 0 && geometry.height != 0
                &&& frame_encoding(pixels@, geometry.width, geometry.height) == Some(text@)
            },
        },
        1 <= geometry.width <= 8_388_607 && 1 <= geometry.height && geometry.width * geometry.height
            <= 700_000_000 ==> encoded is Image,
        geometry.width == 0 || geometry.height == 0 ==> !(encoded is Image),
{
    proof {
        if 1 <= geometry.width && 1 <= geometry.height && geometry.width * geometry.height
            <= 700_000_000 {
            images_that_fit_are_taken(geometry.width as int, geometry.height as int);
        }
    }
    if !takes_size(geometry.width, geometry.height) {
        return Encoded::TooLarge;
    }
    proof {
        lemma_encoder_takes(geometry.width as int, geometry.height as int);
    }
    let (width, height): (i32, i32) = (geometry.width as i32, geometry.height as i32);
    let settings = EncoderSettings {
        diffusion: Diffusion::Atkinson,
        largest: Largest::Auto,
        rep: Rep::Auto,
        quality: Quality::Low,
    };
    let bytes: Vec<u8> = flatten(pixels);
    if let Some((palette, places)) = apply_palette(&bytes, width, height, settings) {
        if overfills_palette(&number_by_use(&places).numbers) {
            return match encode_paletted(&palette, &places, width, height) {
                Some(text) => Encoded::Image(text),
                None => Encoded::Failed,
            };
        }
    }
    match sixel_string(&bytes, width, height, settings) {
        Some(text) => Encoded::Image(text),
        None => Encoded::Failed,
    }
}

/// The bytes of an image that the encoder takes can be counted in 32 bits.
proof fn lemma_encoder_takes(width: int, height: int)
    requires
        encoder_takes(width, height),
    ensures
        3 * (width * height) <= i32::MAX,
{
    assert(0 <= width * height) by (nonlinear_arith)
        requires
            width >= 0,
            height >= 0,
    ;
    lemma_sample_end(width * height);
}

/// The encoder can count the bytes of an image of up to 700 million pixels.
pub proof fn images_that_fit_are_taken(width: int, height: int)
    requires
        1 <= width,
        1 <= height,
        width * height <= 700_000_000,
    ensures
        encoder_takes(width, height),
{
    assert(width <= width * height && height <= width * height) by (nonlinear_arith)
        requires
            1 <= width,
            1 <= height,
    ;
    lemma_sample_end(width * height);
}

/// The control sequence that moves the cursor to the top left corner.
pub open spec fn home() -> Seq<char> {
    seq!['\x1b', '[', 'H']
}

/// What is written to the terminal for an encoded image: the cursor goes home, then the image is
/// drawn in place. No newline follows, so that the terminal does not scroll.
pub open spec fn drawn_in_place(image: Seq<char>) -> Seq<char> {
    home() + image
}

/// Returns what is to be written to the terminal for an encoded image.
pub fn frame_output(image: &str) -> (output: String)
    ensures
        output@ == drawn_in_place(image@),
        output@ == seq!['\u{1b}', '[', 'H'] + image@,
{
    let start = "\x1b[H";
    proof {
        reveal_strlit("\x1b[H");
    }
    assert(start@ =~= home());
    String::from_str(start).concat(image)
}

/// What is to be done about a frame.
#[derive(PartialEq, Eq, Debug)]
pub enum Emission {
    /// Nothing is written.
    Nothing,
    /// This is written to the terminal.
    Write(String),
    /// The frame is too large for the encoder.
    TooLarge,
}

/// Decides what to write once an image has been encoded. Where the encoder failed, nothing is.
pub fn emission_for(encoded: Encoded) -> (emission: Emission)
    ensures
        match encoded {
            Encoded::Image(text) => emission matches Emission::Write(output) && output@
                == drawn_in_place(text@),
            Encoded::Failed => emission is Nothing,
            Encoded::TooLarge => emission is TooLarge,
        },
{
    match encoded {
        Encoded::Image(text) => Emission::Write(frame_output(text.as_str())),
        Encoded::Failed => Emission::Nothing,
        Encoded::TooLarge => Emission::TooLarge,
    }
}

/// A frame that is written starts with the cursor in the top left corner and ends with the image
/// itself.
pub proof fn frames_are_drawn_in_place(image: Seq<char>)
    ensures
        drawn_in_place(image).take(3) == home(),
        drawn_in_place(image).take(3) == seq!['\u{1b}', '[', 'H'],
        drawn_in_place(image).len() == 3 + image.len(),
        drawn_in_place(image).skip(3) == image,
{
    assert((home() + image).take(3) =~= home());
    assert((home() + image).skip(3) =~= image);
}

/// The bytes of a frame give every pixel back, in order.
pub proof fn bytes_keep_the_pixels(pixels: Seq<Rgb>)
    ensures
        rgb_bytes(pixels).len() == 3 * pixels.len(),
        forall|k: int|
            #![trigger pixels[k]]
            0 <= k < pixels.len() ==> pixels[k] == (Rgb {
                r: rgb_bytes(pixels)[3 * k],
                g: rgb_bytes(pixels)[3 * k + 1],
                b: rgb_bytes(pixels)[3 * k + 2],
            }),
{
}

/// The encoder takes an image exactly when both sides can be counted in 32 bits, and so can the bytes
/// up to `end`: the first multiple, from the last pixel on, of the distance between the pixels that it
/// looks at.
pub proof fn the_encoder_counts_in_32_bits(width: int, height: int, stride: int, end: int)
    requires
        0 <= width,
        0 <= height,
        width * height < 18383 ==> stride == 6,
        width * height >= 18383 ==> stride == width * height / 18383,
        end % stride == 0,
        width * height <= end < width * height + stride,
    ensures
        encoder_takes(width, height) <==> width <= 2147483647 && height <= 2147483647 && 3 * end
            <= 2147483647,
        encoder_takes(width, height) ==> 3 * (width * height) <= 2147483647,
{
    let n = width * height;
    assert(0 <= n) by (nonlinear_arith)
        requires
            width >= 0,
            height >= 0,
            n == width * height,
    ;
    lemma_sample_end(n);
    let q = (n + stride - 1) / stride;
    assert(sample_end(n) == q * stride);
    assert(end == (end / stride) * stride) by (nonlinear_arith)
        requires
            stride >= 1,
            end % stride == 0,
    ;
    let p = end / stride;
    assert(p == q) by (nonlinear_arith)
        requires
            stride >= 1,
            n <= p * stride < n + stride,
            n <= q * stride < n + stride,
    ;
}

/// The encoder is sure to succeed on every image with pixels that is not wider than 256 rows of it
/// can be counted in 32 bits.
pub proof fn images_with_pixels_succeed(width: u32, height: u32)
    ensures
        encoder_succeeds(width, height) <==> 1 <= width <= 8_388_607 && 1 <= height,
{
}

/// A frame that uses fewer than 256 colours is encoded from its bytes with Atkinson's diffusion and
/// in low quality, and all else left to the encoder.
pub proof fn frames_are_encoded_from_their_bytes(pixels: Seq<Rgb>, width: u32, height: u32)
    requires
        ({
            let settings = EncoderSettings {
                diffusion: Diffusion::Atkinson,
                largest: Largest::Auto,
                rep: Rep::Auto,
                quality: Quality::Low,
            };
            palette_and_places(
                rgb_bytes(pixels),
                width as i32,
                height as i32,
                settings,
            ) matches Some((_, places)) ==> order_of_use(places).len() < 256
        }),
    ensures
        ({
            let settings = EncoderSettings {
                diffusion: Diffusion::Atkinson,
                largest: Largest::Auto,
                rep: Rep::Auto,
                quality: Quality::Low,
            };
            frame_encoding(pixels, width, height) == sixel_encoding(
                rgb_bytes(pixels),
                width as i32,
                height as i32,
                settings,
            )
        }),
{
    if let Some((_, places)) = palette_and_places(
        rgb_bytes(pixels),
        width as i32,
        height as i32,
        frame_settings(),
    ) {
        if places.len() > 1 {
            overfilling_takes_the_last_color_twice(places, 0, 1);
        }
    }
}

/// A frame in which two pixels have the last number that a byte can hold is encoded from its palette
/// and its places; any other is encoded from its bytes.
pub proof fn frames_that_overfill_are_encoded_from_their_palette(
    pixels: Seq<Rgb>,
    width: u32,
    height: u32,
    palette: Seq<u8>,
    places: Seq<u8>,
)
    requires
        ({
            let settings = EncoderSettings {
                diffusion: Diffusion::Atkinson,
                largest: Largest::Auto,
                rep: Rep::Auto,
                quality: Quality::Low,
            };
            palette_and_places(rgb_bytes(pixels), width as i32, height as i32, settings) == Some(
                (palette, places),
            )
        }),
    ensures
        ({
            let settings = EncoderSettings {
                diffusion: Diffusion::Atkinson,
                largest: Largest::Auto,
                rep: Rep::Auto,
                quality: Quality::Low,
            };
            let numbers = numbered_by_use(places);
            let twice = exists|i: int, j: int|
                0 <= i < j < numbers.len() && #[trigger] numbers[i] == 255 && #[trigger] numbers[j]
                    == 255;
            &&& twice ==> frame_encoding(pixels, width, height) == indexed_encoding(
                colors_at(palette, order_of_use(places)),
                order_of_use(places).len() as i32,
                numbers,
                width as i32,
                height as i32,
            )
            &&& !twice ==> frame_encoding(pixels, width, height) == sixel_encoding(
                rgb_bytes(pixels),
                width as i32,
                height as i32,
                settings,
            )
        }),
{
}

/// An image that is given by its palette is encoded from the colours that it uses, in the order in
/// which it does, and their numbers.
pub proof fn palettes_are_encoded_in_the_order_of_use(
    palette: Seq<u8>,
    places: Seq<u8>,
    width: i32,
    height: i32,
)
    ensures
        paletted_encoding(palette, places, width, height) == indexed_encoding(
            colors_at(palette, order_of_use(places)),
            order_of_use(places).len() as i32,
            numbered_by_use(places),
            width,
            height,
        ),
{
}

} // verus!
