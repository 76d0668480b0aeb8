use icy_sixel::dither::sixel_dither;
use icy_sixel::output::sixel_output;
use icy_sixel::{DiffusionMethod, MethodForLargest, MethodForRep, PixelFormat, Quality};
use sixel_backend::frame::{
    emission_for, encode_frame, encode_paletted, flatten, frame_output, Emission, Encoded, Rgb,
};
use sixel_backend::geometry::Geometry;
use sixel_backend::palette::{number_by_use, overfills_palette, pick_colors};

fn image(width: u32, height: u32) -> Vec<Rgb> {
    let mut pixels = Vec::new();
    for y in 0..height {
        for x in 0..width {
            pixels.push(Rgb { r: (x * 5) as u8, g: (y * 7) as u8, b: ((x * y) % 251) as u8 });
        }
    }
    pixels
}

fn geometry(width: u32, height: u32) -> Geometry {
    Geometry { cols: 1, rows: 1, width, height, full_height: height }
}

#[test]
fn channels_are_laid_out_in_order() {
    let pixels = vec![Rgb { r: 1, g: 2, b: 3 }, Rgb { r: 4, g: 5, b: 6 }];
    assert_eq!(flatten(&pixels), vec![1, 2, 3, 4, 5, 6]);
    assert_eq!(flatten(&vec![]), Vec::<u8>::new());
}

#[test]
fn frames_are_encoded_with_the_settings_of_the_backend() {
    for (width, height) in [(1u32, 6u32), (40, 12), (240, 240)] {
        let pixels = image(width, height);
        let expected = icy_sixel::sixel_string(
            &flatten(&pixels),
            width as i32,
            height as i32,
            PixelFormat::RGB888,
            DiffusionMethod::Atkinson,
            MethodForLargest::Auto,
            MethodForRep::Auto,
            Quality::LOW,
        )
        .unwrap();
        assert!(expected.starts_with("\u{1b}Pq"));
        assert_eq!(encode_frame(&pixels, &geometry(width, height)), Encoded::Image(expected));
    }
}

#[test]
fn diffusion_makes_a_difference() {
    let pixels = image(240, 240);
    let plain = icy_sixel::sixel_string(
        &flatten(&pixels),
        240,
        240,
        PixelFormat::RGB888,
        DiffusionMethod::None,
        MethodForLargest::Auto,
        MethodForRep::Auto,
        Quality::LOW,
    )
    .unwrap();
    assert_ne!(encode_frame(&pixels, &geometry(240, 240)), Encoded::Image(plain));
}

#[test]
fn an_empty_image_fails() {
    assert_eq!(encode_frame(&vec![], &geometry(0, 0)), Encoded::Failed);
    assert_eq!(encode_frame(&vec![], &geometry(0, 6)), Encoded::Failed);
    assert_eq!(encode_frame(&vec![], &geometry(8, 0)), Encoded::Failed);
}

/// An image of 96 by 96 pixels with the given number of colours, each on six pixels in a row.
fn palette_image(colours: u32) -> Vec<Rgb> {
    let mut pixels = Vec::new();
    for i in 0..96 * 96u32 {
        let c = (i / 6) % colours;
        pixels.push(Rgb { r: ((c % 16) * 16) as u8, g: ((c / 16) * 16) as u8, b: 0 });
    }
    pixels
}

/// A dither of the encoder that is set up for an image, with the settings of the backend.
fn dither_for(pixels: &Vec<Rgb>, width: i32, height: i32) -> sixel_dither {
    let mut dither = sixel_dither::new(256).unwrap();
    dither
        .initialize(
            &flatten(pixels),
            width,
            height,
            PixelFormat::RGB888,
            MethodForLargest::Auto,
            MethodForRep::Auto,
            Quality::LOW,
        )
        .unwrap();
    dither.set_diffusion_type(DiffusionMethod::Atkinson);
    dither
}

fn text_of(encoded: Encoded) -> String {
    match encoded {
        Encoded::Image(text) => text,
        other => panic!("{:?}", other),
    }
}

#[test]
fn a_full_palette_is_encoded() {
    let mut pixels = palette_image(256);
    pixels[1] = pixels[6 * 9];
    let text = text_of(encode_frame(&pixels, &geometry(96, 96)));
    let mut dither = dither_for(&pixels, 96, 96);
    let places = dither.apply_palette(&flatten(&pixels), 96, 96).unwrap();
    assert!(overfills_palette(&number_by_use(&places).numbers));
    assert_eq!(encode_paletted(&dither.get_palette().to_vec(), &places, 96, 96), Some(text.clone()));

    // The same picture, with the colours numbered as in the palette.
    let mut written: Vec<u8> = Vec::new();
    let mut output = sixel_output::new(&mut written);
    output
        .encode(&mut flatten(&pixels), 96, 96, 0, &mut dither_for(&pixels, 96, 96))
        .unwrap();
    assert_ne!(text.as_bytes(), written.as_slice());
    let shown = icy_sixel::sixel_decode(text.as_bytes()).unwrap();
    assert_eq!(shown, icy_sixel::sixel_decode(&written).unwrap());
    assert!(text.contains("#255;2;"));
}

#[test]
fn numbering_the_colours_gives_the_text_of_the_encoder() {
    let mut images = vec![(96, 96, palette_image(255)), (96, 96, palette_image(3))];
    for (width, height) in [(1u32, 6u32), (40, 12), (240, 240)] {
        images.push((width, height, image(width, height)));
    }
    for (width, height, pixels) in images {
        let mut dither = dither_for(&pixels, width as i32, height as i32);
        let places =
            dither.apply_palette(&flatten(&pixels), width as i32, height as i32).unwrap();
        let palette = dither.get_palette().to_vec();
        assert!(!overfills_palette(&number_by_use(&places).numbers));
        assert_eq!(
            encode_paletted(&palette, &places, width as i32, height as i32),
            Some(text_of(encode_frame(&pixels, &geometry(width, height))))
        );
    }
}

#[test]
fn too_many_bytes_are_noticed() {
    assert_eq!(encode_frame(&vec![], &geometry(u32::MAX, 0)), Encoded::TooLarge);
}

#[test]
fn colours_are_numbered_in_the_order_of_their_use() {
    let numbering = number_by_use(&vec![7, 7, 2, 9, 2, 7]);
    assert_eq!(numbering.order, vec![7, 2, 9]);
    assert_eq!(numbering.numbers, vec![0, 0, 1, 2, 1, 0]);
    let empty = number_by_use(&vec![]);
    assert!(empty.order.is_empty() && empty.numbers.is_empty());
    let all: Vec<u8> = (0..=255).rev().collect();
    let numbering = number_by_use(&all);
    assert_eq!(numbering.order, all);
    assert_eq!(numbering.numbers, (0..=255).collect::<Vec<u8>>());
}

#[test]
fn numbering_keeps_the_colour_of_every_pixel() {
    let palette: Vec<u8> = (10..22).collect();
    let places = vec![3, 0, 3, 1];
    let numbering = number_by_use(&places);
    let colors = pick_colors(&palette, &numbering.order);
    assert_eq!(colors, vec![19, 20, 21, 10, 11, 12, 13, 14, 15]);
    for i in 0..places.len() {
        let (new, old) = (3 * numbering.numbers[i] as usize, 3 * places[i] as usize);
        assert_eq!(colors[new..new + 3], palette[old..old + 3]);
    }
}

#[test]
fn overfilling_takes_all_colours_and_the_last_one_again() {
    let overfilled = |places: Vec<u8>| overfills_palette(&number_by_use(&places).numbers);
    let mut places: Vec<u8> = (0..=255).collect();
    assert!(!overfilled(places.clone()));
    places.push(7);
    assert!(!overfilled(places.clone()));
    places.push(255);
    assert!(overfilled(places));
    assert!(!overfilled(vec![3, 3, 3]));
    assert!(!overfilled(vec![255, 255]));
    assert!(!overfilled(vec![]));
    assert!(overfilled((0..=255).flat_map(|c| [c, c]).collect()));
    assert!(!overfilled((0..=255).rev().chain(1..=255).collect()));
}

#[test]
fn frames_start_at_home() {
    assert_eq!(frame_output("image"), "\u{1b}[Himage");
    assert_eq!(
        emission_for(Encoded::Image(String::from("image"))),
        Emission::Write(String::from("\u{1b}[Himage"))
    );
    assert_eq!(emission_for(Encoded::Failed), Emission::Nothing);
    assert_eq!(emission_for(Encoded::TooLarge), Emission::TooLarge);
}
