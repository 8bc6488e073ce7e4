use image_kit::color::{is_distinct, Rgb};
use image_kit::palette::{
    extract_unique_colors, hex_color, hex_colors, is_distinct_from_all, select_unique_colors,
    unique_colors_of, MAX_UNIQUE_COLORS,
};
use image_kit::tally::{pixel_color, ColorTally};

fn rgb(r: u8, g: u8, b: u8) -> Rgb {
    Rgb { r, g, b }
}

fn assert_pairwise_distinct(set: &[Rgb]) {
    for i in 0..set.len() {
        for j in 0..set.len() {
            if i != j {
                assert!(is_distinct(set[i], set[j]), "{:?} and {:?}", set[i], set[j]);
            }
        }
    }
}

fn gradient() -> Vec<(u8, u8, u8, u8)> {
    let mut pixels = Vec::new();
    for x in 0..64u32 {
        for y in 0..32u32 {
            pixels.push(((x * 4) as u8, (y * 8) as u8, ((x * 3 + y * 5) % 256) as u8, 255));
        }
    }
    pixels
}

#[test]
fn cap_is_twenty() {
    assert_eq!(MAX_UNIQUE_COLORS, 20);
}

#[test]
fn hex_is_upper_case_and_zero_padded() {
    assert_eq!(hex_color(rgb(255, 0, 10)), "#FF000A");
    assert_eq!(hex_color(rgb(0, 0, 0)), "#000000");
    assert_eq!(hex_color(rgb(171, 205, 239)), "#ABCDEF");
    assert_eq!(hex_color(rgb(1, 35, 69)), "#012345");
    assert_eq!(hex_color(rgb(103, 137, 154)), "#67899A");
}

#[test]
fn hex_of_every_channel_value() {
    for v in 0..=255u8 {
        assert_eq!(hex_color(rgb(v, 255 - v, 0)), format!("#{:02X}{:02X}00", v, 255 - v));
    }
}

#[test]
fn hex_colors_keeps_order() {
    let out = hex_colors(&vec![rgb(1, 2, 3), rgb(250, 251, 252)]);
    assert_eq!(out, vec!["#010203".to_string(), "#FAFBFC".to_string()]);
    assert!(hex_colors(&Vec::new()).is_empty());
}

#[test]
fn pixel_color_drops_alpha() {
    assert_eq!(pixel_color((1, 2, 3, 4)), rgb(1, 2, 3));
    assert_eq!(pixel_color((1, 2, 3, 0)), pixel_color((1, 2, 3, 255)));
}

#[test]
fn tally_counts_each_colour() {
    let pixels = vec![(1, 2, 3, 255), (9, 9, 9, 255), (1, 2, 3, 0), (1, 2, 3, 7)];
    let tally = ColorTally::of_pixels(&pixels);
    assert_eq!(tally.count(rgb(1, 2, 3)), 3);
    assert_eq!(tally.count(rgb(9, 9, 9)), 1);
    assert_eq!(tally.count(rgb(3, 2, 1)), 0);
    let mut colors = tally.colors();
    colors.sort_by_key(|c| (c.r, c.g, c.b));
    assert_eq!(colors, vec![rgb(1, 2, 3), rgb(9, 9, 9)]);
}

#[test]
fn tally_of_nothing_is_empty() {
    let tally = ColorTally::of_pixels(&Vec::new());
    assert!(tally.colors().is_empty());
    assert_eq!(tally.count(rgb(0, 0, 0)), 0);
}

#[test]
fn tally_hands_out_each_colour_once() {
    let pixels = gradient();
    let tally = ColorTally::of_pixels(&pixels);
    let colors = tally.colors();
    let mut sorted: Vec<(u8, u8, u8)> = colors.iter().map(|c| (c.r, c.g, c.b)).collect();
    sorted.sort();
    let before = sorted.len();
    sorted.dedup();
    assert_eq!(sorted.len(), before);
    let mut expected: Vec<(u8, u8, u8)> = pixels.iter().map(|p| (p.0, p.1, p.2)).collect();
    expected.sort();
    expected.dedup();
    assert_eq!(sorted, expected);
    assert!(expected.len() > 1000);
}

#[test]
fn tally_keeps_channels_apart() {
    let pixels = vec![(1, 0, 0, 255), (0, 1, 0, 255), (0, 0, 1, 255), (0, 1, 0, 255)];
    let tally = ColorTally::of_pixels(&pixels);
    assert_eq!(tally.count(rgb(1, 0, 0)), 1);
    assert_eq!(tally.count(rgb(0, 1, 0)), 2);
    assert_eq!(tally.count(rgb(0, 0, 1)), 1);
    assert_eq!(tally.colors().len(), 3);
}

#[test]
fn selection_is_greedy_in_candidate_order() {
    let a = rgb(200, 100, 100);
    let near_a = rgb(201, 100, 100);
    let b = rgb(61, 100, 61);
    assert_eq!(select_unique_colors(&vec![a, near_a, b]), vec![a, b]);
    assert_eq!(select_unique_colors(&vec![near_a, a, b]), vec![near_a, b]);
    assert_eq!(select_unique_colors(&vec![b, a, near_a]), vec![b, a]);
}

#[test]
fn selection_rejects_a_colour_close_to_any_accepted_one() {
    let a = rgb(200, 100, 100);
    let b = rgb(61, 100, 61);
    let near_b = rgb(62, 100, 62);
    assert!(is_distinct(a, near_b));
    assert!(!is_distinct(b, near_b));
    assert_eq!(select_unique_colors(&vec![a, b, near_b]), vec![a, b]);
    assert!(is_distinct_from_all(near_b, &vec![a]));
    assert!(!is_distinct_from_all(near_b, &vec![a, b]));
    assert!(is_distinct_from_all(near_b, &Vec::new()));
}

#[test]
fn selection_of_nothing_is_empty() {
    assert!(select_unique_colors(&Vec::new()).is_empty());
}

#[test]
fn first_candidate_is_always_accepted() {
    for v in [0u8, 1, 100, 255] {
        let c = rgb(v, v / 2, 255 - v);
        assert_eq!(select_unique_colors(&vec![c, c, c])[0], c);
    }
}

#[test]
fn single_colour_gives_one_entry() {
    let pixels = vec![(18, 52, 86, 255); 500];
    assert_eq!(extract_unique_colors(&pixels), vec![rgb(18, 52, 86)]);
    assert_eq!(hex_colors(&extract_unique_colors(&pixels)), vec!["#123456".to_string()]);
}

#[test]
fn no_pixels_give_no_colours() {
    assert!(extract_unique_colors(&Vec::new()).is_empty());
}

#[test]
fn never_more_than_twenty_colours() {
    let pixels = gradient();
    let set = extract_unique_colors(&pixels);
    assert!(!set.is_empty());
    assert!(set.len() <= 20);
}

#[test]
fn accepted_colours_are_pairwise_distinct() {
    let set = extract_unique_colors(&gradient());
    assert_pairwise_distinct(&set);
    let mut all = Vec::new();
    for r in (0..=255u32).step_by(15) {
        for g in (0..=255u32).step_by(17) {
            for b in (0..=255u32).step_by(51) {
                all.push(rgb(r as u8, g as u8, b as u8));
            }
        }
    }
    let chosen = select_unique_colors(&all);
    assert!(chosen.len() <= 20);
    assert_eq!(chosen[0], all[0]);
    assert_pairwise_distinct(&chosen);
}

#[test]
fn accepted_colours_come_from_the_pixels() {
    let pixels = gradient();
    let set = extract_unique_colors(&pixels);
    for c in set {
        assert!(pixels.iter().any(|p| (p.0, p.1, p.2) == (c.r, c.g, c.b)));
    }
}

#[test]
fn unique_colours_of_a_solid_image() {
    let buffer = image::RgbaImage::from_pixel(7, 5, image::Rgba([255, 128, 0, 200]));
    let img = image::DynamicImage::ImageRgba8(buffer);
    assert_eq!(unique_colors_of(&img), vec!["#FF8000".to_string()]);
}

#[test]
fn unique_colours_of_an_empty_image() {
    let img = image::DynamicImage::new_rgba8(0, 3);
    assert!(unique_colors_of(&img).is_empty());
    let img = image::DynamicImage::new_rgb8(3, 0);
    assert!(unique_colors_of(&img).is_empty());
}

#[test]
fn unique_colours_read_every_pixel() {
    let buffer = image::RgbImage::from_fn(2, 2, |x, y| {
        if (x, y) == (1, 1) {
            image::Rgb([61, 100, 61])
        } else {
            image::Rgb([200, 100, 100])
        }
    });
    let img = image::DynamicImage::ImageRgb8(buffer);
    let mut colors = unique_colors_of(&img);
    colors.sort();
    assert_eq!(colors, vec!["#3D643D".to_string(), "#C86464".to_string()]);
}
