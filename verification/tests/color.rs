use image_kit::color::{
    hsb_diff, is_distinct, rgb_to_hsb, Hsb, HsbDiff, Ratio, Rgb, BRIGHTNESS_THRESHOLD_DEN,
    BRIGHTNESS_THRESHOLD_NUM, HUE_THRESHOLD_DEGREES, SATURATION_THRESHOLD_DEN,
    SATURATION_THRESHOLD_NUM,
};

fn value(r: Ratio) -> f64 {
    r.num as f64 / r.den as f64
}

fn rgb(r: u8, g: u8, b: u8) -> Rgb {
    Rgb { r, g, b }
}

#[test]
fn ratio_comparison_is_exact() {
    let a = Ratio { num: 1, den: 3 };
    let b = Ratio { num: 33, den: 100 };
    assert!(a.is_greater_than(&b));
    assert!(!b.is_greater_than(&a));
    let c = Ratio { num: 2, den: 6 };
    assert!(!a.is_greater_than(&c));
    assert!(!c.is_greater_than(&a));
}

#[test]
fn ratio_comparison_handles_large_terms() {
    let a = Ratio { num: u32::MAX, den: u32::MAX - 1 };
    let b = Ratio { num: u32::MAX - 1, den: u32::MAX };
    assert!(a.is_greater_than(&b));
    assert!(!b.is_greater_than(&a));
}

#[test]
fn thresholds_are_a_tenth_and_ten_degrees() {
    assert_eq!((SATURATION_THRESHOLD_NUM, SATURATION_THRESHOLD_DEN), (1, 10));
    assert_eq!((BRIGHTNESS_THRESHOLD_NUM, BRIGHTNESS_THRESHOLD_DEN), (1, 10));
    assert_eq!(HUE_THRESHOLD_DEGREES, 10);
}

#[test]
fn black_has_zero_hue_saturation_and_brightness() {
    let hsb = rgb_to_hsb(rgb(0, 0, 0));
    assert_eq!(value(hsb.hue), 0.0);
    assert_eq!(value(hsb.saturation), 0.0);
    assert_eq!(value(hsb.brightness), 0.0);
    assert_eq!(
        hsb,
        Hsb {
            hue: Ratio { num: 0, den: 1 },
            saturation: Ratio { num: 0, den: 1 },
            brightness: Ratio { num: 0, den: 255 },
        }
    );
}

#[test]
fn pure_red_has_zero_hue_and_full_saturation_and_brightness() {
    let hsb = rgb_to_hsb(rgb(255, 0, 0));
    assert!(value(hsb.hue).abs() < 1e-9);
    assert_eq!(value(hsb.saturation), 1.0);
    assert_eq!(value(hsb.brightness), 1.0);
}

#[test]
fn primary_and_secondary_hues() {
    assert_eq!(value(rgb_to_hsb(rgb(255, 255, 0)).hue), 60.0);
    assert_eq!(value(rgb_to_hsb(rgb(0, 255, 0)).hue), 120.0);
    assert_eq!(value(rgb_to_hsb(rgb(0, 255, 255)).hue), 180.0);
    assert_eq!(value(rgb_to_hsb(rgb(0, 0, 255)).hue), 240.0);
    assert_eq!(value(rgb_to_hsb(rgb(255, 0, 255)).hue), 300.0);
}

#[test]
fn hue_stays_below_a_full_circle() {
    let hsb = rgb_to_hsb(rgb(255, 0, 128));
    assert_eq!(hsb.hue, Ratio { num: 84120, den: 255 });
    assert!(value(hsb.hue) > 329.8 && value(hsb.hue) < 329.9);
    let nearly_red = rgb_to_hsb(rgb(255, 0, 1));
    assert!(value(nearly_red.hue) < 360.0);
    assert!(value(nearly_red.hue) > 359.0);
}

#[test]
fn hue_of_each_sector() {
    assert_eq!(rgb_to_hsb(rgb(200, 150, 100)).hue, Ratio { num: 3000, den: 100 });
    assert_eq!(rgb_to_hsb(rgb(100, 200, 150)).hue, Ratio { num: 15000, den: 100 });
    assert_eq!(rgb_to_hsb(rgb(150, 200, 100)).hue, Ratio { num: 9000, den: 100 });
    assert_eq!(rgb_to_hsb(rgb(150, 100, 200)).hue, Ratio { num: 27000, den: 100 });
    assert_eq!(rgb_to_hsb(rgb(100, 150, 200)).hue, Ratio { num: 21000, den: 100 });
}

#[test]
fn grey_has_no_hue_and_no_saturation() {
    let hsb = rgb_to_hsb(rgb(128, 128, 128));
    assert_eq!(hsb.hue, Ratio { num: 0, den: 1 });
    assert_eq!(hsb.saturation, Ratio { num: 0, den: 128 });
    assert_eq!(hsb.brightness, Ratio { num: 128, den: 255 });
}

#[test]
fn saturation_is_chroma_over_largest_channel() {
    let hsb = rgb_to_hsb(rgb(200, 100, 150));
    assert_eq!(hsb.saturation, Ratio { num: 100, den: 200 });
    assert_eq!(hsb.brightness, Ratio { num: 200, den: 255 });
}

#[test]
fn ties_between_channels_prefer_red_then_green() {
    assert_eq!(value(rgb_to_hsb(rgb(200, 200, 0)).hue), 60.0);
    assert_eq!(value(rgb_to_hsb(rgb(0, 200, 200)).hue), 180.0);
    assert_eq!(value(rgb_to_hsb(rgb(200, 0, 200)).hue), 300.0);
}

#[test]
fn hsb_diff_gives_absolute_distances() {
    let a = rgb_to_hsb(rgb(200, 100, 100));
    let b = rgb_to_hsb(rgb(60, 100, 60));
    let diff = hsb_diff(a, b);
    assert_eq!(
        diff,
        HsbDiff {
            saturation: Ratio { num: 2000, den: 20000 },
            brightness: Ratio { num: 25500, den: 65025 },
            hue: Ratio { num: 480000, den: 4000 },
        }
    );
    assert_eq!(hsb_diff(b, a), diff);
    assert_eq!(value(diff.hue), 120.0);
}

#[test]
fn hsb_diff_of_a_colour_with_itself_is_zero() {
    let a = rgb_to_hsb(rgb(12, 200, 77));
    let diff = hsb_diff(a, a);
    assert_eq!(diff.saturation.num, 0);
    assert_eq!(diff.brightness.num, 0);
    assert_eq!(diff.hue.num, 0);
}

#[test]
fn distinct_needs_all_three_distances() {
    // Far apart in all three.
    assert!(is_distinct(rgb(200, 100, 100), rgb(61, 100, 61)));
    // Same hue.
    assert!(!is_distinct(rgb(200, 100, 100), rgb(100, 61, 61)));
    // Same brightness.
    assert!(!is_distinct(rgb(200, 100, 100), rgb(120, 200, 120)));
    // Same saturation.
    assert!(!is_distinct(rgb(200, 100, 100), rgb(50, 100, 50)));
}

#[test]
fn saturation_threshold_is_strict() {
    // Saturations 0.5 and 0.4: exactly a tenth apart.
    assert!(!is_distinct(rgb(200, 100, 100), rgb(60, 100, 60)));
    // Saturations 0.5 and 0.39.
    assert!(is_distinct(rgb(200, 100, 100), rgb(61, 100, 61)));
    // Saturations 0.5 and 0.41.
    assert!(!is_distinct(rgb(200, 100, 100), rgb(59, 100, 59)));
}

#[test]
fn brightness_threshold_is_strict() {
    // Brightness 255/255 and 229/255 are 26/255 apart, just above a tenth.
    assert!(is_distinct(rgb(255, 0, 0), rgb(100, 229, 150)));
    // 25/255 is just below a tenth.
    assert!(!is_distinct(rgb(255, 0, 0), rgb(100, 230, 150)));
}

#[test]
fn hue_threshold_is_strict() {
    let red = rgb(200, 0, 0);
    let ten_degrees = rgb(120, 70, 60);
    assert_eq!(rgb_to_hsb(ten_degrees).hue, Ratio { num: 600, den: 60 });
    assert!(!is_distinct(red, ten_degrees));
    let eleven_degrees = rgb(120, 71, 60);
    assert_eq!(rgb_to_hsb(eleven_degrees).hue, Ratio { num: 660, den: 60 });
    assert!(is_distinct(red, eleven_degrees));
}

#[test]
fn distinct_is_symmetric() {
    let colors = [
        rgb(0, 0, 0),
        rgb(255, 255, 255),
        rgb(200, 100, 100),
        rgb(61, 100, 61),
        rgb(10, 20, 250),
        rgb(255, 0, 1),
    ];
    for &a in colors.iter() {
        for &b in colors.iter() {
            assert_eq!(is_distinct(a, b), is_distinct(b, a));
        }
    }
}

#[test]
fn no_colour_is_distinct_from_itself() {
    for v in 0..=255u8 {
        let c = rgb(v, 255 - v, v / 2);
        assert!(!is_distinct(c, c));
    }
}
