//! Colours and their hue, saturation and brightness, in exact arithmetic.
//!
//! Every quantity derived from an eight-bit colour is a fraction of small
//! integers, so the conversions and the comparisons against the distinctness
//! thresholds are carried out on fractions and involve no rounding.

use vstd::prelude::*;

verus! {

/// Largest denominator of a fraction that describes a colour.
pub const CHANNEL_MAX: u32 = 255;

/// Number of degrees in the hue circle.
pub const HUE_CIRCLE: u32 = 360;

/// Numerator of the saturation threshold: saturation distances above
/// `SATURATION_THRESHOLD_NUM / SATURATION_THRESHOLD_DEN` count as distinct.
pub const SATURATION_THRESHOLD_NUM: u32 = 1;

/// Denominator of the saturation threshold.
pub const SATURATION_THRESHOLD_DEN: u32 = 10;

/// Numerator of the brightness threshold: brightness distances above
/// `BRIGHTNESS_THRESHOLD_NUM / BRIGHTNESS_THRESHOLD_DEN` count as distinct.
pub const BRIGHTNESS_THRESHOLD_NUM: u32 = 1;

/// Denominator of the brightness threshold.
pub const BRIGHTNESS_THRESHOLD_DEN: u32 = 10;

/// The hue threshold: hue distances above this many degrees count as
/// distinct.
pub const HUE_THRESHOLD_DEGREES: u32 = 10;

/// An RGB colour with eight bits per channel.
#[derive(Clone, Copy, Debug, PartialEq, Eq, Structural)]
pub struct Rgb {
    pub r: u8,
    pub g: u8,
    pub b: u8,
}

/// A non-negative fraction `num / den`.
#[derive(Clone, Copy, Debug, PartialEq, Eq, Structural)]
pub struct Ratio {
    pub num: u32,
    pub den: u32,
}

/// Hue in degrees, saturation and brightness of a colour.
#[derive(Clone, Copy, Debug, PartialEq, Eq, Structural)]
pub struct Hsb {
    pub hue: Ratio,
    pub saturation: Ratio,
    pub brightness: Ratio,
}

/// The three distances between two colours, in the order saturation,
/// brightness, hue.
#[derive(Clone, Copy, Debug, PartialEq, Eq, Structural)]
pub struct HsbDiff {
    pub saturation: Ratio,
    pub brightness: Ratio,
    pub hue: Ratio,
}

impl Ratio {
    /// `self > other` as fractions.
    pub open spec fn exceeds(self, other: Ratio) -> bool {
        self.num * other.den > other.num * self.den
    }

    /// The fraction `|self - other|`, over the product of the denominators.
    /// It is exact as long as the cross products fit in 32 bits, as they do
    /// for the fractions of a well-formed `Hsb`.
    pub open spec fn distance(self, other: Ratio) -> Ratio {
        let left = self.num * other.den;
        let right = other.num * self.den;
        Ratio {
            num: (if left >= right { left - right } else { right - left }) as u32,
            den: (self.den * other.den) as u32,
        }
    }

    /// Tells whether this fraction is strictly larger than `other`.
    pub fn is_greater_than(&self, other: &Ratio) -> (greater: bool)
        ensures
            greater == self.exceeds(*other),
    {
        proof {
            lemma_product_fits(self.num, other.den);
            lemma_product_fits(other.num, self.den);
        }
        let left: u64 = self.num as u64 * other.den as u64;
        let right: u64 = other.num as u64 * self.den as u64;
        left > right
    }
}

/// The product of two 32-bit numbers fits in 64 bits.
proof fn lemma_product_fits(a: u32, b: u32)
    ensures
        0 <= a * b <= u64::MAX,
{
    assert(0 <= a * b <= 0xffff_ffff * 0xffff_ffff) by (nonlinear_arith)
        requires
            0 <= a <= 0xffff_ffff,
            0 <= b <= 0xffff_ffff,
    ;
}

impl Rgb {
    /// The largest of the three channels.
    pub open spec fn max_channel(self) -> int {
        if self.r >= self.g && self.r >= self.b {
            self.r as int
        } else if self.g >= self.b {
            self.g as int
        } else {
            self.b as int
        }
    }

    /// The smallest of the three channels.
    pub open spec fn min_channel(self) -> int {
        if self.r <= self.g && self.r <= self.b {
            self.r as int
        } else if self.g <= self.b {
            self.g as int
        } else {
            self.b as int
        }
    }

    /// The spread between the largest and the smallest channel.
    pub open spec fn chroma(self) -> int {
        self.max_channel() - self.min_channel()
    }

    /// The hue in degrees, multiplied by the chroma. The hue follows the
    /// sixty-degree sector formula, by the channel that is largest (red
    /// before green before blue on ties), and lies in `[0, 360)`.
    pub open spec fn hue_times_chroma(self) -> int {
        let d = self.chroma();
        if d == 0 {
            0
        } else if self.max_channel() == self.r {
            if self.g >= self.b {
                60 * (self.g - self.b)
            } else {
                60 * (self.g - self.b) + 360 * d
            }
        } else if self.max_channel() == self.g {
            60 * (self.b - self.r) + 120 * d
        } else {
            60 * (self.r - self.g) + 240 * d
        }
    }
}

impl Hsb {
    /// Hue lies in `[0, 360)`, saturation and brightness in `[0, 1]`, and
    /// each is a fraction over a denominator of at most `CHANNEL_MAX`.
    pub open spec fn well_formed(self) -> bool {
        &&& 0 < self.hue.den <= CHANNEL_MAX
        &&& self.hue.num < HUE_CIRCLE * self.hue.den
        &&& 0 < self.saturation.den <= CHANNEL_MAX
        &&& self.saturation.num <= self.saturation.den
        &&& 0 < self.brightness.den <= CHANNEL_MAX
        &&& self.brightness.num <= self.brightness.den
    }
}

/// Hue, saturation and brightness of a colour: brightness is the largest
/// channel over 255, saturation the chroma over the largest channel (zero
/// for black), and the hue is zero for every grey.
pub open spec fn hsb_of(c: Rgb) -> Hsb {
    Hsb {
        hue: Ratio {
            num: c.hue_times_chroma() as u32,
            den: (if c.chroma() == 0 { 1 } else { c.chroma() }) as u32,
        },
        saturation: Ratio {
            num: c.chroma() as u32,
            den: (if c.max_channel() == 0 { 1 } else { c.max_channel() }) as u32,
        },
        brightness: Ratio { num: c.max_channel() as u32, den: CHANNEL_MAX },
    }
}

/// The distances between two colours on each of the three axes.
pub open spec fn hsb_distance(a: Hsb, b: Hsb) -> HsbDiff {
    HsbDiff {
        saturation: a.saturation.distance(b.saturation),
        brightness: a.brightness.distance(b.brightness),
        hue: a.hue.distance(b.hue),
    }
}

/// All three distances are strictly above their thresholds.
pub open spec fn clearly_apart(d: HsbDiff) -> bool {
    &&& d.saturation.exceeds(
        Ratio { num: SATURATION_THRESHOLD_NUM, den: SATURATION_THRESHOLD_DEN },
    )
    &&& d.brightness.exceeds(
        Ratio { num: BRIGHTNESS_THRESHOLD_NUM, den: BRIGHTNESS_THRESHOLD_DEN },
    )
    &&& d.hue.exceeds(Ratio { num: HUE_THRESHOLD_DEGREES, den: 1 })
}

/// Two colours are perceptually distinct when they are clearly apart in
/// saturation, in brightness and in hue at once.
pub open spec fn distinct(a: Rgb, b: Rgb) -> bool {
    clearly_apart(hsb_distance(hsb_of(a), hsb_of(b)))
}

/// Converts a colour to hue, saturation and brightness.
pub fn rgb_to_hsb(rgb: Rgb) -> (hsb: Hsb)
    ensures
        hsb == hsb_of(rgb),
        hsb.well_formed(),
{
    let r: u32 = rgb.r as u32;
    let g: u32 = rgb.g as u32;
    let b: u32 = rgb.b as u32;
    let max: u32 = if r >= g && r >= b { r } else if g >= b { g } else { b };
    let min: u32 = if r <= g && r <= b { r } else if g <= b { g } else { b };
    let delta: u32 = max - min;
    let hue: Ratio = if delta == 0 {
        Ratio { num: 0, den: 1 }
    } else if max == r {
        if g >= b {
            Ratio { num: 60 * (g - b), den: delta }
        } else {
            Ratio { num: HUE_CIRCLE * delta - 60 * (b - g), den: delta }
        }
    } else if max == g {
        if b >= r {
            Ratio { num: 120 * delta + 60 * (b - r), den: delta }
        } else {
            Ratio { num: 120 * delta - 60 * (r - b), den: delta }
        }
    } else {
        if r >= g {
            Ratio { num: 240 * delta + 60 * (r - g), den: delta }
        } else {
            Ratio { num: 240 * delta - 60 * (g - r), den: delta }
        }
    };
    let saturation: Ratio = if max == 0 {
        Ratio { num: 0, den: 1 }
    } else {
        Ratio { num: delta, den: max }
    };
    Hsb { hue, saturation, brightness: Ratio { num: max, den: CHANNEL_MAX } }
}

/// Distances in saturation, brightness and hue between two colours.
pub fn hsb_diff(hsb1: Hsb, hsb2: Hsb) -> (diff: HsbDiff)
    requires
        hsb1.well_formed(),
        hsb2.well_formed(),
    ensures
        diff == hsb_distance(hsb1, hsb2),
{
    HsbDiff {
        saturation: ratio_distance(hsb1.saturation, hsb2.saturation, 1),
        brightness: ratio_distance(hsb1.brightness, hsb2.brightness, 1),
        hue: ratio_distance(hsb1.hue, hsb2.hue, HUE_CIRCLE),
    }
}

/// `|a - b|` for two fractions of value at most `bound` over small
/// denominators.
fn ratio_distance(a: Ratio, b: Ratio, bound: u32) -> (d: Ratio)
    requires
        0 < a.den <= CHANNEL_MAX,
        0 < b.den <= CHANNEL_MAX,
        a.num <= bound * a.den,
        b.num <= bound * b.den,
        bound <= HUE_CIRCLE,
    ensures
        d == a.distance(b),
        d.den == a.den * b.den,
        0 < d.den <= CHANNEL_MAX * CHANNEL_MAX,
        d.num <= bound * d.den,
{
    proof {
        lemma_cross_products(a, b, bound);
    }
    let left: u32 = a.num * b.den;
    let right: u32 = b.num * a.den;
    let num: u32 = if left >= right { left - right } else { right - left };
    Ratio { num, den: a.den * b.den }
}

/// Bounds on the cross products of two bounded fractions.
proof fn lemma_cross_products(a: Ratio, b: Ratio, bound: u32)
    requires
        0 < a.den <= CHANNEL_MAX,
        0 < b.den <= CHANNEL_MAX,
        a.num <= bound * a.den,
        b.num <= bound * b.den,
        bound <= HUE_CIRCLE,
    ensures
        0 < a.den * b.den <= CHANNEL_MAX * CHANNEL_MAX,
        a.num * b.den <= bound * (a.den * b.den),
        b.num * a.den <= bound * (a.den * b.den),
        bound * (a.den * b.den) <= HUE_CIRCLE * CHANNEL_MAX * CHANNEL_MAX,
{
    assert(0 < a.den * b.den <= 255 * 255) by (nonlinear_arith)
        requires
            0 < a.den <= 255,
            0 < b.den <= 255,
    ;
    assert(a.num * b.den <= bound * (a.den * b.den)) by (nonlinear_arith)
        requires
            a.num <= bound * a.den,
            0 < b.den,
    ;
    assert(b.num * a.den <= bound * (a.den * b.den)) by (nonlinear_arith)
        requires
            b.num <= bound * b.den,
            0 < a.den,
    ;
    assert(bound * (a.den * b.den) <= 360 * 255 * 255) by (nonlinear_arith)
        requires
            0 <= bound <= 360,
            0 < a.den * b.den <= 255 * 255,
    ;
}

/// Tells whether two colours are perceptually distinct.
pub fn is_distinct(a: Rgb, b: Rgb) -> (apart: bool)
    ensures
        apart == distinct(a, b),
{
    let diff = hsb_diff(rgb_to_hsb(a), rgb_to_hsb(b));
    let saturation = Ratio { num: SATURATION_THRESHOLD_NUM, den: SATURATION_THRESHOLD_DEN };
    let brightness = Ratio { num: BRIGHTNESS_THRESHOLD_NUM, den: BRIGHTNESS_THRESHOLD_DEN };
    let hue = Ratio { num: HUE_THRESHOLD_DEGREES, den: 1 };
    diff.saturation.is_greater_than(&saturation) && diff.brightness.is_greater_than(&brightness)
        && diff.hue.is_greater_than(&hue)
}

/// Distinctness does not depend on the order of the two colours.
pub proof fn lemma_distinct_symmetric(a: Rgb, b: Rgb)
    ensures
        distinct(a, b) == distinct(b, a),
{
    let x = hsb_of(a);
    let y = hsb_of(b);
    lemma_distance_symmetric(x.saturation, y.saturation);
    lemma_distance_symmetric(x.brightness, y.brightness);
    lemma_distance_symmetric(x.hue, y.hue);
}

/// The distance between two fractions does not depend on their order.
pub proof fn lemma_distance_symmetric(a: Ratio, b: Ratio)
    ensures
        a.distance(b) == b.distance(a),
{
    assert(a.den * b.den == b.den * a.den) by (nonlinear_arith);
}

} // verus!
