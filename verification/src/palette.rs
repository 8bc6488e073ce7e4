//! Extraction of a small set of perceptually distinct colours.
//!
//! The colours of an image are tallied, walked in the order in which the
//! tally hands them out, and accepted greedily: a colour joins the set when
//! it is distinct from every colour accepted before it, until the set is
//! full.

use crate::codec::{dimensions, image_pixels, rgba_pixels};
use crate::color::{distinct, is_distinct, lemma_distinct_symmetric, Rgb};
use crate::grid::Rgba;
use crate::tally::{colors_of, rgb_of, ColorTally};
use vstd::prelude::*;
use vstd::string::*;

verus! {

/// The largest number of colours that a unique colour set holds.
pub const MAX_UNIQUE_COLORS: usize = 20;

/// `c` is distinct from every colour of `accepted`.
pub open spec fn distinct_from_all(c: Rgb, accepted: Seq<Rgb>) -> bool {
    forall|i: int| 0 <= i < accepted.len() ==> distinct(c, #[trigger] accepted[i])
}

/// The set that greedy selection reaches from `accepted` over the remaining
/// `candidates`: candidates are taken in order, each joins when it is
/// distinct from all accepted so far, and nothing is looked at once the set
/// is full.
pub open spec fn select_into(accepted: Seq<Rgb>, candidates: Seq<Rgb>) -> Seq<Rgb>
    decreases candidates.len(),
{
    if candidates.len() == 0 || accepted.len() >= MAX_UNIQUE_COLORS {
        accepted
    } else if distinct_from_all(candidates[0], accepted) {
        select_into(accepted.push(candidates[0]), candidates.drop_first())
    } else {
        select_into(accepted, candidates.drop_first())
    }
}

/// The unique colour set of a sequence of candidates.
pub open spec fn unique_color_set(candidates: Seq<Rgb>) -> Seq<Rgb> {
    select_into(Seq::empty(), candidates)
}

/// Any two different positions of `colors` hold distinct colours.
pub open spec fn pairwise_distinct(colors: Seq<Rgb>) -> bool {
    forall|i: int, j: int|
        0 <= i < colors.len() && 0 <= j < colors.len() && i != j ==> distinct(
            #[trigger] colors[i],
            #[trigger] colors[j],
        )
}

/// Greedy selection keeps what was accepted, never grows past the cap, and
/// keeps the accepted colours pairwise distinct.
pub proof fn lemma_select_into(accepted: Seq<Rgb>, candidates: Seq<Rgb>)
    requires
        pairwise_distinct(accepted),
        accepted.len() <= MAX_UNIQUE_COLORS,
    ensures
        accepted.is_prefix_of(select_into(accepted, candidates)),
        select_into(accepted, candidates).len() <= MAX_UNIQUE_COLORS,
        select_into(accepted, candidates).len() <= accepted.len() + candidates.len(),
        pairwise_distinct(select_into(accepted, candidates)),
        forall|i: int|
            accepted.len() <= i < select_into(accepted, candidates).len() ==> candidates.contains(
                #[trigger] select_into(accepted, candidates)[i],
            ),
    decreases candidates.len(),
{
    if candidates.len() == 0 || accepted.len() >= MAX_UNIQUE_COLORS {
    } else {
        let c = candidates[0];
        let rest = candidates.drop_first();
        let next = if distinct_from_all(c, accepted) {
            accepted.push(c)
        } else {
            accepted
        };
        if distinct_from_all(c, accepted) {
            assert forall|i: int, j: int|
                0 <= i < next.len() && 0 <= j < next.len() && i != j implies distinct(
                #[trigger] next[i],
                #[trigger] next[j],
            ) by {
                if j == accepted.len() {
                    lemma_distinct_symmetric(c, accepted[i]);
                }
            }
        }
        lemma_select_into(next, rest);
        let out = select_into(accepted, candidates);
        assert forall|i: int| accepted.len() <= i < out.len() implies candidates.contains(
            #[trigger] out[i],
        ) by {
            if i < next.len() {
                assert(out[i] == next[i]);
            } else {
                let k = choose|k: int| 0 <= k < rest.len() && rest[k] == out[i];
                assert(candidates[k + 1] == out[i]);
            }
        }
    }
}

/// A unique colour set holds at most `MAX_UNIQUE_COLORS` colours, all of
/// them candidates, and any two of them are distinct.
pub proof fn lemma_unique_color_set(candidates: Seq<Rgb>)
    ensures
        unique_color_set(candidates).len() <= MAX_UNIQUE_COLORS,
        unique_color_set(candidates).len() <= candidates.len(),
        pairwise_distinct(unique_color_set(candidates)),
        forall|i: int|
            0 <= i < unique_color_set(candidates).len() ==> candidates.contains(
                #[trigger] unique_color_set(candidates)[i],
            ),
{
    lemma_select_into(Seq::empty(), candidates);
}

/// The first candidate is always accepted.
pub proof fn lemma_first_candidate_accepted(candidates: Seq<Rgb>)
    requires
        candidates.len() > 0,
    ensures
        unique_color_set(candidates).len() > 0,
        unique_color_set(candidates)[0] == candidates[0],
{
    let first = Seq::<Rgb>::empty().push(candidates[0]);
    lemma_select_into(first, candidates.drop_first());
    assert(first[0] == candidates[0]);
}

/// Tells whether `c` is distinct from every accepted colour.
pub fn is_distinct_from_all(c: Rgb, accepted: &Vec<Rgb>) -> (apart: bool)
    ensures
        apart == distinct_from_all(c, accepted@),
{
    let mut i: usize = 0;
    while i < accepted.len()
        invariant
            i <= accepted.len(),
            forall|k: int| 0 <= k < i ==> distinct(c, #[trigger] accepted@[k]),
        decreases accepted.len() - i,
    {
        if !is_distinct(c, accepted[i]) {
            return false;
        }
        i += 1;
    }
    true
}

/// Selects the unique colour set from the candidates, in their order.
pub fn select_unique_colors(candidates: &Vec<Rgb>) -> (accepted: Vec<Rgb>)
    ensures
        accepted@ == unique_color_set(candidates@),
        accepted@.len() <= MAX_UNIQUE_COLORS,
        pairwise_distinct(accepted@),
{
    let mut accepted: Vec<Rgb> = Vec::new();
    let mut i: usize = 0;
    assert(candidates@.skip(0) == candidates@);
    while i < candidates.len() && accepted.len() < MAX_UNIQUE_COLORS
        invariant
            i <= candidates.len(),
            select_into(accepted@, candidates@.skip(i as int)) == unique_color_set(candidates@),
        decreases candidates.len() - i,
    {
        let c = candidates[i];
        assert(candidates@.skip(i as int).drop_first() == candidates@.skip(i + 1));
        if is_distinct_from_all(c, &accepted) {
            accepted.push(c);
        }
        i += 1;
    }
    proof {
        lemma_unique_color_set(candidates@);
    }
    accepted
}

/// The upper-case hexadecimal digit for a value below sixteen.
pub open spec fn hex_digit(n: int) -> char {
    seq!['0', '1', '2', '3', '4', '5', '6', '7', '8', '9', 'A', 'B', 'C', 'D', 'E', 'F'][n]
}

/// The two hexadecimal digits of a channel, the high one first.
pub open spec fn hex_byte(v: u8) -> Seq<char> {
    seq![hex_digit(v as int / 16), hex_digit(v as int % 16)]
}

/// A colour written as `#RRGGBB`.
pub open spec fn hex_of(c: Rgb) -> Seq<char> {
    seq!['#'] + hex_byte(c.r) + hex_byte(c.g) + hex_byte(c.b)
}

/// The hexadecimal renderings of a sequence of colours.
pub open spec fn hex_palette(colors: Seq<Rgb>) -> Seq<Seq<char>> {
    Seq::new(colors.len(), |i: int| hex_of(colors[i]))
}

fn hex_digit_str(n: u8) -> (s: &'static str)
    requires
        n < 16,
    ensures
        s@ == seq![hex_digit(n as int)],
{
    proof {
        reveal_strlit("0");
        reveal_strlit("1");
        reveal_strlit("2");
        reveal_strlit("3");
        reveal_strlit("4");
        reveal_strlit("5");
        reveal_strlit("6");
        reveal_strlit("7");
        reveal_strlit("8");
        reveal_strlit("9");
        reveal_strlit("A");
        reveal_strlit("B");
        reveal_strlit("C");
        reveal_strlit("D");
        reveal_strlit("E");
        reveal_strlit("F");
    }
    let s = match n {
        0 => "0",
        1 => "1",
        2 => "2",
        3 => "3",
        4 => "4",
        5 => "5",
        6 => "6",
        7 => "7",
        8 => "8",
        9 => "9",
        10 => "A",
        11 => "B",
        12 => "C",
        13 => "D",
        14 => "E",
        _ => "F",
    };
    s
}

fn push_hex_byte(out: &mut String, v: u8)
    ensures
        final(out)@ == old(out)@ + hex_byte(v),
{
    out.append(hex_digit_str(v / 16));
    out.append(hex_digit_str(v % 16));
}

/// Renders a colour as `#RRGGBB`, with upper-case digits.
pub fn hex_color(c: Rgb) -> (s: String)
    ensures
        s@ == hex_of(c),
        s@.len() == 7,
{
    proof {
        reveal_strlit("#");
    }
    let mut s = String::from_str("#");
    push_hex_byte(&mut s, c.r);
    push_hex_byte(&mut s, c.g);
    push_hex_byte(&mut s, c.b);
    s
}

/// Renders each colour of a set as `#RRGGBB`.
pub fn hex_colors(colors: &Vec<Rgb>) -> (out: Vec<String>)
    ensures
        out.deep_view() == hex_palette(colors@),
{
    let mut out: Vec<String> = Vec::new();
    let mut i: usize = 0;
    while i < colors.len()
        invariant
            i <= colors.len(),
            out@.len() == i,
            forall|k: int| 0 <= k < i ==> (#[trigger] out@[k])@ == hex_of(colors@[k]),
        decreases colors.len() - i,
    {
        out.push(hex_color(colors[i]));
        i += 1;
    }
    out
}

/// `order` holds each colour of `colors` exactly once: it is an order in
/// which a tally of `colors` may hand its colours out.
pub open spec fn is_tally_order(order: Seq<Rgb>, colors: Seq<Rgb>) -> bool {
    &&& order.no_duplicates()
    &&& forall|c: Rgb| order.contains(c) <==> colors.contains(c)
}

/// `set` is a unique colour set of the pixels: the one that greedy
/// selection reaches over the colours of the pixels in some tally order.
pub open spec fn is_unique_color_set_of(set: Seq<Rgb>, pixels: Seq<Rgba>) -> bool {
    exists|order: Seq<Rgb>| #[trigger]
        is_tally_order(order, colors_of(pixels)) && set == unique_color_set(order)
}

/// `palette` is the rendering of a unique colour set of the pixels.
pub open spec fn is_palette_of(palette: Seq<Seq<char>>, pixels: Seq<Rgba>) -> bool {
    exists|set: Seq<Rgb>| #[trigger]
        is_unique_color_set_of(set, pixels) && palette == hex_palette(set)
}

/// Pixels of a single colour have that colour as their only unique colour
/// set, and its rendering as their only palette.
pub proof fn lemma_solid_color(pixels: Seq<Rgba>, c: Rgb)
    requires
        pixels.len() > 0,
        forall|i: int| 0 <= i < pixels.len() ==> rgb_of(#[trigger] pixels[i]) == c,
    ensures
        forall|set: Seq<Rgb>| #[trigger] is_unique_color_set_of(set, pixels) ==> set == seq![c],
        forall|palette: Seq<Seq<char>>| #[trigger]
            is_palette_of(palette, pixels) ==> palette == seq![hex_of(c)],
{
    let colors = colors_of(pixels);
    assert forall|set: Seq<Rgb>| #[trigger] is_unique_color_set_of(set, pixels) implies set
        == seq![c] by {
        let order = choose|order: Seq<Rgb>| #[trigger]
            is_tally_order(order, colors) && set == unique_color_set(order);
        assert(colors[0] == c);
        assert(order.contains(c));
        assert forall|i: int| 0 <= i < order.len() implies order[i] == c by {
            assert(colors.contains(order[i]));
        }
        if order.len() > 1 {
            assert(order[0] == order[1]);
        }
        lemma_first_candidate_accepted(order);
        lemma_unique_color_set(order);
    }
    assert forall|palette: Seq<Seq<char>>| #[trigger] is_palette_of(palette, pixels) implies palette
        == seq![hex_of(c)] by {
        let set = choose|set: Seq<Rgb>| #[trigger]
            is_unique_color_set_of(set, pixels) && palette == hex_palette(set);
        assert(set == seq![c]);
    }
}

/// Every unique colour set of any pixels holds at most
/// `MAX_UNIQUE_COLORS` colours, each the colour of some pixel, and any two
/// of them are distinct.
pub proof fn lemma_unique_color_set_of(set: Seq<Rgb>, pixels: Seq<Rgba>)
    requires
        is_unique_color_set_of(set, pixels),
    ensures
        set.len() <= MAX_UNIQUE_COLORS,
        pairwise_distinct(set),
        forall|i: int| 0 <= i < set.len() ==> colors_of(pixels).contains(#[trigger] set[i]),
{
    let order = choose|order: Seq<Rgb>| #[trigger]
        is_tally_order(order, colors_of(pixels)) && set == unique_color_set(order);
    lemma_unique_color_set(order);
}

/// Extracts a unique colour set from pixels: tallies their colours and
/// selects greedily among them, in the order of the tally.
pub fn extract_unique_colors(pixels: &Vec<Rgba>) -> (set: Vec<Rgb>)
    ensures
        is_unique_color_set_of(set@, pixels@),
        set@.len() <= MAX_UNIQUE_COLORS,
        pairwise_distinct(set@),
{
    let tally = ColorTally::of_pixels(pixels);
    let order = tally.colors();
    let set = select_unique_colors(&order);
    proof {
        assert(is_tally_order(order@, colors_of(pixels@)));
    }
    set
}

/// The unique colours of a decoded image, each rendered as `#RRGGBB`.
pub fn unique_colors_of(img: &image::DynamicImage) -> (palette: Vec<String>)
    ensures
        is_palette_of(palette.deep_view(), image_pixels(*img)),
        palette@.len() <= MAX_UNIQUE_COLORS,
{
    let size = dimensions(img);
    let pixels = if size.0 == 0 {
        Vec::new()
    } else {
        rgba_pixels(img)
    };
    assert(pixels@ =~= image_pixels(*img));
    let set = extract_unique_colors(&pixels);
    let palette = hex_colors(&set);
    proof {
        assert(palette.deep_view().len() == palette@.len());
    }
    palette
}

} // verus!
