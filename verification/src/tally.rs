//! The colour tally: how often each colour occurs among the pixels of an image.

use crate::color::Rgb;
use crate::grid::Rgba;
use std::collections::HashMap;
use vstd::prelude::*;
use vstd::std_specs::iter::IteratorSpec;

verus! {

broadcast use vstd::std_specs::hash::group_hash_axioms;

/// Number of different colours: every key of a tally lies below it.
const COLOR_COUNT: u32 = 0x100_0000;

/// The colour of a pixel: its red, green and blue channels, without alpha.
pub open spec fn rgb_of(pixel: Rgba) -> Rgb {
    Rgb { r: pixel.0, g: pixel.1, b: pixel.2 }
}

/// The colours of a sequence of pixels, in the same order.
pub open spec fn colors_of(pixels: Seq<Rgba>) -> Seq<Rgb> {
    Seq::new(pixels.len(), |i: int| rgb_of(pixels[i]))
}

/// The tally of a sequence of colours: each colour that occurs, with the
/// number of its occurrences.
pub open spec fn tally_of(colors: Seq<Rgb>) -> Map<Rgb, nat> {
    Map::new(|c: Rgb| colors.contains(c), |c: Rgb| colors.to_multiset().count(c))
}

/// The integer under which a colour is filed.
spec fn color_key(c: Rgb) -> u32 {
    (c.r as int * 65536 + c.g as int * 256 + c.b as int) as u32
}

/// The colour filed under a key.
spec fn key_color(k: u32) -> Rgb {
    Rgb { r: (k / 65536 % 256) as u8, g: (k / 256 % 256) as u8, b: (k % 256) as u8 }
}

proof fn lemma_key_round_trip(c: Rgb)
    ensures
        color_key(c) < COLOR_COUNT,
        key_color(color_key(c)) == c,
{
}

proof fn lemma_color_round_trip(k: u32)
    requires
        k < COLOR_COUNT,
    ensures
        color_key(key_color(k)) == k,
{
}

fn pack_color(c: Rgb) -> (k: u32)
    ensures
        k == color_key(c),
        k < COLOR_COUNT,
{
    c.r as u32 * 65536 + c.g as u32 * 256 + c.b as u32
}

fn unpack_color(k: u32) -> (c: Rgb)
    ensures
        c == key_color(k),
{
    Rgb { r: (k / 65536 % 256) as u8, g: (k / 256 % 256) as u8, b: (k % 256) as u8 }
}

/// Drops the alpha channel of a pixel.
pub fn pixel_color(pixel: Rgba) -> (c: Rgb)
    ensures
        c == rgb_of(pixel),
{
    Rgb { r: pixel.0, g: pixel.1, b: pixel.2 }
}

/// A mapping from each colour that occurs to the number of its occurrences.
pub struct ColorTally {
    counts: HashMap<u32, u64>,
}

impl View for ColorTally {
    type V = Map<Rgb, nat>;

    closed spec fn view(&self) -> Map<Rgb, nat> {
        Map::new(
            |c: Rgb| self.counts@.contains_key(color_key(c)),
            |c: Rgb| self.counts@[color_key(c)] as nat,
        )
    }
}

impl ColorTally {
    #[verifier::type_invariant]
    spec fn keys_are_colors(self) -> bool {
        forall|k: u32| self.counts@.contains_key(k) ==> k < COLOR_COUNT
    }

    /// Tallies the colours of a sequence of pixels.
    pub fn of_pixels(pixels: &Vec<Rgba>) -> (tally: ColorTally)
        ensures
            tally@ == tally_of(colors_of(pixels@)),
    {
        let ghost colors = colors_of(pixels@);
        let mut counts: HashMap<u32, u64> = HashMap::new();
        let mut i: usize = 0;
        while i < pixels.len()
            invariant
                i <= pixels.len(),
                colors == colors_of(pixels@),
                forall|k: u32| counts@.contains_key(k) ==> k < COLOR_COUNT,
                forall|k: u32|
                    counts@.contains_key(k) ==> colors.take(i as int).contains(key_color(k)),
                forall|c: Rgb|
                    colors.take(i as int).contains(c) ==> counts@.contains_key(color_key(c)),
                forall|k: u32| #[trigger]
                    counts@.contains_key(k) ==> counts@[k] == colors.take(
                        i as int,
                    ).to_multiset().count(key_color(k)),
                forall|k: u32| #[trigger] counts@.contains_key(k) ==> counts@[k] <= i,
            decreases pixels.len() - i,
        {
            let color = pixel_color(pixels[i]);
            let key = pack_color(color);
            let seen: u64 = match counts.get(&key) {
                Some(n) => *n,
                None => 0,
            };
            let ghost before = colors.take(i as int);
            let ghost after = colors.take(i + 1);
            proof {
                lemma_key_round_trip(color);
                assert(after == before.push(color));
                vstd::seq_lib::to_multiset_build(before, color);
                if !counts@.contains_key(key) {
                    if before.to_multiset().count(color) > 0 {
                        vstd::seq_lib::to_multiset_contains(before, color);
                    }
                }
                assert forall|c: Rgb| after.contains(c) implies c == color || before.contains(
                    c,
                ) by {
                    let j = choose|j: int| 0 <= j < after.len() && after[j] == c;
                    if j < i {
                        assert(before[j] == c);
                    }
                }
                assert forall|c: Rgb| before.contains(c) implies after.contains(c) by {
                    let j = choose|j: int| 0 <= j < before.len() && before[j] == c;
                    assert(after[j] == c);
                }
                assert(after[i as int] == color);
            }
            counts.insert(key, seen + 1);
            proof {
                assert forall|k: u32| #[trigger] counts@.contains_key(k) implies counts@[k]
                    == after.to_multiset().count(key_color(k)) by {
                    if k != key {
                        lemma_color_round_trip(k);
                    }
                }
            }
            i += 1;
        }
        let tally = ColorTally { counts };
        proof {
            assert(colors.take(i as int) == colors);
            assert forall|c: Rgb| tally@.contains_key(c) <==> tally_of(colors).contains_key(c) by {
                lemma_key_round_trip(c);
            }
            assert forall|c: Rgb| tally@.contains_key(c) implies tally@[c] == tally_of(
                colors,
            )[c] by {
                lemma_key_round_trip(c);
            }
        }
        tally
    }

    /// The number of occurrences of a colour, zero when it does not occur.
    pub fn count(&self, color: Rgb) -> (n: u64)
        ensures
            n == if self@.contains_key(color) { self@[color] } else { 0 },
    {
        let key = pack_color(color);
        match self.counts.get(&key) {
            Some(n) => *n,
            None => 0,
        }
    }

    /// The colours of the tally, each once, in the order in which the tally
    /// hands them out. That order is not fixed.
    pub fn colors(&self) -> (order: Vec<Rgb>)
        ensures
            order@.no_duplicates(),
            forall|c: Rgb| order@.contains(c) <==> self@.contains_key(c),
    {
        proof {
            use_type_invariant(self);
        }
        let mut order: Vec<Rgb> = Vec::new();
        let ghost keys = self.counts.keys().remaining();
        for key in it: self.counts.keys()
            invariant
                it.seq() == keys,
                order@.len() == it.index(),
                forall|k: int| 0 <= k < order@.len() ==> order@[k] == key_color(*keys[k]),
        {
            order.push(unpack_color(*key));
        }
        proof {
            assert forall|i: int, j: int|
                0 <= i < order@.len() && 0 <= j < order@.len() && i != j implies order@[i]
                != order@[j] by {
                assert(keys.unref()[i] == *keys[i]);
                assert(keys.unref()[j] == *keys[j]);
                assert(keys.unref().to_set().contains(*keys[i]));
                assert(keys.unref().to_set().contains(*keys[j]));
                lemma_color_round_trip(*keys[i]);
                lemma_color_round_trip(*keys[j]);
            }
            assert forall|c: Rgb| order@.contains(c) <==> self@.contains_key(c) by {
                lemma_key_round_trip(c);
                if order@.contains(c) {
                    let i = choose|i: int| 0 <= i < order@.len() && order@[i] == c;
                    assert(keys.unref()[i] == *keys[i]);
                    assert(keys.unref().to_set().contains(*keys[i]));
                    lemma_color_round_trip(*keys[i]);
                }
                if self@.contains_key(c) {
                    let i = choose|i: int|
                        0 <= i < keys.unref().len() && keys.unref()[i] == color_key(c);
                    assert(order@[i] == c);
                }
            }
        }
        order
    }
}

} // verus!
