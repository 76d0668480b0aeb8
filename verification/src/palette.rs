//! Numbering the colours of an image in the order in which they are used.

use vstd::prelude::*;

verus! {

/// The entries of `places` without repetitions, in the order in which they first occur.
pub open spec fn order_of_use(places: Seq<u8>) -> Seq<u8>
    decreases places.len(),
{
    if places.len() == 0 {
        Seq::empty()
    } else {
        let before = order_of_use(places.drop_last());
        if before.contains(places.last()) {
            before
        } else {
            before.push(places.last())
        }
    }
}

/// For every entry of `places`, how many others occur before it first does.
pub open spec fn numbered_by_use(places: Seq<u8>) -> Seq<u8> {
    Seq::new(places.len(), |i: int| order_of_use(places).index_of(places[i]) as u8)
}

/// The colours of a palette, three bytes each, that stand at the given places.
pub open spec fn colors_at(palette: Seq<u8>, places: Seq<u8>) -> Seq<u8> {
    Seq::new(3 * places.len(), |i: int| palette[3 * places[i / 3] + i % 3])
}

/// Whether every entry of `places` is the place of a colour in the palette.
pub open spec fn are_places_in(places: Seq<u8>, palette: Seq<u8>) -> bool {
    forall|i: int| 0 <= i < places.len() ==> 3 * #[trigger] places[i] + 2 < palette.len()
}

/// Whether the last number that a byte can hold occurs more than once.
pub open spec fn overfills(numbers: Seq<u8>) -> bool {
    exists|i: int, j: int|
        0 <= i < j < numbers.len() && #[trigger] numbers[i] == u8::MAX && #[trigger] numbers[j]
            == u8::MAX
}

/// The colours that an image uses, numbered in the order in which it does.
#[derive(PartialEq, Eq, Debug)]
pub struct Numbering {
    /// The place of each colour in the palette.
    pub order: Vec<u8>,
    /// The number of the colour of each pixel.
    pub numbers: Vec<u8>,
}

/// There are no more than 256 different bytes.
proof fn lemma_different_bytes(bytes: Seq<u8>)
    requires
        bytes.no_duplicates(),
    ensures
        bytes.len() <= 256,
{
    let ints = bytes.map_values(|b: u8| b as int);
    assert(ints.no_duplicates());
    ints.unique_seq_to_set();
    vstd::set_lib::lemma_int_range(0, 256);
    assert(ints.to_set().subset_of(vstd::set_lib::set_int_range(0, 256)));
    vstd::set_lib::lemma_len_subset(ints.to_set(), vstd::set_lib::set_int_range(0, 256));
}

/// Every colour is numbered once, and exactly those are that occur; no more than 256 are.
pub proof fn colors_are_numbered_once(places: Seq<u8>)
    ensures
        order_of_use(places).no_duplicates(),
        order_of_use(places).len() <= 256,
        forall|c: u8| #[trigger] order_of_use(places).contains(c) <==> places.contains(c),
    decreases places.len(),
{
    if places.len() > 0 {
        let (less, last) = (places.drop_last(), places.last());
        colors_are_numbered_once(less);
        let (before, after) = (order_of_use(less), order_of_use(places));
        assert(places =~= less.push(last));
        assert forall|c: u8| #[trigger] after.contains(c) <==> places.contains(c) by {
            assert(before.contains(c) <==> less.contains(c));
            if less.contains(c) {
                let i = choose|i: int| 0 <= i < less.len() && less[i] == c;
                assert(places[i] == c);
            }
            assert(places[places.len() - 1] == last);
            if before.contains(c) {
                let i = choose|i: int| 0 <= i < before.len() && before[i] == c;
                assert(after[i] == c);
            }
            if !before.contains(last) {
                assert(after[before.len() as int] == last);
            }
        }
    }
    lemma_different_bytes(order_of_use(places));
}

/// Numbering the colours anew gives every pixel the colour that it had.
pub proof fn numbering_keeps_the_colors(palette: Seq<u8>, places: Seq<u8>, i: int, channel: int)
    requires
        0 <= i < places.len(),
        0 <= channel < 3,
    ensures
        colors_at(palette, order_of_use(places))[3 * numbered_by_use(places)[i] + channel]
            == palette[3 * places[i] + channel],
{
    colors_are_numbered_once(places);
    assert(order_of_use(places).contains(places[i]));
}

/// Numbers the colours of an image in the order in which it uses them, given the place in the
/// palette of the colour of each pixel.
pub fn number_by_use(places: &Vec<u8>) -> (numbering: Numbering)
    ensures
        numbering.order@ == order_of_use(places@),
        numbering.numbers@ == numbered_by_use(places@),
{
    let mut order: Vec<u8> = Vec::new();
    let mut numbers: Vec<u8> = Vec::new();
    let mut number_of: Vec<Option<u8>> = Vec::new();
    number_of.resize(256, None);
    for k in 0..places.len()
        invariant
            order@ == order_of_use(places@.take(k as int)),
            number_of@.len() == 256,
            forall|c: u8|
                match #[trigger] number_of@[c as int] {
                    Some(number) => number < order@.len() && order@[number as int] == c,
                    None => !order@.contains(c),
                },
            numbers@.len() == k,
            forall|i: int|
                0 <= i < k ==> (#[trigger] numbers@[i]) < order@.len() && order@[numbers@[i] as int]
                    == places@[i],
    {
        let place: u8 = places[k];
        let ghost before = places@.take(k as int);
        assert(places@.take(k + 1) =~= before.push(place));
        assert(before.push(place).drop_last() =~= before);
        proof {
            colors_are_numbered_once(before);
            colors_are_numbered_once(before.push(place));
        }
        let number: u8 = match number_of[place as usize] {
            Some(number) => number,
            None => {
                let number: u8 = order.len() as u8;
                let ghost known = order@;
                order.push(place);
                number_of.set(place as usize, Some(number));
                assert forall|c: u8| known.contains(c) || c == place implies #[trigger] order@.contains(
                    c,
                ) by {
                    if known.contains(c) {
                        let i = choose|i: int| 0 <= i < known.len() && known[i] == c;
                        assert(order@[i] == c);
                    } else {
                        assert(order@[known.len() as int] == c);
                    }
                }
                number
            },
        };
        numbers.push(number);
    }
    proof {
        let all = places@;
        assert(all.take(all.len() as int) =~= all);
        colors_are_numbered_once(all);
        assert forall|i: int| 0 <= i < all.len() implies numbers@[i] == numbered_by_use(all)[i] by {
            assert(order@[numbers@[i] as int] == all[i]);
            assert(order@.contains(all[i]));
        }
        assert(numbers@ =~= numbered_by_use(all));
    }
    Numbering { order, numbers }
}

/// Returns the colours of a palette that stand at the given places.
pub fn pick_colors(palette: &Vec<u8>, places: &Vec<u8>) -> (colors: Vec<u8>)
    requires
        are_places_in(places@, palette@),
    ensures
        colors@ == colors_at(palette@, places@),
{
    let mut colors: Vec<u8> = Vec::new();
    for k in 0..places.len()
        invariant
            are_places_in(places@, palette@),
            colors@ == colors_at(palette@, places@.take(k as int)),
    {
        let start: usize = 3 * places[k] as usize;
        colors.push(palette[start]);
        colors.push(palette[start + 1]);
        colors.push(palette[start + 2]);
        assert(colors@ =~= colors_at(palette@, places@.take(k + 1)));
    }
    assert(places@.take(places@.len() as int) =~= places@);
    colors
}

/// Tests whether the last number that a byte can hold occurs more than once.
pub fn overfills_palette(numbers: &Vec<u8>) -> (over: bool)
    ensures
        over == overfills(numbers@),
{
    let mut found: bool = false;
    for k in 0..numbers.len()
        invariant
            found ==> exists|i: int| 0 <= i < k && #[trigger] numbers@[i] == u8::MAX,
            !found ==> forall|i: int| 0 <= i < k ==> #[trigger] numbers@[i] != u8::MAX,
            forall|i: int, j: int|
                0 <= i < j < k ==> #[trigger] numbers@[i] != u8::MAX || #[trigger] numbers@[j]
                    != u8::MAX,
    {
        if numbers[k] == u8::MAX {
            if found {
                return true;
            }
            found = true;
        }
    }
    false
}

/// Colours are numbered in the order in which they are first used: wherever a colour is used, every
/// colour with a smaller number has been used before.
pub proof fn numbers_follow_the_first_use(places: Seq<u8>, a: int, b: int, j: int) -> (i: int)
    requires
        0 <= a < b < order_of_use(places).len(),
        0 <= j < places.len(),
        places[j] == order_of_use(places)[b],
    ensures
        0 <= i < j,
        places[i] == order_of_use(places)[a],
    decreases places.len(),
{
    let (less, last) = (places.drop_last(), places.last());
    let before = order_of_use(less);
    colors_are_numbered_once(less);
    if b < before.len() {
        if j < less.len() {
            numbers_follow_the_first_use(less, a, b, j)
        } else {
            assert(before.contains(before[b]));
            let first = choose|n: int| 0 <= n < less.len() && less[n] == before[b];
            numbers_follow_the_first_use(less, a, b, first)
        }
    } else {
        assert(order_of_use(places)[b] == last);
        if j < less.len() {
            assert(less[j] == last);
            assert(less.contains(last));
            assert(before.contains(last));
            assert(false);
        }
        assert(before.contains(before[a]));
        choose|n: int| 0 <= n < less.len() && less[n] == before[a]
    }
}

/// The number of a pixel is the place of its colour in the order of use; pixels have the same number
/// exactly when they have the same colour.
pub proof fn numbers_tell_the_colors(places: Seq<u8>, i: int, j: int)
    requires
        0 <= i < places.len(),
        0 <= j < places.len(),
    ensures
        numbered_by_use(places).len() == places.len(),
        numbered_by_use(places)[i] < order_of_use(places).len(),
        order_of_use(places)[numbered_by_use(places)[i] as int] == places[i],
        numbered_by_use(places)[i] == numbered_by_use(places)[j] <==> places[i] == places[j],
{
    colors_are_numbered_once(places);
    assert(order_of_use(places).contains(places[i]));
    assert(order_of_use(places).contains(places[j]));
}

/// Numbers overfill a byte when two pixels have the number 255, and only then: an image has to use
/// 256 colours, and the last new one twice.
pub proof fn overfilling_takes_the_last_color_twice(places: Seq<u8>, i: int, j: int)
    requires
        0 <= i < j < places.len(),
    ensures
        order_of_use(places).len() == 256 && places[i] == order_of_use(places)[255] && places[j]
            == order_of_use(places)[255] ==> overfills(numbered_by_use(places)),
        order_of_use(places).len() < 256 ==> !overfills(numbered_by_use(places)),
        !overfills(numbered_by_use(places)) ==> numbered_by_use(places)[i] != 255
            || numbered_by_use(places)[j] != 255,
{
    let (order, numbers) = (order_of_use(places), numbered_by_use(places));
    colors_are_numbered_once(places);
    numbers_tell_the_colors(places, i, j);
    numbers_tell_the_colors(places, j, i);
    if order.len() == 256 && places[i] == order[255] && places[j] == order[255] {
        assert(numbers[i] == 255 && numbers[j] == 255);
    }
    if overfills(numbers) {
        let (a, b) = choose|a: int, b: int|
            0 <= a < b < numbers.len() && #[trigger] numbers[a] == u8::MAX && #[trigger] numbers[b]
                == u8::MAX;
        numbers_tell_the_colors(places, a, b);
    }
}

/// The colours at given places are theirs in the palette, channel by channel, and no others.
pub proof fn colors_are_those_of_the_palette(palette: Seq<u8>, places: Seq<u8>, k: int, channel: int)
    requires
        0 <= k < places.len(),
        0 <= channel < 3,
    ensures
        colors_at(palette, places).len() == 3 * places.len(),
        colors_at(palette, places)[3 * k + channel] == palette[3 * places[k] + channel],
{
}

/// Any two entries of 255 overfill a byte, wherever they stand, and nothing else does.
pub proof fn two_last_numbers_overfill(numbers: Seq<u8>)
    ensures
        overfills(numbers) <==> exists|i: int, j: int|
            0 <= i < j < numbers.len() && #[trigger] numbers[i] == 255 && #[trigger] numbers[j]
                == 255,
{
}

} // verus!
