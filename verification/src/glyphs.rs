//! The box-drawing and shape glyphs that a scramble shows while it settles.

use vstd::prelude::*;

verus! {

/// Every glyph a scrambled cell can show, in table order.
pub open spec fn glyph_table() -> Seq<char> {
    seq![
        '\u{2500}', '\u{2502}', '\u{250C}', '\u{2510}', '\u{2514}', '\u{2518}',
        '\u{251C}', '\u{2524}', '\u{252C}', '\u{2534}', '\u{253C}', '\u{256D}',
        '\u{256E}', '\u{256F}', '\u{2570}', '\u{2571}', '\u{2572}', '\u{2573}',
        '\u{25CB}', '\u{25CF}', '\u{25A0}', '\u{25A1}', '\u{25B2}', '\u{25B3}',
        '\u{25B6}', '\u{25BC}', '\u{25C6}', '\u{25C7}', '\u{25D8}', '\u{25D9}',
        '\u{25E6}', '\u{2605}', '\u{2606}', '\u{2660}', '\u{2663}', '\u{2665}',
        '\u{2666}',
    ]
}

/// The glyph picked by a random roll: the roll indexes the table and is
/// clamped to its last entry.
pub open spec fn glyph_for(roll: int) -> char {
    let last = glyph_table().len() - 1;
    glyph_table()[if roll < last { roll } else { last }]
}

/// Whether `c` is one of the scramble glyphs.
pub open spec fn is_glyph(c: char) -> bool {
    glyph_table().contains(c)
}

/// The number of glyphs in the table.
pub fn glyph_count() -> (n: usize)
    ensures
        n == glyph_table().len(),
{
    37
}

/// The glyph for the random roll `roll` (an index into the table, clamped to
/// its last entry).
pub fn glyph_at(roll: usize) -> (c: char)
    ensures
        c == glyph_for(roll as int),
        is_glyph(c),
        roll < glyph_table().len() ==> c == glyph_table()[roll as int],
        roll >= glyph_table().len() ==> c == glyph_table().last(),
{
    let table: Vec<char> = vec![
        '\u{2500}', '\u{2502}', '\u{250C}', '\u{2510}', '\u{2514}', '\u{2518}',
        '\u{251C}', '\u{2524}', '\u{252C}', '\u{2534}', '\u{253C}', '\u{256D}',
        '\u{256E}', '\u{256F}', '\u{2570}', '\u{2571}', '\u{2572}', '\u{2573}',
        '\u{25CB}', '\u{25CF}', '\u{25A0}', '\u{25A1}', '\u{25B2}', '\u{25B3}',
        '\u{25B6}', '\u{25BC}', '\u{25C6}', '\u{25C7}', '\u{25D8}', '\u{25D9}',
        '\u{25E6}', '\u{2605}', '\u{2606}', '\u{2660}', '\u{2663}', '\u{2665}',
        '\u{2666}',
    ];
    assert(table@ =~= glyph_table());
    let last: usize = table.len() - 1;
    let i: usize = if roll < last { roll } else { last };
    table[i]
}

/// Every roll picks a glyph of the table.
pub proof fn lemma_glyph_for_is_glyph(roll: int)
    requires
        roll >= 0,
    ensures
        is_glyph(glyph_for(roll)),
{
    let last = glyph_table().len() - 1;
    let i = if roll < last { roll } else { last };
    assert(glyph_table()[i] == glyph_for(roll));
}

/// A roll inside the table picks the glyph at that index; only rolls at or
/// past the end are clamped, and they pick the last glyph.
pub proof fn lemma_glyph_for_indexes_table(roll: int)
    requires
        roll >= 0,
    ensures
        roll < glyph_table().len() ==> glyph_for(roll) == glyph_table()[roll],
        roll >= glyph_table().len() - 1 ==> glyph_for(roll) == glyph_table()[36],
        glyph_table().len() == 37,
{
}

} // verus!
