//! What the keys of the alphabet look like: their lengths, the absence of
//! spaces in them, and which codepoints form keys of each length.
use vstd::prelude::*;

use crate::alphabet::{first_match, lookup_glyph, phoneme_table};

verus! {

/// A key found by `first_match` is the key of one of the entries.
pub proof fn lemma_first_match_key(entries: Seq<(Seq<char>, char)>, w: Seq<char>)
    requires
        first_match(entries, w) is Some,
    ensures
        exists|i: int| 0 <= i < entries.len() && #[trigger] entries[i].0 == w,
    decreases entries.len(),
{
    if entries[0].0 != w {
        lemma_first_match_key(entries.drop_first(), w);
        let i = choose|i: int| 0 <= i < entries.len() - 1 && #[trigger] entries.drop_first()[i].0 == w;
        assert(entries[i + 1].0 == w);
    }
}

/// Each key of the alphabet has one to three codepoints, none of them a
/// space.
pub proof fn lemma_key_shape(w: Seq<char>)
    requires
        lookup_glyph(w) is Some,
    ensures
        1 <= w.len() <= 3,
        forall|m: int| 0 <= m < w.len() ==> w[m] != ' ',
{
    lemma_first_match_key(phoneme_table(), w);
    let i = choose|i: int| 0 <= i < phoneme_table().len() && #[trigger] phoneme_table()[i].0 == w;
    assert(1 <= w.len() <= 3 && forall|m: int| 0 <= m < w.len() ==> w[m] != ' ') by {
        if i == 0 {
        } else if i == 1 {
        } else if i == 2 {
        } else if i == 3 {
        } else if i == 4 {
        } else if i == 5 {
        } else if i == 6 {
        } else if i == 7 {
        } else if i == 8 {
        } else if i == 9 {
        } else if i == 10 {
        } else if i == 11 {
        } else if i == 12 {
        } else if i == 13 {
        } else if i == 14 {
        } else if i == 15 {
        } else if i == 16 {
        } else if i == 17 {
        } else if i == 18 {
        } else if i == 19 {
        } else if i == 20 {
        } else if i == 21 {
        } else if i == 22 {
        } else if i == 23 {
        } else if i == 24 {
        } else if i == 25 {
        } else if i == 26 {
        } else if i == 27 {
        } else if i == 28 {
        } else if i == 29 {
        } else if i == 30 {
        } else if i == 31 {
        } else if i == 32 {
        } else if i == 33 {
        } else if i == 34 {
        } else if i == 35 {
        } else if i == 36 {
        } else if i == 37 {
        } else if i == 38 {
        } else if i == 39 {
        } else if i == 40 {
        } else if i == 41 {
        } else if i == 42 {
        } else if i == 43 {
        } else if i == 44 {
        } else if i == 45 {
        } else if i == 46 {
        } else if i == 47 {
        }
    }
}

/// The keys of one codepoint.
pub proof fn lemma_single_keys(c: char)
    requires
        lookup_glyph(seq![c]) is Some,
    ensures
        c == '\u{0070}'
            || c == '\u{0062}'
            || c == '\u{0074}'
            || c == '\u{0064}'
            || c == '\u{006B}'
            || c == '\u{0261}'
            || c == '\u{0066}'
            || c == '\u{0076}'
            || c == '\u{03B8}'
            || c == '\u{00F0}'
            || c == '\u{0073}'
            || c == '\u{007A}'
            || c == '\u{0283}'
            || c == '\u{0292}'
            || c == '\u{006A}'
            || c == '\u{0077}'
            || c == '\u{014B}'
            || c == '\u{0068}'
            || c == '\u{006C}'
            || c == '\u{0072}'
            || c == '\u{006D}'
            || c == '\u{006E}'
            || c == '\u{026A}'
            || c == '\u{025B}'
            || c == '\u{00E6}'
            || c == '\u{0259}'
            || c == '\u{028C}'
            || c == '\u{0252}'
            || c == '\u{028A}',
{
    let w = seq![c];
    lemma_first_match_key(phoneme_table(), w);
    let i = choose|i: int| 0 <= i < phoneme_table().len() && #[trigger] phoneme_table()[i].0 == w;
    assert(phoneme_table()[i].0[0] == c);
        if i == 0 {
            assert(phoneme_table()[0].0 == seq!['\u{0070}']);
        } else if i == 1 {
            assert(phoneme_table()[1].0 == seq!['\u{0062}']);
        } else if i == 2 {
            assert(phoneme_table()[2].0 == seq!['\u{0074}']);
        } else if i == 3 {
            assert(phoneme_table()[3].0 == seq!['\u{0064}']);
        } else if i == 4 {
            assert(phoneme_table()[4].0 == seq!['\u{006B}']);
        } else if i == 5 {
            assert(phoneme_table()[5].0 == seq!['\u{0261}']);
        } else if i == 6 {
            assert(phoneme_table()[6].0 == seq!['\u{0066}']);
        } else if i == 7 {
            assert(phoneme_table()[7].0 == seq!['\u{0076}']);
        } else if i == 8 {
            assert(phoneme_table()[8].0 == seq!['\u{03B8}']);
        } else if i == 9 {
            assert(phoneme_table()[9].0 == seq!['\u{00F0}']);
        } else if i == 10 {
            assert(phoneme_table()[10].0 == seq!['\u{0073}']);
        } else if i == 11 {
            assert(phoneme_table()[11].0 == seq!['\u{007A}']);
        } else if i == 12 {
            assert(phoneme_table()[12].0 == seq!['\u{0283}']);
        } else if i == 13 {
            assert(phoneme_table()[13].0 == seq!['\u{0292}']);
        } else if i == 14 {
            assert(phoneme_table()[14].0 == seq!['\u{0074}', '\u{0283}']);
            assert(phoneme_table()[14].0.len() == 2);
        } else if i == 15 {
            assert(phoneme_table()[15].0 == seq!['\u{0064}', '\u{0292}']);
            assert(phoneme_table()[15].0.len() == 2);
        } else if i == 16 {
            assert(phoneme_table()[16].0 == seq!['\u{006A}']);
        } else if i == 17 {
            assert(phoneme_table()[17].0 == seq!['\u{0077}']);
        } else if i == 18 {
            assert(phoneme_table()[18].0 == seq!['\u{014B}']);
        } else if i == 19 {
            assert(phoneme_table()[19].0 == seq!['\u{0068}']);
        } else if i == 20 {
            assert(phoneme_table()[20].0 == seq!['\u{006C}']);
        } else if i == 21 {
            assert(phoneme_table()[21].0 == seq!['\u{0072}']);
        } else if i == 22 {
            assert(phoneme_table()[22].0 == seq!['\u{006D}']);
        } else if i == 23 {
            assert(phoneme_table()[23].0 == seq!['\u{006E}']);
        } else if i == 24 {
            assert(phoneme_table()[24].0 == seq!['\u{026A}']);
        } else if i == 25 {
            assert(phoneme_table()[25].0 == seq!['\u{0069}', '\u{02D0}']);
            assert(phoneme_table()[25].0.len() == 2);
        } else if i == 26 {
            assert(phoneme_table()[26].0 == seq!['\u{025B}']);
        } else if i == 27 {
            assert(phoneme_table()[27].0 == seq!['\u{0065}', '\u{026A}']);
            assert(phoneme_table()[27].0.len() == 2);
        } else if i == 28 {
            assert(phoneme_table()[28].0 == seq!['\u{00E6}']);
        } else if i == 29 {
            assert(phoneme_table()[29].0 == seq!['\u{0061}', '\u{026A}']);
            assert(phoneme_table()[29].0.len() == 2);
        } else if i == 30 {
            assert(phoneme_table()[30].0 == seq!['\u{0259}']);
        } else if i == 31 {
            assert(phoneme_table()[31].0 == seq!['\u{028C}']);
        } else if i == 32 {
            assert(phoneme_table()[32].0 == seq!['\u{0252}']);
        } else if i == 33 {
            assert(phoneme_table()[33].0 == seq!['\u{006F}', '\u{028A}']);
            assert(phoneme_table()[33].0.len() == 2);
        } else if i == 34 {
            assert(phoneme_table()[34].0 == seq!['\u{028A}']);
        } else if i == 35 {
            assert(phoneme_table()[35].0 == seq!['\u{0075}', '\u{02D0}']);
            assert(phoneme_table()[35].0.len() == 2);
        } else if i == 36 {
            assert(phoneme_table()[36].0 == seq!['\u{0061}', '\u{028A}']);
            assert(phoneme_table()[36].0.len() == 2);
        } else if i == 37 {
            assert(phoneme_table()[37].0 == seq!['\u{0254}', '\u{026A}']);
            assert(phoneme_table()[37].0.len() == 2);
        } else if i == 38 {
            assert(phoneme_table()[38].0 == seq!['\u{0251}', '\u{02D0}']);
            assert(phoneme_table()[38].0.len() == 2);
        } else if i == 39 {
            assert(phoneme_table()[39].0 == seq!['\u{0254}', '\u{02D0}']);
            assert(phoneme_table()[39].0.len() == 2);
        } else if i == 40 {
            assert(phoneme_table()[40].0 == seq!['\u{0251}', '\u{02D0}', '\u{0072}']);
            assert(phoneme_table()[40].0.len() == 3);
        } else if i == 41 {
            assert(phoneme_table()[41].0 == seq!['\u{0254}', '\u{02D0}', '\u{0072}']);
            assert(phoneme_table()[41].0.len() == 3);
        } else if i == 42 {
            assert(phoneme_table()[42].0 == seq!['\u{025B}', '\u{0259}', '\u{0072}']);
            assert(phoneme_table()[42].0.len() == 3);
        } else if i == 43 {
            assert(phoneme_table()[43].0 == seq!['\u{025C}', '\u{02D0}']);
            assert(phoneme_table()[43].0.len() == 2);
        } else if i == 44 {
            assert(phoneme_table()[44].0 == seq!['\u{0259}', '\u{0072}']);
            assert(phoneme_table()[44].0.len() == 2);
        } else if i == 45 {
            assert(phoneme_table()[45].0 == seq!['\u{026A}', '\u{0259}', '\u{0072}']);
            assert(phoneme_table()[45].0.len() == 3);
        } else if i == 46 {
            assert(phoneme_table()[46].0 == seq!['\u{0069}', '\u{0259}']);
            assert(phoneme_table()[46].0.len() == 2);
        } else if i == 47 {
            assert(phoneme_table()[47].0 == seq!['\u{006A}', '\u{0075}', '\u{02D0}']);
            assert(phoneme_table()[47].0.len() == 3);
        }
}

/// The keys of two codepoints.
pub proof fn lemma_pair_keys(a: char, b: char)
    requires
        lookup_glyph(seq![a, b]) is Some,
    ensures
        (a == '\u{0074}' && b == '\u{0283}')
            || (a == '\u{0064}' && b == '\u{0292}')
            || (a == '\u{0069}' && b == '\u{02D0}')
            || (a == '\u{0065}' && b == '\u{026A}')
            || (a == '\u{0061}' && b == '\u{026A}')
            || (a == '\u{006F}' && b == '\u{028A}')
            || (a == '\u{0075}' && b == '\u{02D0}')
            || (a == '\u{0061}' && b == '\u{028A}')
            || (a == '\u{0254}' && b == '\u{026A}')
            || (a == '\u{0251}' && b == '\u{02D0}')
            || (a == '\u{0254}' && b == '\u{02D0}')
            || (a == '\u{025C}' && b == '\u{02D0}')
            || (a == '\u{0259}' && b == '\u{0072}')
            || (a == '\u{0069}' && b == '\u{0259}'),
{
    let w = seq![a, b];
    lemma_first_match_key(phoneme_table(), w);
    let i = choose|i: int| 0 <= i < phoneme_table().len() && #[trigger] phoneme_table()[i].0 == w;
    assert(phoneme_table()[i].0[0] == a && phoneme_table()[i].0[1] == b);
        if i == 0 {
            assert(phoneme_table()[0].0 == seq!['\u{0070}']);
            assert(phoneme_table()[0].0.len() == 1);
        } else if i == 1 {
            assert(phoneme_table()[1].0 == seq!['\u{0062}']);
            assert(phoneme_table()[1].0.len() == 1);
        } else if i == 2 {
            assert(phoneme_table()[2].0 == seq!['\u{0074}']);
            assert(phoneme_table()[2].0.len() == 1);
        } else if i == 3 {
            assert(phoneme_table()[3].0 == seq!['\u{0064}']);
            assert(phoneme_table()[3].0.len() == 1);
        } else if i == 4 {
            assert(phoneme_table()[4].0 == seq!['\u{006B}']);
            assert(phoneme_table()[4].0.len() == 1);
        } else if i == 5 {
            assert(phoneme_table()[5].0 == seq!['\u{0261}']);
            assert(phoneme_table()[5].0.len() == 1);
        } else if i == 6 {
            assert(phoneme_table()[6].0 == seq!['\u{0066}']);
            assert(phoneme_table()[6].0.len() == 1);
        } else if i == 7 {
            assert(phoneme_table()[7].0 == seq!['\u{0076}']);
            assert(phoneme_table()[7].0.len() == 1);
        } else if i == 8 {
            assert(phoneme_table()[8].0 == seq!['\u{03B8}']);
            assert(phoneme_table()[8].0.len() == 1);
        } else if i == 9 {
            assert(phoneme_table()[9].0 == seq!['\u{00F0}']);
            assert(phoneme_table()[9].0.len() == 1);
        } else if i == 10 {
            assert(phoneme_table()[10].0 == seq!['\u{0073}']);
            assert(phoneme_table()[10].0.len() == 1);
        } else if i == 11 {
            assert(phoneme_table()[11].0 == seq!['\u{007A}']);
            assert(phoneme_table()[11].0.len() == 1);
        } else if i == 12 {
            assert(phoneme_table()[12].0 == seq!['\u{0283}']);
            assert(phoneme_table()[12].0.len() == 1);
        } else if i == 13 {
            assert(phoneme_table()[13].0 == seq!['\u{0292}']);
            assert(phoneme_table()[13].0.len() == 1);
        } else if i == 14 {
            assert(phoneme_table()[14].0 == seq!['\u{0074}', '\u{0283}']);
        } else if i == 15 {
            assert(phoneme_table()[15].0 == seq!['\u{0064}', '\u{0292}']);
        } else if i == 16 {
            assert(phoneme_table()[16].0 == seq!['\u{006A}']);
            assert(phoneme_table()[16].0.len() == 1);
        } else if i == 17 {
            assert(phoneme_table()[17].0 == seq!['\u{0077}']);
            assert(phoneme_table()[17].0.len() == 1);
        } else if i == 18 {
            assert(phoneme_table()[18].0 == seq!['\u{014B}']);
            assert(phoneme_table()[18].0.len() == 1);
        } else if i == 19 {
            assert(phoneme_table()[19].0 == seq!['\u{0068}']);
            assert(phoneme_table()[19].0.len() == 1);
        } else if i == 20 {
            assert(phoneme_table()[20].0 == seq!['\u{006C}']);
            assert(phoneme_table()[20].0.len() == 1);
        } else if i == 21 {
            assert(phoneme_table()[21].0 == seq!['\u{0072}']);
            assert(phoneme_table()[21].0.len() == 1);
        } else if i == 22 {
            assert(phoneme_table()[22].0 == seq!['\u{006D}']);
            assert(phoneme_table()[22].0.len() == 1);
        } else if i == 23 {
            assert(phoneme_table()[23].0 == seq!['\u{006E}']);
            assert(phoneme_table()[23].0.len() == 1);
        } else if i == 24 {
            assert(phoneme_table()[24].0 == seq!['\u{026A}']);
            assert(phoneme_table()[24].0.len() == 1);
        } else if i == 25 {
            assert(phoneme_table()[25].0 == seq!['\u{0069}', '\u{02D0}']);
        } else if i == 26 {
            assert(phoneme_table()[26].0 == seq!['\u{025B}']);
            assert(phoneme_table()[26].0.len() == 1);
        } else if i == 27 {
            assert(phoneme_table()[27].0 == seq!['\u{0065}', '\u{026A}']);
        } else if i == 28 {
            assert(phoneme_table()[28].0 == seq!['\u{00E6}']);
            assert(phoneme_table()[28].0.len() == 1);
        } else if i == 29 {
            assert(phoneme_table()[29].0 == seq!['\u{0061}', '\u{026A}']);
        } else if i == 30 {
            assert(phoneme_table()[30].0 == seq!['\u{0259}']);
            assert(phoneme_table()[30].0.len() == 1);
        } else if i == 31 {
            assert(phoneme_table()[31].0 == seq!['\u{028C}']);
            assert(phoneme_table()[31].0.len() == 1);
        } else if i == 32 {
            assert(phoneme_table()[32].0 == seq!['\u{0252}']);
            assert(phoneme_table()[32].0.len() == 1);
        } else if i == 33 {
            assert(phoneme_table()[33].0 == seq!['\u{006F}', '\u{028A}']);
        } else if i == 34 {
            assert(phoneme_table()[34].0 == seq!['\u{028A}']);
            assert(phoneme_table()[34].0.len() == 1);
        } else if i == 35 {
            assert(phoneme_table()[35].0 == seq!['\u{0075}', '\u{02D0}']);
        } else if i == 36 {
            assert(phoneme_table()[36].0 == seq!['\u{0061}', '\u{028A}']);
        } else if i == 37 {
            assert(phoneme_table()[37].0 == seq!['\u{0254}', '\u{026A}']);
        } else if i == 38 {
            assert(phoneme_table()[38].0 == seq!['\u{0251}', '\u{02D0}']);
        } else if i == 39 {
            assert(phoneme_table()[39].0 == seq!['\u{0254}', '\u{02D0}']);
        } else if i == 40 {
            assert(phoneme_table()[40].0 == seq!['\u{0251}', '\u{02D0}', '\u{0072}']);
            assert(phoneme_table()[40].0.len() == 3);
        } else if i == 41 {
            assert(phoneme_table()[41].0 == seq!['\u{0254}', '\u{02D0}', '\u{0072}']);
            assert(phoneme_table()[41].0.len() == 3);
        } else if i == 42 {
            assert(phoneme_table()[42].0 == seq!['\u{025B}', '\u{0259}', '\u{0072}']);
            assert(phoneme_table()[42].0.len() == 3);
        } else if i == 43 {
            assert(phoneme_table()[43].0 == seq!['\u{025C}', '\u{02D0}']);
        } else if i == 44 {
            assert(phoneme_table()[44].0 == seq!['\u{0259}', '\u{0072}']);
        } else if i == 45 {
            assert(phoneme_table()[45].0 == seq!['\u{026A}', '\u{0259}', '\u{0072}']);
            assert(phoneme_table()[45].0.len() == 3);
        } else if i == 46 {
            assert(phoneme_table()[46].0 == seq!['\u{0069}', '\u{0259}']);
        } else if i == 47 {
            assert(phoneme_table()[47].0 == seq!['\u{006A}', '\u{0075}', '\u{02D0}']);
            assert(phoneme_table()[47].0.len() == 3);
        }
}

/// The keys of three codepoints.
pub proof fn lemma_triple_keys(a: char, b: char, c: char)
    requires
        lookup_glyph(seq![a, b, c]) is Some,
    ensures
        (a == '\u{0251}' && b == '\u{02D0}' && c == '\u{0072}')
            || (a == '\u{0254}' && b == '\u{02D0}' && c == '\u{0072}')
            || (a == '\u{025B}' && b == '\u{0259}' && c == '\u{0072}')
            || (a == '\u{026A}' && b == '\u{0259}' && c == '\u{0072}')
            || (a == '\u{006A}' && b == '\u{0075}' && c == '\u{02D0}'),
{
    let w = seq![a, b, c];
    lemma_first_match_key(phoneme_table(), w);
    let i = choose|i: int| 0 <= i < phoneme_table().len() && #[trigger] phoneme_table()[i].0 == w;
    assert(phoneme_table()[i].0[0] == a && phoneme_table()[i].0[1] == b && phoneme_table()[i].0[2] == c);
        if i == 0 {
            assert(phoneme_table()[0].0 == seq!['\u{0070}']);
            assert(phoneme_table()[0].0.len() == 1);
        } else if i == 1 {
            assert(phoneme_table()[1].0 == seq!['\u{0062}']);
            assert(phoneme_table()[1].0.len() == 1);
        } else if i == 2 {
            assert(phoneme_table()[2].0 == seq!['\u{0074}']);
            assert(phoneme_table()[2].0.len() == 1);
        } else if i == 3 {
            assert(phoneme_table()[3].0 == seq!['\u{0064}']);
            assert(phoneme_table()[3].0.len() == 1);
        } else if i == 4 {
            assert(phoneme_table()[4].0 == seq!['\u{006B}']);
            assert(phoneme_table()[4].0.len() == 1);
        } else if i == 5 {
            assert(phoneme_table()[5].0 == seq!['\u{0261}']);
            assert(phoneme_table()[5].0.len() == 1);
        } else if i == 6 {
            assert(phoneme_table()[6].0 == seq!['\u{0066}']);
            assert(phoneme_table()[6].0.len() == 1);
        } else if i == 7 {
            assert(phoneme_table()[7].0 == seq!['\u{0076}']);
            assert(phoneme_table()[7].0.len() == 1);
        } else if i == 8 {
            assert(phoneme_table()[8].0 == seq!['\u{03B8}']);
            assert(phoneme_table()[8].0.len() == 1);
        } else if i == 9 {
            assert(phoneme_table()[9].0 == seq!['\u{00F0}']);
            assert(phoneme_table()[9].0.len() == 1);
        } else if i == 10 {
            assert(phoneme_table()[10].0 == seq!['\u{0073}']);
            assert(phoneme_table()[10].0.len() == 1);
        } else if i == 11 {
            assert(phoneme_table()[11].0 == seq!['\u{007A}']);
            assert(phoneme_table()[11].0.len() == 1);
        } else if i == 12 {
            assert(phoneme_table()[12].0 == seq!['\u{0283}']);
            assert(phoneme_table()[12].0.len() == 1);
        } else if i == 13 {
            assert(phoneme_table()[13].0 == seq!['\u{0292}']);
            assert(phoneme_table()[13].0.len() == 1);
        } else if i == 14 {
            assert(phoneme_table()[14].0 == seq!['\u{0074}', '\u{0283}']);
            assert(phoneme_table()[14].0.len() == 2);
        } else if i == 15 {
            assert(phoneme_table()[15].0 == seq!['\u{0064}', '\u{0292}']);
            assert(phoneme_table()[15].0.len() == 2);
        } else if i == 16 {
            assert(phoneme_table()[16].0 == seq!['\u{006A}']);
            assert(phoneme_table()[16].0.len() == 1);
        } else if i == 17 {
            assert(phoneme_table()[17].0 == seq!['\u{0077}']);
            assert(phoneme_table()[17].0.len() == 1);
        } else if i == 18 {
            assert(phoneme_table()[18].0 == seq!['\u{014B}']);
            assert(phoneme_table()[18].0.len() == 1);
        } else if i == 19 {
            assert(phoneme_table()[19].0 == seq!['\u{0068}']);
            assert(phoneme_table()[19].0.len() == 1);
        } else if i == 20 {
            assert(phoneme_table()[20].0 == seq!['\u{006C}']);
            assert(phoneme_table()[20].0.len() == 1);
        } else if i == 21 {
            assert(phoneme_table()[21].0 == seq!['\u{0072}']);
            assert(phoneme_table()[21].0.len() == 1);
        } else if i == 22 {
            assert(phoneme_table()[22].0 == seq!['\u{006D}']);
            assert(phoneme_table()[22].0.len() == 1);
        } else if i == 23 {
            assert(phoneme_table()[23].0 == seq!['\u{006E}']);
            assert(phoneme_table()[23].0.len() == 1);
        } else if i == 24 {
            assert(phoneme_table()[24].0 == seq!['\u{026A}']);
            assert(phoneme_table()[24].0.len() == 1);
        } else if i == 25 {
            assert(phoneme_table()[25].0 == seq!['\u{0069}', '\u{02D0}']);
            assert(phoneme_table()[25].0.len() == 2);
        } else if i == 26 {
            assert(phoneme_table()[26].0 == seq!['\u{025B}']);
            assert(phoneme_table()[26].0.len() == 1);
        } else if i == 27 {
            assert(phoneme_table()[27].0 == seq!['\u{0065}', '\u{026A}']);
            assert(phoneme_table()[27].0.len() == 2);
        } else if i == 28 {
            assert(phoneme_table()[28].0 == seq!['\u{00E6}']);
            assert(phoneme_table()[28].0.len() == 1);
        } else if i == 29 {
            assert(phoneme_table()[29].0 == seq!['\u{0061}', '\u{026A}']);
            assert(phoneme_table()[29].0.len() == 2);
        } else if i == 30 {
            assert(phoneme_table()[30].0 == seq!['\u{0259}']);
            assert(phoneme_table()[30].0.len() == 1);
        } else if i == 31 {
            assert(phoneme_table()[31].0 == seq!['\u{028C}']);
            assert(phoneme_table()[31].0.len() == 1);
        } else if i == 32 {
            assert(phoneme_table()[32].0 == seq!['\u{0252}']);
            assert(phoneme_table()[32].0.len() == 1);
        } else if i == 33 {
            assert(phoneme_table()[33].0 == seq!['\u{006F}', '\u{028A}']);
            assert(phoneme_table()[33].0.len() == 2);
        } else if i == 34 {
            assert(phoneme_table()[34].0 == seq!['\u{028A}']);
            assert(phoneme_table()[34].0.len() == 1);
        } else if i == 35 {
            assert(phoneme_table()[35].0 == seq!['\u{0075}', '\u{02D0}']);
            assert(phoneme_table()[35].0.len() == 2);
        } else if i == 36 {
            assert(phoneme_table()[36].0 == seq!['\u{0061}', '\u{028A}']);
            assert(phoneme_table()[36].0.len() == 2);
        } else if i == 37 {
            assert(phoneme_table()[37].0 == seq!['\u{0254}', '\u{026A}']);
            assert(phoneme_table()[37].0.len() == 2);
        } else if i == 38 {
            assert(phoneme_table()[38].0 == seq!['\u{0251}', '\u{02D0}']);
            assert(phoneme_table()[38].0.len() == 2);
        } else if i == 39 {
            assert(phoneme_table()[39].0 == seq!['\u{0254}', '\u{02D0}']);
            assert(phoneme_table()[39].0.len() == 2);
        } else if i == 40 {
            assert(phoneme_table()[40].0 == seq!['\u{0251}', '\u{02D0}', '\u{0072}']);
        } else if i == 41 {
            assert(phoneme_table()[41].0 == seq!['\u{0254}', '\u{02D0}', '\u{0072}']);
        } else if i == 42 {
            assert(phoneme_table()[42].0 == seq!['\u{025B}', '\u{0259}', '\u{0072}']);
        } else if i == 43 {
            assert(phoneme_table()[43].0 == seq!['\u{025C}', '\u{02D0}']);
            assert(phoneme_table()[43].0.len() == 2);
        } else if i == 44 {
            assert(phoneme_table()[44].0 == seq!['\u{0259}', '\u{0072}']);
            assert(phoneme_table()[44].0.len() == 2);
        } else if i == 45 {
            assert(phoneme_table()[45].0 == seq!['\u{026A}', '\u{0259}', '\u{0072}']);
        } else if i == 46 {
            assert(phoneme_table()[46].0 == seq!['\u{0069}', '\u{0259}']);
            assert(phoneme_table()[46].0.len() == 2);
        } else if i == 47 {
            assert(phoneme_table()[47].0 == seq!['\u{006A}', '\u{0075}', '\u{02D0}']);
        }
}

} // verus!
