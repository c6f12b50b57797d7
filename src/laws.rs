use vstd::prelude::*;

use crate::alphabet::{disambiguate, lookup_glyph};
use crate::keys::{lemma_key_shape, lemma_pair_keys, lemma_single_keys, lemma_triple_keys};
use crate::engine::{
    cleanup, is_stress_mark, scan_step, strip_stress, transliterate, without_final_break,
};

verus! {

/// The scan never makes the text longer: each step emits one codepoint
/// and consumes at least one.
pub proof fn lemma_output_not_longer(s: Seq<char>)
    ensures
        transliterate(s).len() <= s.len(),
    decreases s.len(),
{
    if s.len() > 0 {
        lemma_output_not_longer(s.skip(scan_step(s).1));
    }
}

/// Text made of alphabet keys, where no longer window at the start of each
/// key is itself a key, comes out as the glyphs of those keys, one each and
/// in order.
pub proof fn lemma_keys_in_order(ws: Seq<Seq<char>>)
    requires
        forall|j: int| 0 <= j < ws.len() ==> #[trigger] lookup_glyph(ws[j]) is Some,
        forall|j: int, l: int|
            0 <= j < ws.len() && ws[j].len() < l <= 3 && l <= ws.skip(j).flatten().len()
                ==> #[trigger] lookup_glyph(ws.skip(j).flatten().take(l)) is None,
    ensures
        transliterate(ws.flatten()) == ws.map_values(|w: Seq<char>| lookup_glyph(w)->0),
        transliterate(ws.flatten()).len() == ws.len(),
    decreases ws.len(),
{
    let glyphs = ws.map_values(|w: Seq<char>| lookup_glyph(w)->0);
    if ws.len() == 0 {
        assert(glyphs =~= Seq::<char>::empty());
    } else {
        let t = ws.flatten();
        let w = ws[0];
        let rest = ws.drop_first();
        assert(lookup_glyph(ws[0]) is Some);
        lemma_key_shape(w);
        assert(ws.skip(0) =~= ws);
        assert(t == w + rest.flatten());
        assert(t.take(w.len() as int) =~= w);
        assert(t.skip(w.len() as int) =~= rest.flatten());
        assert forall|j: int, l: int|
            0 <= j < rest.len() && rest[j].len() < l <= 3 && l <= rest.skip(j).flatten().len()
                implies #[trigger] lookup_glyph(rest.skip(j).flatten().take(l)) is None by {
            assert(rest.skip(j) =~= ws.skip(j + 1));
            assert(ws[j + 1] == rest[j]);
        }
        assert forall|j: int| 0 <= j < rest.len() implies #[trigger] lookup_glyph(rest[j]) is Some by {
            assert(ws[j + 1] == rest[j]);
        }
        lemma_keys_in_order(rest);
        if t.len() >= 3 && w.len() < 3 {
            assert(lookup_glyph(ws.skip(0).flatten().take(3)) is None);
        }
        if t.len() >= 2 && w.len() < 2 {
            assert(lookup_glyph(ws.skip(0).flatten().take(2)) is None);
        }
        if w.len() == 1 {
            assert(t[0] == w[0]);
        }
        assert(scan_step(t) == (lookup_glyph(w)->0, w.len() as int));
        assert(glyphs =~= seq![lookup_glyph(w)->0] + rest.map_values(
            |w: Seq<char>| lookup_glyph(w)->0,
        ));
    }
}

/// Where the first two codepoints form a key and the first alone forms
/// one too, the scan emits the glyph of the two together, never that of
/// the first alone.
pub proof fn lemma_longest_match(s: Seq<char>)
    requires
        s.len() >= 2,
        lookup_glyph(s.take(2)) is Some,
        lookup_glyph(s.take(1)) is Some,
    ensures
        transliterate(s) == seq![lookup_glyph(s.take(2))->0] + transliterate(s.skip(2)),
{
    assert(s.take(2) =~= seq![s[0], s[1]]);
    assert(s.take(1) =~= seq![s[0]]);
    lemma_single_keys(s[0]);
    lemma_pair_keys(s[0], s[1]);
    if s.len() >= 3 && lookup_glyph(s.take(3)) is Some {
        assert(s.take(3) =~= seq![s[0], s[1], s[2]]);
        lemma_triple_keys(s[0], s[1], s[2]);
    }
}

/// A space is a boundary: the text on each side is transliterated on its
/// own, and the space itself comes out as exactly one space.
pub proof fn lemma_space_splits(a: Seq<char>, b: Seq<char>)
    ensures
        transliterate(a + seq![' '] + b) == transliterate(a) + seq![' '] + transliterate(b),
    decreases a.len(),
{
    let s = a + seq![' '] + b;
    if a.len() == 0 {
        assert(s =~= seq![' '] + b);
        assert(s[0] == ' ');
        if s.len() >= 3 && lookup_glyph(s.take(3)) is Some {
            lemma_key_shape(s.take(3));
            assert(s.take(3)[0] == ' ');
        }
        if s.len() >= 2 && lookup_glyph(s.take(2)) is Some {
            lemma_key_shape(s.take(2));
            assert(s.take(2)[0] == ' ');
        }
        assert(scan_step(s) == (' ', 1int));
        assert(s.skip(1) =~= b);
        assert(transliterate(a) =~= Seq::<char>::empty());
        assert(transliterate(s) =~= transliterate(a) + seq![' '] + transliterate(b));
    } else {
        let n = a.len() as int;
        if s.len() >= 3 && lookup_glyph(s.take(3)) is Some {
            lemma_key_shape(s.take(3));
            if n < 3 {
                assert(s.take(3)[n] == ' ');
            } else {
                assert(s.take(3) =~= a.take(3));
            }
        }
        if s.len() >= 2 && lookup_glyph(s.take(2)) is Some {
            lemma_key_shape(s.take(2));
            if n < 2 {
                assert(s.take(2)[n] == ' ');
            } else {
                assert(s.take(2) =~= a.take(2));
            }
        }
        if n >= 3 {
            assert(s.take(3) =~= a.take(3));
        }
        if n >= 2 {
            assert(s.take(2) =~= a.take(2));
        }
        assert(s.take(1) =~= a.take(1));
        assert(s[0] == a[0]);
        assert(scan_step(s) == scan_step(a));
        let k = scan_step(a).1;
        assert(s.skip(k) =~= a.skip(k) + seq![' '] + b);
        lemma_space_splits(a.skip(k), b);
        assert(transliterate(s) =~= transliterate(a) + seq![' '] + transliterate(b));
    }
}

/// A symbol with no key at its place, alone or with what follows, comes
/// out disambiguated: as the glyph of the phoneme it is a variant of, or
/// unchanged where it is no known variant.
pub proof fn lemma_disambiguation_fallback(s: Seq<char>)
    requires
        s.len() >= 1,
        s.len() >= 3 ==> lookup_glyph(s.take(3)) is None,
        s.len() >= 2 ==> lookup_glyph(s.take(2)) is None,
        lookup_glyph(s.take(1)) is None,
    ensures
        transliterate(s) == seq![disambiguate(s[0])] + transliterate(s.drop_first()),
{
    assert(s.skip(1) =~= s.drop_first());
}

/// The space that cleanup appends comes out of the scan as a space after
/// the rest of the text.
pub proof fn lemma_trailing_boundary(s: Seq<char>)
    ensures
        transliterate(cleanup(s)) == transliterate(strip_stress(without_final_break(s))) + seq![
            ' ',
        ],
{
    let c = strip_stress(without_final_break(s));
    assert(cleanup(s) =~= c + seq![' '] + Seq::<char>::empty());
    lemma_space_splits(c, Seq::empty());
    assert(transliterate(Seq::<char>::empty()) =~= Seq::<char>::empty());
    assert(transliterate(c) + seq![' '] + Seq::<char>::empty() =~= transliterate(c) + seq![' ']);
}

/// The cleaned text holds no stress mark and no line break, ends with a
/// space, and is left as it is by a second stripping.
pub proof fn lemma_cleanup(s: Seq<char>)
    ensures
        forall|j: int|
            0 <= j < cleanup(s).len() ==> !is_stress_mark(#[trigger] cleanup(s)[j]) && cleanup(
                s,
            )[j] != '\n',
        cleanup(s).last() == ' ',
        strip_stress(cleanup(s)) == cleanup(s),
{
    let t = without_final_break(s);
    lemma_strip_clean(t);
    lemma_strip_fixed(strip_stress(t));
    let c = strip_stress(t);
    let sp = seq![' '];
    assert(sp[0] == ' ');
    assert(sp.drop_first() =~= Seq::<char>::empty());
    assert(strip_stress(sp.drop_first()) =~= Seq::<char>::empty());
    assert(strip_stress(sp) =~= sp);
    assert(c.push(' ') =~= c + seq![' ']);
    lemma_strip_append(c, seq![' ']);
}

proof fn lemma_strip_clean(s: Seq<char>)
    ensures
        forall|j: int|
            0 <= j < strip_stress(s).len() ==> !is_stress_mark(#[trigger] strip_stress(s)[j])
                && strip_stress(s)[j] != '\n',
    decreases s.len(),
{
    if s.len() > 0 {
        let r = strip_stress(s.drop_first());
        lemma_strip_clean(s.drop_first());
        assert forall|j: int| 0 <= j < strip_stress(s).len() implies !is_stress_mark(
            #[trigger] strip_stress(s)[j],
        ) && strip_stress(s)[j] != '\n' by {
            if !is_stress_mark(s[0]) && j > 0 {
                assert(strip_stress(s)[j] == r[j - 1]);
            }
        }
    }
}

proof fn lemma_strip_fixed(s: Seq<char>)
    requires
        forall|j: int| 0 <= j < s.len() ==> !is_stress_mark(#[trigger] s[j]) && s[j] != '\n',
    ensures
        strip_stress(s) == s,
    decreases s.len(),
{
    if s.len() > 0 {
        assert forall|j: int| 0 <= j < s.drop_first().len() implies !is_stress_mark(
            #[trigger] s.drop_first()[j],
        ) && s.drop_first()[j] != '\n' by {
            assert(s.drop_first()[j] == s[j + 1]);
        }
        lemma_strip_fixed(s.drop_first());
        assert(s =~= seq![s[0]] + s.drop_first());
    }
}

proof fn lemma_strip_append(a: Seq<char>, b: Seq<char>)
    ensures
        strip_stress(a + b) == strip_stress(a) + strip_stress(b),
    decreases a.len(),
{
    if a.len() == 0 {
        assert(a + b =~= b);
    } else {
        assert((a + b).drop_first() =~= a.drop_first() + b);
        lemma_strip_append(a.drop_first(), b);
    }
}

} // verus!
