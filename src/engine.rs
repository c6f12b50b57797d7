use vstd::prelude::*;
use vstd::slice::slice_subrange;

use crate::alphabet::{
    disambiguate, lookup, lookup_glyph, phoneme_table, predictive_fix, shavian_alphabet,
    table_model, ShavianCharacter,
};
use crate::text::{codepoints, push_char};

verus! {

/// The primary and secondary stress marks.
pub open spec fn is_stress_mark(c: char) -> bool {
    c == '\u{02C8}' || c == '\u{02CC}'
}

/// `s` with its stress marks deleted and each line break made a space.
pub open spec fn strip_stress(s: Seq<char>) -> Seq<char>
    decreases s.len(),
{
    if s.len() == 0 {
        Seq::empty()
    } else if is_stress_mark(s[0]) {
        strip_stress(s.drop_first())
    } else if s[0] == '\n' {
        seq![' '] + strip_stress(s.drop_first())
    } else {
        seq![s[0]] + strip_stress(s.drop_first())
    }
}

/// `s` without the line break that ends it, if it ends in one.
pub open spec fn without_final_break(s: Seq<char>) -> Seq<char> {
    if s.len() > 0 && s.last() == '\n' {
        s.drop_last()
    } else {
        s
    }
}

/// The text that the scan is run on: a final line break dropped, stress
/// stripped, other line breaks made spaces, and one boundary space
/// appended.
pub open spec fn cleanup(s: Seq<char>) -> Seq<char> {
    strip_stress(without_final_break(s)).push(' ')
}

/// What the scan does at the start of a non-empty `s`: the codepoint it
/// emits and how many input codepoints it consumes. A longer window that
/// has a key wins over a shorter one; a space stays a space; a symbol
/// with no key of length one goes through the disambiguation.
pub open spec fn scan_step(s: Seq<char>) -> (char, int) {
    if s.len() >= 3 && lookup_glyph(s.take(3)) is Some {
        (lookup_glyph(s.take(3))->0, 3)
    } else if s.len() >= 2 && lookup_glyph(s.take(2)) is Some {
        (lookup_glyph(s.take(2))->0, 2)
    } else if s[0] == ' ' {
        (' ', 1)
    } else if lookup_glyph(s.take(1)) is Some {
        (lookup_glyph(s.take(1))->0, 1)
    } else {
        (disambiguate(s[0]), 1)
    }
}

/// The Shavian text for the IPA codepoints `s`: greedy longest match,
/// one emitted codepoint per step.
pub open spec fn transliterate(s: Seq<char>) -> Seq<char>
    decreases s.len(),
{
    if s.len() == 0 {
        Seq::empty()
    } else {
        seq![scan_step(s).0] + transliterate(s.skip(scan_step(s).1))
    }
}

/// Removes the stress marks, drops a line break that ends the text, turns
/// the other line breaks into spaces and appends one space, so that the
/// last phoneme is followed by exactly one boundary.
pub fn ipa_cleanup(ipa: &String) -> (r: String)
    ensures
        r@ == cleanup(ipa@),
{
    let chars = codepoints(ipa.as_str());
    let len = chars.len();
    let n = if len > 0 && chars[len - 1] == '\n' {
        len - 1
    } else {
        len
    };
    let ghost body = without_final_break(chars@);
    assert(body =~= chars@.take(n as int));
    let mut out = String::new();
    let mut i: usize = 0;
    assert(body.skip(0) =~= body);
    assert(out@ + strip_stress(body) =~= strip_stress(body));
    while i < n
        invariant
            n <= chars@.len(),
            body == chars@.take(n as int),
            i <= n,
            strip_stress(body) == out@ + strip_stress(body.skip(i as int)),
        decreases n - i,
    {
        let ghost rest = body.skip(i as int);
        assert(rest.drop_first() =~= body.skip(i + 1));
        assert(rest[0] == chars@[i as int]);
        let c = chars[i];
        if c == '\u{02C8}' || c == '\u{02CC}' {
        } else if c == '\n' {
            push_char(&mut out, ' ');
        } else {
            push_char(&mut out, c);
        }
        i = i + 1;
        proof {
            assert(strip_stress(body) == out@ + strip_stress(body.skip(i as int)));
        }
    }
    assert(body.skip(n as int) =~= Seq::<char>::empty());
    assert(out@ =~= strip_stress(body));
    push_char(&mut out, ' ');
    out
}

/// The step of the scan at position `i` of `chars`: the codepoint to emit
/// and the number of codepoints consumed.
fn next_glyph(alphabet: &Vec<ShavianCharacter>, chars: &Vec<char>, i: usize) -> (r: (char, usize))
    requires
        table_model(alphabet@) == phoneme_table(),
        i < chars@.len(),
    ensures
        (r.0, r.1 as int) == scan_step(chars@.skip(i as int)),
{
    let ghost rest = chars@.skip(i as int);
    let left = chars.len() - i;
    if left >= 3 {
        let w = slice_subrange(chars.as_slice(), i, i + 3);
        assert(w@ =~= rest.take(3));
        if let Some(e) = lookup(alphabet, w) {
            return (e.character, 3);
        }
    }
    if left >= 2 {
        let w = slice_subrange(chars.as_slice(), i, i + 2);
        assert(w@ =~= rest.take(2));
        if let Some(e) = lookup(alphabet, w) {
            return (e.character, 2);
        }
    }
    if chars[i] == ' ' {
        return (' ', 1);
    }
    let w = slice_subrange(chars.as_slice(), i, i + 1);
    assert(w@ =~= rest.take(1));
    if let Some(e) = lookup(alphabet, w) {
        return (e.character, 1);
    }
    (predictive_fix(chars[i]), 1)
}

/// Transliterates cleaned IPA text into Shavian, scanning its codepoints
/// with a three-codepoint lookahead and the longest match first.
pub fn ipa_to_shavian(ipa: String) -> (r: String)
    ensures
        r@ == transliterate(ipa@),
{
    let chars = codepoints(ipa.as_str());
    let alphabet = shavian_alphabet();
    let n = chars.len();
    let mut out = String::new();
    let mut i: usize = 0;
    assert(chars@.skip(0) =~= chars@);
    while i < n
        invariant
            n == chars@.len(),
            i <= n,
            table_model(alphabet@) == phoneme_table(),
            transliterate(chars@) == out@ + transliterate(chars@.skip(i as int)),
        decreases n - i,
    {
        let ghost rest = chars@.skip(i as int);
        let (glyph, width) = next_glyph(&alphabet, &chars, i);
        assert(rest.skip(width as int) =~= chars@.skip(i + width));
        push_char(&mut out, glyph);
        i = i + width;
        assert(out@ + transliterate(chars@.skip(i as int)) =~= transliterate(chars@));
    }
    assert(chars@.skip(n as int) =~= Seq::<char>::empty());
    assert(out@ =~= transliterate(chars@));
    out
}

} // verus!
