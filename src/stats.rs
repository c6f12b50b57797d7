use vstd::prelude::*;

use crate::text::{codepoints, decimal, push_char, push_chars, push_decimal};

verus! {

/// The number of codepoints of `s` that are not line breaks.
pub open spec fn visible_count(s: Seq<char>) -> nat
    decreases s.len(),
{
    if s.len() == 0 {
        0
    } else {
        (if s[0] == '\n' { 0nat } else { 1nat }) + visible_count(s.drop_first())
    }
}

/// `s` with each line break set apart by a space on either side.
pub open spec fn spread_breaks(s: Seq<char>) -> Seq<char>
    decreases s.len(),
{
    if s.len() == 0 {
        Seq::empty()
    } else if s[0] == '\n' {
        seq![' ', '\n', ' '] + spread_breaks(s.drop_first())
    } else {
        seq![s[0]] + spread_breaks(s.drop_first())
    }
}

/// `s` with each pair of spaces, taken from the left and not
/// overlapping, made a single space.
pub open spec fn squeeze_spaces(s: Seq<char>) -> Seq<char>
    decreases s.len(),
{
    if s.len() == 0 {
        Seq::empty()
    } else if s.len() >= 2 && s[0] == ' ' && s[1] == ' ' {
        seq![' '] + squeeze_spaces(s.skip(2))
    } else {
        seq![s[0]] + squeeze_spaces(s.drop_first())
    }
}

/// The pieces of `s` between spaces, the first of them starting with
/// `cur`.
pub open spec fn split_from(cur: Seq<char>, s: Seq<char>) -> Seq<Seq<char>>
    decreases s.len(),
{
    if s.len() == 0 {
        seq![cur]
    } else if s[0] == ' ' {
        seq![cur] + split_from(Seq::empty(), s.drop_first())
    } else {
        split_from(cur.push(s[0]), s.drop_first())
    }
}

/// The pieces of the text between single spaces, once line breaks are set
/// apart and double spaces made single.
pub open spec fn pieces(s: Seq<char>) -> Seq<Seq<char>> {
    split_from(Seq::empty(), squeeze_spaces(spread_breaks(s)))
}

/// The number of pieces that are words: neither empty nor a line break.
pub open spec fn word_count(ps: Seq<Seq<char>>) -> nat
    decreases ps.len(),
{
    if ps.len() == 0 {
        0
    } else {
        (if ps[0].len() == 0 || ps[0] == seq!['\n'] { 0nat } else { 1nat }) + word_count(
            ps.drop_first(),
        )
    }
}

/// The first four pieces, joined by spaces.
pub open spec fn preview(ps: Seq<Seq<char>>) -> Seq<char> {
    ps[0] + seq![' '] + ps[1] + seq![' '] + ps[2] + seq![' '] + ps[3]
}

/// The summary of `s`: a preview of its first words, its number of
/// characters other than line breaks and its number of words.
pub open spec fn stats_text(s: Seq<char>) -> Seq<char> {
    "Contents: "@ + preview(pieces(s)) + "...\nCharacters: "@ + decimal(visible_count(s))
        + "\nWords: "@ + decimal(word_count(pieces(s)))
}

fn count_visible(s: &Vec<char>) -> (r: usize)
    ensures
        r == visible_count(s@),
{
    let mut count: usize = 0;
    let mut i: usize = 0;
    assert(s@.skip(0) =~= s@);
    while i < s.len()
        invariant
            i <= s@.len(),
            count <= i,
            visible_count(s@) == count + visible_count(s@.skip(i as int)),
        decreases s@.len() - i,
    {
        assert(s@.skip(i as int).drop_first() =~= s@.skip(i + 1));
        if s[i] != '\n' {
            count = count + 1;
        }
        i = i + 1;
    }
    assert(s@.skip(i as int) =~= Seq::<char>::empty());
    count
}

fn spread(s: &Vec<char>) -> (r: Vec<char>)
    ensures
        r@ == spread_breaks(s@),
{
    let mut out: Vec<char> = Vec::new();
    let mut i: usize = 0;
    assert(s@.skip(0) =~= s@);
    while i < s.len()
        invariant
            i <= s@.len(),
            spread_breaks(s@) == out@ + spread_breaks(s@.skip(i as int)),
        decreases s@.len() - i,
    {
        assert(s@.skip(i as int).drop_first() =~= s@.skip(i + 1));
        if s[i] == '\n' {
            out.push(' ');
            out.push('\n');
            out.push(' ');
        } else {
            out.push(s[i]);
        }
        i = i + 1;
        assert(spread_breaks(s@) =~= out@ + spread_breaks(s@.skip(i as int)));
    }
    assert(s@.skip(i as int) =~= Seq::<char>::empty());
    assert(out@ =~= spread_breaks(s@));
    out
}

fn squeeze(s: &Vec<char>) -> (r: Vec<char>)
    ensures
        r@ == squeeze_spaces(s@),
{
    let mut out: Vec<char> = Vec::new();
    let mut i: usize = 0;
    let n = s.len();
    assert(s@.skip(0) =~= s@);
    while i < n
        invariant
            n == s@.len(),
            i <= n,
            squeeze_spaces(s@) == out@ + squeeze_spaces(s@.skip(i as int)),
        decreases n - i,
    {
        let ghost rest = s@.skip(i as int);
        if i + 1 < n && s[i] == ' ' && s[i + 1] == ' ' {
            assert(rest.skip(2) =~= s@.skip(i + 2));
            out.push(' ');
            i = i + 2;
        } else {
            assert(rest.drop_first() =~= s@.skip(i + 1));
            out.push(s[i]);
            i = i + 1;
        }
        assert(squeeze_spaces(s@) =~= out@ + squeeze_spaces(s@.skip(i as int)));
    }
    assert(s@.skip(i as int) =~= Seq::<char>::empty());
    assert(out@ =~= squeeze_spaces(s@));
    out
}

/// The views of a list of pieces.
pub open spec fn piece_views(ps: Seq<Vec<char>>) -> Seq<Seq<char>> {
    ps.map_values(|p: Vec<char>| p@)
}

fn split(s: &Vec<char>) -> (r: Vec<Vec<char>>)
    ensures
        piece_views(r@) == split_from(Seq::empty(), s@),
{
    let mut done: Vec<Vec<char>> = Vec::new();
    let mut cur: Vec<char> = Vec::new();
    let mut i: usize = 0;
    assert(s@.skip(0) =~= s@);
    assert(piece_views(done@) + split_from(cur@, s@) =~= split_from(Seq::empty(), s@));
    while i < s.len()
        invariant
            i <= s@.len(),
            split_from(Seq::empty(), s@) == piece_views(done@) + split_from(
                cur@,
                s@.skip(i as int),
            ),
        decreases s@.len() - i,
    {
        assert(s@.skip(i as int).drop_first() =~= s@.skip(i + 1));
        if s[i] == ' ' {
            let ghost before = done@;
            let ghost piece = cur@;
            done.push(cur);
            cur = Vec::new();
            assert(piece_views(done@) =~= piece_views(before) + seq![piece]);
        } else {
            cur.push(s[i]);
        }
        i = i + 1;
    }
    assert(s@.skip(i as int) =~= Seq::<char>::empty());
    let ghost before = done@;
    let ghost piece = cur@;
    done.push(cur);
    assert(piece_views(done@) =~= piece_views(before) + seq![piece]);
    done
}

fn count_words(ps: &Vec<Vec<char>>) -> (r: usize)
    ensures
        r == word_count(piece_views(ps@)),
{
    let ghost views = piece_views(ps@);
    let mut count: usize = 0;
    let mut i: usize = 0;
    assert(views.skip(0) =~= views);
    while i < ps.len()
        invariant
            i <= ps@.len(),
            count <= i,
            views == piece_views(ps@),
            word_count(views) == count + word_count(views.skip(i as int)),
        decreases ps@.len() - i,
    {
        assert(views.skip(i as int).drop_first() =~= views.skip(i + 1));
        let p = &ps[i];
        let is_break = p.len() == 1 && p[0] == '\n';
        assert(is_break == (p@ == seq!['\n'])) by {
            if p@.len() == 1 && p@[0] == '\n' {
                assert(p@ =~= seq!['\n']);
            }
        }
        if p.len() != 0 && !is_break {
            count = count + 1;
        }
        i = i + 1;
    }
    assert(views.skip(i as int) =~= Seq::<Seq<char>>::empty());
    count
}

/// Whether `contents` has the four pieces that its summary previews.
pub fn previewable(contents: &String) -> (r: bool)
    ensures
        r == (pieces(contents@).len() >= 4),
{
    let chars = codepoints(contents.as_str());
    let ps = split(&squeeze(&spread(&chars)));
    ps.len() >= 4
}

/// A short summary of a text: its first four pieces, its number of
/// characters other than line breaks and its number of words.
pub fn text_stats(contents: &String) -> (r: String)
    requires
        pieces(contents@).len() >= 4,
    ensures
        r@ == stats_text(contents@),
{
    let chars = codepoints(contents.as_str());
    let num_char = count_visible(&chars);
    let ps = split(&squeeze(&spread(&chars)));
    let num_words = count_words(&ps);
    let ghost views = piece_views(ps@);
    assert(views == pieces(contents@));
    let mut out = String::new();
    out.append("Contents: ");
    push_chars(&mut out, &ps[0]);
    push_char(&mut out, ' ');
    push_chars(&mut out, &ps[1]);
    push_char(&mut out, ' ');
    push_chars(&mut out, &ps[2]);
    push_char(&mut out, ' ');
    push_chars(&mut out, &ps[3]);
    out.append("...\nCharacters: ");
    push_decimal(&mut out, num_char);
    out.append("\nWords: ");
    push_decimal(&mut out, num_words);
    assert(views[0] == ps@[0]@ && views[1] == ps@[1]@ && views[2] == ps@[2]@ && views[3]
        == ps@[3]@);
    assert(out@ =~= stats_text(contents@));
    out
}

} // verus!
