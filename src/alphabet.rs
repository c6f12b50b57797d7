use vstd::prelude::*;

verus! {

/// The IPA side of a Shavian letter: the phoneme it stands for, written as
/// one to three codepoints, and a few English spellings of that phoneme.
#[derive(Debug)]
pub struct PhonemeCharacter {
    pub ipa: &'static str,
    pub examples: [&'static str; 3],
}

/// One letter of the Shavian alphabet with its name and its phoneme.
#[derive(Debug)]
pub struct ShavianCharacter {
    pub name: &'static str,
    pub character: char,
    pub phoneme: PhonemeCharacter,
}

/// The letters as (IPA key, glyph) pairs, in declaration order.
pub open spec fn phoneme_table() -> Seq<(Seq<char>, char)> {
    seq![
        (seq!['\u{0070}'], '\u{10450}'),
        (seq!['\u{0062}'], '\u{1045A}'),
        (seq!['\u{0074}'], '\u{10451}'),
        (seq!['\u{0064}'], '\u{1045B}'),
        (seq!['\u{006B}'], '\u{10452}'),
        (seq!['\u{0261}'], '\u{1045C}'),
        (seq!['\u{0066}'], '\u{10453}'),
        (seq!['\u{0076}'], '\u{1045D}'),
        (seq!['\u{03B8}'], '\u{10454}'),
        (seq!['\u{00F0}'], '\u{1045E}'),
        (seq!['\u{0073}'], '\u{10455}'),
        (seq!['\u{007A}'], '\u{1045F}'),
        (seq!['\u{0283}'], '\u{10456}'),
        (seq!['\u{0292}'], '\u{10460}'),
        (seq!['\u{0074}', '\u{0283}'], '\u{10457}'),
        (seq!['\u{0064}', '\u{0292}'], '\u{10461}'),
        (seq!['\u{006A}'], '\u{10458}'),
        (seq!['\u{0077}'], '\u{10462}'),
        (seq!['\u{014B}'], '\u{10459}'),
        (seq!['\u{0068}'], '\u{10463}'),
        (seq!['\u{006C}'], '\u{10464}'),
        (seq!['\u{0072}'], '\u{1046E}'),
        (seq!['\u{006D}'], '\u{10465}'),
        (seq!['\u{006E}'], '\u{1046F}'),
        (seq!['\u{026A}'], '\u{10466}'),
        (seq!['\u{0069}', '\u{02D0}'], '\u{10470}'),
        (seq!['\u{025B}'], '\u{10467}'),
        (seq!['\u{0065}', '\u{026A}'], '\u{10471}'),
        (seq!['\u{00E6}'], '\u{10468}'),
        (seq!['\u{0061}', '\u{026A}'], '\u{10472}'),
        (seq!['\u{0259}'], '\u{10469}'),
        (seq!['\u{028C}'], '\u{10473}'),
        (seq!['\u{0252}'], '\u{1046A}'),
        (seq!['\u{006F}', '\u{028A}'], '\u{10474}'),
        (seq!['\u{028A}'], '\u{1046B}'),
        (seq!['\u{0075}', '\u{02D0}'], '\u{10475}'),
        (seq!['\u{0061}', '\u{028A}'], '\u{1046C}'),
        (seq!['\u{0254}', '\u{026A}'], '\u{10476}'),
        (seq!['\u{0251}', '\u{02D0}'], '\u{1046D}'),
        (seq!['\u{0254}', '\u{02D0}'], '\u{10477}'),
        (seq!['\u{0251}', '\u{02D0}', '\u{0072}'], '\u{10478}'),
        (seq!['\u{0254}', '\u{02D0}', '\u{0072}'], '\u{10479}'),
        (seq!['\u{025B}', '\u{0259}', '\u{0072}'], '\u{1047A}'),
        (seq!['\u{025C}', '\u{02D0}'], '\u{1047B}'),
        (seq!['\u{0259}', '\u{0072}'], '\u{1047C}'),
        (seq!['\u{026A}', '\u{0259}', '\u{0072}'], '\u{1047D}'),
        (seq!['\u{0069}', '\u{0259}'], '\u{1047E}'),
        (seq!['\u{006A}', '\u{0075}', '\u{02D0}'], '\u{1047F}'),    ]
}

/// The names of the letters, in declaration order.
pub open spec fn letter_names() -> Seq<Seq<char>> {
    seq![
        "PEEP"@,
        "BIB"@,
        "TOT"@,
        "DEAD"@,
        "KICK"@,
        "GAG"@,
        "FEE"@,
        "VOW"@,
        "THIGH"@,
        "THEY"@,
        "SO"@,
        "ZOO"@,
        "SURE"@,
        "MEASURE"@,
        "CHURCH"@,
        "JUDGE"@,
        "YEA"@,
        "WOE"@,
        "HUNG"@,
        "HAHA"@,
        "LOLL"@,
        "ROAR"@,
        "MIME"@,
        "NUN"@,
        "IF"@,
        "EAT"@,
        "EGG"@,
        "AGE"@,
        "ASH"@,
        "ICE"@,
        "ADO"@,
        "UP"@,
        "ON"@,
        "OAK"@,
        "WOOL"@,
        "OOZE"@,
        "OUT"@,
        "OIL"@,
        "AH"@,
        "AWE"@,
        "ARE"@,
        "OR"@,
        "AIR"@,
        "ERR"@,
        "ARRAY"@,
        "EAR"@,
        "IAN"@,
        "YEW"@,
    ]
}

/// What a list of letters says about matching: its (IPA key, glyph) pairs.
pub open spec fn table_model(letters: Seq<ShavianCharacter>) -> Seq<(Seq<char>, char)> {
    letters.map_values(|e: ShavianCharacter| (e.phoneme.ipa@, e.character))
}

/// The glyph of the first entry whose key equals `w`, scanning in order.
pub open spec fn first_match(entries: Seq<(Seq<char>, char)>, w: Seq<char>) -> Option<char>
    decreases entries.len(),
{
    if entries.len() == 0 {
        None
    } else if entries[0].0 == w {
        Some(entries[0].1)
    } else {
        first_match(entries.drop_first(), w)
    }
}

/// The glyph that the alphabet gives to the IPA window `w`, if any.
pub open spec fn lookup_glyph(w: Seq<char>) -> Option<char> {
    first_match(phoneme_table(), w)
}

/// The IPA symbols that the alphabet has no key for but that still stand
/// for one of its phonemes, with the glyph of that phoneme.
pub open spec fn disambiguation(c: char) -> Option<char> {
    if c == '\u{0279}' {
        Some('\u{1046E}')
    } else if c == '\u{0250}' {
        Some('\u{10469}')
    } else if c == '\u{0069}' {
        Some('\u{10470}')
    } else if c == '\u{0061}' {
        Some('\u{1046D}')
    } else if c == '\u{025C}' {
        Some('\u{10473}')
    } else {
        None
    }
}

/// A symbol's disambiguated glyph, or the symbol itself where it has none.
pub open spec fn disambiguate(c: char) -> char {
    match disambiguation(c) {
        Some(g) => g,
        None => c,
    }
}

/// Resolves an IPA symbol that has no key of its own: the glyph of the
/// phoneme it is a variant of, or the symbol unchanged.
pub fn predictive_fix(ipa: char) -> (r: char)
    ensures
        r == disambiguate(ipa),
{
    match ipa {
        '\u{0279}' => '\u{1046E}',
        '\u{0250}' => '\u{10469}',
        '\u{0069}' => '\u{10470}',
        '\u{0061}' => '\u{1046D}',
        '\u{025C}' => '\u{10473}',
        _ => ipa,
    }
}

/// The full alphabet, in declaration order.
pub fn shavian_alphabet() -> (r: Vec<ShavianCharacter>)
    ensures
        table_model(r@) == phoneme_table(),
        forall|i: int| 0 <= i < r@.len() ==> #[trigger] r@[i].name@ == letter_names()[i],
{
    let mut alphabet: Vec<ShavianCharacter> = Vec::new();
    alphabet.push(ShavianCharacter {
        name: "PEEP",
        character: '\u{10450}',
        phoneme: PhonemeCharacter { ipa: "\u{0070}", examples: ["p", "", ""] },
    });
    alphabet.push(ShavianCharacter {
        name: "BIB",
        character: '\u{1045A}',
        phoneme: PhonemeCharacter { ipa: "\u{0062}", examples: ["b", "", ""] },
    });
    alphabet.push(ShavianCharacter {
        name: "TOT",
        character: '\u{10451}',
        phoneme: PhonemeCharacter { ipa: "\u{0074}", examples: ["t", "tt", ""] },
    });
    alphabet.push(ShavianCharacter {
        name: "DEAD",
        character: '\u{1045B}',
        phoneme: PhonemeCharacter { ipa: "\u{0064}", examples: ["d", "dd", ""] },
    });
    alphabet.push(ShavianCharacter {
        name: "KICK",
        character: '\u{10452}',
        phoneme: PhonemeCharacter { ipa: "\u{006B}", examples: ["k", "ck", ""] },
    });
    alphabet.push(ShavianCharacter {
        name: "GAG",
        character: '\u{1045C}',
        phoneme: PhonemeCharacter { ipa: "\u{0261}", examples: ["g", "", ""] },
    });
    alphabet.push(ShavianCharacter {
        name: "FEE",
        character: '\u{10453}',
        phoneme: PhonemeCharacter { ipa: "\u{0066}", examples: ["f", "", ""] },
    });
    alphabet.push(ShavianCharacter {
        name: "VOW",
        character: '\u{1045D}',
        phoneme: PhonemeCharacter { ipa: "\u{0076}", examples: ["v", "", ""] },
    });
    alphabet.push(ShavianCharacter {
        name: "THIGH",
        character: '\u{10454}',
        phoneme: PhonemeCharacter { ipa: "\u{03B8}", examples: ["th", "", ""] },
    });
    alphabet.push(ShavianCharacter {
        name: "THEY",
        character: '\u{1045E}',
        phoneme: PhonemeCharacter { ipa: "\u{00F0}", examples: ["th", "", ""] },
    });
    alphabet.push(ShavianCharacter {
        name: "SO",
        character: '\u{10455}',
        phoneme: PhonemeCharacter { ipa: "\u{0073}", examples: ["s", "ss", ""] },
    });
    alphabet.push(ShavianCharacter {
        name: "ZOO",
        character: '\u{1045F}',
        phoneme: PhonemeCharacter { ipa: "\u{007A}", examples: ["z", "s", ""] },
    });
    alphabet.push(ShavianCharacter {
        name: "SURE",
        character: '\u{10456}',
        phoneme: PhonemeCharacter { ipa: "\u{0283}", examples: ["sh", "ti", ""] },
    });
    alphabet.push(ShavianCharacter {
        name: "MEASURE",
        character: '\u{10460}',
        phoneme: PhonemeCharacter { ipa: "\u{0292}", examples: ["s", "", ""] },
    });
    alphabet.push(ShavianCharacter {
        name: "CHURCH",
        character: '\u{10457}',
        phoneme: PhonemeCharacter { ipa: "\u{0074}\u{0283}", examples: ["ch", "tch", ""] },
    });
    alphabet.push(ShavianCharacter {
        name: "JUDGE",
        character: '\u{10461}',
        phoneme: PhonemeCharacter { ipa: "\u{0064}\u{0292}", examples: ["g", "dg", ""] },
    });
    alphabet.push(ShavianCharacter {
        name: "YEA",
        character: '\u{10458}',
        phoneme: PhonemeCharacter { ipa: "\u{006A}", examples: ["y", "j", ""] },
    });
    alphabet.push(ShavianCharacter {
        name: "WOE",
        character: '\u{10462}',
        phoneme: PhonemeCharacter { ipa: "\u{0077}", examples: ["w", "", ""] },
    });
    alphabet.push(ShavianCharacter {
        name: "HUNG",
        character: '\u{10459}',
        phoneme: PhonemeCharacter { ipa: "\u{014B}", examples: ["ng", "n", ""] },
    });
    alphabet.push(ShavianCharacter {
        name: "HAHA",
        character: '\u{10463}',
        phoneme: PhonemeCharacter { ipa: "\u{0068}", examples: ["h", "", ""] },
    });
    alphabet.push(ShavianCharacter {
        name: "LOLL",
        character: '\u{10464}',
        phoneme: PhonemeCharacter { ipa: "\u{006C}", examples: ["l", "", ""] },
    });
    alphabet.push(ShavianCharacter {
        name: "ROAR",
        character: '\u{1046E}',
        phoneme: PhonemeCharacter { ipa: "\u{0072}", examples: ["r", "", ""] },
    });
    alphabet.push(ShavianCharacter {
        name: "MIME",
        character: '\u{10465}',
        phoneme: PhonemeCharacter { ipa: "\u{006D}", examples: ["m", "", ""] },
    });
    alphabet.push(ShavianCharacter {
        name: "NUN",
        character: '\u{1046F}',
        phoneme: PhonemeCharacter { ipa: "\u{006E}", examples: ["n", "", ""] },
    });
    alphabet.push(ShavianCharacter {
        name: "IF",
        character: '\u{10466}',
        phoneme: PhonemeCharacter { ipa: "\u{026A}", examples: ["i", "", ""] },
    });
    alphabet.push(ShavianCharacter {
        name: "EAT",
        character: '\u{10470}',
        phoneme: PhonemeCharacter { ipa: "\u{0069}\u{02D0}", examples: ["ee", "e", ""] },
    });
    alphabet.push(ShavianCharacter {
        name: "EGG",
        character: '\u{10467}',
        phoneme: PhonemeCharacter { ipa: "\u{025B}", examples: ["e", "", ""] },
    });
    alphabet.push(ShavianCharacter {
        name: "AGE",
        character: '\u{10471}',
        phoneme: PhonemeCharacter { ipa: "\u{0065}\u{026A}", examples: ["a", "", ""] },
    });
    alphabet.push(ShavianCharacter {
        name: "ASH",
        character: '\u{10468}',
        phoneme: PhonemeCharacter { ipa: "\u{00E6}", examples: ["a", "", ""] },
    });
    alphabet.push(ShavianCharacter {
        name: "ICE",
        character: '\u{10472}',
        phoneme: PhonemeCharacter { ipa: "\u{0061}\u{026A}", examples: ["i", "ie", ""] },
    });
    alphabet.push(ShavianCharacter {
        name: "ADO",
        character: '\u{10469}',
        phoneme: PhonemeCharacter { ipa: "\u{0259}", examples: ["a", "o", ""] },
    });
    alphabet.push(ShavianCharacter {
        name: "UP",
        character: '\u{10473}',
        phoneme: PhonemeCharacter { ipa: "\u{028C}", examples: ["u", "", ""] },
    });
    alphabet.push(ShavianCharacter {
        name: "ON",
        character: '\u{1046A}',
        phoneme: PhonemeCharacter { ipa: "\u{0252}", examples: ["o", "", ""] },
    });
    alphabet.push(ShavianCharacter {
        name: "OAK",
        character: '\u{10474}',
        phoneme: PhonemeCharacter { ipa: "\u{006F}\u{028A}", examples: ["oa", "", ""] },
    });
    alphabet.push(ShavianCharacter {
        name: "WOOL",
        character: '\u{1046B}',
        phoneme: PhonemeCharacter { ipa: "\u{028A}", examples: ["oo", "", ""] },
    });
    alphabet.push(ShavianCharacter {
        name: "OOZE",
        character: '\u{10475}',
        phoneme: PhonemeCharacter { ipa: "\u{0075}\u{02D0}", examples: ["oo", "u", ""] },
    });
    alphabet.push(ShavianCharacter {
        name: "OUT",
        character: '\u{1046C}',
        phoneme: PhonemeCharacter { ipa: "\u{0061}\u{028A}", examples: ["ou", "ow", ""] },
    });
    alphabet.push(ShavianCharacter {
        name: "OIL",
        character: '\u{10476}',
        phoneme: PhonemeCharacter { ipa: "\u{0254}\u{026A}", examples: ["oi", "", ""] },
    });
    alphabet.push(ShavianCharacter {
        name: "AH",
        character: '\u{1046D}',
        phoneme: PhonemeCharacter { ipa: "\u{0251}\u{02D0}", examples: ["a", "", ""] },
    });
    alphabet.push(ShavianCharacter {
        name: "AWE",
        character: '\u{10477}',
        phoneme: PhonemeCharacter { ipa: "\u{0254}\u{02D0}", examples: ["ough", "au", "augh"] },
    });
    alphabet.push(ShavianCharacter {
        name: "ARE",
        character: '\u{10478}',
        phoneme: PhonemeCharacter { ipa: "\u{0251}\u{02D0}\u{0072}", examples: ["ar", "", ""] },
    });
    alphabet.push(ShavianCharacter {
        name: "OR",
        character: '\u{10479}',
        phoneme: PhonemeCharacter { ipa: "\u{0254}\u{02D0}\u{0072}", examples: ["or", "oar", ""] },
    });
    alphabet.push(ShavianCharacter {
        name: "AIR",
        character: '\u{1047A}',
        phoneme: PhonemeCharacter { ipa: "\u{025B}\u{0259}\u{0072}", examples: ["are", "ar", ""] },
    });
    alphabet.push(ShavianCharacter {
        name: "ERR",
        character: '\u{1047B}',
        phoneme: PhonemeCharacter { ipa: "\u{025C}\u{02D0}", examples: ["ur", "urr", "or"] },
    });
    alphabet.push(ShavianCharacter {
        name: "ARRAY",
        character: '\u{1047C}',
        phoneme: PhonemeCharacter { ipa: "\u{0259}\u{0072}", examples: ["er", "ar", "or"] },
    });
    alphabet.push(ShavianCharacter {
        name: "EAR",
        character: '\u{1047D}',
        phoneme: PhonemeCharacter { ipa: "\u{026A}\u{0259}\u{0072}", examples: ["ear", "er", ""] },
    });
    alphabet.push(ShavianCharacter {
        name: "IAN",
        character: '\u{1047E}',
        phoneme: PhonemeCharacter { ipa: "\u{0069}\u{0259}", examples: ["ia", "", ""] },
    });
    alphabet.push(ShavianCharacter {
        name: "YEW",
        character: '\u{1047F}',
        phoneme: PhonemeCharacter { ipa: "\u{006A}\u{0075}\u{02D0}", examples: ["yew", "", ""] },
    });
    proof {
        reveal_strlit("\u{0070}");
        reveal_strlit("\u{0062}");
        reveal_strlit("\u{0074}");
        reveal_strlit("\u{0064}");
        reveal_strlit("\u{006B}");
        reveal_strlit("\u{0261}");
        reveal_strlit("\u{0066}");
        reveal_strlit("\u{0076}");
        reveal_strlit("\u{03B8}");
        reveal_strlit("\u{00F0}");
        reveal_strlit("\u{0073}");
        reveal_strlit("\u{007A}");
        reveal_strlit("\u{0283}");
        reveal_strlit("\u{0292}");
        reveal_strlit("\u{0074}\u{0283}");
        reveal_strlit("\u{0064}\u{0292}");
        reveal_strlit("\u{006A}");
        reveal_strlit("\u{0077}");
        reveal_strlit("\u{014B}");
        reveal_strlit("\u{0068}");
        reveal_strlit("\u{006C}");
        reveal_strlit("\u{0072}");
        reveal_strlit("\u{006D}");
        reveal_strlit("\u{006E}");
        reveal_strlit("\u{026A}");
        reveal_strlit("\u{0069}\u{02D0}");
        reveal_strlit("\u{025B}");
        reveal_strlit("\u{0065}\u{026A}");
        reveal_strlit("\u{00E6}");
        reveal_strlit("\u{0061}\u{026A}");
        reveal_strlit("\u{0259}");
        reveal_strlit("\u{028C}");
        reveal_strlit("\u{0252}");
        reveal_strlit("\u{006F}\u{028A}");
        reveal_strlit("\u{028A}");
        reveal_strlit("\u{0075}\u{02D0}");
        reveal_strlit("\u{0061}\u{028A}");
        reveal_strlit("\u{0254}\u{026A}");
        reveal_strlit("\u{0251}\u{02D0}");
        reveal_strlit("\u{0254}\u{02D0}");
        reveal_strlit("\u{0251}\u{02D0}\u{0072}");
        reveal_strlit("\u{0254}\u{02D0}\u{0072}");
        reveal_strlit("\u{025B}\u{0259}\u{0072}");
        reveal_strlit("\u{025C}\u{02D0}");
        reveal_strlit("\u{0259}\u{0072}");
        reveal_strlit("\u{026A}\u{0259}\u{0072}");
        reveal_strlit("\u{0069}\u{0259}");
        reveal_strlit("\u{006A}\u{0075}\u{02D0}");    }
    assert forall|i: int| 0 <= i < 48 implies #[trigger] table_model(alphabet@)[i]
        == phoneme_table()[i] && alphabet@[i].name@ == letter_names()[i] by {
        if i == 0 {
        } else if i == 1 {
        } else if i == 2 {
        } else if i == 3 {
        } else if i == 4 {
        } else if i == 5 {
        } else if i == 6 {
        } else if i == 7 {
        } else if i == 8 {
        } else if i == 9 {
        } else if i == 10 {
        } else if i == 11 {
        } else if i == 12 {
        } else if i == 13 {
        } else if i == 14 {
        } else if i == 15 {
        } else if i == 16 {
        } else if i == 17 {
        } else if i == 18 {
        } else if i == 19 {
        } else if i == 20 {
        } else if i == 21 {
        } else if i == 22 {
        } else if i == 23 {
        } else if i == 24 {
        } else if i == 25 {
        } else if i == 26 {
        } else if i == 27 {
        } else if i == 28 {
        } else if i == 29 {
        } else if i == 30 {
        } else if i == 31 {
        } else if i == 32 {
        } else if i == 33 {
        } else if i == 34 {
        } else if i == 35 {
        } else if i == 36 {
        } else if i == 37 {
        } else if i == 38 {
        } else if i == 39 {
        } else if i == 40 {
        } else if i == 41 {
        } else if i == 42 {
        } else if i == 43 {
        } else if i == 44 {
        } else if i == 45 {
        } else if i == 46 {
        } else if i == 47 {
        }
    }
    assert(table_model(alphabet@) =~= phoneme_table());
    alphabet
}

/// Whether the codepoints of `s` are exactly those of `w`.
fn same_codepoints(s: &str, w: &[char]) -> (r: bool)
    ensures
        r == (s@ == w@),
{
    let n = s.unicode_len();
    if n != w.len() {
        return false;
    }
    let mut i: usize = 0;
    while i < n
        invariant
            n == s@.len(),
            n == w@.len(),
            i <= n,
            forall|j: int| 0 <= j < i ==> s@[j] == w@[j],
        decreases n - i,
    {
        if s.get_char(i) != w[i] {
            return false;
        }
        i = i + 1;
    }
    assert(s@ =~= w@);
    true
}

/// Scans `alphabet` in order for the first letter whose IPA key is exactly
/// `window`.
pub fn lookup<'a>(alphabet: &'a Vec<ShavianCharacter>, window: &[char]) -> (r: Option<
    &'a ShavianCharacter,
>)
    ensures
        match r {
            Some(e) => first_match(table_model(alphabet@), window@) == Some(e.character)
                && e.phoneme.ipa@ == window@,
            None => first_match(table_model(alphabet@), window@) is None,
        },
{
    let ghost entries = table_model(alphabet@);
    let mut i: usize = 0;
    assert(entries.subrange(0, entries.len() as int) =~= entries);
    while i < alphabet.len()
        invariant
            i <= alphabet@.len(),
            entries == table_model(alphabet@),
            first_match(entries, window@) == first_match(
                entries.subrange(i as int, entries.len() as int),
                window@,
            ),
        decreases alphabet@.len() - i,
    {
        let ghost rest = entries.subrange(i as int, entries.len() as int);
        assert(rest.drop_first() =~= entries.subrange(i + 1, entries.len() as int));
        let e = &alphabet[i];
        if same_codepoints(e.phoneme.ipa, window) {
            return Some(e);
        }
        i = i + 1;
    }
    None
}

} // verus!
