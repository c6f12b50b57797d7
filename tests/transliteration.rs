use shavian::alphabet::{lookup, predictive_fix, shavian_alphabet};
use shavian::engine::{ipa_cleanup, ipa_to_shavian};

fn convert(ipa: &str) -> String {
    ipa_to_shavian(ipa_cleanup(&ipa.to_string()))
}

#[test]
fn hello_end_to_end() {
    assert_eq!(
        convert("\u{02C8}h\u{025B}lo\u{028A}"),
        "\u{10463}\u{10467}\u{10464}\u{10474} "
    );
}

#[test]
fn cleanup_strips_stress_and_breaks() {
    let cleaned = ipa_cleanup(&"\u{02C8}h\u{025B}lo\u{028A}\n".to_string());
    assert_eq!(cleaned, "h\u{025B}lo\u{028A} ");
    let cleaned = ipa_cleanup(&"\u{02CC}a\u{02C8}b\nc".to_string());
    assert_eq!(cleaned, "ab c ");
}

#[test]
fn final_break_is_the_boundary() {
    assert_eq!(ipa_cleanup(&"a\nb\n".to_string()), "a b ");
    assert_eq!(ipa_cleanup(&"\n".to_string()), " ");
    assert_eq!(ipa_cleanup(&"a\n\n".to_string()), "a  ");
    assert_eq!(
        convert("\u{02C8}h\u{025B}lo\u{028A}\n"),
        "\u{10463}\u{10467}\u{10464}\u{10474} "
    );
}

#[test]
fn cleanup_of_empty_is_one_space() {
    assert_eq!(ipa_cleanup(&String::new()), " ");
}

#[test]
fn empty_input_gives_empty_output() {
    assert_eq!(ipa_to_shavian(String::new()), "");
}

#[test]
fn affricates_are_not_split() {
    assert_eq!(ipa_to_shavian("t\u{0283}".to_string()), "\u{10457}");
    assert_eq!(ipa_to_shavian("d\u{0292}".to_string()), "\u{10461}");
    assert_eq!(ipa_to_shavian("t".to_string()), "\u{10451}");
    assert_eq!(ipa_to_shavian("\u{0283}".to_string()), "\u{10456}");
}

#[test]
fn three_codepoint_keys_win() {
    assert_eq!(ipa_to_shavian("\u{0251}\u{02D0}r".to_string()), "\u{10478}");
    assert_eq!(ipa_to_shavian("ju\u{02D0}".to_string()), "\u{1047F}");
    assert_eq!(ipa_to_shavian("\u{0251}\u{02D0}".to_string()), "\u{1046D}");
}

#[test]
fn keys_come_out_in_order() {
    // judge: JUDGE UP JUDGE
    assert_eq!(
        ipa_to_shavian("d\u{0292}\u{028C}d\u{0292}".to_string()),
        "\u{10461}\u{10473}\u{10461}"
    );
    // cheese: CHURCH EAT ZOO
    assert_eq!(
        ipa_to_shavian("t\u{0283}i\u{02D0}z".to_string()),
        "\u{10457}\u{10470}\u{1045F}"
    );
}

#[test]
fn spaces_stay_single_spaces() {
    assert_eq!(ipa_to_shavian("h \u{025B}".to_string()), "\u{10463} \u{10467}");
    assert_eq!(ipa_to_shavian("  ".to_string()), "  ");
    assert_eq!(ipa_to_shavian("t \u{0283}".to_string()), "\u{10451} \u{10456}");
}

#[test]
fn disambiguation_applies_to_variants() {
    assert_eq!(ipa_to_shavian("\u{0279}".to_string()), "\u{1046E}");
    assert_eq!(ipa_to_shavian("\u{0250}".to_string()), "\u{10469}");
    assert_eq!(ipa_to_shavian("i ".to_string()), "\u{10470} ");
    assert_eq!(ipa_to_shavian("a ".to_string()), "\u{1046D} ");
    assert_eq!(ipa_to_shavian("\u{025C}".to_string()), "\u{10473}");
    assert_eq!(ipa_to_shavian("\u{025C}\u{02D0}".to_string()), "\u{1047B}");
}

#[test]
fn unmapped_symbol_passes_through() {
    assert_eq!(
        ipa_to_shavian("h\u{02B0}\u{025B}".to_string()),
        "\u{10463}\u{02B0}\u{10467}"
    );
    assert_eq!(ipa_to_shavian("x".to_string()), "x");
}

#[test]
fn output_is_never_longer() {
    let ipa = "\u{02C8}\u{0251}\u{02D0}r t\u{0283}i\u{02D0}z x\u{0279}";
    let out = convert(ipa);
    let cleaned = ipa_cleanup(&ipa.to_string());
    assert!(out.chars().count() <= cleaned.chars().count());
}

#[test]
fn predictive_fix_maps_variants() {
    assert_eq!(predictive_fix('\u{0279}'), '\u{1046E}');
    assert_eq!(predictive_fix('\u{0250}'), '\u{10469}');
    assert_eq!(predictive_fix('\u{0069}'), '\u{10470}');
    assert_eq!(predictive_fix('\u{0061}'), '\u{1046D}');
    assert_eq!(predictive_fix('\u{025C}'), '\u{10473}');
    assert_eq!(predictive_fix('q'), 'q');
    assert_eq!(predictive_fix(' '), ' ');
}

#[test]
fn alphabet_has_unique_keys() {
    let alphabet = shavian_alphabet();
    assert_eq!(alphabet.len(), 48);
    assert_eq!(alphabet[0].name, "PEEP");
    assert_eq!(alphabet[14].name, "CHURCH");
    assert_eq!(alphabet[47].name, "YEW");
    for i in 0..alphabet.len() {
        for j in (i + 1)..alphabet.len() {
            assert_ne!(alphabet[i].phoneme.ipa, alphabet[j].phoneme.ipa);
        }
    }
}

#[test]
fn lookup_finds_first_entry() {
    let alphabet = shavian_alphabet();
    let found = lookup(&alphabet, &['p']).unwrap();
    assert_eq!(found.name, "PEEP");
    assert_eq!(found.character, '\u{10450}');
    let found = lookup(&alphabet, &['o', '\u{028A}']).unwrap();
    assert_eq!(found.name, "OAK");
    assert!(lookup(&alphabet, &['q']).is_none());
    assert!(lookup(&alphabet, &[]).is_none());
}
