use zync_core::text::{
    contains, find_in_set, from_chars, is_whitespace, is_word_ignoring_case, join_parts,
    parse_number, push_chars, push_decimal, same_chars, split_on, split_words, starts_with,
    strip_of, to_chars, trim, trim_end_of, trim_start_of, CharSet,
};

fn chars(s: &str) -> Vec<char> {
    s.chars().collect()
}

fn text(s: &[char]) -> String {
    s.iter().collect()
}

const CORPUS: [&str; 24] = [
    "",
    " ",
    "a",
    " a ",
    "\t\r\n",
    "Host  example",
    "  leading and trailing\u{a0}\u{3000}",
    "key=value",
    "key = value = more",
    "a:b:c",
    ":a::b:",
    "remote:9000:3000",
    "line one\nline two\r\n\nlast",
    "\n",
    "\"quoted\"",
    "'single' \"double\"",
    "\"\"\"",
    "x\u{85}y\u{1680}z\u{2003}w\u{2028}v\u{202f}u\u{205f}t",
    "\u{200b}zero width is no space\u{feff}",
    "TCP    0.0.0.0:8080   LISTENING   42",
    "ünïcödé wörds",
    "a,b,,c",
    "=== = ==",
    "~/.ssh/id_ed25519",
];

#[test]
fn white_space_is_the_unicode_property() {
    for n in 0..=0x10ffffu32 {
        if let Some(c) = char::from_u32(n) {
            assert_eq!(is_whitespace(c), c.is_whitespace(), "U+{:04X}", n);
        }
    }
}

#[test]
fn characters_round_trip() {
    for s in CORPUS {
        assert_eq!(to_chars(s), chars(s));
        assert_eq!(from_chars(&chars(s)), s);
        let mut out = "x".to_string();
        push_chars(&mut out, &chars(s));
        assert_eq!(out, format!("x{}", s));
    }
}

#[test]
fn same_chars_is_equality() {
    for a in CORPUS {
        for b in CORPUS {
            assert_eq!(same_chars(&chars(a), &chars(b)), a == b);
        }
    }
}

#[test]
fn trimming_agrees_with_the_standard_library() {
    for s in CORPUS {
        let c = chars(s);
        assert_eq!(text(trim(&c)), s.trim());
        assert_eq!(text(trim_start_of(&c, CharSet::Whitespace)), s.trim_start());
        assert_eq!(text(trim_end_of(&c, CharSet::Whitespace)), s.trim_end());
        assert_eq!(text(strip_of(&c, CharSet::Only('"'))), s.trim_matches('"'));
        assert_eq!(text(strip_of(&c, CharSet::Only('\''))), s.trim_matches('\''));
        assert_eq!(
            text(trim_start_of(&c, CharSet::WhitespaceOrEquals)),
            s.trim_start_matches(|x: char| x.is_whitespace() || x == '=')
        );
    }
}

#[test]
fn finding_agrees_with_the_standard_library() {
    for s in CORPUS {
        let c = chars(s);
        let expected = s
            .chars()
            .position(|x| x.is_whitespace() || x == '=')
            .unwrap_or(c.len());
        assert_eq!(find_in_set(&c, CharSet::WhitespaceOrEquals), expected);
        let expected = s.chars().position(|x| x == ':').unwrap_or(c.len());
        assert_eq!(find_in_set(&c, CharSet::Only(':')), expected);
    }
}

#[test]
fn splitting_agrees_with_the_standard_library() {
    for s in CORPUS {
        let c = chars(s);
        for sep in [':', '\n', ',', '='] {
            let got: Vec<String> = split_on(&c, sep).iter().map(|p| text(p)).collect();
            let expected: Vec<String> = s.split(sep).map(|p| p.to_string()).collect();
            assert_eq!(got, expected, "{:?} at {:?}", s, sep);
        }
        let got: Vec<String> = split_words(&c).iter().map(|p| text(p)).collect();
        let expected: Vec<String> = s.split_whitespace().map(|p| p.to_string()).collect();
        assert_eq!(got, expected, "{:?}", s);
        let space = [' '];
        assert_eq!(
            join_parts(&split_words(&c), &space),
            s.split_whitespace().collect::<Vec<_>>().join(" ")
        );
    }
    assert_eq!(join_parts(&vec![], &['-']), "");
    let a = chars("a");
    let b = chars("");
    assert_eq!(join_parts(&vec![a.as_slice(), b.as_slice(), a.as_slice()], &chars(", ")), "a, , a");
}

#[test]
fn searching_agrees_with_the_standard_library() {
    let needles = ["", ":", ":8080", "LISTENING", "a", "==", "\n\n", "line", "last", "xyz", " "];
    for s in CORPUS {
        for n in needles.iter().chain(CORPUS.iter()) {
            assert_eq!(contains(&chars(s), &chars(n)), s.contains(n), "{:?} in {:?}", n, s);
            assert_eq!(starts_with(&chars(s), &chars(n)), s.starts_with(n), "{:?} at {:?}", n, s);
        }
    }
}

#[test]
fn numbers_are_written_as_the_standard_library_writes_them() {
    for n in 0..=u16::MAX {
        let mut out = String::new();
        push_decimal(&mut out, n as u64);
        assert_eq!(out, n.to_string());
    }
    for n in [u64::MAX, u32::MAX as u64, 1_000_000_007, 10, 9, 99, 100] {
        let mut out = "n=".to_string();
        push_decimal(&mut out, n);
        assert_eq!(out, format!("n={}", n));
    }
}

#[test]
fn numbers_are_read_as_the_standard_library_reads_them() {
    let mut inputs: Vec<String> = Vec::new();
    for n in (0..70000u32).step_by(7).chain(65530..65540).chain(0..120) {
        inputs.push(n.to_string());
        inputs.push(format!("+{}", n));
        inputs.push(format!("00{}", n));
        inputs.push(format!("-{}", n));
        inputs.push(format!("{} ", n));
        inputs.push(format!("{}a", n));
    }
    for s in [
        "", "+", "-", "++1", "+-1", "1+", " 1", "0x10", "１２", "٣", "4294967295", "4294967296",
        "99999999999999999999999999", "000000000000000000000000000001", "+0", "-0", "1_000",
    ] {
        inputs.push(s.to_string());
    }
    for s in &inputs {
        let c = chars(s);
        assert_eq!(parse_number(&c, 0xffff), s.parse::<u16>().ok().map(|n| n as u32), "{:?}", s);
        assert_eq!(parse_number(&c, u32::MAX), s.parse::<u32>().ok(), "{:?}", s);
        assert_eq!(parse_number(&c, 0xff), s.parse::<u8>().ok().map(|n| n as u32), "{:?}", s);
    }
}

#[test]
fn keywords_are_matched_as_lower_casing_matches_them() {
    let keywords = ["host", "hostname", "user", "port", "identityfile", "proxyjump"];
    let mut candidates: Vec<String> = Vec::new();
    for k in keywords {
        candidates.push(k.to_string());
        candidates.push(k.to_uppercase());
        candidates.push(format!("{}x", k));
        candidates.push(k[1..].to_string());
        let mut mixed = String::new();
        for (i, c) in k.chars().enumerate() {
            mixed.push(if i % 2 == 0 { c.to_ascii_uppercase() } else { c });
        }
        candidates.push(mixed);
        // letters that look alike or lower-case strangely
        candidates.push(k.replace('i', "\u{130}"));
        candidates.push(k.replace('i', "\u{131}"));
        candidates.push(k.replace('s', "\u{17f}"));
        candidates.push(k.replace('o', "\u{3bf}"));
        candidates.push(k.replace('h', "\u{210e}"));
    }
    candidates.push(String::new());
    candidates.push("\u{212a}".to_string());
    for c in &candidates {
        for k in keywords {
            assert_eq!(
                is_word_ignoring_case(&chars(c), &chars(k)),
                c.to_lowercase() == k,
                "{:?} as {:?}",
                c,
                k
            );
        }
    }
}

#[test]
fn only_latin_capitals_lower_case_to_the_letters_of_the_keywords() {
    let letters = "hostnameuserportidentityfileproxyjump";
    for n in 0..=0x10ffffu32 {
        if let Some(c) = char::from_u32(n) {
            let lowered: String = c.to_lowercase().collect();
            let mut it = lowered.chars();
            if let (Some(l), None) = (it.next(), it.next()) {
                if letters.contains(l) {
                    assert!(c.is_ascii_alphabetic(), "U+{:04X}", n);
                }
            }
        }
    }
}
