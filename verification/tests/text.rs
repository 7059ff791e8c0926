use qexpr::text::text_is_blank;
use qexpr::{FieldName, Term};
use std::cmp::Ordering;
use std::collections::{BTreeSet, HashSet};

/// The code points that carry the Unicode property `White_Space`.
fn in_white_space_table(c: char) -> bool {
    matches!(
        u32::from(c),
        0x0009..=0x000D
            | 0x0020
            | 0x0085
            | 0x00A0
            | 0x1680
            | 0x2000..=0x200A
            | 0x2028
            | 0x2029
            | 0x202F
            | 0x205F
            | 0x3000
    )
}

#[test]
fn empty_text_is_blank() {
    assert!(text_is_blank(""));
    assert!(Term::new("").is_blank());
    assert!(FieldName::new("").is_blank());
}

#[test]
fn white_space_only_is_blank() {
    assert!(text_is_blank(" "));
    assert!(text_is_blank("   "));
    assert!(text_is_blank(" \t\r\n"));
    assert!(text_is_blank("\u{000B}\u{000C}"));
    assert!(text_is_blank("\u{0085}\u{00A0}\u{1680}"));
    assert!(text_is_blank("\u{2000}\u{2005}\u{200A}"));
    assert!(text_is_blank("\u{2028}\u{2029}\u{202F}\u{205F}\u{3000}"));
}

#[test]
fn text_with_a_visible_character_is_not_blank() {
    assert!(!text_is_blank("a"));
    assert!(!text_is_blank(" a"));
    assert!(!text_is_blank("a "));
    assert!(!text_is_blank("  a  "));
    assert!(!text_is_blank("\t\nx\r\n"));
    assert!(!text_is_blank("a b"));
    assert!(!text_is_blank("\u{3000}\u{4E2D}\u{3000}"));
}

#[test]
fn look_alikes_of_white_space_are_not_blank() {
    // Zero width space, word joiner, byte order mark, Mongolian vowel separator,
    // and the control characters next to the white space ones.
    assert!(!text_is_blank("\u{200B}"));
    assert!(!text_is_blank("\u{2060}"));
    assert!(!text_is_blank("\u{FEFF}"));
    assert!(!text_is_blank("\u{180E}"));
    assert!(!text_is_blank("\u{0008}"));
    assert!(!text_is_blank("\u{000E}"));
    assert!(!text_is_blank("\u{001F}"));
    assert!(!text_is_blank("\u{0000}"));
    assert!(!text_is_blank("\u{200C}"));
}

#[test]
fn every_character_is_blank_exactly_when_it_is_white_space() {
    let mut n: u32 = 0;
    let mut seen: u32 = 0;
    let mut blank: u32 = 0;
    while n <= 0x10FFFF {
        if let Some(c) = char::from_u32(n) {
            let alone = c.to_string();
            assert_eq!(text_is_blank(&alone), in_white_space_table(c), "U+{:04X}", n);
            seen += 1;
            if in_white_space_table(c) {
                blank += 1;
            }
        }
        n += 1;
    }
    assert_eq!(seen, 0x110000 - 0x800);
    assert_eq!(blank, 25);
}

#[test]
fn every_character_between_white_space_decides_alone() {
    let mut n: u32 = 0;
    while n <= 0x10FFFF {
        if let Some(c) = char::from_u32(n) {
            let padded = format!(" \u{2003}{}\n\u{00A0}", c);
            assert_eq!(Term::new(padded).is_blank(), in_white_space_table(c), "U+{:04X}", n);
        }
        n += 1;
    }
}

#[test]
fn term_keeps_its_text() {
    assert_eq!(Term::new("rust").0, "rust");
    assert_eq!(Term::new(String::from("  padded ")).0, "  padded ");
    assert_eq!(Term::new("").0, "");
    assert_eq!(FieldName::new("title").0, "title");
    assert_eq!(FieldName::new(String::from(" Body")).0, " Body");
}

#[test]
fn term_is_not_normalized() {
    let t = Term::new("  MiXed Case ");
    assert_eq!(t.0, "  MiXed Case ");
    assert!(!t.is_blank());
    assert_ne!(Term::new("a"), Term::new("A"));
    assert_ne!(Term::new("a"), Term::new("a "));
}

#[test]
fn term_blankness() {
    assert!(Term::new("").is_blank());
    assert!(Term::new("  ").is_blank());
    assert!(Term::new("\t\n").is_blank());
    assert!(!Term::new("a").is_blank());
    assert!(!Term::new(" a ").is_blank());
}

#[test]
fn field_name_blankness() {
    assert!(FieldName::new("").is_blank());
    assert!(FieldName::new(" \u{00A0} ").is_blank());
    assert!(!FieldName::new("title").is_blank());
    assert!(!FieldName::new(" title").is_blank());
}

#[test]
fn terms_are_equal_by_text() {
    assert_eq!(Term::new("a"), Term::new(String::from("a")));
    assert_ne!(Term::new("a"), Term::new("b"));
    assert_eq!(Term::new(""), Term::new(""));
    assert_ne!(Term::new(""), Term::new(" "));
    assert_eq!(FieldName::new("title"), FieldName::new("title"));
    assert_ne!(FieldName::new("title"), FieldName::new("body"));
}

#[test]
fn terms_are_ordered_by_text() {
    assert!(Term::new("a") < Term::new("b"));
    assert!(Term::new("a") < Term::new("aa"));
    assert!(Term::new("") < Term::new("a"));
    assert!(Term::new("B") < Term::new("a"));
    assert!(FieldName::new("body") < FieldName::new("title"));
    let mut terms = vec![Term::new("pear"), Term::new("apple"), Term::new("fig")];
    terms.sort();
    assert_eq!(terms, vec![Term::new("apple"), Term::new("fig"), Term::new("pear")]);
}

#[test]
fn terms_are_ordered_by_code_point() {
    assert_eq!(Term::new("a").partial_cmp(&Term::new("b")), Some(Ordering::Less));
    assert_eq!(Term::new("b").partial_cmp(&Term::new("a")), Some(Ordering::Greater));
    assert_eq!(Term::new("a").partial_cmp(&Term::new("a")), Some(Ordering::Equal));
    assert_eq!(Term::new("").partial_cmp(&Term::new("")), Some(Ordering::Equal));
    assert_eq!(Term::new("").partial_cmp(&Term::new(" ")), Some(Ordering::Less));
    assert_eq!(Term::new("ab").partial_cmp(&Term::new("a")), Some(Ordering::Greater));
    assert_eq!(Term::new("ab").partial_cmp(&Term::new("b")), Some(Ordering::Less));
    // Upper case comes before lower case, and a letter of one byte before an
    // accented letter of two.
    assert_eq!(Term::new("Z").partial_cmp(&Term::new("a")), Some(Ordering::Less));
    assert_eq!(Term::new("z").partial_cmp(&Term::new("\u{00E9}")), Some(Ordering::Less));
    assert_eq!(Term::new("\u{00E9}").partial_cmp(&Term::new("\u{4E2D}")), Some(Ordering::Less));
    // The last character of the basic plane comes before the first one beyond it.
    assert_eq!(Term::new("\u{FFFF}").partial_cmp(&Term::new("\u{10000}")), Some(Ordering::Less));
    assert_eq!(
        Term::new("\u{10FFFF}").partial_cmp(&Term::new("\u{E000}")),
        Some(Ordering::Greater)
    );
    assert_eq!(
        FieldName::new("title").partial_cmp(&FieldName::new("titles")),
        Some(Ordering::Less)
    );
    assert_eq!(
        FieldName::new("title").partial_cmp(&FieldName::new("Title")),
        Some(Ordering::Greater)
    );
}

#[test]
fn neighbouring_characters_are_ordered_by_code_point() {
    let mut n: u32 = 0;
    let mut last: Option<char> = None;
    while n <= 0x10FFFF {
        if let Some(c) = char::from_u32(n) {
            if let Some(p) = last {
                let low = Term::new(p.to_string());
                let high = Term::new(c.to_string());
                assert_eq!(low.partial_cmp(&high), Some(Ordering::Less), "U+{:04X}", n);
                assert!(low < high);
                assert!(high > low);
            }
            last = Some(c);
        }
        n += 4093;
    }
}

#[test]
fn both_orders_of_a_term_agree() {
    let texts = ["", " ", "a", "A", "ab", "b", "\u{00E9}", "\u{FFFF}", "\u{10000}", "zz"];
    for x in texts {
        for y in texts {
            let a = Term::new(x);
            let b = Term::new(y);
            assert_eq!(a.partial_cmp(&b), Some(a.cmp(&b)));
            assert_eq!(a.partial_cmp(&b), Some(x.cmp(y)));
            assert_eq!(a == b, a.cmp(&b) == Ordering::Equal);
            assert_eq!(a < b, b > a);
            let f = FieldName::new(x);
            let g = FieldName::new(y);
            assert_eq!(f.partial_cmp(&g), Some(f.cmp(&g)));
        }
    }
}

#[test]
fn terms_serve_as_keys() {
    let mut hashed: HashSet<Term> = HashSet::new();
    assert!(hashed.insert(Term::new("a")));
    assert!(!hashed.insert(Term::new("a")));
    assert!(hashed.insert(Term::new("b")));
    assert_eq!(hashed.len(), 2);
    assert!(hashed.contains(&Term::new("b")));

    let mut sorted: BTreeSet<FieldName> = BTreeSet::new();
    sorted.insert(FieldName::new("title"));
    sorted.insert(FieldName::new("body"));
    sorted.insert(FieldName::new("title"));
    let names: Vec<FieldName> = sorted.into_iter().collect();
    assert_eq!(names, vec![FieldName::new("body"), FieldName::new("title")]);
}

#[test]
fn a_cloned_term_is_equal() {
    let t = Term::new(" kept ");
    let c = t.clone();
    assert_eq!(c, t);
    assert_eq!(c.0, " kept ");
    let f = FieldName::new("title");
    assert_eq!(f.clone(), f);
}
