use kiro_relay::amount::Amount;
use kiro_relay::clock::Moment;
use kiro_relay::order::{ascending_numbers, ascending_texts, text_before};
use kiro_relay::table::Table;
use kiro_relay::text::{
    blank, contains, decimal, join, same, starts_with, to_ascii_lower, to_chars, trim, trim_end_of,
    white_space,
};

const SAMPLES: [&str; 14] = [
    "", " ", "a", " a ", "\u{3000}x\u{85}", "a//", "//", "aBc", "ÄÖz", "thinking", "x thinking",
    "thinkin", "ß\u{200b}", "\ta b\n",
];

#[test]
fn white_space_is_that_of_characters() {
    for c in '\0'..=char::MAX {
        assert_eq!(white_space(c), c.is_whitespace(), "{:x}", c as u32);
    }
}

#[test]
fn texts_behave_as_strings_do() {
    for a in SAMPLES {
        assert_eq!(trim(a), a.trim());
        assert_eq!(blank(a), a.trim().is_empty());
        assert_eq!(trim_end_of(a, '/'), a.trim_end_matches('/'));
        assert_eq!(to_ascii_lower(a), a.to_ascii_lowercase());
        assert_eq!(to_chars(a), a.chars().collect::<Vec<_>>());
        for b in SAMPLES {
            assert_eq!(same(a, b), a == b);
            assert_eq!(starts_with(a, b), a.starts_with(b));
            assert_eq!(contains(a, b), a.contains(b));
            assert_eq!(text_before(a, b), a < b);
        }
    }
}

#[test]
fn numbers_in_decimal() {
    for n in [0, 9, 10, 99, 100, 12345, u64::MAX] {
        assert_eq!(decimal(n), n.to_string());
    }
}

#[test]
fn rows_are_joined() {
    let row: Vec<String> = ["a", "", "b"].iter().map(|s| s.to_string()).collect();
    assert_eq!(join(&row, ", "), row.join(", "));
    assert_eq!(join(&vec![], ", "), "");
}

#[test]
fn rows_are_put_in_order() {
    assert_eq!(ascending_numbers(&[5, 1, 5, 0, u64::MAX, 1]), vec![0, 1, 5, u64::MAX]);
    let row: Vec<String> = ["b", "", "ab", "a", "b", "Ä", "Z"].iter().map(|s| s.to_string()).collect();
    assert_eq!(ascending_texts(&row), vec!["", "Z", "a", "ab", "b", "Ä"]);
    let mut turned = row.clone();
    turned.reverse();
    assert_eq!(ascending_texts(&turned), ascending_texts(&row));
}

#[test]
fn amounts_compare_as_floats_do() {
    let samples = [
        0.0, -0.0, 1.0, -1.0, 0.1, 1e-310, -1e-310, 999.99, 1000.0, 1050.0, f64::MAX, f64::MIN,
        f64::INFINITY, f64::NEG_INFINITY, f64::NAN, -f64::NAN, f64::MIN_POSITIVE,
    ];
    for x in samples {
        for y in samples {
            let (a, b) = (Amount { bits: x.to_bits() }, Amount { bits: y.to_bits() });
            assert_eq!(a.below(b), x < y, "{x} {y}");
            assert_eq!(a.at_least(b), x >= y, "{x} {y}");
            assert_eq!(a.equals(b), x == y, "{x} {y}");
        }
    }
    assert_eq!(f64::from_bits(Amount::thousand().bits), 1000.0);
    assert_eq!(f64::from_bits(Amount::hundred().bits), 100.0);
}

#[test]
fn moments_are_compared_and_told_apart() {
    let m = |secs: i64, nanos: u32| Moment { secs, nanos };
    assert!(m(5, 0).reached(m(5, 0)));
    assert!(m(5, 1).reached(m(5, 0)));
    assert!(!m(5, 0).reached(m(5, 1)));
    assert!(m(6, 0).reached(m(5, 999)));
    assert_eq!(m(5, 3).plus_seconds(10), m(15, 3));
    assert_eq!(m(10, 5).seconds_since(m(8, 6)), 1);
    assert_eq!(m(10, 6).seconds_since(m(8, 6)), 2);
    assert_eq!(m(8, 6).seconds_since(m(10, 5)), -1);
    assert_eq!(m(8, 0).seconds_since(m(8, 5)), 0);
}

#[test]
fn tables_hold_one_value_for_a_name() {
    let mut table: Table<u32> = Table::new();
    assert!(table.is_empty());
    table.insert("a".to_string(), 1);
    table.insert("b".to_string(), 2);
    table.insert("a".to_string(), 3);
    assert_eq!(table.get("a"), Some(&3));
    assert_eq!(table.get("c"), None);
    let mut names = table.names();
    names.sort();
    assert_eq!(names, vec!["a", "b"]);
    assert_eq!(table.remove("a"), Some(3));
    assert_eq!(table.remove("a"), None);
    assert_eq!(table.get("b"), Some(&2));
    assert!(!table.is_empty());
    table.remove("b");
    assert!(table.is_empty());
}
