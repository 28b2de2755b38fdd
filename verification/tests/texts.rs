use primitive::number::{compare_numbers, is_nan, is_zero, Comparison};
use primitive::text::{
    chars_of, compare_texts, contains, contains_ignoring_case, split_text, string_of, text_equal,
};
use primitive::value::Value;
use std::cmp::Ordering;

const TEXTS: [&str; 14] = [
    "",
    "a",
    "aa",
    "aaa",
    "aaaa",
    "ab",
    "aba",
    "a,b,c",
    ",a,,b,",
    ",",
    ",,",
    "h\u{e9}llo w\u{f6}rld",
    "\u{1f600}x\u{1f600}",
    "abababab",
];

#[test]
fn characters_of_a_text() {
    for text in TEXTS {
        let chars = chars_of(text);
        assert_eq!(chars, text.chars().collect::<Vec<char>>());
        assert_eq!(string_of(&chars, 0, chars.len()), text);
    }
    let chars = chars_of("h\u{e9}llo");
    assert_eq!(string_of(&chars, 1, 3), "\u{e9}l");
    assert_eq!(string_of(&chars, 2, 2), "");
}

#[test]
fn texts_are_equal_by_their_characters() {
    for a in TEXTS {
        for b in TEXTS {
            assert_eq!(text_equal(a, b), a == b);
        }
    }
}

#[test]
fn texts_are_ordered_as_strings_are() {
    for a in TEXTS {
        for b in TEXTS {
            let expected = match a.cmp(b) {
                Ordering::Less => Comparison::Less,
                Ordering::Equal => Comparison::Equal,
                Ordering::Greater => Comparison::Greater,
            };
            assert_eq!(compare_texts(a, b), expected);
        }
    }
    assert_eq!(compare_texts("Z", "a"), Comparison::Less);
    assert_eq!(compare_texts("\u{e9}", "z"), Comparison::Greater);
    assert_eq!(compare_texts("\u{ffff}", "\u{10000}"), Comparison::Less);
}

#[test]
fn search_finds_what_std_finds() {
    for outer in TEXTS {
        for inner in TEXTS {
            assert_eq!(contains(outer, inner), outer.contains(inner));
        }
    }
    assert!(contains("hello", "lo"));
    assert!(!contains("hello", "LO"));
    assert!(contains_ignoring_case("hello", "LO"));
    assert!(contains_ignoring_case("HELLO", "ell"));
    assert!(!contains_ignoring_case("hello", "le"));
}

#[test]
fn split_cuts_as_std_cuts() {
    for text in TEXTS {
        for delimiter in TEXTS {
            let expected: Vec<String> = text.split(delimiter).map(|s| s.to_string()).collect();
            assert_eq!(split_text(text, delimiter), expected);
        }
    }
}

#[test]
fn split_edge_cases() {
    assert_eq!(split_text("a,b,c", ","), vec!["a", "b", "c"]);
    assert_eq!(split_text("", ","), vec![""]);
    assert_eq!(split_text("a,", ","), vec!["a", ""]);
    assert_eq!(split_text(",a", ","), vec!["", "a"]);
    assert_eq!(split_text("aaa", "aa"), vec!["", "a"]);
    assert_eq!(split_text("abc", ""), vec!["", "a", "b", "c", ""]);
    assert_eq!(split_text("", ""), vec!["", ""]);
    assert_eq!(split_text("abc", "abcd"), vec!["abc"]);
    assert_eq!(split_text("abc", "abc"), vec!["", ""]);
}

const NUMBERS: [f64; 17] = [
    0.0,
    -0.0,
    1.0,
    -1.0,
    2.0,
    0.5,
    -0.5,
    1e-320,
    -1e-320,
    f64::MIN_POSITIVE,
    f64::MAX,
    f64::MIN,
    f64::INFINITY,
    f64::NEG_INFINITY,
    f64::NAN,
    f64::EPSILON,
    1e300,
];

#[test]
fn numbers_are_ordered_as_doubles_are() {
    for a in NUMBERS {
        for b in NUMBERS {
            let expected = match a.partial_cmp(&b) {
                Some(Ordering::Less) => Comparison::Less,
                Some(Ordering::Equal) => Comparison::Equal,
                Some(Ordering::Greater) => Comparison::Greater,
                None => Comparison::Unordered,
            };
            assert_eq!(compare_numbers(a.to_bits(), b.to_bits()), expected);
        }
    }
    let negative_nan = f64::from_bits(f64::NAN.to_bits() | (1u64 << 63));
    assert_eq!(compare_numbers(negative_nan.to_bits(), 1f64.to_bits()), Comparison::Unordered);
}

#[test]
fn numbers_are_classified_as_doubles_are() {
    for a in NUMBERS {
        assert_eq!(is_nan(a.to_bits()), a.is_nan());
        assert_eq!(is_zero(a.to_bits()), a == 0.0);
    }
    assert!(is_nan(0x7ff0_0000_0000_0001));
    assert!(is_nan(0xffff_ffff_ffff_ffff));
    assert!(!is_nan(0x7ff0_0000_0000_0000));
    assert!(!is_nan(0xfff0_0000_0000_0000));
}

fn float(x: f64) -> Value {
    Value::Float { bits: x.to_bits(), text: format!("{}", x) }
}

fn text(s: &str) -> Value {
    Value::Text { text: s.to_string(), number: s.parse::<f64>().ok().map(f64::to_bits) }
}

#[test]
fn values_render() {
    assert_eq!(Value::Bool(true).render(), "true");
    assert_eq!(Value::Bool(false).render(), "false");
    assert_eq!(float(2.5).render(), "2.5");
    assert_eq!(text("x y").render(), "x y");
    assert_eq!(Value::Column(vec![]).render(), "[]");
    assert_eq!(Value::Column(vec![float(1.0)]).render(), "[1]");
    assert_eq!(
        Value::Column(vec![float(1.0), text("a"), Value::Column(vec![Value::Bool(true), text("")])])
            .render(),
        "[1, a, [true, ]]"
    );
}

#[test]
fn values_read_as_numbers() {
    assert_eq!(float(2.5).parse_as_number(), Some(2.5f64.to_bits()));
    assert_eq!(text("2.5").parse_as_number(), Some(2.5f64.to_bits()));
    assert_eq!(text("two").parse_as_number(), None);
    assert_eq!(Value::Bool(true).parse_as_number(), None);
    assert_eq!(Value::Column(vec![float(1.0)]).parse_as_number(), None);
    assert_eq!(
        Value::Column(vec![float(1.0), text("3")]).parse_as_numbers(),
        Some(vec![1f64.to_bits(), 3f64.to_bits()])
    );
    assert_eq!(Value::Column(vec![]).parse_as_numbers(), Some(vec![]));
    assert_eq!(Value::Column(vec![float(1.0), text("x")]).parse_as_numbers(), None);
    assert_eq!(Value::Column(vec![Value::Column(vec![])]).parse_as_numbers(), None);
    assert_eq!(float(1.0).parse_as_numbers(), None);
    assert_eq!(text("1").parse_as_numbers(), None);
}

#[test]
fn values_compare() {
    assert_eq!(float(1.0).compare(&float(2.0)), Comparison::Less);
    assert_eq!(float(2.0).compare(&float(1.0)), Comparison::Greater);
    assert_eq!(float(f64::NAN).compare(&float(1.0)), Comparison::Unordered);
    assert_eq!(text("10").compare(&text("9")), Comparison::Less);
    assert_eq!(text("a").compare(&float(9.0)), Comparison::Greater);
    assert_eq!(
        Value::Float { bits: 1f64.to_bits(), text: "1".to_string() }
            .compare(&Value::Float { bits: 1f64.to_bits(), text: "1.0".to_string() }),
        Comparison::Equal
    );
    assert_eq!(
        Value::Column(vec![float(1.0), float(f64::NAN)])
            .compare(&Value::Column(vec![float(1.0), float(f64::NAN)])),
        Comparison::Unordered
    );
    assert_eq!(
        Value::Column(vec![float(1.0), float(f64::NAN)])
            .compare(&Value::Column(vec![float(2.0), float(f64::NAN)])),
        Comparison::Less
    );
    assert_eq!(
        Value::Column(vec![float(1.0)]).compare(&Value::Column(vec![float(1.0)])),
        Comparison::Equal
    );
}

#[test]
fn split_loses_nothing() {
    for text in TEXTS {
        for delimiter in TEXTS {
            let segments = split_text(text, delimiter);
            assert!(!segments.is_empty());
            assert_eq!(segments.join(delimiter), text);
            if !delimiter.is_empty() {
                for segment in segments.iter() {
                    assert!(!contains(segment, delimiter));
                }
            }
        }
    }
}

#[test]
fn swapping_mirrors_the_order() {
    let values = || {
        vec![
            Value::Bool(false),
            Value::Bool(true),
            float(-1.0),
            float(0.0),
            float(-0.0),
            float(f64::NAN),
            text(""),
            text("a"),
            text("b"),
            Value::Column(vec![]),
            Value::Column(vec![float(1.0)]),
            Value::Column(vec![float(1.0), text("a")]),
            Value::Column(vec![float(f64::NAN)]),
        ]
    };
    for a in values() {
        for b in values() {
            let mirrored = match a.compare(&b) {
                Comparison::Less => Comparison::Greater,
                Comparison::Greater => Comparison::Less,
                same => same,
            };
            assert_eq!(b.compare(&a), mirrored);
        }
    }
}

#[test]
fn clones_model_the_same() {
    let value = Value::Column(vec![
        float(1.5),
        text("x"),
        Value::Bool(true),
        Value::Column(vec![text("2")]),
    ]);
    assert_eq!(value.clone(), value);
    assert_eq!(value.clone().render(), "[1.5, x, true, [2]]");
}
