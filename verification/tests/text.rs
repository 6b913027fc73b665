use erika_catalogue::date::{deserialize_optional_date, Date, DateError};
use erika_catalogue::fields::{find_first, find_last, parse_fields};
use erika_catalogue::ordering::{text_order, TextOrder};
use erika_catalogue::text::{chars_of, parse_usize, str_eq, u64_to_decimal};

#[test]
fn decimal_numerals() {
    assert_eq!(u64_to_decimal(0), "0");
    assert_eq!(u64_to_decimal(7), "7");
    assert_eq!(u64_to_decimal(10), "10");
    assert_eq!(u64_to_decimal(1234567890), "1234567890");
    assert_eq!(u64_to_decimal(u64::MAX), "18446744073709551615");
}

#[test]
fn numbers_are_read_as_the_standard_library_reads_them() {
    for text in ["0", "7", "+7", "0012", "30", "18446744073709551615", "", "+", "-1", "1a", " 1", "1 ", "++1", "99999999999999999999999"] {
        assert_eq!(parse_usize(text), text.parse::<usize>().ok(), "for {:?}", text);
    }
    assert_eq!(parse_usize("42"), Some(42));
}

#[test]
fn texts_compare_by_their_characters() {
    assert!(str_eq("", ""));
    assert!(str_eq("caf\u{e9}", "caf\u{e9}"));
    assert!(!str_eq("a", "A"));
    assert!(!str_eq("a", "ab"));
    assert_eq!(chars_of("h\u{e9}!"), vec!['h', '\u{e9}', '!']);
}

#[test]
fn dictionary_order_is_that_of_str() {
    let words = ["", "a", "A", "ab", "abc", "b", "Zelda", "zelda", "\u{e9}t\u{e9}", "z", "~"];
    for a in words {
        for b in words {
            let expected = if a < b {
                TextOrder::Before
            } else if a == b {
                TextOrder::Same
            } else {
                TextOrder::After
            };
            assert_eq!(text_order(&chars_of(a), &chars_of(b)), expected, "{:?} and {:?}", a, b);
        }
    }
}

#[test]
fn form_bodies_are_decoded() {
    let fields = parse_fields("name=Breath+of+the+Wild&rating=loved&x=%23first&name=Second&empty=&flag");
    assert_eq!(fields.len(), 6);
    assert_eq!(fields[0].name, "name");
    assert_eq!(fields[0].value, "Breath of the Wild");
    assert_eq!(fields[2].value, "#first");
    assert_eq!(find_first(&fields, "name"), Some(String::from("Breath of the Wild")));
    assert_eq!(find_last(&fields, "name"), Some(String::from("Second")));
    assert_eq!(find_last(&fields, "empty"), Some(String::new()));
    assert_eq!(find_first(&fields, "flag"), Some(String::new()));
    assert_eq!(find_first(&fields, "absent"), None);
    assert_eq!(find_last(&fields, "absent"), None);
    assert!(parse_fields("").is_empty());
}

#[test]
fn dates_are_parsed_by_the_calendar() {
    assert_eq!(Date::parse("2024-02-29"), Some(Date { year: 2024, month: 2, day: 29 }));
    assert_eq!(Date::parse("2023-02-29"), None);
    assert_eq!(Date::parse("2015-09-05"), Some(Date { year: 2015, month: 9, day: 5 }));
    assert_eq!(Date::parse("yesterday"), None);
    assert_eq!(Date::parse(""), None);
    assert_eq!(Date::parse("2024-01-10T00:00"), None);
}

#[test]
fn optional_dates() {
    assert_eq!(deserialize_optional_date("N/A"), Ok(None));
    assert_eq!(
        deserialize_optional_date("2021-07-07"),
        Ok(Some(Date { year: 2021, month: 7, day: 7 }))
    );
    assert_eq!(deserialize_optional_date("n/a"), Err(DateError::Invalid));
    assert_eq!(deserialize_optional_date("2021-13-01"), Err(DateError::Invalid));
}

#[test]
fn dates_order_and_timestamps() {
    let a = Date { year: 2020, month: 12, day: 31 };
    let b = Date { year: 2021, month: 1, day: 1 };
    assert!(a.is_before(&b));
    assert!(!b.is_before(&a));
    assert!(!a.is_before(&a));
    assert!(Date { year: 2021, month: 1, day: 1 }.is_before(&Date { year: 2021, month: 1, day: 2 }));
    assert!(Date { year: 2021, month: 1, day: 31 }.is_before(&Date { year: 2021, month: 2, day: 1 }));
    assert_eq!(Date { year: 1970, month: 1, day: 1 }.timestamp_millis(), Some(0));
    assert_eq!(Date { year: 1970, month: 1, day: 2 }.timestamp_millis(), Some(86_400_000));
    assert_eq!(Date { year: 2001, month: 9, day: 9 }.timestamp_millis(), Some(999_993_600_000));
    assert_eq!(Date { year: 1969, month: 12, day: 31 }.timestamp_millis(), Some(-86_400_000));
    assert_eq!(Date { year: 2023, month: 2, day: 30 }.timestamp_millis(), None);
}
