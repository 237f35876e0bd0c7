use ycal::date::Date;
use ycal::special::{key_of, SpecialDay, SpecialDayIndex};

fn special(year: i32, month: u32, day: u32, name: &str, is_holiday: bool) -> SpecialDay {
    SpecialDay { date: Date { year, month, day }, name: name.to_string(), is_holiday }
}

#[test]
fn index_keeps_every_entry_in_input_order() {
    let days = vec![
        special(2024, 12, 25, "Christmas", true),
        special(2024, 1, 1, "New Year", true),
        special(2024, 12, 25, "Office Closure", false),
        special(2024, 12, 25, "Dinner", false),
    ];
    let index = SpecialDayIndex::build(&days);
    let christmas = Date { year: 2024, month: 12, day: 25 };
    assert_eq!(index.lookup(&christmas), Some(&vec![0, 2, 3]));
    assert_eq!(index.lookup(&Date { year: 2024, month: 1, day: 1 }), Some(&vec![1]));
    assert_eq!(index.lookup(&Date { year: 2024, month: 1, day: 2 }), None);
    assert_eq!(index.holiday_name(&days, &christmas), "Christmas, Office Closure, Dinner");
    assert!(index.is_holiday(&days, &christmas));
    assert_eq!(index.map.len(), 2);
}

#[test]
fn a_date_without_entries_has_no_name_and_is_no_holiday() {
    let days = vec![special(2024, 12, 25, "Christmas", true)];
    let index = SpecialDayIndex::build(&days);
    let other = Date { year: 2024, month: 12, day: 26 };
    assert_eq!(index.holiday_name(&days, &other), "");
    assert!(!index.is_holiday(&days, &other));
    let none: Vec<SpecialDay> = Vec::new();
    let empty = SpecialDayIndex::build(&none);
    assert_eq!(empty.holiday_name(&none, &other), "");
    assert!(!empty.is_holiday(&none, &other));
    assert!(empty.map.is_empty());
}

#[test]
fn a_holiday_anywhere_among_the_entries_sets_the_flag() {
    let date = Date { year: 2024, month: 5, day: 1 };
    let last = vec![special(2024, 5, 1, "a", false), special(2024, 5, 1, "b", true)];
    assert!(SpecialDayIndex::build(&last).is_holiday(&last, &date));
    let first = vec![special(2024, 5, 1, "a", true), special(2024, 5, 1, "b", false)];
    assert!(SpecialDayIndex::build(&first).is_holiday(&first, &date));
    let none = vec![special(2024, 5, 1, "a", false), special(2024, 5, 1, "b", false)];
    let index = SpecialDayIndex::build(&none);
    assert!(!index.is_holiday(&none, &date));
    assert_eq!(index.holiday_name(&none, &date), "a, b");
}

#[test]
fn lookup_is_by_the_exact_date() {
    let days = vec![special(2024, 2, 29, "Leap", true), special(2023, 3, 1, "Other", true)];
    let index = SpecialDayIndex::build(&days);
    assert!(!index.is_holiday(&days, &Date { year: 2023, month: 2, day: 28 }));
    assert!(!index.is_holiday(&days, &Date { year: 2024, month: 3, day: 1 }));
    assert!(!index.is_holiday(&days, &Date { year: 2025, month: 2, day: 29 }));
    assert!(index.is_holiday(&days, &Date { year: 2024, month: 2, day: 29 }));
    assert!(index.is_holiday(&days, &Date { year: 2023, month: 3, day: 1 }));
}

#[test]
fn names_with_commas_are_joined_as_they_are() {
    let days = vec![special(2024, 7, 1, "a, b", false), special(2024, 7, 1, "", false)];
    let index = SpecialDayIndex::build(&days);
    assert_eq!(index.holiday_name(&days, &Date { year: 2024, month: 7, day: 1 }), "a, b, ");
}

#[test]
fn keys_tell_dates_apart() {
    let a = key_of(&Date { year: 2024, month: 1, day: 2 });
    let b = key_of(&Date { year: 2024, month: 2, day: 1 });
    let c = key_of(&Date { year: -2024, month: 1, day: 2 });
    assert!(a != b && a != c && b != c);
    assert_eq!(key_of(&Date { year: i32::MIN, month: 0, day: 0 }), 0);
    assert_eq!(key_of(&Date { year: i32::MIN, month: 0, day: 7 }), 7);
    assert_eq!(key_of(&Date { year: i32::MIN, month: 1, day: 0 }), 1u128 << 32);
    assert_eq!(key_of(&Date { year: i32::MIN + 1, month: 0, day: 0 }), 1u128 << 64);
    assert_eq!(
        key_of(&Date { year: i32::MAX, month: u32::MAX, day: u32::MAX }),
        (1u128 << 96) - 1
    );
}

#[test]
fn dates_that_the_calendar_lacks_are_still_kept_apart() {
    let days = vec![special(2024, 13, 40, "nowhere", true), special(2024, 1, 1, "first", false)];
    let index = SpecialDayIndex::build(&days);
    assert_eq!(index.holiday_name(&days, &Date { year: 2024, month: 1, day: 1 }), "first");
    assert_eq!(index.holiday_name(&days, &Date { year: 2024, month: 13, day: 40 }), "nowhere");
}
