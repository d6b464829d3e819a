use launcher::clock::{
    check_plain, check_stamp, clock_line, time_stamp, world_clock, world_clock_lines, ZoneTable,
};
use launcher::failure::Failure;

#[test]
fn standard_table_has_eight_cities() {
    let table = ZoneTable::standard();
    assert_eq!(table.len(), 8);
    assert_eq!(table.offset_of("Otago"), Some(12));
    assert_eq!(table.offset_of("Tokyo"), Some(9));
    assert_eq!(table.offset_of("Shanghai"), Some(8));
    assert_eq!(table.offset_of("Bangkok"), Some(7));
    assert_eq!(table.offset_of("Vejle"), Some(1));
    assert_eq!(table.offset_of("Newyork"), Some(-4));
    assert_eq!(table.offset_of("Chicago"), Some(-5));
    assert_eq!(table.offset_of("Cupertino"), Some(-7));
    assert_eq!(table.offset_of("Paris"), None);
    assert_eq!(table.offset_of("otago"), None);
}

#[test]
fn world_clock_at_the_start_of_1970() {
    let lines = world_clock_lines(&ZoneTable::standard(), 0).unwrap();
    let expected = vec![
        "Otago      | Jan 01 (Thu) 12:00 PM +1200",
        "Tokyo      | Jan 01 (Thu) 09:00 AM +0900",
        "Shanghai   | Jan 01 (Thu) 08:00 AM +0800",
        "Bangkok    | Jan 01 (Thu) 07:00 AM +0700",
        "Vejle      | Jan 01 (Thu) 01:00 AM +0100",
        "Newyork    | Dec 31 (Wed) 20:00 PM -0400",
        "Chicago    | Dec 31 (Wed) 19:00 PM -0500",
        "Cupertino  | Dec 31 (Wed) 17:00 PM -0700",
    ];
    assert_eq!(lines, expected);
}

#[test]
fn world_clock_has_one_line_for_each_city() {
    for now in [-86_400_i64 * 366, 0, 951_782_400, 1_700_000_000, 4_102_444_799] {
        let lines = world_clock_lines(&ZoneTable::standard(), now).unwrap();
        assert_eq!(lines.len(), 8);
        let cities =
            ["Otago", "Tokyo", "Shanghai", "Bangkok", "Vejle", "Newyork", "Chicago", "Cupertino"];
        for (line, city) in lines.iter().zip(cities) {
            assert_eq!(line.len(), 10 + 3 + 27, "{:?}", line);
            assert_eq!(line[..10].trim_end(), city);
            assert_eq!(&line[10..13], " | ");
            let stamp = line[13..].as_bytes();
            assert!(stamp[..3].iter().all(u8::is_ascii_alphabetic));
            assert!(stamp[4..6].iter().all(u8::is_ascii_digit));
            assert_eq!(&stamp[6..8], b" (");
            assert_eq!(&stamp[11..13], b") ");
            assert_eq!(stamp[15], b':');
            assert!(&stamp[19..21] == b"AM" || &stamp[19..21] == b"PM");
            assert!(stamp[22] == b'+' || stamp[22] == b'-');
        }
    }
}

#[test]
fn world_clock_joins_the_lines() {
    let table = ZoneTable::standard();
    let now = 1_700_000_000;
    let text = world_clock(&table, now).unwrap();
    let lines = world_clock_lines(&table, now).unwrap();
    assert_eq!(text, lines.join("\n"));
    assert_eq!(text.lines().count(), 8);
    assert!(text.starts_with("Otago      | Nov 15 (Wed) 10:13 AM +1200\n"));
    assert!(text.ends_with("\nCupertino  | Nov 14 (Tue) 15:13 PM -0700"));
}

#[test]
fn world_clock_is_the_same_for_the_same_moment() {
    let now = 1_234_567_890;
    assert_eq!(world_clock(&ZoneTable::standard(), now), world_clock(&ZoneTable::standard(), now));
    assert_eq!(
        world_clock_lines(&ZoneTable::standard(), now),
        world_clock_lines(&ZoneTable::standard(), now)
    );
}

#[test]
fn world_clock_on_a_leap_day() {
    let table = ZoneTable::new().with_zone("UTC", 0).unwrap();
    assert_eq!(
        world_clock_lines(&table, 951_825_600).unwrap(),
        vec!["UTC        | Feb 29 (Tue) 12:00 PM +0000"]
    );
}

#[test]
fn world_clock_of_the_empty_table_is_empty() {
    let table = ZoneTable::new();
    assert_eq!(table.len(), 0);
    assert_eq!(world_clock_lines(&table, 0), Ok(Vec::new()));
    assert_eq!(world_clock(&table, 0), Ok(String::new()));
}

#[test]
fn world_clock_fails_beyond_the_calendar() {
    let table = ZoneTable::standard();
    assert_eq!(world_clock_lines(&table, i64::MAX), Err(Failure::NoTimeStamp));
    assert_eq!(world_clock(&table, i64::MIN), Err(Failure::NoTimeStamp));
}

#[test]
fn clock_line_fills_the_city_up_to_ten_columns() {
    assert_eq!(clock_line("Otago", "now"), Ok("Otago      | now".to_string()));
    assert_eq!(clock_line("", ""), Ok("           | ".to_string()));
    assert_eq!(clock_line("Wellington", "now"), Ok("Wellington | now".to_string()));
}

#[test]
fn clock_line_cuts_a_long_city_after_ten_columns() {
    assert_eq!(clock_line("Johannesburg", "now"), Ok("Johannesbu | now".to_string()));
}

#[test]
fn clock_line_refuses_a_city_that_is_not_plain() {
    assert_eq!(clock_line("Z\u{fc}rich", "now"), Err(Failure::BadCityName));
    assert_eq!(clock_line("New\nYork", "now"), Err(Failure::BadCityName));
    assert_eq!(clock_line("\u{6771}\u{4eac}", "now"), Err(Failure::BadCityName));
}

#[test]
fn check_plain_takes_printable_ascii_only() {
    assert!(check_plain(""));
    assert!(check_plain(" !~Az09"));
    assert!(!check_plain("\t"));
    assert!(!check_plain("\u{7f}"));
    assert!(!check_plain("caf\u{e9}"));
}

#[test]
fn with_zone_appends_a_new_city() {
    let table = ZoneTable::new().with_zone("Lima", -5).unwrap().with_zone("Perth", 8).unwrap();
    assert_eq!(table.len(), 2);
    assert_eq!(table.offset_of("Lima"), Some(-5));
    assert_eq!(table.offset_of("Perth"), Some(8));
    assert_eq!(
        world_clock_lines(&table, 0).unwrap(),
        vec!["Lima       | Dec 31 (Wed) 19:00 PM -0500", "Perth      | Jan 01 (Thu) 08:00 AM +0800"]
    );
}

#[test]
fn with_zone_keeps_the_place_of_a_known_city() {
    let table = ZoneTable::standard().with_zone("Tokyo", -3).unwrap();
    assert_eq!(table.len(), 8);
    assert_eq!(table.offset_of("Tokyo"), Some(-3));
    let lines = world_clock_lines(&table, 0).unwrap();
    assert_eq!(lines[0], "Otago      | Jan 01 (Thu) 12:00 PM +1200");
    assert_eq!(lines[1], "Tokyo      | Dec 31 (Wed) 21:00 PM -0300");
    assert_eq!(lines[2], "Shanghai   | Jan 01 (Thu) 08:00 AM +0800");
}

#[test]
fn with_zone_refuses_an_offset_of_a_day() {
    assert!(matches!(ZoneTable::new().with_zone("Far", 24), Err(Failure::OffsetOutOfRange)));
    assert!(matches!(ZoneTable::new().with_zone("Far", -24), Err(Failure::OffsetOutOfRange)));
    assert!(matches!(ZoneTable::new().with_zone("Far", i32::MAX), Err(Failure::OffsetOutOfRange)));
    assert!(ZoneTable::new().with_zone("East", 23).is_ok());
    assert!(ZoneTable::new().with_zone("West", -23).is_ok());
}

#[test]
fn with_zone_refuses_a_city_that_is_not_plain() {
    assert!(matches!(ZoneTable::new().with_zone("M\u{e1}laga", 1), Err(Failure::BadCityName)));
    assert!(matches!(ZoneTable::new().with_zone("M\u{e1}laga", 99), Err(Failure::BadCityName)));
}

#[test]
fn the_widest_offsets_are_shown() {
    let table = ZoneTable::new().with_zone("East", 23).unwrap().with_zone("West", -23).unwrap();
    assert_eq!(
        world_clock_lines(&table, 0).unwrap(),
        vec!["East       | Jan 01 (Thu) 23:00 PM +2300", "West       | Dec 31 (Wed) 01:00 AM -2300"]
    );
}

#[test]
fn time_stamp_names_month_day_and_weekday() {
    assert_eq!(time_stamp(0, 0), Ok("Jan 01 (Thu) 00:00 AM +0000".to_string()));
    assert_eq!(time_stamp(1_700_000_000, 0), Ok("Nov 14 (Tue) 22:13 PM +0000".to_string()));
    assert_eq!(time_stamp(1_700_000_000, 9), Ok("Nov 15 (Wed) 07:13 AM +0900".to_string()));
    assert_eq!(time_stamp(-1, -7), Ok("Dec 31 (Wed) 16:59 PM -0700".to_string()));
}

#[test]
fn time_stamp_shows_noon_as_pm_and_midnight_as_am() {
    assert_eq!(time_stamp(43_200, 0), Ok("Jan 01 (Thu) 12:00 PM +0000".to_string()));
    assert_eq!(time_stamp(43_199, 0), Ok("Jan 01 (Thu) 11:59 AM +0000".to_string()));
    assert_eq!(time_stamp(86_400, 0), Ok("Jan 02 (Fri) 00:00 AM +0000".to_string()));
}

#[test]
fn time_stamp_refuses_an_offset_of_a_day() {
    assert_eq!(time_stamp(0, 24), Err(Failure::OffsetOutOfRange));
    assert_eq!(time_stamp(0, -24), Err(Failure::OffsetOutOfRange));
    assert_eq!(time_stamp(i64::MAX, i32::MIN), Err(Failure::OffsetOutOfRange));
}

#[test]
fn time_stamp_fails_beyond_the_calendar() {
    assert_eq!(time_stamp(i64::MAX, 0), Err(Failure::NoTimeStamp));
    assert_eq!(time_stamp(i64::MIN, 0), Err(Failure::NoTimeStamp));
    assert!(time_stamp(8_210_266_876_799, 23).is_ok());
    assert!(time_stamp(-8_334_601_228_800, -23).is_ok());
}

#[test]
fn check_stamp_takes_what_is_laid_out_as_a_stamp() {
    assert!(check_stamp("Jan 01 (Thu) 12:00 PM +1200"));
    assert!(check_stamp("Dec 31 (Wed) 17:00 PM -0700"));
    assert!(check_stamp("Xyz 99 (Abc) 99:99 AM -9999"));
}

#[test]
fn check_stamp_refuses_everything_else() {
    assert!(!check_stamp(""));
    assert!(!check_stamp("Jan 01 (Thu) 12:00 PM +120"));
    assert!(!check_stamp("Jan 01 (Thu) 12:00 PM +12000"));
    assert!(!check_stamp("Jan 01 (Thu) 12:00 PM 01200"));
    assert!(!check_stamp("Jan 01 (Thu) 12:00 pm +1200"));
    assert!(!check_stamp("Jan 01 (Thu) 12.00 PM +1200"));
    assert!(!check_stamp("Jan 01 [Thu] 12:00 PM +1200"));
    assert!(!check_stamp("Jan  1 (Thu) 12:00 PM +1200"));
    assert!(!check_stamp("J4n 01 (Thu) 12:00 PM +1200"));
    assert!(!check_stamp("Jan 01 (Thu)\n12:00 PM +1200"));
    assert!(!check_stamp("Jan 01 (Thu) 12:00 PM +12\u{660}0"));
}

#[test]
fn every_stamp_of_the_clock_is_laid_out_as_a_stamp() {
    let moments =
        [i64::from(i32::MIN), -1, 0, 1, 86_399, 1_000_000_000, 4_102_444_800, 253_402_300_799];
    for now in moments {
        for offset in -23..=23 {
            let stamp = time_stamp(now, offset).unwrap();
            assert!(check_stamp(&stamp), "{:?}", stamp);
        }
    }
}
