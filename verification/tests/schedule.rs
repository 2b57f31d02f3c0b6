use dailybible::biblereading::{
    find_reading, get_biblereading_for_date, get_todays_biblereading, read_schedule_row,
    read_schedule_rows, BibleReadingNotFoundError, CalendarDate, ErrorCause, ScheduleRow,
};

const SCHEDULE: &str = "\
date,new_testament,old_testament
08-31,1Kor11,\"Psalm 133,134\"
09-01,1Kor12,\"Psalm 135,136\"
09-02,1Kor13,Psalm 137
02-29,Mk1,Hiob 1
";

fn date(year: i32, month: u32, day: u32) -> CalendarDate {
    CalendarDate { year, month, day }
}

fn entry(month: u32, day: u32, new_testament: &str, old_testament: &str) -> ScheduleRow {
    ScheduleRow::Entry {
        date: date(2000, month, day),
        new_testament_reading: new_testament.to_string(),
        old_testament_reading: old_testament.to_string(),
    }
}

#[test]
fn date_can_be_found() {
    let search_result = get_biblereading_for_date(date(2024, 9, 1), Some(SCHEDULE.as_bytes()));
    assert!(search_result.is_ok());

    let biblereading = search_result.unwrap();
    assert_eq!(biblereading.old_testament_reading, "Psalm 135,136");
    assert_eq!(biblereading.new_testament_reading, "1Kor12");
}

#[test]
fn found_reading_is_dated_in_the_default_year() {
    let reading = get_biblereading_for_date(date(2024, 9, 1), Some(SCHEDULE.as_bytes())).unwrap();
    assert_eq!(reading.date, date(2000, 9, 1));
}

#[test]
fn lookup_ignores_the_year() {
    for year in [1999, 2000, 2023, 2024] {
        let reading =
            get_biblereading_for_date(date(year, 9, 2), Some(SCHEDULE.as_bytes())).unwrap();
        assert_eq!(reading.new_testament_reading, "1Kor13");
        assert_eq!(reading.old_testament_reading, "Psalm 137");
    }
}

#[test]
fn leap_day_is_found() {
    let reading = get_biblereading_for_date(date(2024, 2, 29), Some(SCHEDULE.as_bytes())).unwrap();
    assert_eq!(reading.new_testament_reading, "Mk1");
    assert_eq!(reading.old_testament_reading, "Hiob 1");
}

#[test]
fn absent_date_is_reported() {
    let error = get_biblereading_for_date(date(2024, 12, 25), Some(SCHEDULE.as_bytes()))
        .unwrap_err();
    assert_eq!(error.cause(), ErrorCause::DateDoesNotExist);
    assert_eq!(error.detail(), "");
    assert_eq!(
        error.to_string(),
        "There exists no entry with bible reading for today's date."
    );
}

#[test]
fn missing_schedule_is_reported() {
    let error = get_biblereading_for_date(date(2024, 9, 1), None).unwrap_err();
    assert_eq!(error.cause(), ErrorCause::InputFileNotFound);
    assert_eq!(error.to_string(), "The input file has not been found.");
}

#[test]
fn empty_schedule_has_no_date() {
    let error = get_biblereading_for_date(date(2024, 9, 1), Some(b"")).unwrap_err();
    assert_eq!(error.cause(), ErrorCause::DateDoesNotExist);
}

#[test]
fn header_row_is_no_entry() {
    let error = get_biblereading_for_date(date(2024, 9, 1), Some(b"09-01,1Kor12,Psalm 135\n"))
        .unwrap_err();
    assert_eq!(error.cause(), ErrorCause::DateDoesNotExist);
}

#[test]
fn rows_of_two_columns_are_malformed() {
    let schedule = "date,passage\n09-01,1Kor12\n";
    let error =
        get_biblereading_for_date(date(2024, 9, 1), Some(schedule.as_bytes())).unwrap_err();
    assert_eq!(error.cause(), ErrorCause::InvalidFormat);
    assert_eq!(error.detail(), "The length of the row is not always 3");
    assert_eq!(
        error.to_string(),
        "The format of the csv file seems to be invalid: The length of the row is not always 3"
    );
}

#[test]
fn unparseable_date_is_malformed() {
    let schedule = "date,nt,ot\n13-45,1Kor12,Psalm 1\n09-01,1Kor12,Psalm 2\n";
    let error =
        get_biblereading_for_date(date(2024, 9, 1), Some(schedule.as_bytes())).unwrap_err();
    assert_eq!(error.cause(), ErrorCause::InvalidFormat);
    assert_eq!(error.detail(), "Can not parse date 13-45");
    assert_eq!(
        error.to_string(),
        "The format of the csv file seems to be invalid: Can not parse date 13-45"
    );
}

#[test]
fn malformed_row_behind_the_day_is_fatal() {
    let schedule = "date,nt,ot\n09-01,1Kor12,Psalm 2\nsoon,1Kor13,Psalm 3\n";
    let error =
        get_biblereading_for_date(date(2024, 9, 1), Some(schedule.as_bytes())).unwrap_err();
    assert_eq!(error.cause(), ErrorCause::InvalidFormat);
    assert_eq!(error.detail(), "Can not parse date soon");
}

#[test]
fn short_row_is_fatal_wherever_it_stands() {
    for schedule in [
        "date,nt,ot\n08-31,1Kor11\n09-01,1Kor12,Psalm 3\n",
        "date,nt,ot\n09-01,1Kor12,Psalm 3\n09-02,1Kor13\n",
        "date,nt,ot\n09-01,1Kor12,Psalm 3\n09-02\n09-03,1Kor14,Psalm 5\n",
    ] {
        for day in [1, 2, 3, 30] {
            let error = get_biblereading_for_date(date(2024, 9, day), Some(schedule.as_bytes()))
                .unwrap_err();
            assert_eq!(error.cause(), ErrorCause::InvalidFormat);
            assert_eq!(error.detail(), "The length of the row is not always 3");
        }
    }
}

#[test]
fn long_row_is_fatal_wherever_it_stands() {
    let schedule = "date,nt,ot\n09-01,1Kor12,Psalm 2\n09-02,1Kor13,Psalm 3,more\n";
    for day in [1, 2, 3] {
        let error =
            get_biblereading_for_date(date(2024, 9, day), Some(schedule.as_bytes())).unwrap_err();
        assert_eq!(error.cause(), ErrorCause::InvalidFormat);
        assert_eq!(error.detail(), "The length of the row is not always 3");
    }
}

#[test]
fn unparseable_date_is_fatal_for_every_day() {
    let schedule = "date,nt,ot\n09-01,1Kor12,Psalm 2\n09-02,1Kor13,Psalm 3\nabc,1Kor14,Psalm 4\n";
    for day in [1, 2, 3] {
        let error =
            get_biblereading_for_date(date(2024, 9, day), Some(schedule.as_bytes())).unwrap_err();
        assert_eq!(error.cause(), ErrorCause::InvalidFormat);
        assert_eq!(error.detail(), "Can not parse date abc");
    }
}

#[test]
fn first_malformed_row_is_reported() {
    let schedule = "date,nt,ot\n09-01,1Kor12,Psalm 2\n13-45,a,b\nshort\nabc,c,d\n";
    let error =
        get_biblereading_for_date(date(2024, 9, 1), Some(schedule.as_bytes())).unwrap_err();
    assert_eq!(error.detail(), "Can not parse date 13-45");
    let schedule = "date,nt,ot\nshort\n13-45,a,b\n09-01,1Kor12,Psalm 2\n";
    let error =
        get_biblereading_for_date(date(2024, 9, 1), Some(schedule.as_bytes())).unwrap_err();
    assert_eq!(error.detail(), "The length of the row is not always 3");
}

#[test]
fn header_of_another_length_is_no_row() {
    let schedule = "date,passages\n09-01,1Kor12,Psalm 2\n";
    let reading = get_biblereading_for_date(date(2024, 9, 1), Some(schedule.as_bytes())).unwrap();
    assert_eq!(reading.old_testament_reading, "Psalm 2");
}

#[test]
fn record_that_is_no_text_is_passed_over() {
    let mut schedule = b"date,nt,ot\n08-31,1Kor11,".to_vec();
    schedule.extend_from_slice(&[0xff, 0xfe]);
    schedule.extend_from_slice(b"\n09-01,1Kor12,Psalm 2\n");
    let reading = get_biblereading_for_date(date(2024, 9, 1), Some(&schedule)).unwrap();
    assert_eq!(reading.new_testament_reading, "1Kor12");
    let error = get_biblereading_for_date(date(2024, 8, 31), Some(&schedule)).unwrap_err();
    assert_eq!(error.cause(), ErrorCause::DateDoesNotExist);
}

#[test]
fn first_row_of_the_day_wins() {
    let schedule = "date,nt,ot\n09-01,first,one\n09-01,second,two\n";
    let reading = get_biblereading_for_date(date(2024, 9, 1), Some(schedule.as_bytes())).unwrap();
    assert_eq!(reading.new_testament_reading, "first");
    assert_eq!(reading.old_testament_reading, "one");
}

#[test]
fn todays_reading_is_the_reading_of_the_date() {
    let reading = get_todays_biblereading(date(2025, 8, 31), Some(SCHEDULE.as_bytes())).unwrap();
    assert_eq!(reading.new_testament_reading, "1Kor11");
    assert_eq!(reading.old_testament_reading, "Psalm 133,134");
    let error = get_todays_biblereading(date(2025, 8, 30), None).unwrap_err();
    assert_eq!(error.cause(), ErrorCause::InputFileNotFound);
}

#[test]
fn record_becomes_row() {
    assert_eq!(read_schedule_row(&None), ScheduleRow::Unreadable);
    assert_eq!(
        read_schedule_row(&Some(vec!["09-01".to_string(), "1Kor12".to_string()])),
        ScheduleRow::WrongLength
    );
    assert_eq!(read_schedule_row(&Some(vec![])), ScheduleRow::WrongLength);
    assert_eq!(
        read_schedule_row(&Some(vec!["x".to_string(), "a".to_string(), "b".to_string()])),
        ScheduleRow::BadDate("x".to_string())
    );
    assert_eq!(
        read_schedule_row(&Some(vec![
            "09-01".to_string(),
            "1Kor12".to_string(),
            "Psalm 135,136".to_string()
        ])),
        entry(9, 1, "1Kor12", "Psalm 135,136")
    );
    assert_eq!(
        read_schedule_row(&Some(vec!["02-30".to_string(), "a".to_string(), "b".to_string()])),
        ScheduleRow::BadDate("02-30".to_string())
    );
}

#[test]
fn records_become_rows_in_order() {
    let records = vec![
        None,
        Some(vec!["12-24".to_string(), "Lk2".to_string(), "Jes 9".to_string()]),
        Some(vec!["only".to_string()]),
    ];
    assert_eq!(
        read_schedule_rows(&records),
        vec![ScheduleRow::Unreadable, entry(12, 24, "Lk2", "Jes 9"), ScheduleRow::WrongLength]
    );
    assert_eq!(read_schedule_rows(&Vec::new()), Vec::<ScheduleRow>::new());
}

#[test]
fn find_reading_in_well_formed_rows() {
    let rows = vec![
        ScheduleRow::Unreadable,
        entry(8, 31, "1Kor11", "Psalm 133,134"),
        entry(9, 1, "1Kor12", "Psalm 135,136"),
        ScheduleRow::Unreadable,
        entry(9, 1, "later", "row"),
    ];
    let reading = find_reading(date(1987, 9, 1), &rows).unwrap();
    assert_eq!(reading.date, date(2000, 9, 1));
    assert_eq!(reading.new_testament_reading, "1Kor12");
    assert_eq!(reading.old_testament_reading, "Psalm 135,136");

    let reading = find_reading(date(1987, 8, 31), &rows).unwrap();
    assert_eq!(reading.new_testament_reading, "1Kor11");

    let error = find_reading(date(1987, 9, 2), &rows).unwrap_err();
    assert_eq!(error.cause(), ErrorCause::DateDoesNotExist);
    assert_eq!(error.detail(), "");

    let error = find_reading(date(1987, 9, 2), &Vec::new()).unwrap_err();
    assert_eq!(error.cause(), ErrorCause::DateDoesNotExist);

    let error = find_reading(date(1987, 9, 2), &vec![ScheduleRow::Unreadable]).unwrap_err();
    assert_eq!(error.cause(), ErrorCause::DateDoesNotExist);
}

#[test]
fn find_reading_reports_a_malformed_row_wherever_it_stands() {
    let day = entry(9, 1, "1Kor12", "Psalm 135,136");
    let other = entry(8, 31, "1Kor11", "Psalm 133,134");
    for rows in [
        vec![ScheduleRow::WrongLength, day.clone(), other.clone()],
        vec![day.clone(), ScheduleRow::WrongLength, other.clone()],
        vec![day.clone(), other.clone(), ScheduleRow::Unreadable, ScheduleRow::WrongLength],
    ] {
        for search in [date(2024, 9, 1), date(2024, 8, 31), date(2024, 1, 1)] {
            let error = find_reading(search, &rows).unwrap_err();
            assert_eq!(error.cause(), ErrorCause::InvalidFormat);
            assert_eq!(error.detail(), "The length of the row is not always 3");
        }
    }
    for rows in [
        vec![ScheduleRow::BadDate("x".to_string()), day.clone()],
        vec![day.clone(), ScheduleRow::BadDate("x".to_string())],
        vec![day.clone(), ScheduleRow::BadDate("x".to_string()), ScheduleRow::WrongLength],
        vec![day.clone(), ScheduleRow::BadDate("x".to_string()), ScheduleRow::BadDate("y".to_string())],
    ] {
        for search in [date(2024, 9, 1), date(2024, 1, 1)] {
            let error = find_reading(search, &rows).unwrap_err();
            assert_eq!(error.cause(), ErrorCause::InvalidFormat);
            assert_eq!(error.detail(), "Can not parse date x");
        }
    }
}

#[test]
fn entry_dated_in_another_year_still_matches() {
    let rows = vec![ScheduleRow::Entry {
        date: date(-2000, 9, 1),
        new_testament_reading: "a".to_string(),
        old_testament_reading: "b".to_string(),
    }];
    let reading = find_reading(date(2024, 9, 1), &rows).unwrap();
    assert_eq!(reading.date, date(2000, 9, 1));
}

#[test]
fn error_without_detail() {
    let error = BibleReadingNotFoundError::new(ErrorCause::InvalidFormat);
    assert_eq!(error.cause(), ErrorCause::InvalidFormat);
    assert_eq!(error.detail(), "");
    assert_eq!(error.to_string(), "The format of the csv file seems to be invalid: ");
    let error = BibleReadingNotFoundError::invalid_format("why".to_string());
    assert_eq!(error.detail(), "why");
}

#[test]
fn with_year_keeps_month_and_day() {
    assert_eq!(date(2024, 2, 29).with_year(2000), date(2000, 2, 29));
    assert_eq!(date(1, 12, 31).with_year(-5), date(-5, 12, 31));
}
