use rusty_pomodoro::csvfile::{first_csv_field, last_csv_field, CsvFile};
use rusty_pomodoro::decimal::{parse_u32, u32_to_string, u64_to_string};

#[test]
fn numbers_are_written_in_decimal() {
    assert_eq!(u64_to_string(0), "0");
    assert_eq!(u64_to_string(7), "7");
    assert_eq!(u64_to_string(10), "10");
    assert_eq!(u64_to_string(12345), "12345");
    assert_eq!(u64_to_string(u64::MAX), "18446744073709551615");
    assert_eq!(u32_to_string(4294967295), "4294967295");
}

#[test]
fn csv_lines_join_fields_with_commas() {
    let file = CsvFile::new(String::from("./temp"), String::from("record"));
    assert_eq!(
        file.create_csv_line_from_vec(&vec![String::from("Test"), String::from("Headers")]),
        "Test,Headers"
    );
    assert_eq!(
        file.create_csv_line_from_vec(&vec![String::from("2019-01-01"), String::from("2")]),
        "2019-01-01,2"
    );
    assert_eq!(
        file.create_csv_line_from_vec(&vec![String::from("alone")]),
        "alone"
    );
    assert_eq!(file.create_csv_line_from_vec(&vec![]), "");
}

#[test]
fn numbers_are_read_back_from_decimal() {
    assert_eq!(parse_u32("0"), Some(0));
    assert_eq!(parse_u32("10"), Some(10));
    assert_eq!(parse_u32("4294967295"), Some(4294967295));
    assert_eq!(parse_u32("4294967296"), None);
    assert_eq!(parse_u32("99999999999999999999"), None);
    assert_eq!(parse_u32(""), None);
    assert_eq!(parse_u32("12a"), None);
    assert_eq!(parse_u32("-1"), None);
    assert_eq!(parse_u32("007"), Some(7));
}

#[test]
fn the_fields_of_a_record_line_are_read_back() {
    assert_eq!(first_csv_field("2019-01-01,2"), "2019-01-01");
    assert_eq!(last_csv_field("2019-01-01,2"), "2");
    assert_eq!(first_csv_field("alone"), "alone");
    assert_eq!(last_csv_field("alone"), "alone");
    assert_eq!(first_csv_field("a,b,c"), "a");
    assert_eq!(last_csv_field("a,b,c"), "c");
    assert_eq!(first_csv_field(""), "");
    assert_eq!(last_csv_field("trailing,"), "");
}

#[test]
fn the_record_path_carries_the_csv_suffix() {
    let file = CsvFile::new(String::from("./temp"), String::from("record"));
    assert_eq!(file.filename, "./temp/record.csv");
}
