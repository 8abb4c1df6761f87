use ggg::date::PageIdentifier;
use ggg::ui::Error;
use ggg::{date_to_file_name, date_to_gg_string, parse_gg_string_for_date};

fn id(year: u16, month: u8, day: u8) -> PageIdentifier {
    PageIdentifier::new(year, month, day).unwrap()
}

#[test]
fn parse_reads_a_bare_identifier() {
    let first = parse_gg_string_for_date("20021104").unwrap();
    assert_eq!(first, PageIdentifier::series_start());
    assert_eq!(first, id(2002, 11, 4));
    assert_eq!(first.to_digits(), "20021104");
}

#[test]
fn parse_refuses_garbage() {
    assert_eq!(parse_gg_string_for_date("garbage"), Err(Error::MalformedIdentifier));
}

#[test]
fn parse_refuses_the_empty_text_and_short_runs() {
    assert_eq!(parse_gg_string_for_date(""), Err(Error::MalformedIdentifier));
    assert_eq!(parse_gg_string_for_date("2002110"), Err(Error::MalformedIdentifier));
    assert_eq!(parse_gg_string_for_date("2002-11-04"), Err(Error::MalformedIdentifier));
    assert_eq!(parse_gg_string_for_date("2002 1104"), Err(Error::MalformedIdentifier));
}

#[test]
fn parse_finds_the_digits_in_surrounding_text() {
    let wanted = id(2002, 11, 7);
    assert_eq!(parse_gg_string_for_date("abc20021107def"), Ok(wanted));
    assert_eq!(parse_gg_string_for_date("comic.php?date=20021107"), Ok(wanted));
    assert_eq!(parse_gg_string_for_date("20021107.jpg"), Ok(wanted));
    assert_eq!(parse_gg_string_for_date("page 7 of 20021107"), Ok(wanted));
    assert_eq!(parse_gg_string_for_date("\u{e9}t\u{e9} 20021107 \u{2603}"), Ok(wanted));
}

#[test]
fn parse_takes_the_first_run_of_eight() {
    assert_eq!(parse_gg_string_for_date("20021104 20021107"), Ok(id(2002, 11, 4)));
    assert_eq!(parse_gg_string_for_date("1234567 20021107 20030101"), Ok(id(2002, 11, 7)));
}

#[test]
fn parse_starts_at_the_first_digit_of_a_longer_run() {
    let read = parse_gg_string_for_date("120021104").unwrap();
    assert_eq!(read.to_digits(), "12002110");
    assert_eq!(read, id(1200, 21, 10));
}

#[test]
fn parse_counts_ascii_digits_only() {
    let arabic = "\u{662}\u{660}\u{660}\u{662}\u{661}\u{661}\u{660}\u{664}";
    assert_eq!(parse_gg_string_for_date(arabic), Err(Error::MalformedIdentifier));
    let mixed = format!("{} 20021104", arabic);
    assert_eq!(parse_gg_string_for_date(&mixed), Ok(id(2002, 11, 4)));
    let broken = format!("2002{}1104", '\u{661}');
    assert_eq!(parse_gg_string_for_date(&broken), Err(Error::MalformedIdentifier));
}

#[test]
fn parse_checks_no_calendar() {
    assert_eq!(parse_gg_string_for_date("20021399"), Ok(id(2002, 13, 99)));
    assert_eq!(parse_gg_string_for_date("00000000"), Ok(id(0, 0, 0)));
    assert_eq!(parse_gg_string_for_date("99999999"), Ok(id(9999, 99, 99)));
    assert_eq!(parse_gg_string_for_date("20030229"), Ok(id(2003, 2, 29)));
}

#[test]
fn new_takes_what_fits_its_digits() {
    assert!(PageIdentifier::new(9999, 99, 99).is_some());
    assert!(PageIdentifier::new(0, 0, 0).is_some());
    assert_eq!(PageIdentifier::new(10000, 1, 1), None);
    assert_eq!(PageIdentifier::new(2002, 100, 1), None);
    assert_eq!(PageIdentifier::new(2002, 1, 100), None);
}

#[test]
fn from_token_takes_exactly_eight_digits() {
    assert_eq!(PageIdentifier::from_token("20021104"), Some(id(2002, 11, 4)));
    assert_eq!(PageIdentifier::from_token("2002110"), None);
    assert_eq!(PageIdentifier::from_token("200211041"), None);
    assert_eq!(PageIdentifier::from_token("2002110a"), None);
    assert_eq!(PageIdentifier::from_token("a0021104"), None);
    assert_eq!(PageIdentifier::from_token(" 20021104"), None);
    assert_eq!(PageIdentifier::from_token(""), None);
}

#[test]
fn digits_are_padded_with_zeros() {
    assert_eq!(id(7, 1, 2).to_digits(), "00070102");
    assert_eq!(id(2010, 10, 30).to_digits(), "20101030");
    assert_eq!(id(987, 6, 50).to_digits(), "09870650");
}

#[test]
fn address_and_file_name_of_the_first_page() {
    let first = PageIdentifier::series_start();
    assert_eq!(
        date_to_gg_string(&first),
        "https://www.girlgeniusonline.com/comic.php?date=20021104"
    );
    assert_eq!(date_to_file_name(&first), "20021104.jpg");
}

#[test]
fn reading_an_address_gives_the_page_back() {
    let years: [u16; 6] = [0, 7, 1999, 2002, 2024, 9999];
    let months: [u8; 5] = [0, 1, 11, 12, 99];
    let days: [u8; 5] = [0, 4, 28, 31, 99];
    for year in years {
        for month in months {
            for day in days {
                let page = id(year, month, day);
                let address = date_to_gg_string(&page);
                let read = parse_gg_string_for_date(&address).unwrap();
                assert_eq!(read, page);
                assert_eq!(date_to_gg_string(&read), address);
                assert_eq!(parse_gg_string_for_date(&date_to_file_name(&page)), Ok(page));
                assert_eq!(PageIdentifier::from_token(&page.to_digits()), Some(page));
            }
        }
    }
}

#[test]
fn writing_and_reading_an_identifier_are_repeatable() {
    let page = id(2002, 11, 7);
    assert_eq!(date_to_gg_string(&page), date_to_gg_string(&page));
    assert_eq!(date_to_file_name(&page), date_to_file_name(&page));
    assert_eq!(
        parse_gg_string_for_date("x20021107"),
        parse_gg_string_for_date("x20021107")
    );
}
