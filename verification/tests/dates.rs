use holo_dev::date::{date_text, day_to_instant, published_at};
use holo_dev::property::value_of_line;
use holo_dev::song::Skip;

#[test]
fn date_text_keeps_ten_characters() {
    assert_eq!(date_text("2021/05/01something-extra"), "2021/05/01");
    assert_eq!(date_text("2021/05/01"), "2021/05/01");
    assert_eq!(date_text("2021/5/1"), "2021/5/1");
    assert_eq!(date_text(""), "");
}

#[test]
fn date_text_counts_characters() {
    assert_eq!(date_text("２０２１年０５月０１日ごろ"), "２０２１年０５月０１");
}

#[test]
fn published_is_noon_in_japan_as_utc() {
    // 2021-05-01T03:00:00Z
    assert_eq!(published_at("2021/05/01"), Ok(1_619_838_000));
}

#[test]
fn published_tolerates_text_after_the_date() {
    let value = value_of_line("音源公開日：2021/05/01something-extra").unwrap();
    assert_eq!(value, "2021/05/01something-extra");
    assert_eq!(published_at(&value), Ok(1_619_838_000));
}

#[test]
fn published_at_the_epoch_day() {
    // 1970-01-01T12:00:00+09:00 is 03:00:00Z of the same day.
    assert_eq!(published_at("1970/01/01"), Ok(10_800));
}

#[test]
fn published_on_a_leap_day() {
    // 2020-02-29T03:00:00Z
    assert_eq!(published_at("2020/02/29"), Ok(1_582_945_200));
}

#[test]
fn date_in_another_form_is_refused() {
    assert_eq!(published_at("2021-05-01"), Err(Skip::UnparsableDate));
    assert_eq!(published_at("May 1, 2021"), Err(Skip::UnparsableDate));
    assert_eq!(published_at(""), Err(Skip::UnparsableDate));
}

#[test]
fn day_that_does_not_exist_is_refused() {
    assert_eq!(published_at("2021/02/30"), Err(Skip::UnparsableDate));
    assert_eq!(published_at("2021/13/01"), Err(Skip::UnparsableDate));
}

#[test]
fn day_to_instant_converts_a_parsed_day() {
    assert_eq!(day_to_instant(Some((2021, 5, 1))), Ok(1_619_838_000));
    assert_eq!(day_to_instant(Some((1969, 12, 31))), Ok(-75_600));
}

#[test]
fn day_to_instant_without_a_day() {
    assert_eq!(day_to_instant(None), Err(Skip::UnparsableDate));
}

#[test]
fn day_to_instant_of_an_impossible_day() {
    assert_eq!(day_to_instant(Some((2021, 2, 30))), Err(Skip::InvalidLocalTime));
    assert_eq!(day_to_instant(Some((2021, 0, 1))), Err(Skip::InvalidLocalTime));
}
