use new_tube::date::Date;

fn expected_date() -> Date {
    Date { year: 2021, month: 12, day: 19, hour: 19, minute: 13, second: 0 }
}

#[test]
pub fn from_video_date_works() {
    let date = Date::from_video_date(&"2021-12-19T19:13:00Z".to_string());
    assert_eq!(date, expected_date())
}

#[test]
pub fn from_db_playlist_date_works() {
    let date = Date::from_db_playlist_date(&"2021:12:19:19:13:00".to_string());
    assert_eq!(date, expected_date())
}

#[test]
pub fn to_db_playlist_date_works() {
    let date_string = "2021:12:19:19:13:00".to_string();
    let date = Date::from_db_playlist_date(&date_string);
    assert_eq!(date.to_db_playlist_date(), date_string)
}

#[test]
pub fn cmp_works() {
    assert!(
        Date::from_db_playlist_date(&"2021:12:19:19:13:00".to_string())
            < Date::from_db_playlist_date(&"2021:12:20:19:13:00".to_string())
    )
}

#[test]
fn from_video_date_keeps_offset_semantics() {
    // One hour east of UTC: the UTC breakdown is one hour earlier.
    let date = Date::from_video_date(&"2021-12-19T20:13:00+01:00".to_string());
    assert_eq!(date, expected_date());
}

#[test]
fn try_from_video_date_rejects_garbage() {
    assert!(Date::try_from_video_date(&"yesterday".to_string()).is_none());
    let parsed = Date::try_from_video_date(&"2021-12-19T19:13:00Z".to_string());
    assert_eq!(parsed, Some(expected_date()));
}

#[test]
fn from_db_playlist_date_unpadded() {
    let date = Date::from_db_playlist_date(&"2021:2:3:4:5:6".to_string());
    assert_eq!(date, Date { year: 2021, month: 2, day: 3, hour: 4, minute: 5, second: 6 });
    assert_eq!(date.to_db_playlist_date(), "2021:02:03:04:05:06".to_string());
}

#[test]
fn get_formatted_pads_below_ten() {
    assert_eq!(Date::get_formatted(7), "07".to_string());
    assert_eq!(Date::get_formatted(12), "12".to_string());
    assert_eq!(Date::get_formatted(0), "00".to_string());
}
