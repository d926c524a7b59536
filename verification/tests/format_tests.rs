use new_tube::duration_formatter::format_duration;
use new_tube::playlist_item::PlaylistItem;
use new_tube::text::u64_to_string;
use new_tube::yt_dlp::{Error, YTDLPItem, YTDLPResponse};

fn sample_row() -> PlaylistItem {
    PlaylistItem {
        playlist_id: "P1".to_string(),
        video_id: "dQw4w9WgXcQ".to_string(),
        title: "a title".to_string(),
        duration: 3723,
        uploader: "channel".to_string(),
        previous_video_id: "V0".to_string(),
    }
}

#[test]
fn format_duration_with_hours() {
    assert_eq!(format_duration("PT1H2M3S".to_string()), "1:2:3".to_string());
}

#[test]
fn format_duration_without_hours() {
    assert_eq!(format_duration("PT4M13S".to_string()), "00:4:13".to_string());
}

#[test]
fn link_is_full_watch_url() {
    assert_eq!(
        sample_row().link(),
        "https://www.youtube.com/watch?v=dQw4w9WgXcQ".to_string()
    );
}

#[test]
fn formatted_duration_splits_seconds() {
    assert_eq!(sample_row().formatted_duration(), "1:2:3".to_string());
    let mut short = sample_row();
    short.duration = 59;
    assert_eq!(short.formatted_duration(), "0:0:59".to_string());
    short.duration = 0;
    assert_eq!(short.formatted_duration(), "0:0:0".to_string());
}

#[test]
fn u64_to_string_renders_decimal() {
    assert_eq!(u64_to_string(0), "0".to_string());
    assert_eq!(u64_to_string(907), "907".to_string());
    assert_eq!(u64_to_string(u64::MAX), "18446744073709551615".to_string());
}

#[test]
fn from_items_pairs_exactly_two() {
    let one = YTDLPItem {
        playlist_id: "P1".to_string(),
        id: "V1".to_string(),
        title: "t".to_string(),
        duration: None,
        channel: "c".to_string(),
    };
    let mut two = one.clone();
    two.id = "V0".to_string();
    let resp = YTDLPResponse::from_items(vec![one.clone(), two]).unwrap();
    assert_eq!(resp.latest_item.id, "V1".to_string());
    assert_eq!(resp.previous_item.id, "V0".to_string());

    assert!(matches!(
        YTDLPResponse::from_items(vec![]),
        Err(Error::WrongAmountReturned)
    ));
    assert!(matches!(
        YTDLPResponse::from_items(vec![one.clone()]),
        Err(Error::WrongAmountReturned)
    ));
    let three = vec![one.clone(), one.clone(), one];
    assert!(matches!(
        YTDLPResponse::from_items(three),
        Err(Error::WrongAmountReturned)
    ));
}

#[test]
fn error_labels_name_the_failure() {
    assert_eq!(
        Error::WrongAmountReturned.describe(),
        "the fetch did not return exactly 2 items".to_string()
    );
    assert_eq!(
        Error::ProcessFailed("boom".to_string()).describe(),
        "failed to execute the fetcher process: boom".to_string()
    );
    assert_eq!(
        Error::ItemParseFailed("boom".to_string()).describe(),
        "failed to parse the fetched items: boom".to_string()
    );
    assert_eq!(
        Error::CommandOutputParseFailed("boom".to_string()).describe(),
        "fetcher output could not be read: boom".to_string()
    );
}
