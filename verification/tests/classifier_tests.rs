use new_tube::new_tube_service::{classify, NewVideo};
use new_tube::playlist_item::PlaylistItem;
use new_tube::yt_dlp::{YTDLPItem, YTDLPResponse};

fn row(playlist_id: &str, video_id: &str, previous_video_id: &str) -> PlaylistItem {
    PlaylistItem {
        playlist_id: playlist_id.to_string(),
        video_id: video_id.to_string(),
        title: "stored title".to_string(),
        duration: 100,
        uploader: "channel".to_string(),
        previous_video_id: previous_video_id.to_string(),
    }
}

fn fetched(playlist_id: &str, id: &str) -> YTDLPItem {
    YTDLPItem {
        playlist_id: playlist_id.to_string(),
        id: id.to_string(),
        title: format!("title {}", id),
        duration: Some(42),
        channel: "channel".to_string(),
    }
}

fn snapshot(playlist_id: &str, latest: &str, previous: &str) -> YTDLPResponse {
    YTDLPResponse {
        latest_item: fetched(playlist_id, latest),
        previous_item: fetched(playlist_id, previous),
    }
}

#[test]
fn classify_same_head_is_same_as_before() {
    let last = row("P1", "V1", "V0");
    let out = classify(&last, &snapshot("P1", "V1", "V0"));
    assert!(matches!(out, NewVideo::SameAsBefore));
}

#[test]
fn classify_predecessor_head_is_removal() {
    let last = row("P1", "V2", "V1");
    let out = classify(&last, &snapshot("P1", "V1", "V0"));
    match out {
        NewVideo::OldVideoNowLatest(v) => {
            assert_eq!(v.video_id, "V1".to_string());
            assert_eq!(v.previous_video_id, "V0".to_string());
        },
        _ => panic!("expected the removal outcome"),
    }
}

#[test]
fn classify_unknown_head_is_really_new() {
    let last = row("P1", "V1", "V0");
    let out = classify(&last, &snapshot("P1", "V2", "V1"));
    match out {
        NewVideo::ReallyNew(v) => {
            assert_eq!(v.video_id, "V2".to_string());
            assert_eq!(v.previous_video_id, "V1".to_string());
            assert_eq!(v.title, "title V2".to_string());
            assert_eq!(v.uploader, "channel".to_string());
            assert_eq!(v.duration, 42);
        },
        _ => panic!("expected the really-new outcome"),
    }
}

#[test]
fn classify_pair_always_from_one_snapshot() {
    // Even the removal outcome takes both ids from the fresh snapshot.
    let last = row("P1", "V9", "V1");
    let out = classify(&last, &snapshot("P1", "V1", "V0"));
    match out {
        NewVideo::OldVideoNowLatest(v) => {
            assert_eq!(v.video_id, "V1".to_string());
            assert_eq!(v.previous_video_id, "V0".to_string());
        },
        _ => panic!("expected the removal outcome"),
    }
}

#[test]
fn classify_missing_duration_becomes_zero() {
    let last = row("P1", "V1", "V0");
    let mut snap = snapshot("P1", "V2", "V1");
    snap.latest_item.duration = None;
    match classify(&last, &snap) {
        NewVideo::ReallyNew(v) => assert_eq!(v.duration, 0),
        _ => panic!("expected the really-new outcome"),
    }
}
