use new_tube::new_tube_service::{NewTubeService, NewTubeServiceError};
use new_tube::yt_dlp::{Error, YTDLPItem, YTDLPResponse};

fn item(playlist_id: &str, id: &str) -> YTDLPItem {
    YTDLPItem {
        playlist_id: playlist_id.to_string(),
        id: id.to_string(),
        title: format!("title {}", id),
        duration: Some(60),
        channel: format!("channel {}", playlist_id),
    }
}

fn ok_snapshot(playlist_id: &str, latest: &str, previous: &str) -> Result<YTDLPResponse, Error> {
    Ok(YTDLPResponse {
        latest_item: item(playlist_id, latest),
        previous_item: item(playlist_id, previous),
    })
}

fn service_with(rows: &[(&str, &str, &str)]) -> NewTubeService {
    let mut service = NewTubeService::new();
    for (pl, latest, previous) in rows {
        service.add_playlist(ok_snapshot(pl, latest, previous)).unwrap();
    }
    service
}

#[test]
fn add_playlist_seeds_pair_from_one_fetch() {
    let service = service_with(&[("P1", "V1", "V0")]);
    let rows = service.database().query_all_items();
    assert_eq!(rows.len(), 1);
    assert_eq!(rows[0].playlist_id, "P1".to_string());
    assert_eq!(rows[0].video_id, "V1".to_string());
    assert_eq!(rows[0].previous_video_id, "V0".to_string());
    assert_eq!(rows[0].title, "title V1".to_string());
    assert_eq!(rows[0].uploader, "channel P1".to_string());
    assert_eq!(rows[0].duration, 60);
}

#[test]
fn add_playlist_insufficient_items_writes_nothing() {
    let mut service = NewTubeService::new();
    let fetch = YTDLPResponse::from_items(vec![item("P1", "V1")]);
    let result = service.add_playlist(fetch);
    match result {
        Err(NewTubeServiceError::YTDLPError(Error::WrongAmountReturned)) => {},
        _ => panic!("expected the insufficient-items error"),
    }
    assert_eq!(service.database().len(), 0);
}

#[test]
fn sync_really_new_overwrites_row_and_notifies() {
    let mut service = service_with(&[("P1", "V1", "V0")]);
    let report =
        service.get_new_videos_and_update_database(&vec![ok_snapshot("P1", "V2", "V1")]);
    assert_eq!(report.new_videos.len(), 1);
    assert_eq!(report.new_videos[0].video_id, "V2".to_string());
    assert!(report.failures.is_empty());
    let rows = service.database().query_all_items();
    assert_eq!(rows[0].video_id, "V2".to_string());
    assert_eq!(rows[0].previous_video_id, "V1".to_string());
}

#[test]
fn sync_removal_updates_row_without_notifying() {
    let mut service = service_with(&[("P1", "V2", "V1")]);
    let report =
        service.get_new_videos_and_update_database(&vec![ok_snapshot("P1", "V1", "V0")]);
    assert!(report.new_videos.is_empty());
    assert!(report.failures.is_empty());
    let rows = service.database().query_all_items();
    assert_eq!(rows[0].video_id, "V1".to_string());
    assert_eq!(rows[0].previous_video_id, "V0".to_string());
}

#[test]
fn sync_same_head_leaves_row_alone() {
    let mut service = service_with(&[("P1", "V1", "V0")]);
    let report =
        service.get_new_videos_and_update_database(&vec![ok_snapshot("P1", "V1", "V0")]);
    assert!(report.new_videos.is_empty());
    assert!(report.failures.is_empty());
    let rows = service.database().query_all_items();
    assert_eq!(rows[0].video_id, "V1".to_string());
    assert_eq!(rows[0].previous_video_id, "V0".to_string());
}

#[test]
fn sync_twice_with_no_platform_change_is_idempotent() {
    let mut service = service_with(&[("P1", "V1", "V0"), ("P2", "W5", "W4")]);
    let fetches = vec![ok_snapshot("P1", "V2", "V1"), ok_snapshot("P2", "W5", "W4")];
    let first = service.get_new_videos_and_update_database(&fetches);
    assert_eq!(first.new_videos.len(), 1);
    let rows_after_first: Vec<_> = service
        .database()
        .query_all_items()
        .into_iter()
        .map(|r| (r.playlist_id, r.video_id, r.previous_video_id))
        .collect();
    let second = service.get_new_videos_and_update_database(&fetches);
    assert!(second.new_videos.is_empty());
    assert!(second.failures.is_empty());
    let rows_after_second: Vec<_> = service
        .database()
        .query_all_items()
        .into_iter()
        .map(|r| (r.playlist_id, r.video_id, r.previous_video_id))
        .collect();
    assert_eq!(rows_after_first, rows_after_second);
}

#[test]
fn sync_isolates_one_failing_fetch() {
    let mut service =
        service_with(&[("P1", "V1", "V0"), ("P2", "W1", "W0"), ("P3", "X1", "X0")]);
    let fetches = vec![
        ok_snapshot("P1", "V2", "V1"),
        Err(Error::ProcessFailed("unreachable".to_string())),
        ok_snapshot("P3", "X1", "X0"),
    ];
    let report = service.get_new_videos_and_update_database(&fetches);
    assert_eq!(report.new_videos.len(), 1);
    assert_eq!(report.new_videos[0].playlist_id, "P1".to_string());
    assert_eq!(report.new_videos[0].video_id, "V2".to_string());
    assert_eq!(report.failures.len(), 1);
    assert_eq!(report.failures[0].playlist_id, "P2".to_string());
    assert!(matches!(report.failures[0].error, Error::ProcessFailed(_)));
    let rows = service.database().query_all_items();
    assert_eq!(rows[0].video_id, "V2".to_string());
    assert_eq!(rows[1].video_id, "W1".to_string());
    assert_eq!(rows[1].previous_video_id, "W0".to_string());
    assert_eq!(rows[2].video_id, "X1".to_string());
}

#[test]
fn delete_is_idempotent() {
    let mut service = service_with(&[("P1", "V1", "V0")]);
    service.delete(&"P9".to_string()).unwrap();
    assert_eq!(service.database().len(), 1);
    service.delete(&"P1".to_string()).unwrap();
    assert_eq!(service.database().len(), 0);
    service.delete(&"P1".to_string()).unwrap();
    assert_eq!(service.database().len(), 0);
}

#[test]
fn replace_swaps_rows_and_surfaces_failed_add() {
    let mut service = service_with(&[("P1", "V1", "V0")]);
    service.replace(&"P1".to_string(), ok_snapshot("P2", "W1", "W0")).unwrap();
    let ids = service.database().get_playlist_ids();
    assert_eq!(ids, vec!["P2".to_string()]);

    // A failing fetch leaves the old row deleted and reports the failure.
    let result = service.replace(
        &"P2".to_string(),
        Err(Error::ProcessFailed("unreachable".to_string())),
    );
    assert!(matches!(
        result,
        Err(NewTubeServiceError::YTDLPError(Error::ProcessFailed(_)))
    ));
    assert_eq!(service.database().len(), 0);
}

#[test]
fn add_playlist_same_id_overwrites() {
    let mut service = service_with(&[("P1", "V1", "V0")]);
    service.add_playlist(ok_snapshot("P1", "V3", "V2")).unwrap();
    let rows = service.database().query_all_items();
    assert_eq!(rows.len(), 1);
    assert_eq!(rows[0].video_id, "V3".to_string());
}

#[test]
fn get_playlist_ids_in_table_order() {
    let service = service_with(&[("P1", "V1", "V0"), ("P2", "W1", "W0")]);
    let ids = service.database().get_playlist_ids();
    assert_eq!(ids, vec!["P1".to_string(), "P2".to_string()]);
}
