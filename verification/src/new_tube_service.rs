//! The novelty classifier and the synchronization engine.
//!
//! The classifier compares one persisted row against one fresh snapshot
//! and decides, in order: unchanged head, retroactive removal, or a
//! genuinely new upload. The engine applies that decision to every
//! tracked playlist, isolating per-playlist fetch failures, and returns
//! the videos worth announcing together with the failures, each tagged
//! with its playlist id.

use vstd::prelude::*;
use crate::database::{ids_unique, lemma_id_index_of_member, remove_id, upsert, Database};
use crate::playlist_item::{item_of, views_of_items, PlaylistItem, PlaylistItemView};
use crate::yt_dlp::{Error, ErrorView, YTDLPResponse, YTDLPResponseView};

verus! {

/// The different states a "new video" returned by the service can be in
pub enum NewVideo {
    /// The video really is new and should be broadcast to the user
    ReallyNew(PlaylistItem),
    /// A video was removed from a playlist, leaving this video as the new
    /// latest one. This should not be broadcast to the user, as they
    /// already know it
    OldVideoNowLatest(PlaylistItem),
    /// No new video. The fetch returned the same video that is already
    /// stored
    SameAsBefore,
}

/// The row a snapshot would persist: both ids taken from the same fetch.
pub open spec fn fresh_item(resp: YTDLPResponseView) -> PlaylistItemView {
    item_of(resp.latest_item, resp.previous_item.id)
}

/// The snapshot head equals the persisted latest video: nothing changed.
pub open spec fn is_same(last: PlaylistItemView, resp: YTDLPResponseView) -> bool {
    resp.latest_item.id == last.video_id
}

/// The snapshot head equals the persisted predecessor: the stored latest
/// video was removed from the playlist.
pub open spec fn is_removal(last: PlaylistItemView, resp: YTDLPResponseView) -> bool {
    !is_same(last, resp) && resp.latest_item.id == last.previous_video_id
}

/// The snapshot head is neither the persisted latest video nor its
/// predecessor: a genuinely new upload.
pub open spec fn is_really_new(last: PlaylistItemView, resp: YTDLPResponseView) -> bool {
    !is_same(last, resp) && !is_removal(last, resp)
}

/// The row as it stands after classifying one snapshot: untouched when
/// nothing changed, else overwritten with the fresh pair.
pub open spec fn row_after(last: PlaylistItemView, resp: YTDLPResponseView) -> PlaylistItemView {
    if is_same(last, resp) {
        last
    } else {
        fresh_item(resp)
    }
}

/// Classifies one fresh snapshot against the persisted row, first match
/// wins: same head, removed head, or really new.
pub fn classify(last: &PlaylistItem, response: &YTDLPResponse) -> (r: NewVideo)
    ensures
        is_same(last@, response@) ==> r is SameAsBefore,
        is_removal(last@, response@) ==> (r matches NewVideo::OldVideoNowLatest(v) && v@
            == fresh_item(response@)),
        is_really_new(last@, response@) ==> (r matches NewVideo::ReallyNew(v) && v@ == fresh_item(
            response@,
        )),
{
    let latest = PlaylistItem::new(response.latest_item.clone(), response.previous_item.id.clone());
    if latest.video_id == last.video_id {
        // The latest video did not change, so no new video here
        NewVideo::SameAsBefore
    } else if latest.video_id == last.previous_video_id {
        // The latest video of the playlist is now the previous latest
        // from the table. This means the latest video stored in the
        // table was removed from the playlist for any reason. Return
        // what the fetch reported as the latest one, as this will
        // overwrite the now invalid row.
        NewVideo::OldVideoNowLatest(latest)
    } else {
        // The video is not the same as the current one and also not a
        // previous one. It is really new
        NewVideo::ReallyNew(latest)
    }
}

/// The view of one fetch outcome.
pub open spec fn fetch_view(f: Result<YTDLPResponse, Error>) -> Result<
    YTDLPResponseView,
    ErrorView,
> {
    match f {
        Ok(resp) => Ok(resp@),
        Err(e) => Err(e@),
    }
}

/// The views of a sequence of fetch outcomes.
pub open spec fn fetch_views(s: Seq<Result<YTDLPResponse, Error>>) -> Seq<
    Result<YTDLPResponseView, ErrorView>,
> {
    s.map_values(|f: Result<YTDLPResponse, Error>| fetch_view(f))
}

/// The row after one sync step: a failed fetch leaves it untouched.
pub open spec fn sync_row(
    last: PlaylistItemView,
    fetch: Result<YTDLPResponseView, ErrorView>,
) -> PlaylistItemView {
    match fetch {
        Ok(resp) => row_after(last, resp),
        Err(_) => last,
    }
}

/// The whole table after one batch sync, row by row.
pub open spec fn rows_after_sync(
    rows: Seq<PlaylistItemView>,
    fetches: Seq<Result<YTDLPResponseView, ErrorView>>,
) -> Seq<PlaylistItemView> {
    Seq::new(rows.len(), |i: int| sync_row(rows[i], fetches[i]))
}

/// Whether one sync step announces a video: only a genuinely new upload
/// does; a removal correction is persisted silently.
pub open spec fn notifies(
    last: PlaylistItemView,
    fetch: Result<YTDLPResponseView, ErrorView>,
) -> bool {
    fetch matches Ok(resp) && is_really_new(last, resp)
}

/// The videos a batch sync announces, in table order.
pub open spec fn new_videos_of(
    rows: Seq<PlaylistItemView>,
    fetches: Seq<Result<YTDLPResponseView, ErrorView>>,
) -> Seq<PlaylistItemView>
    decreases rows.len(),
{
    if rows.len() == 0 {
        Seq::empty()
    } else {
        new_videos_of(rows.drop_last(), fetches.drop_last()) + (if notifies(
            rows.last(),
            fetches.last(),
        ) {
            seq![fresh_item(fetches.last()->Ok_0)]
        } else {
            Seq::empty()
        })
    }
}

/// Mathematical view of one reported failure.
pub ghost struct SyncFailureView {
    pub playlist_id: Seq<char>,
    pub error: ErrorView,
}

/// One fetch failure, tagged with the playlist it belongs to.
pub struct SyncFailure {
    /// The playlist whose fetch failed.
    pub playlist_id: String,
    /// What went wrong for that playlist.
    pub error: Error,
}

impl View for SyncFailure {
    type V = SyncFailureView;

    open spec fn view(&self) -> SyncFailureView {
        SyncFailureView { playlist_id: self.playlist_id@, error: self.error@ }
    }
}

/// The views of a sequence of reported failures.
pub open spec fn views_of_failures(s: Seq<SyncFailure>) -> Seq<SyncFailureView> {
    s.map_values(|f: SyncFailure| f@)
}

/// The failures a batch sync reports, in table order, each tagged with
/// its playlist id.
pub open spec fn failures_of(
    rows: Seq<PlaylistItemView>,
    fetches: Seq<Result<YTDLPResponseView, ErrorView>>,
) -> Seq<SyncFailureView>
    decreases rows.len(),
{
    if rows.len() == 0 {
        Seq::empty()
    } else {
        failures_of(rows.drop_last(), fetches.drop_last()) + (match fetches.last() {
            Err(e) => seq![SyncFailureView { playlist_id: rows.last().playlist_id, error: e }],
            Ok(_) => Seq::empty(),
        })
    }
}

/// Extending a batch by one playlist extends its announcements and its
/// failure report by that playlist's contribution.
proof fn lemma_sync_outputs_step(
    rows: Seq<PlaylistItemView>,
    fetches: Seq<Result<YTDLPResponseView, ErrorView>>,
    i: int,
)
    requires
        fetches.len() == rows.len(),
        0 <= i < rows.len(),
    ensures
        new_videos_of(rows.take(i + 1), fetches.take(i + 1)) == new_videos_of(
            rows.take(i),
            fetches.take(i),
        ) + (if notifies(rows[i], fetches[i]) {
            seq![fresh_item(fetches[i]->Ok_0)]
        } else {
            Seq::<PlaylistItemView>::empty()
        }),
        failures_of(rows.take(i + 1), fetches.take(i + 1)) == failures_of(
            rows.take(i),
            fetches.take(i),
        ) + (match fetches[i] {
            Err(e) => seq![SyncFailureView { playlist_id: rows[i].playlist_id, error: e }],
            Ok(_) => Seq::<SyncFailureView>::empty(),
        }),
{
    assert(rows.take(i + 1).drop_last() =~= rows.take(i));
    assert(fetches.take(i + 1).drop_last() =~= fetches.take(i));
    assert(rows.take(i + 1).last() == rows[i]);
    assert(fetches.take(i + 1).last() == fetches[i]);
}

/// What one batch sync returned: the videos to announce and the
/// playlists whose fetch failed.
pub struct SyncReport {
    /// Genuinely new videos, to be handed to the notification sink.
    pub new_videos: Vec<PlaylistItem>,
    /// Per-playlist fetch failures; they did not stop the batch.
    pub failures: Vec<SyncFailure>,
}

/// Central service: tracks playlists in the keyed table and turns fetch
/// outcomes into persisted state and announcements.
pub struct NewTubeService {
    database: Database,
}

impl View for NewTubeService {
    type V = Seq<PlaylistItemView>;

    closed spec fn view(&self) -> Seq<PlaylistItemView> {
        self.database@
    }
}

/// The error a service operation surfaces.
#[derive(Debug)]
pub enum NewTubeServiceError {
    /// The snapshot fetch for the playlist failed.
    YTDLPError(Error),
}

impl NewTubeService {
    /// The underlying table keeps at most one row per playlist id.
    pub open spec fn wf(&self) -> bool {
        ids_unique(self@)
    }

    /// A service over an empty table.
    pub fn new() -> (s: NewTubeService)
        ensures
            s@ =~= Seq::<PlaylistItemView>::empty(),
            s.wf(),
    {
        NewTubeService { database: Database::new() }
    }

    /// A service over a loaded table.
    pub fn from_database(database: Database) -> (s: NewTubeService)
        requires
            database.wf(),
        ensures
            s@ == database@,
            s.wf(),
    {
        NewTubeService { database }
    }

    /// The table the service works on, for reading the rows back out.
    pub fn database(&self) -> (d: &Database)
        ensures
            d@ == self@,
    {
        &self.database
    }

    /// Starts tracking a playlist from one snapshot fetch: the fetched
    /// (latest, previous) pair is stored directly as ground truth. A
    /// failed fetch — a two-item snapshot being unavailable included —
    /// is surfaced and writes nothing.
    pub fn add_playlist(&mut self, fetch: Result<YTDLPResponse, Error>) -> (r: Result<
        (),
        NewTubeServiceError,
    >)
        requires
            old(self).wf(),
        ensures
            final(self).wf(),
            fetch matches Ok(resp) ==> (r is Ok && final(self)@ == upsert(
                old(self)@,
                fresh_item(resp@),
            )),
            fetch matches Err(e) ==> (final(self)@ == old(self)@ && r == Err::<
                (),
                NewTubeServiceError,
            >(NewTubeServiceError::YTDLPError(e))),
    {
        match fetch {
            Ok(resp) => {
                let YTDLPResponse { latest_item, previous_item } = resp;
                let item = PlaylistItem::new(latest_item, previous_item.id);
                self.database.add_item(&item);
                Ok(())
            },
            Err(e) => Err(NewTubeServiceError::YTDLPError(e)),
        }
    }

    /// Stops tracking a playlist; deleting an untracked id is a no-op,
    /// not an error.
    pub fn delete(&mut self, id: &String) -> (r: Result<(), NewTubeServiceError>)
        requires
            old(self).wf(),
        ensures
            final(self).wf(),
            final(self)@ == remove_id(old(self)@, id@),
            r is Ok,
    {
        self.database.delete(id);
        Ok(())
    }

    /// Replaces a tracked playlist: deletes the old row, then seeds the
    /// new one from the given fetch. When the fetch fails the deletion
    /// stands and the failure is surfaced, so the caller knows a row may
    /// be missing.
    pub fn replace(&mut self, old_id: &String, fetch: Result<YTDLPResponse, Error>) -> (r: Result<
        (),
        NewTubeServiceError,
    >)
        requires
            old(self).wf(),
        ensures
            final(self).wf(),
            fetch matches Ok(resp) ==> (r is Ok && final(self)@ == upsert(
                remove_id(old(self)@, old_id@),
                fresh_item(resp@),
            )),
            fetch matches Err(e) ==> (final(self)@ == remove_id(old(self)@, old_id@) && r == Err::<
                (),
                NewTubeServiceError,
            >(NewTubeServiceError::YTDLPError(e))),
    {
        self.database.delete(old_id);
        self.add_playlist(fetch)
    }

    /// Runs one batch sync: classifies every tracked playlist against
    /// its fetch outcome, persists every changed row, and returns the
    /// genuinely new videos plus the per-playlist failures. A failed
    /// fetch leaves its row untouched and never stops the batch.
    ///
    /// `fetches[i]` is the outcome of fetching the playlist of row `i`,
    /// so a successful snapshot carries that row's playlist id.
    pub fn get_new_videos_and_update_database(
        &mut self,
        fetches: &Vec<Result<YTDLPResponse, Error>>,
    ) -> (r: SyncReport)
        requires
            old(self).wf(),
            fetches@.len() == old(self)@.len(),
            forall|i: int|
                0 <= i < fetches@.len() ==> ((#[trigger] fetches@[i]) matches Ok(resp)
                    ==> resp@.latest_item.playlist_id == old(self)@[i].playlist_id),
        ensures
            final(self).wf(),
            final(self)@ == rows_after_sync(old(self)@, fetch_views(fetches@)),
            views_of_items(r.new_videos@) == new_videos_of(old(self)@, fetch_views(fetches@)),
            views_of_failures(r.failures@) == failures_of(old(self)@, fetch_views(fetches@)),
    {
        let ghost rows0 = old(self)@;
        let ghost fviews = fetch_views(fetches@);
        let mut new_videos: Vec<PlaylistItem> = Vec::new();
        let mut failures: Vec<SyncFailure> = Vec::new();
        let n = self.database.len();
        let mut idx: usize = 0;
        while idx < n
            invariant
                self.wf(),
                n == rows0.len(),
                fviews.len() == rows0.len(),
                fviews == fetch_views(fetches@),
                fetches@.len() == rows0.len(),
                idx <= n,
                self@.len() == rows0.len(),
                forall|k: int| 0 <= k < idx ==> self@[k] == sync_row(rows0[k], #[trigger] fviews[k]),
                forall|k: int| idx <= k < rows0.len() ==> self@[k] == #[trigger] rows0[k],
                views_of_items(new_videos@) == new_videos_of(
                    rows0.take(idx as int),
                    fviews.take(idx as int),
                ),
                views_of_failures(failures@) == failures_of(
                    rows0.take(idx as int),
                    fviews.take(idx as int),
                ),
                forall|i: int|
                    0 <= i < fetches@.len() ==> ((#[trigger] fetches@[i]) matches Ok(resp)
                        ==> resp@.latest_item.playlist_id == rows0[i].playlist_id),
            decreases n - idx,
        {
            let ghost self_pre = self@;
            let row = self.database.item_at(idx).clone();
            let fetch: &Result<YTDLPResponse, Error> = &fetches[idx];
            proof {
                assert(fviews[idx as int] == fetch_view(fetches@[idx as int]));
            }
            match fetch {
                Ok(resp) => {
                    let outcome = classify(&row, resp);
                    match outcome {
                        // A new video which must be saved and returned to
                        // the user
                        NewVideo::ReallyNew(video) => {
                            proof {
                                lemma_id_index_of_member(self@, idx as int);
                            }
                            self.database.add_item(&video);
                            new_videos.push(video);
                            proof {
                                assert(self@ =~= self_pre.update(
                                    idx as int,
                                    fresh_item(resp@),
                                ));
                            }
                        },
                        // A video which replaces a now removed one.
                        // This needs only to be saved
                        NewVideo::OldVideoNowLatest(video) => {
                            proof {
                                lemma_id_index_of_member(self@, idx as int);
                            }
                            self.database.add_item(&video);
                            proof {
                                assert(self@ =~= self_pre.update(
                                    idx as int,
                                    fresh_item(resp@),
                                ));
                            }
                        },
                        // Nothing new, so nothing to do here
                        NewVideo::SameAsBefore => {},
                    }
                },
                Err(e) => {
                    failures.push(
                        SyncFailure { playlist_id: row.playlist_id, error: e.clone() },
                    );
                },
            }
            proof {
                lemma_sync_outputs_step(rows0, fviews, idx as int);
                assert(views_of_items(new_videos@) =~= new_videos_of(
                    rows0.take(idx as int + 1),
                    fviews.take(idx as int + 1),
                ));
                assert(views_of_failures(failures@) =~= failures_of(
                    rows0.take(idx as int + 1),
                    fviews.take(idx as int + 1),
                ));
            }
            idx += 1;
        }
        proof {
            assert(rows0.take(rows0.len() as int) =~= rows0);
            assert(fviews.take(rows0.len() as int) =~= fviews);
            assert(self@ =~= rows_after_sync(rows0, fviews));
        }
        SyncReport { new_videos, failures }
    }
}

/// Law: a snapshot whose head is the persisted latest video leaves the
/// row untouched and announces nothing.
pub proof fn lemma_same_head_keeps_row(last: PlaylistItemView, resp: YTDLPResponseView)
    requires
        resp.latest_item.id == last.video_id,
    ensures
        sync_row(last, Ok(resp)) == last,
        !notifies(last, Ok(resp)),
{
}

/// Law: a snapshot whose head is the persisted predecessor — the stored
/// latest video was removed — overwrites the row with the fresh pair
/// but announces nothing: the user has already seen that video.
pub proof fn lemma_removed_head_rewrites_silently(last: PlaylistItemView, resp: YTDLPResponseView)
    requires
        resp.latest_item.id != last.video_id,
        resp.latest_item.id == last.previous_video_id,
    ensures
        sync_row(last, Ok(resp)) == fresh_item(resp),
        !notifies(last, Ok(resp)),
{
}

/// Law: a snapshot whose head is neither the persisted latest video nor
/// its predecessor overwrites the row with the fresh pair and announces
/// the new video.
pub proof fn lemma_new_head_rewrites_and_notifies(last: PlaylistItemView, resp: YTDLPResponseView)
    requires
        resp.latest_item.id != last.video_id,
        resp.latest_item.id != last.previous_video_id,
    ensures
        sync_row(last, Ok(resp)) == fresh_item(resp),
        notifies(last, Ok(resp)),
{
}

/// Law: a batch sync never announces anything twice. After one sync,
/// running the same snapshots again classifies every playlist as
/// unchanged, rewrites no row, and announces no video.
pub proof fn lemma_sync_idempotent(
    rows: Seq<PlaylistItemView>,
    fetches: Seq<Result<YTDLPResponseView, ErrorView>>,
)
    requires
        fetches.len() == rows.len(),
    ensures
        forall|i: int|
            0 <= i < rows.len() ==> ((#[trigger] fetches[i]) matches Ok(resp) ==> is_same(
                rows_after_sync(rows, fetches)[i],
                resp,
            )),
        rows_after_sync(rows_after_sync(rows, fetches), fetches) == rows_after_sync(rows, fetches),
        new_videos_of(rows_after_sync(rows, fetches), fetches) == Seq::<PlaylistItemView>::empty(),
{
    let rows1 = rows_after_sync(rows, fetches);
    assert forall|i: int|
        0 <= i < rows.len() implies ((#[trigger] fetches[i]) matches Ok(resp) ==> is_same(
        rows1[i],
        resp,
    )) by {
        if fetches[i] is Ok {
            assert(rows1[i] == sync_row(rows[i], fetches[i]));
        }
    }
    assert(rows_after_sync(rows1, fetches) =~= rows1);
    lemma_new_videos_of_none(rows1, fetches);
}

/// When no playlist classifies as really new, a batch announces nothing.
proof fn lemma_new_videos_of_none(
    rows: Seq<PlaylistItemView>,
    fetches: Seq<Result<YTDLPResponseView, ErrorView>>,
)
    requires
        fetches.len() == rows.len(),
        forall|i: int| 0 <= i < rows.len() ==> !notifies(rows[i], #[trigger] fetches[i]),
    ensures
        new_videos_of(rows, fetches) == Seq::<PlaylistItemView>::empty(),
    decreases rows.len(),
{
    if rows.len() > 0 {
        lemma_new_videos_of_none(rows.drop_last(), fetches.drop_last());
        assert(!notifies(rows.last(), fetches[rows.len() - 1]));
        assert(new_videos_of(rows, fetches) =~= Seq::<PlaylistItemView>::empty());
    }
}

} // verus!
