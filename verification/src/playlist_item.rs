//! The persisted per-playlist row.
//!
//! One row is kept per tracked playlist: the latest known video together
//! with the id of the video that preceded it. The predecessor id is what
//! lets the classifier tell a retroactive removal from a new upload.

use vstd::prelude::*;
use vstd::string::StringExecFns;
use crate::text::{dec_digits, lemma_dec_digits_ascii, push_u64_decimal, string_from_ascii};
use crate::yt_dlp::{YTDLPItem, YTDLPItemView};

verus! {

/// Mathematical view of a persisted row.
pub ghost struct PlaylistItemView {
    pub playlist_id: Seq<char>,
    pub video_id: Seq<char>,
    pub title: Seq<char>,
    pub duration: u64,
    pub uploader: Seq<char>,
    pub previous_video_id: Seq<char>,
}

/// Represents the latest item from a tracked playlist.
pub struct PlaylistItem {
    /// ID of the playlist
    pub playlist_id: String,
    /// ID of the latest video in the playlist
    pub video_id: String,
    /// The title of the video
    pub title: String,
    /// The duration of the video in whole seconds.
    /// Zero if the video is a currently running livestream.
    pub duration: u64,
    /// The channel name which uploaded the video
    pub uploader: String,
    /// The video id which was uploaded before the latest one.
    /// Required to check if a video was removed from a playlist.
    pub previous_video_id: String,
}

impl View for PlaylistItem {
    type V = PlaylistItemView;

    open spec fn view(&self) -> PlaylistItemView {
        PlaylistItemView {
            playlist_id: self.playlist_id@,
            video_id: self.video_id@,
            title: self.title@,
            duration: self.duration,
            uploader: self.uploader@,
            previous_video_id: self.previous_video_id@,
        }
    }
}

impl Clone for PlaylistItem {
    fn clone(&self) -> (r: Self)
        ensures
            r@ == self@,
    {
        PlaylistItem {
            playlist_id: self.playlist_id.clone(),
            video_id: self.video_id.clone(),
            title: self.title.clone(),
            duration: self.duration,
            uploader: self.uploader.clone(),
            previous_video_id: self.previous_video_id.clone(),
        }
    }
}

/// The row built from one fetched item and the id of its predecessor.
pub open spec fn item_of(v: YTDLPItemView, previous_video_id: Seq<char>) -> PlaylistItemView {
    PlaylistItemView {
        playlist_id: v.playlist_id,
        video_id: v.id,
        title: v.title,
        duration: match v.duration {
            Some(d) => d,
            None => 0,
        },
        uploader: v.channel,
        previous_video_id: previous_video_id,
    }
}

/// The views of a sequence of rows.
pub open spec fn views_of_items(items: Seq<PlaylistItem>) -> Seq<PlaylistItemView> {
    items.map_values(|it: PlaylistItem| it@)
}

/// The full watch link for a video id.
pub open spec fn video_link(id: Seq<char>) -> Seq<char> {
    "https://www.youtube.com/watch?v="@ + id
}

/// The rendered duration `hours:minutes:seconds`, without padding, as
/// ASCII bytes; byte 58 is the `':'` separator.
pub open spec fn duration_bytes(secs: u64) -> Seq<u8> {
    dec_digits((secs as nat / 60) / 60) + seq![58u8] + dec_digits((secs as nat / 60) % 60) + seq![
        58u8,
    ] + dec_digits(secs as nat % 60)
}

/// The rendered duration `hours:minutes:seconds`, without padding.
pub open spec fn duration_chars(secs: u64) -> Seq<char> {
    duration_bytes(secs).map_values(|b: u8| b as char)
}

impl PlaylistItem {
    /// Builds the persisted row from a fetched item; both ids of the row
    /// are drawn from the same snapshot.
    pub fn new(yt_dlp_item: YTDLPItem, previous_video_id: String) -> (r: Self)
        ensures
            r@ == item_of(yt_dlp_item@, previous_video_id@),
    {
        PlaylistItem {
            playlist_id: yt_dlp_item.playlist_id,
            video_id: yt_dlp_item.id,
            title: yt_dlp_item.title,
            duration: yt_dlp_item.duration.unwrap_or(0),
            uploader: yt_dlp_item.channel,
            previous_video_id: previous_video_id,
        }
    }

    /// Create a full url to the video this playlist item represents
    pub fn link(&self) -> (r: String)
        ensures
            r@ == video_link(self.video_id@),
    {
        let base = String::from_str("https://www.youtube.com/watch?v=");
        base.concat(self.video_id.as_str())
    }

    /// Return the duration of the video in a properly formatted string
    pub fn formatted_duration(&self) -> (r: String)
        ensures
            r@ == duration_chars(self.duration),
    {
        let secs = self.duration;
        let seconds = secs % 60;
        let minutes = (secs / 60) % 60;
        let hours = (secs / 60) / 60;
        let mut bytes: Vec<u8> = Vec::new();
        push_u64_decimal(&mut bytes, hours);
        bytes.push(58u8);
        push_u64_decimal(&mut bytes, minutes);
        bytes.push(58u8);
        push_u64_decimal(&mut bytes, seconds);
        proof {
            lemma_dec_digits_ascii(hours as nat);
            lemma_dec_digits_ascii(minutes as nat);
            lemma_dec_digits_ascii(seconds as nat);
            assert(bytes@ =~= duration_bytes(self.duration));
        }
        let r = string_from_ascii(bytes);
        proof {
            assert(r@ =~= duration_chars(self.duration));
        }
        r
    }
}

} // verus!
