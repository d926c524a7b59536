//! Model of one fetched playlist snapshot.
//!
//! A snapshot fetch must yield exactly two items: the playlist's current
//! latest video and the one immediately preceding it, in platform order
//! (newest first). The subprocess that retrieves raw items lives outside
//! the library; the pairing rule and its failure case are checked here.

use vstd::prelude::*;
use vstd::string::StringExecFns;

verus! {

/// Mathematical view of one fetched playlist item.
pub ghost struct YTDLPItemView {
    pub playlist_id: Seq<char>,
    pub id: Seq<char>,
    pub title: Seq<char>,
    pub duration: Option<u64>,
    pub channel: Seq<char>,
}

/// The relevant fields of one playlist item as the fetcher reports it.
pub struct YTDLPItem {
    /// The playlist id
    pub playlist_id: String,
    /// The video id
    pub id: String,
    /// The video title
    pub title: String,
    /// The video duration in whole seconds. `None` when the platform
    /// reports no duration, as for a running livestream.
    pub duration: Option<u64>,
    /// The channel which uploaded the video
    pub channel: String,
}

impl View for YTDLPItem {
    type V = YTDLPItemView;

    open spec fn view(&self) -> YTDLPItemView {
        YTDLPItemView {
            playlist_id: self.playlist_id@,
            id: self.id@,
            title: self.title@,
            duration: self.duration,
            channel: self.channel@,
        }
    }
}

impl Clone for YTDLPItem {
    fn clone(&self) -> (r: Self)
        ensures
            r@ == self@,
    {
        YTDLPItem {
            playlist_id: self.playlist_id.clone(),
            id: self.id.clone(),
            title: self.title.clone(),
            duration: self.duration,
            channel: self.channel.clone(),
        }
    }
}

/// Mathematical view of a snapshot: the latest item and its predecessor.
pub ghost struct YTDLPResponseView {
    pub latest_item: YTDLPItemView,
    pub previous_item: YTDLPItemView,
}

/// A snapshot of the two newest videos of one playlist.
pub struct YTDLPResponse {
    /// The latest item from the playlist
    pub latest_item: YTDLPItem,
    /// The item previous to the latest item in the playlist
    pub previous_item: YTDLPItem,
}

impl View for YTDLPResponse {
    type V = YTDLPResponseView;

    open spec fn view(&self) -> YTDLPResponseView {
        YTDLPResponseView { latest_item: self.latest_item@, previous_item: self.previous_item@ }
    }
}

impl Clone for YTDLPResponse {
    fn clone(&self) -> (r: Self)
        ensures
            r@ == self@,
    {
        YTDLPResponse {
            latest_item: self.latest_item.clone(),
            previous_item: self.previous_item.clone(),
        }
    }
}

/// Mathematical view of a fetch failure.
pub ghost enum ErrorView {
    ProcessFailed(Seq<char>),
    ItemParseFailed(Seq<char>),
    CommandOutputParseFailed(Seq<char>),
    WrongAmountReturned,
}

/// Why a snapshot fetch failed. The payloads carry the collaborator's
/// own description of the failure, so a report can surface it verbatim.
#[derive(Debug)]
pub enum Error {
    /// The fetcher process could not be executed.
    ProcessFailed(String),
    /// One raw item could not be parsed.
    ItemParseFailed(String),
    /// The process output was not readable text.
    CommandOutputParseFailed(String),
    /// The fetch did not return exactly 2 items, which is the expected
    /// amount: a playlist with fewer items cannot seed or refresh the
    /// (latest, previous) pair.
    WrongAmountReturned,
}

impl View for Error {
    type V = ErrorView;

    open spec fn view(&self) -> ErrorView {
        match self {
            Error::ProcessFailed(s) => ErrorView::ProcessFailed(s@),
            Error::ItemParseFailed(s) => ErrorView::ItemParseFailed(s@),
            Error::CommandOutputParseFailed(s) => ErrorView::CommandOutputParseFailed(s@),
            Error::WrongAmountReturned => ErrorView::WrongAmountReturned,
        }
    }
}

impl Clone for Error {
    fn clone(&self) -> (r: Self)
        ensures
            r@ == self@,
    {
        match self {
            Error::ProcessFailed(s) => Error::ProcessFailed(s.clone()),
            Error::ItemParseFailed(s) => Error::ItemParseFailed(s.clone()),
            Error::CommandOutputParseFailed(s) => Error::CommandOutputParseFailed(s.clone()),
            Error::WrongAmountReturned => Error::WrongAmountReturned,
        }
    }
}

impl Error {
    /// What went wrong, with the collaborator's own message attached,
    /// so a surfaced report names the concrete cause.
    pub fn describe(&self) -> (r: String)
        ensures
            r@.len() > 0,
            match self {
                Error::ProcessFailed(s) => r@ == "failed to execute the fetcher process: "@ + s@,
                Error::ItemParseFailed(s) => r@ == "failed to parse the fetched items: "@ + s@,
                Error::CommandOutputParseFailed(s) => r@ == "fetcher output could not be read: "@
                    + s@,
                Error::WrongAmountReturned => r@ == "the fetch did not return exactly 2 items"@,
            },
    {
        proof {
            reveal_strlit("failed to execute the fetcher process: ");
            reveal_strlit("failed to parse the fetched items: ");
            reveal_strlit("fetcher output could not be read: ");
            reveal_strlit("the fetch did not return exactly 2 items");
        }
        match self {
            Error::ProcessFailed(s) => String::from_str(
                "failed to execute the fetcher process: ",
            ).concat(s.as_str()),
            Error::ItemParseFailed(s) => String::from_str(
                "failed to parse the fetched items: ",
            ).concat(s.as_str()),
            Error::CommandOutputParseFailed(s) => String::from_str(
                "fetcher output could not be read: ",
            ).concat(s.as_str()),
            Error::WrongAmountReturned => String::from_str(
                "the fetch did not return exactly 2 items",
            ),
        }
    }
}

impl YTDLPResponse {
    /// Pairs the items of one raw fetch into a snapshot.
    ///
    /// The fetch is asked for the two newest items; index 0 is the
    /// latest, index 1 its predecessor. Any other count is refused: a
    /// brand-new or empty playlist cannot provide the pair the tracker
    /// persists.
    pub fn from_items(items: Vec<YTDLPItem>) -> (r: Result<YTDLPResponse, Error>)
        ensures
            items@.len() == 2 ==> (r matches Ok(resp)
                && resp.latest_item == items@[0]
                && resp.previous_item == items@[1]),
            items@.len() != 2 ==> r == Err::<YTDLPResponse, Error>(Error::WrongAmountReturned),
    {
        let mut items = items;
        if items.len() != 2 {
            return Err(Error::WrongAmountReturned);
        }
        let previous_item = items.pop().unwrap();
        let latest_item = items.pop().unwrap();
        Ok(YTDLPResponse { latest_item, previous_item })
    }
}

} // verus!
