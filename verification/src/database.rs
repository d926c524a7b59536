//! The keyed table of persisted rows.
//!
//! The table holds at most one row per playlist id. Durable storage sits
//! outside the library: a caller loads rows into this table, runs the
//! synchronization engine against it, and writes the rows back. The
//! operations here are the schema contract of that store: get-all,
//! upsert, delete.

use vstd::prelude::*;
use crate::playlist_item::{PlaylistItem, PlaylistItemView};

verus! {

/// No two rows share a playlist id.
pub open spec fn ids_unique(rows: Seq<PlaylistItemView>) -> bool {
    forall|i: int, j: int|
        0 <= i < j < rows.len() ==> (#[trigger] rows[i]).playlist_id != (
        #[trigger] rows[j]).playlist_id
}

/// Whether some row carries this playlist id.
pub open spec fn has_id(rows: Seq<PlaylistItemView>, id: Seq<char>) -> bool {
    exists|i: int| 0 <= i < rows.len() && (#[trigger] rows[i]).playlist_id == id
}

/// The index of the row carrying this playlist id; meaningful only when
/// `has_id` holds, and unique under `ids_unique`.
pub open spec fn id_index(rows: Seq<PlaylistItemView>, id: Seq<char>) -> int {
    choose|i: int| 0 <= i < rows.len() && (#[trigger] rows[i]).playlist_id == id
}

/// The table after writing `row`: it replaces the row with the same
/// playlist id, or is appended when no such row exists.
pub open spec fn upsert(rows: Seq<PlaylistItemView>, row: PlaylistItemView) -> Seq<
    PlaylistItemView,
> {
    if has_id(rows, row.playlist_id) {
        rows.update(id_index(rows, row.playlist_id), row)
    } else {
        rows.push(row)
    }
}

/// The table after deleting the row with this playlist id, if present.
pub open spec fn remove_id(rows: Seq<PlaylistItemView>, id: Seq<char>) -> Seq<PlaylistItemView> {
    if has_id(rows, id) {
        rows.remove(id_index(rows, id))
    } else {
        rows
    }
}

/// Under unique ids, the row found for the id of a row at `i` is that
/// very row.
pub proof fn lemma_id_index_of_member(rows: Seq<PlaylistItemView>, i: int)
    requires
        ids_unique(rows),
        0 <= i < rows.len(),
    ensures
        has_id(rows, rows[i].playlist_id),
        id_index(rows, rows[i].playlist_id) == i,
{
    assert(has_id(rows, rows[i].playlist_id));
    let j = id_index(rows, rows[i].playlist_id);
    if i < j {
        assert(rows[i].playlist_id != rows[j].playlist_id);
    } else if j < i {
        assert(rows[j].playlist_id != rows[i].playlist_id);
    }
}

/// The in-memory table of tracked rows, keyed by playlist id.
pub struct Database {
    items: Vec<PlaylistItem>,
}

impl View for Database {
    type V = Seq<PlaylistItemView>;

    closed spec fn view(&self) -> Seq<PlaylistItemView> {
        self.items@.map_values(|it: PlaylistItem| it@)
    }
}

impl Database {
    /// The table keeps at most one row per playlist id.
    pub open spec fn wf(&self) -> bool {
        ids_unique(self@)
    }

    /// An empty table.
    pub fn new() -> (d: Database)
        ensures
            d@ =~= Seq::<PlaylistItemView>::empty(),
            d.wf(),
    {
        Database { items: Vec::new() }
    }

    /// How many playlists are tracked.
    pub fn len(&self) -> (n: usize)
        ensures
            n == self@.len(),
    {
        self.items.len()
    }

    /// A copy of every row, in table order.
    pub fn query_all_items(&self) -> (r: Vec<PlaylistItem>)
        ensures
            r@.len() == self@.len(),
            forall|i: int| 0 <= i < r@.len() ==> (#[trigger] r@[i])@ == self@[i],
    {
        let mut r: Vec<PlaylistItem> = Vec::new();
        let mut idx: usize = 0;
        while idx < self.items.len()
            invariant
                idx <= self.items.len(),
                r@.len() == idx,
                forall|i: int| 0 <= i < idx ==> (#[trigger] r@[i])@ == self@[i],
            decreases self.items.len() - idx,
        {
            r.push(self.items[idx].clone());
            idx += 1;
        }
        r
    }

    /// A reference to the row at a table position.
    pub fn item_at(&self, idx: usize) -> (r: &PlaylistItem)
        requires
            idx < self@.len(),
        ensures
            r@ == self@[idx as int],
    {
        &self.items[idx]
    }

    /// The ids of every tracked playlist, in table order.
    pub fn get_playlist_ids(&self) -> (r: Vec<String>)
        ensures
            r@.len() == self@.len(),
            forall|i: int| 0 <= i < r@.len() ==> (#[trigger] r@[i])@ == self@[i].playlist_id,
    {
        let mut r: Vec<String> = Vec::new();
        let mut idx: usize = 0;
        while idx < self.items.len()
            invariant
                idx <= self.items.len(),
                r@.len() == idx,
                forall|i: int| 0 <= i < idx ==> (#[trigger] r@[i])@ == self@[i].playlist_id,
            decreases self.items.len() - idx,
        {
            r.push(self.items[idx].playlist_id.clone());
            idx += 1;
        }
        r
    }

    /// The table position of the row with this playlist id, if any.
    fn find_index(&self, id: &String) -> (r: Option<usize>)
        requires
            self.wf(),
        ensures
            match r {
                Some(i) => i < self@.len() && self@[i as int].playlist_id == id@ && has_id(
                    self@,
                    id@,
                ) && id_index(self@, id@) == i,
                None => !has_id(self@, id@),
            },
    {
        let mut idx: usize = 0;
        while idx < self.items.len()
            invariant
                self.wf(),
                idx <= self.items.len(),
                forall|i: int| 0 <= i < idx ==> (#[trigger] self@[i]).playlist_id != id@,
            decreases self.items.len() - idx,
        {
            if self.items[idx].playlist_id == *id {
                proof {
                    lemma_id_index_of_member(self@, idx as int);
                }
                return Some(idx);
            }
            idx += 1;
        }
        None
    }

    /// Writes one row: replaces the row with the same playlist id, or
    /// appends it when the id is new.
    pub fn add_item(&mut self, item: &PlaylistItem)
        requires
            old(self).wf(),
        ensures
            final(self)@ == upsert(old(self)@, item@),
            final(self).wf(),
    {
        let found = self.find_index(&item.playlist_id);
        match found {
            Some(i) => {
                let removed = self.items.remove(i);
                self.items.insert(i, item.clone());
                proof {
                    assert(self@ =~= upsert(old(self)@, item@));
                    assert(forall|k: int|
                        0 <= k < self@.len() && k != i ==> self@[k] == old(self)@[k]);
                    assert(self.wf());
                }
            },
            None => {
                self.items.push(item.clone());
                proof {
                    assert(self@ =~= upsert(old(self)@, item@));
                    assert(forall|k: int| 0 <= k < old(self)@.len() ==> self@[k] == old(self)@[k]);
                    assert(self.wf());
                }
            },
        }
    }

    /// Deletes the row with this playlist id. Deleting an untracked id
    /// is a no-op, not an error.
    pub fn delete(&mut self, id: &String)
        requires
            old(self).wf(),
        ensures
            final(self)@ == remove_id(old(self)@, id@),
            final(self).wf(),
            !has_id(final(self)@, id@),
    {
        let found = self.find_index(id);
        match found {
            Some(i) => {
                self.items.remove(i);
                proof {
                    assert(self@ =~= remove_id(old(self)@, id@));
                    assert(self.wf());
                    assert forall|k: int| 0 <= k < self@.len() implies (#[trigger] self@[k]).playlist_id
                        != id@ by {
                        if k < i {
                            assert(self@[k] == old(self)@[k]);
                        } else {
                            assert(self@[k] == old(self)@[k + 1]);
                        }
                    }
                }
            },
            None => {
                proof {
                    assert(self@ =~= remove_id(old(self)@, id@));
                }
            },
        }
    }
}

} // verus!
