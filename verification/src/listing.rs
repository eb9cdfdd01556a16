//! Listing pages and the pagination cursor.

use crate::item_id::{canonical_all, normalize_all, ItemId};
use vstd::prelude::*;

verus! {

/// The order in which the listing endpoint returns the items of a page.
#[derive(Clone, Copy, Debug, PartialEq, Eq, Structural)]
pub enum PageOrder {
    /// The oldest item of the page comes first.
    OldestFirst,
    /// The oldest item of the page comes last.
    NewestFirst,
}

/// The order in which the feed's listing endpoint returns a page: newest
/// first, so that the cursor for the next page is the last entry.
pub const FEED_ORDER: PageOrder = PageOrder::NewestFirst;

/// The cursor that a page yields: its oldest identifier, or the empty
/// identifier where the page holds nothing.
pub open spec fn cursor_of(ids: Seq<Seq<char>>, order: PageOrder) -> Seq<char> {
    if ids.len() == 0 {
        Seq::<char>::empty()
    } else {
        match order {
            PageOrder::OldestFirst => ids.first(),
            PageOrder::NewestFirst => ids.last(),
        }
    }
}

/// The canonical identifiers of one listing response, in the order received.
pub struct ListingPage {
    ids: Vec<ItemId>,
}

impl View for ListingPage {
    type V = Seq<Seq<char>>;

    closed spec fn view(&self) -> Seq<Seq<char>> {
        self.ids.deep_view()
    }
}

impl ListingPage {
    /// The page that the entries of a listing response stand for.
    pub fn from_raw(raw: &Vec<String>) -> (page: ListingPage)
        ensures
            page@ == canonical_all(raw.deep_view()),
    {
        ListingPage { ids: normalize_all(raw) }
    }

    /// The number of identifiers on the page.
    pub fn len(&self) -> (n: usize)
        ensures
            n == self@.len(),
    {
        self.ids.len()
    }

    /// The cursor for the next, older page. An empty cursor ends pagination.
    pub fn cursor(&self, order: PageOrder) -> (cursor: ItemId)
        ensures
            cursor@ == cursor_of(self@, order),
    {
        let n: usize = self.ids.len();
        if n == 0 {
            ItemId::sentinel()
        } else {
            match order {
                PageOrder::OldestFirst => self.ids[0].clone(),
                PageOrder::NewestFirst => self.ids[n - 1].clone(),
            }
        }
    }

    /// The identifiers of the page, in the order received.
    pub fn into_ids(self) -> (ids: Vec<ItemId>)
        ensures
            ids.deep_view() == self@,
    {
        self.ids
    }
}

} // verus!
