//! Item identifiers: the canonical name of one remote image.

use crate::text::{strip_suffix, without_suffix};
use vstd::prelude::*;
use vstd::string::*;

verus! {

/// The suffix under which a listing names an item's thumbnail rendition: `_la.jpg`.
pub open spec fn listing_suffix() -> Seq<char> {
    seq!['_', 'l', 'a', '.', 'j', 'p', 'g']
}

/// The suffix of the rendition that is fetched and stored: `_hu.jpg`.
pub open spec fn rendition_suffix() -> Seq<char> {
    seq!['_', 'h', 'u', '.', 'j', 'p', 'g']
}

/// The canonical spelling of an identifier as a listing gives it: one trailing
/// listing suffix is dropped, anything else is kept as it is.
pub open spec fn canonical(raw: Seq<char>) -> Seq<char> {
    without_suffix(raw, listing_suffix())
}

/// The canonical spellings of a whole page, in the order received.
pub open spec fn canonical_all(raw: Seq<Seq<char>>) -> Seq<Seq<char>> {
    Seq::new(raw.len(), |i: int| canonical(raw[i]))
}

/// The name of an item's file, below the base URL and below the download directory.
pub open spec fn file_name_of(id: Seq<char>) -> Seq<char> {
    id + rendition_suffix()
}

/// Canonical identifier of one remote image.
///
/// The empty identifier names no image: it is the sentinel that ends
/// pagination when it turns up as a cursor, and that tells a worker to stop
/// when it turns up in the queue.
#[derive(Debug, PartialEq, Eq)]
pub struct ItemId {
    text: String,
}

impl View for ItemId {
    type V = Seq<char>;

    closed spec fn view(&self) -> Seq<char> {
        self.text@
    }
}

impl DeepView for ItemId {
    type V = Seq<char>;

    open spec fn deep_view(&self) -> Seq<char> {
        self@
    }
}

impl Clone for ItemId {
    fn clone(&self) -> (out: Self)
        ensures
            out == *self,
    {
        ItemId { text: self.text.clone() }
    }
}

impl ItemId {
    /// The identifier with the canonical spelling `text`, taken as it is.
    pub fn new(text: String) -> (id: ItemId)
        ensures
            id@ == text@,
    {
        ItemId { text }
    }

    /// The identifier that a listing entry stands for.
    pub fn normalize(raw: &str) -> (id: ItemId)
        ensures
            id@ == canonical(raw@),
    {
        proof {
            reveal_strlit("_la.jpg");
            assert("_la.jpg"@ =~= listing_suffix());
        }
        ItemId { text: strip_suffix(raw, "_la.jpg") }
    }

    /// The sentinel: the empty identifier.
    pub fn sentinel() -> (id: ItemId)
        ensures
            id@ == Seq::<char>::empty(),
    {
        ItemId { text: String::new() }
    }

    /// Whether this is the sentinel rather than the name of an image.
    pub fn is_sentinel(&self) -> (b: bool)
        ensures
            b == (self@.len() == 0),
    {
        self.text.as_str().is_empty()
    }

    /// The identifier's text.
    pub fn as_str(&self) -> (s: &str)
        ensures
            s@ == self@,
    {
        self.text.as_str()
    }

    /// The identifier's text, owned.
    pub fn into_string(self) -> (s: String)
        ensures
            s@ == self@,
    {
        self.text
    }

    /// Whether two identifiers name the same item.
    pub fn same_as(&self, other: &ItemId) -> (b: bool)
        ensures
            b == (self@ == other@),
    {
        self.text == other.text
    }

    /// The item's file name: the identifier followed by the rendition suffix.
    pub fn file_name(&self) -> (name: String)
        ensures
            name@ == file_name_of(self@),
    {
        proof {
            reveal_strlit("_hu.jpg");
        }
        self.text.clone().concat("_hu.jpg")
    }
}

/// The identifiers that the entries of one listing page stand for, in order.
pub fn normalize_all(raw: &Vec<String>) -> (ids: Vec<ItemId>)
    ensures
        ids.deep_view() == canonical_all(raw.deep_view()),
{
    let mut ids: Vec<ItemId> = Vec::new();
    let mut i: usize = 0;
    while i < raw.len()
        invariant
            i <= raw.len(),
            ids.len() == i,
            forall|k: int| 0 <= k < i ==> (#[trigger] ids[k])@ == canonical(raw[k]@),
        decreases raw.len() - i,
    {
        ids.push(ItemId::normalize(raw[i].as_str()));
        i += 1;
    }
    ids
}

/// The texts of a list of identifiers, in order.
pub fn texts_of(ids: &Vec<ItemId>) -> (out: Vec<String>)
    ensures
        out.deep_view() == ids.deep_view(),
{
    let mut out: Vec<String> = Vec::new();
    let mut i: usize = 0;
    while i < ids.len()
        invariant
            i <= ids.len(),
            out.len() == i,
            forall|k: int| 0 <= k < i ==> (#[trigger] out[k])@ == ids[k]@,
        decreases ids.len() - i,
    {
        out.push(ids[i].as_str().to_owned());
        i += 1;
    }
    out
}

} // verus!
