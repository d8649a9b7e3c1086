//! Collecting one page of the active listings, one ledger entry at a time.
use crate::id_list::IdList;
use crate::lists::lemma_filter_map_head;
use crate::model::{active_page, at_most, from_position, on_sale};
use crate::types::Listing;
use vstd::prelude::*;

verus! {

/// A walk over the list of active listings. It asks for the listing of one id
/// after the other and stops when the page is full or the list is at its end, so
/// that no entry is read that the page does not need.
pub struct ActiveScan {
    ids: IdList,
    position: u32,
    limit: u32,
    found: Vec<Listing>,
}

/// The model of an [`ActiveScan`].
#[verifier::ext_equal]
pub struct ScanView {
    pub ids: Seq<u64>,
    pub position: int,
    pub limit: int,
    pub found: Seq<Listing>,
}

impl ScanView {
    /// The id whose listing the walk asks for.
    pub open spec fn wanted(self) -> Option<u64> {
        if self.found.len() < self.limit && self.position < self.ids.len() {
            Some(self.ids[self.position])
        } else {
            None
        }
    }

    /// The walk after the reply to its question.
    pub open spec fn offered(self, reply: Option<Listing>) -> ScanView {
        ScanView {
            position: self.position + 1,
            found: match reply {
                Some(listing) => if listing.active {
                    self.found.push(listing)
                } else {
                    self.found
                },
                None => self.found,
            },
            ..self
        }
    }

    /// The page that the walk ends with if it is answered from these listings.
    pub open spec fn page(self, listings: Map<u64, Listing>) -> Seq<Listing> {
        self.found + active_page(
            self.ids,
            listings,
            self.position,
            self.limit - self.found.len(),
        )
    }
}

impl ActiveScan {
    pub closed spec fn view(&self) -> ScanView {
        ScanView {
            ids: self.ids@,
            position: self.position as int,
            limit: self.limit as int,
            found: self.found@,
        }
    }

    /// A walk that collects at most `limit` listings, from position `start` on.
    pub fn new(ids: IdList, start: u32, limit: u32) -> (scan: ActiveScan)
        ensures
            scan@ == (ScanView {
                ids: ids@,
                position: start as int,
                limit: limit as int,
                found: Seq::empty(),
            }),
    {
        ActiveScan { ids, position: start, limit, found: Vec::new() }
    }

    /// The id whose listing the walk asks for, or `None` at its end.
    pub fn wanted(&self) -> (id: Option<u64>)
        ensures
            id == self@.wanted(),
    {
        if self.found.len() < self.limit as usize && self.position < self.ids.len() {
            Some(self.ids.get(self.position))
        } else {
            None
        }
    }

    /// Takes the listing that the walk asked for, or that there is none.
    pub fn offer(&mut self, reply: Option<Listing>)
        requires
            old(self)@.wanted() is Some,
        ensures
            final(self)@ == old(self)@.offered(reply),
    {
        if let Some(listing) = reply {
            if listing.active {
                self.found.push(listing);
            }
        }
        let n: u32 = self.ids.len();
        assert(self.position < n);
        self.position = self.position + 1;
    }

    /// The page collected so far.
    pub fn finish(self) -> (page: Vec<Listing>)
        ensures
            page@ == self@.found,
    {
        self.found
    }
}

/// A walk asks for the listing of the id at its position as long as its page is
/// not full and the list goes on, and for nothing otherwise.
pub proof fn walks_ask_for_the_next_id(scan: ScanView)
    ensures
        scan.found.len() < scan.limit && scan.position < scan.ids.len() ==> scan.wanted() == Some(
            scan.ids[scan.position],
        ),
        scan.found.len() >= scan.limit || scan.position >= scan.ids.len() ==> scan.wanted() is None,
{
}

/// A reply takes a walk one position on. A listing that is active is added behind
/// those that were found before, which all stay; any other reply adds nothing.
pub proof fn active_replies_are_collected(scan: ScanView, reply: Option<Listing>)
    ensures
        scan.offered(reply).ids == scan.ids,
        scan.offered(reply).limit == scan.limit,
        scan.offered(reply).position == scan.position + 1,
        reply is Some && reply->0.active ==> {
            let found = scan.offered(reply).found;
            &&& found.len() == scan.found.len() + 1
            &&& found[scan.found.len() as int] == reply->0
            &&& forall|i: int|
                0 <= i < scan.found.len() ==> #[trigger] found[i] == scan.found[i]
        },
        reply is None || !reply->0.active ==> scan.offered(reply).found == scan.found,
{
}

/// A walk that starts at a position ends with the page from that position on,
/// whatever the listings are.
pub proof fn scan_starts_with_page(
    ids: Seq<u64>,
    listings: Map<u64, Listing>,
    start: u32,
    limit: u32,
)
    ensures
        (ScanView {
            ids,
            position: start as int,
            limit: limit as int,
            found: Seq::empty(),
        }).page(listings) == active_page(ids, listings, start as int, limit as int),
{
    let scan = ScanView { ids, position: start as int, limit: limit as int, found: Seq::empty() };
    assert(scan.page(listings) =~= active_page(ids, listings, start as int, limit as int));
}

/// As long as a walk is answered from the same listings, the page that it ends
/// with does not change.
pub proof fn scan_keeps_page(scan: ScanView, listings: Map<u64, Listing>)
    requires
        scan.wanted() is Some,
        0 <= scan.position,
    ensures
        scan.offered(
            if listings.contains_key(scan.wanted()->0) {
                Some(listings[scan.wanted()->0])
            } else {
                None
            },
        ).page(listings) == scan.page(listings),
{
    let f = on_sale(listings);
    lemma_filter_map_head(scan.ids, scan.position, f);
    let id = scan.wanted()->0;
    let reply = if listings.contains_key(id) {
        Some(listings[id])
    } else {
        None
    };
    let rest = from_position(scan.ids, scan.position).filter_map(f);
    let tail = from_position(scan.ids, scan.position + 1).filter_map(f);
    let room = scan.limit - scan.found.len();
    match f(id) {
        Some(listing) => {
            assert(rest =~= seq![listing] + tail);
            assert(at_most(rest, room) =~= seq![listing] + at_most(tail, room - 1));
        },
        None => {
            assert(rest =~= tail);
        },
    }
    assert(scan.offered(reply).page(listings) =~= scan.page(listings));
}

/// A walk that asks for nothing more has collected its page.
pub proof fn scan_ends_with_page(scan: ScanView, listings: Map<u64, Listing>)
    requires
        scan.wanted() is None,
    ensures
        scan.found == scan.page(listings),
{
    assert(scan.page(listings) =~= scan.found);
}

} // verus!
