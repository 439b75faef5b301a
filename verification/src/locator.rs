//! Choosing the keyboard's control device among the raw-HID nodes.
//!
//! Every raw-HID node has a descriptor, a short text with one property per
//! line. The keyboard's node is the one whose descriptor holds the line that
//! names the keyboard. Nodes are looked at in the order in which they were
//! listed; the first that matches is taken, and a descriptor that cannot be
//! read ends the search.

use vstd::prelude::*;
use vstd::string::*;
use crate::error::{Error, ErrorView};

verus! {

/// The directory that lists the raw-HID nodes.
pub const HIDRAW_CLASS_DIR: &'static str = "/sys/class/hidraw";

/// Where a node's descriptor lies below the node's own directory.
pub const DESCRIPTOR_FILE: &'static str = "device/uevent";

/// The directory in which a node's device file lies, under the node's name.
pub const DEVICE_DIR: &'static str = "/dev";

/// The descriptor line by which the keyboard is known.
pub const DEVICE_IDENTITY: &'static str = "HID_NAME=ITE33D1:00 048D:837A";

/// One listed raw-HID node with what could be read of its descriptor.
#[derive(Debug)]
pub struct HidrawEntry {
    /// The node's name, as it also stands under `/dev`.
    pub name: String,
    /// The descriptor's lines, as far as they could be read.
    pub lines: Vec<String>,
    /// Why reading the descriptor stopped early, if it did.
    pub failure: Option<String>,
}

/// A [`HidrawEntry`] as a mathematical value.
pub struct HidrawEntryView {
    pub name: Seq<char>,
    pub lines: Seq<Seq<char>>,
    pub failure: Option<Seq<char>>,
}

impl View for HidrawEntry {
    type V = HidrawEntryView;

    open spec fn view(&self) -> HidrawEntryView {
        HidrawEntryView {
            name: self.name@,
            lines: Seq::new(self.lines@.len(), |i: int| self.lines@[i]@),
            failure: match self.failure {
                Some(reason) => Some(reason@),
                None => None,
            },
        }
    }
}

/// What listing the raw-HID nodes gave.
#[derive(Debug)]
pub struct HidrawListing {
    /// The nodes, in the order in which the directory gave them.
    pub entries: Vec<HidrawEntry>,
    /// Why the listing stopped early, if it did.
    pub failure: Option<String>,
}

/// A [`HidrawListing`] as a mathematical value.
pub struct HidrawListingView {
    pub entries: Seq<HidrawEntryView>,
    pub failure: Option<Seq<char>>,
}

impl View for HidrawListing {
    type V = HidrawListingView;

    open spec fn view(&self) -> HidrawListingView {
        HidrawListingView {
            entries: Seq::new(self.entries@.len(), |i: int| self.entries@[i]@),
            failure: match self.failure {
                Some(reason) => Some(reason@),
                None => None,
            },
        }
    }
}

impl HidrawEntryView {
    /// The descriptor holds the keyboard's line among the lines that were read.
    pub open spec fn is_keyboard(self) -> bool {
        exists|i: int| 0 <= i < self.lines.len() && self.lines[i] == DEVICE_IDENTITY@
    }

    /// The descriptor was read to its end and is not the keyboard's.
    pub open spec fn passed_over(self) -> bool {
        !self.is_keyboard() && self.failure is None
    }
}

impl HidrawListingView {
    /// Every one of the first `count` nodes was read to its end and is not
    /// the keyboard.
    pub open spec fn passed_over(self, count: int) -> bool {
        forall|j: int| 0 <= j < count ==> (#[trigger] self.entries[j]).passed_over()
    }

    /// What the search gives: the name of the first node that is the
    /// keyboard, unless a descriptor before it, or the listing itself before
    /// it was reached, could not be read.
    pub open spec fn located(self) -> Result<Seq<char>, ErrorView> {
        if exists|i: int| self.stops_at(i) {
            let i = choose|i: int| self.stops_at(i);
            if self.entries[i].is_keyboard() {
                Ok(self.entries[i].name)
            } else {
                Err(ErrorView::Problem(self.entries[i].failure->Some_0))
            }
        } else {
            match self.failure {
                Some(reason) => Err(ErrorView::Problem(reason)),
                None => Err(ErrorView::HidrawDeviceNotFound),
            }
        }
    }

    /// Node `i` is the first that is the keyboard or could not be read.
    pub open spec fn stops_at(self, i: int) -> bool {
        &&& 0 <= i < self.entries.len()
        &&& self.passed_over(i)
        &&& !self.entries[i].passed_over()
    }
}

/// At most one node is the first at which the search stops.
pub proof fn lemma_stop_is_unique(listing: HidrawListingView, i: int, j: int)
    requires
        listing.stops_at(i),
        listing.stops_at(j),
    ensures
        i == j,
{
}

/// The first node that is the keyboard or could not be read decides the
/// search: its name is the result if it is the keyboard, its failure if not.
pub proof fn lemma_stop_decides(listing: HidrawListingView, i: int)
    requires
        listing.stops_at(i),
    ensures
        listing.entries[i].is_keyboard() ==> listing.located() == Ok::<Seq<char>, ErrorView>(
            listing.entries[i].name,
        ),
        !listing.entries[i].is_keyboard() ==> listing.located() == Err::<Seq<char>, ErrorView>(
            ErrorView::Problem(listing.entries[i].failure->Some_0),
        ),
{
    let chosen = choose|k: int| listing.stops_at(k);
    lemma_stop_is_unique(listing, i, chosen);
}

/// The nodes listed behind the one at which the search stops have no part
/// in the result, and neither has a failure of the listing behind it: a
/// listing that was cut off right after that node gives the same.
pub proof fn lemma_search_ends_at_stop(listing: HidrawListingView, i: int, cut: HidrawListingView)
    requires
        listing.stops_at(i),
        cut.entries == listing.entries.take(i + 1),
    ensures
        cut.located() == listing.located(),
{
    lemma_stop_decides(listing, i);
    lemma_stop_decides(cut, i);
}

/// With every listed node read to its end and none the keyboard, the search
/// fails: with the listing's own failure if it broke off, else because the
/// keyboard is not there.
pub proof fn lemma_nothing_stops(listing: HidrawListingView)
    requires
        listing.passed_over(listing.entries.len() as int),
    ensures
        listing.failure is Some ==> listing.located() == Err::<Seq<char>, ErrorView>(
            ErrorView::Problem(listing.failure->Some_0),
        ),
        listing.failure is None ==> listing.located() == Err::<Seq<char>, ErrorView>(
            ErrorView::HidrawDeviceNotFound,
        ),
{
}

impl HidrawEntry {
    /// Whether the descriptor holds the keyboard's line.
    pub fn is_keyboard(&self) -> (found: bool)
        ensures
            found == self@.is_keyboard(),
    {
        let identity = String::from_str(DEVICE_IDENTITY);
        let mut i: usize = 0;
        while i < self.lines.len()
            invariant
                i <= self.lines.len(),
                identity@ == DEVICE_IDENTITY@,
                forall|j: int| 0 <= j < i ==> self@.lines[j] != DEVICE_IDENTITY@,
            decreases self.lines.len() - i,
        {
            if self.lines[i] == identity {
                assert(self@.lines[i as int] == DEVICE_IDENTITY@);
                return true;
            }
            i += 1;
        }
        false
    }

    /// Whether the search ends at this node: it is the keyboard, or its
    /// descriptor could not be read to the end. Nodes listed behind such a
    /// node have no part in the result.
    pub fn ends_search(&self) -> (ends: bool)
        ensures
            ends == !self@.passed_over(),
    {
        self.failure.is_some() || self.is_keyboard()
    }
}

/// The name of the keyboard's control device among the listed raw-HID nodes.
///
/// The nodes are taken in the order of the listing. The first whose
/// descriptor holds the keyboard's line gives the result. A descriptor that
/// could not be read to its end, and did not show the line before that, ends
/// the search with its failure as a [`Error::Problem`]; so does a listing
/// that broke off, once all its nodes are passed. With every node read and
/// none the keyboard, the result is [`Error::HidrawDeviceNotFound`].
pub fn find_hidraw_device_name(listing: &HidrawListing) -> (result: Result<String, Error>)
    ensures
        match result {
            Ok(name) => listing@.located() == Ok::<Seq<char>, ErrorView>(name@),
            Err(error) => listing@.located() == Err::<Seq<char>, ErrorView>(error@),
        },
{
    let mut i: usize = 0;
    while i < listing.entries.len()
        invariant
            i <= listing.entries.len(),
            listing@.passed_over(i as int),
        decreases listing.entries.len() - i,
    {
        let entry = &listing.entries[i];
        if entry.is_keyboard() {
            proof {
                lemma_stop_decides(listing@, i as int);
            }
            return Ok(entry.name.clone());
        }
        match &entry.failure {
            Some(reason) => {
                proof {
                    lemma_stop_decides(listing@, i as int);
                }
                return Err(Error::Problem(reason.clone()));
            },
            None => {},
        }
        i += 1;
    }
    proof {
        lemma_nothing_stops(listing@);
    }
    match &listing.failure {
        Some(reason) => Err(Error::Problem(reason.clone())),
        None => Err(Error::HidrawDeviceNotFound),
    }
}

} // verus!
