//! The order in which the entries of a directory, and of the directories in it, are
//! visited: a directory is visited to its end before the entries beside it.

use vstd::prelude::*;

verus! {

/// What was read of a directory: the paths of its entries, in the order in which they
/// were read, and the error that cut the reading short.
#[derive(Debug)]
pub struct DirectoryListing {
    pub entries: Vec<String>,
    pub failure: Option<String>,
}

/// The directories that are being visited, the innermost first.
#[derive(Debug)]
pub enum OpenDirectories {
    /// None.
    Outside,
    /// The entries of the innermost one from `index` on are still to be visited.
    Inside {
        listing: DirectoryListing,
        index: usize,
        above: Box<OpenDirectories>,
    },
}

/// What comes next in a visit.
#[derive(Debug)]
pub enum Visit {
    /// This entry; the rest is still to be visited.
    Entry { path: String, rest: OpenDirectories },
    /// No more of the innermost directory could be read.
    Unreadable(String),
    /// All entries were visited.
    Complete,
}

/// What comes next in a visit.
pub open spec fn upcoming(open: OpenDirectories) -> Visit
    decreases open,
{
    match open {
        OpenDirectories::Outside => Visit::Complete,
        OpenDirectories::Inside { listing, index, above } => if index < listing.entries@.len() {
            Visit::Entry {
                path: listing.entries@[index as int],
                rest: OpenDirectories::Inside { listing, index: (index + 1) as usize, above },
            }
        } else {
            match listing.failure {
                Some(error) => Visit::Unreadable(error),
                None => upcoming(*above),
            }
        },
    }
}

/// What comes next in a visit.
pub fn next_entry(open: OpenDirectories) -> (visit: Visit)
    ensures
        visit == upcoming(open),
    decreases open,
{
    match open {
        OpenDirectories::Outside => Visit::Complete,
        OpenDirectories::Inside { listing, index, above } => if index < listing.entries.len() {
            let path = listing.entries[index].clone();
            Visit::Entry {
                path,
                rest: OpenDirectories::Inside { listing, index: index + 1, above },
            }
        } else {
            match listing.failure {
                Some(error) => Visit::Unreadable(error),
                None => next_entry(*above),
            }
        },
    }
}

/// A visit of a directory goes through its entries before those that were left.
pub open spec fn entered(listing: DirectoryListing, above: OpenDirectories) -> OpenDirectories {
    OpenDirectories::Inside { listing, index: 0, above: Box::new(above) }
}

/// The number of entries that are still to be visited.
pub open spec fn left(open: OpenDirectories) -> nat
    decreases open,
{
    match open {
        OpenDirectories::Outside => 0,
        OpenDirectories::Inside { listing, index, above } => (if index < listing.entries@.len() {
            (listing.entries@.len() - index) as nat
        } else {
            0
        }) + left(*above),
    }
}

/// Each step of a visit takes one entry, and a visit ends only when no entry is left.
pub proof fn law_each_entry_is_visited_once(open: OpenDirectories)
    ensures
        match upcoming(open) {
            Visit::Entry { rest, .. } => left(open) == left(rest) + 1,
            Visit::Unreadable(_) => true,
            Visit::Complete => left(open) == 0,
        },
    decreases open,
{
    match open {
        OpenDirectories::Outside => {},
        OpenDirectories::Inside { listing, index, above } => {
            assert(listing.entries.len() <= usize::MAX);
            law_each_entry_is_visited_once(*above);
        },
    }
}

} // verus!
