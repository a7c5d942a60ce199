//! Discovery: from the reply of the discovery service to the work items of a
//! cycle.

use crate::identifier::{accepted, ids_of, parse_identifiers, refused, texts_of, Parsed};
use crate::status::{is_success, status_is_success};
use vstd::prelude::*;

verus! {

/// Why a cycle has no work items to dispatch.
#[derive(Clone, Debug, PartialEq, Eq)]
pub enum DiscoveryError {
    /// The discovery service could not be reached, or what it sent could not
    /// be read as a listing.
    Unavailable { detail: String },
    /// The discovery service answered with a status outside the success range.
    Rejected { status: u16 },
}

/// The mathematical value of a [`DiscoveryError`].
pub enum DiscoveryFailure {
    Unavailable { detail: Seq<char> },
    Rejected { status: u16 },
}

impl View for DiscoveryError {
    type V = DiscoveryFailure;

    open spec fn view(&self) -> DiscoveryFailure {
        match *self {
            DiscoveryError::Unavailable { detail } => DiscoveryFailure::Unavailable {
                detail: detail@,
            },
            DiscoveryError::Rejected { status } => DiscoveryFailure::Rejected { status },
        }
    }
}

/// What the transport has to say once a discovery request is over.
#[derive(Clone, Debug, PartialEq, Eq)]
pub enum DiscoveryReply {
    /// The request produced no response.
    Unreachable { detail: String },
    /// A response began with this status, but no listing was read from it.
    Unreadable { status: u16, detail: String },
    /// A response arrived whose body lists these raw identifiers, in this
    /// order.
    Listed { status: u16, pids: Vec<String> },
}

/// The mathematical value of a [`DiscoveryReply`].
pub enum DiscoveryReplyView {
    Unreachable { detail: Seq<char> },
    Unreadable { status: u16, detail: Seq<char> },
    Listed { status: u16, pids: Seq<Seq<char>> },
}

impl View for DiscoveryReply {
    type V = DiscoveryReplyView;

    open spec fn view(&self) -> DiscoveryReplyView {
        match *self {
            DiscoveryReply::Unreachable { detail } => DiscoveryReplyView::Unreachable {
                detail: detail@,
            },
            DiscoveryReply::Unreadable { status, detail } => DiscoveryReplyView::Unreadable {
                status,
                detail: detail@,
            },
            DiscoveryReply::Listed { status, pids } => DiscoveryReplyView::Listed {
                status,
                pids: texts_of(pids@),
            },
        }
    }
}

/// The raw listing that a reply stands for, or the failure that it is.
///
/// No response makes the service unavailable. A status outside the success
/// range is a rejection, whatever the body. A success status gives the
/// listing, or makes the service unavailable where none could be read.
pub open spec fn listing_of(reply: DiscoveryReplyView) -> Result<Seq<Seq<char>>, DiscoveryFailure> {
    match reply {
        DiscoveryReplyView::Unreachable { detail } => Err(DiscoveryFailure::Unavailable { detail }),
        DiscoveryReplyView::Unreadable { status, detail } => if is_success(status) {
            Err(DiscoveryFailure::Unavailable { detail })
        } else {
            Err(DiscoveryFailure::Rejected { status })
        },
        DiscoveryReplyView::Listed { status, pids } => if is_success(status) {
            Ok(pids)
        } else {
            Err(DiscoveryFailure::Rejected { status })
        },
    }
}

/// The work items of a cycle, from the reply to its discovery request.
///
/// On success every entry of the listing is read as an identifier: the valid
/// ones come back as work items in the order of the listing, the others are
/// set aside. An empty listing is a success with no work items.
pub fn work_items(reply: DiscoveryReply) -> (found: Result<Parsed, DiscoveryError>)
    ensures
        match found {
            Ok(parsed) => listing_of(reply@) matches Ok(listing) && ids_of(parsed.items@)
                == accepted(listing) && parsed.rejected_texts() == refused(listing),
            Err(error) => listing_of(reply@) == Err::<Seq<Seq<char>>, DiscoveryFailure>(error@),
        },
{
    match reply {
        DiscoveryReply::Unreachable { detail } => Err(DiscoveryError::Unavailable { detail }),
        DiscoveryReply::Unreadable { status, detail } => {
            if status_is_success(status) {
                Err(DiscoveryError::Unavailable { detail })
            } else {
                Err(DiscoveryError::Rejected { status })
            }
        },
        DiscoveryReply::Listed { status, pids } => {
            if status_is_success(status) {
                Ok(parse_identifiers(&pids))
            } else {
                Err(DiscoveryError::Rejected { status })
            }
        },
    }
}

} // verus!
