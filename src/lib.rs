//! Client-side core of the connector protocol: endpoint resolution, request
//! decoration, response classification and error observation.

pub mod dispatch;
pub mod endpoint;
pub mod error;
pub mod headers;
pub mod response;

use vstd::prelude::*;

verus! {

/// The text of an optional string.
pub open spec fn option_view(o: Option<String>) -> Option<Seq<char>> {
    match o {
        Some(s) => Some(s@),
        None => None,
    }
}

} // verus!
