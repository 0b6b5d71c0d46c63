//! A comment as the Reddit API reports it.
use vstd::prelude::*;

verus! {

/// One Reddit comment: its text, its id and the id of the post it belongs to.
pub struct Comment {
    pub body: String,
    pub id: String,
    pub link_id: String,
}

} // verus!
