//! A user's message to a session.

use vstd::prelude::*;

verus! {

pub struct MessageRequest {
    pub message: String,
}

} // verus!
