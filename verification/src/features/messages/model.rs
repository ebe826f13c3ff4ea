use vstd::prelude::*;

verus! {

/// A direct message between two users.
#[derive(Debug)]
pub struct Message {
    pub id: u128,
    pub sender_id: u128,
    pub recipient_id: u128,
    pub content: String,
    /// Nanoseconds since the Unix epoch.
    pub created_at: i128,
}

} // verus!
