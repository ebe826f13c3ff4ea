//! Who may write to whom: direct messages go between users who share a team.
use vstd::prelude::*;
use crate::features::messages::model::Message;
use crate::shared::error::{AppError, bad_request, forbidden, outcome_is};

verus! {

/// Whether two lists of team ids have a team in common.
pub open spec fn share_a_team(a: Seq<u128>, b: Seq<u128>) -> bool {
    exists|i: int, j: int| 0 <= i < a.len() && 0 <= j < b.len() && a[i] == b[j]
}

/// Whether two users, given the ids of their teams, share a team.
pub fn shares_team(teams_a: &Vec<u128>, teams_b: &Vec<u128>) -> (r: bool)
    ensures
        r == share_a_team(teams_a@, teams_b@),
{
    let mut i: usize = 0;
    while i < teams_a.len()
        invariant
            i <= teams_a@.len(),
            forall|p: int, q: int| 0 <= p < i && 0 <= q < teams_b@.len() ==> teams_a@[p] != teams_b@[q],
        decreases teams_a@.len() - i,
    {
        let mut j: usize = 0;
        while j < teams_b.len()
            invariant
                i < teams_a@.len(),
                j <= teams_b@.len(),
                forall|q: int| 0 <= q < j ==> teams_a@[i as int] != teams_b@[q],
            decreases teams_b@.len() - j,
        {
            if teams_a[i] == teams_b[j] {
                return true;
            }
            j = j + 1;
        }
        i = i + 1;
    }
    false
}

pub open spec fn shared_team_text() -> Seq<char> {
    "You do not share a team with this user"@
}

/// The outcome of sending a message.
pub open spec fn send_spec(sender_id: u128, recipient_id: u128, shared: bool) -> Result<(), (u16, Seq<char>)> {
    if sender_id == recipient_id {
        Err(bad_request("Cannot send a message to yourself"@))
    } else if !shared {
        Err(forbidden(shared_team_text()))
    } else {
        Ok(())
    }
}

/// Sending: never to oneself, only to someone who shares a team.
pub fn decide_send(sender_id: u128, recipient_id: u128, shared: bool) -> (r: Result<(), AppError>)
    ensures
        outcome_is(r, send_spec(sender_id, recipient_id, shared)),
{
    if sender_id == recipient_id {
        return Err(AppError::BadRequest(String::from_str("Cannot send a message to yourself")));
    }
    require_shared_team(shared)
}

/// Reading a conversation, or writing, needs a shared team.
pub fn require_shared_team(shared: bool) -> (r: Result<(), AppError>)
    ensures
        outcome_is(r, if shared { Ok(()) } else { Err(forbidden(shared_team_text())) }),
{
    if shared {
        Ok(())
    } else {
        Err(AppError::Forbidden(String::from_str("You do not share a team with this user")))
    }
}

/// The other participant of a conversation, seen from the requester.
pub fn counterpart(message: &Message, requester_id: u128) -> (r: u128)
    ensures
        r == if message.sender_id == requester_id {
            message.recipient_id
        } else {
            message.sender_id
        },
{
    if message.sender_id == requester_id {
        message.recipient_id
    } else {
        message.sender_id
    }
}

/// Sharing a team is symmetric: whoever may write to a user may be written to by them.
pub proof fn law_sharing_a_team_is_symmetric(a: Seq<u128>, b: Seq<u128>)
    ensures
        share_a_team(a, b) == share_a_team(b, a),
{
    if share_a_team(a, b) {
        let (i, j) = choose|i: int, j: int| 0 <= i < a.len() && 0 <= j < b.len() && a[i] == b[j];
        assert(0 <= j < b.len() && 0 <= i < a.len() && b[j] == a[i]);
    }
    if share_a_team(b, a) {
        let (i, j) = choose|i: int, j: int| 0 <= i < b.len() && 0 <= j < a.len() && b[i] == a[j];
        assert(0 <= j < a.len() && 0 <= i < b.len() && a[j] == b[i]);
    }
}

} // verus!
