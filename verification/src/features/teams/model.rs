//! Teams, their members and bans, and what each role may do.
use vstd::prelude::*;
use crate::shared::clock::{clock_reading, now_unix_nanos};
use crate::shared::text::str_eq;

verus! {

/// The role a user holds inside a team.
#[derive(Debug, Clone, Copy, PartialEq, Eq, Structural)]
pub enum Role {
    Observer,
    Responder,
    Manager,
}

impl Role {
    /// Only the team's manager.
    pub open spec fn is_manager(self) -> bool {
        self == Role::Manager
    }

    /// Responders and the manager.
    pub open spec fn acts_on_incidents(self) -> bool {
        self == Role::Responder || self == Role::Manager
    }

    pub fn can_generate_invitation_code(&self) -> (r: bool)
        ensures
            r == self.is_manager(),
    {
        matches!(self, Role::Manager)
    }

    pub fn can_update_member_role(&self) -> (r: bool)
        ensures
            r == self.is_manager(),
    {
        matches!(self, Role::Manager)
    }

    pub fn can_transfer_manager(&self) -> (r: bool)
        ensures
            r == self.is_manager(),
    {
        matches!(self, Role::Manager)
    }

    pub fn can_moderate_members(&self) -> (r: bool)
        ensures
            r == self.is_manager(),
    {
        matches!(self, Role::Manager)
    }

    pub fn can_create_incident(&self) -> (r: bool)
        ensures
            r == self.is_manager(),
    {
        matches!(self, Role::Manager)
    }

    pub fn can_acknowledge_incident(&self) -> (r: bool)
        ensures
            r == self.acts_on_incidents(),
    {
        matches!(self, Role::Responder | Role::Manager)
    }

    pub fn can_escalate_incident(&self) -> (r: bool)
        ensures
            r == self.acts_on_incidents(),
    {
        matches!(self, Role::Responder | Role::Manager)
    }

    pub fn can_assign_responder(&self) -> (r: bool)
        ensures
            r == self.is_manager(),
    {
        matches!(self, Role::Manager)
    }

    pub fn can_close_incident(&self) -> (r: bool)
        ensures
            r == self.is_manager(),
    {
        matches!(self, Role::Manager)
    }

    pub fn can_add_timeline_entry(&self) -> (r: bool)
        ensures
            r == self.acts_on_incidents(),
    {
        matches!(self, Role::Responder | Role::Manager)
    }

    pub fn can_create_release(&self) -> (r: bool)
        ensures
            r == self.is_manager(),
    {
        matches!(self, Role::Manager)
    }

    pub fn can_validate_release_step(&self) -> (r: bool)
        ensures
            r == self.acts_on_incidents(),
    {
        matches!(self, Role::Responder | Role::Manager)
    }

    pub fn can_cancel_release(&self) -> (r: bool)
        ensures
            r == self.is_manager(),
    {
        matches!(self, Role::Manager)
    }

    pub fn can_configure_rules(&self) -> (r: bool)
        ensures
            r == self.is_manager(),
    {
        matches!(self, Role::Manager)
    }
}

/// Observers may do nothing that changes the team; responders act on incidents and
/// releases but manage nothing; the manager may do everything.
pub proof fn law_role_permissions_are_ordered(role: Role)
    ensures
        role == Role::Observer ==> !role.is_manager() && !role.acts_on_incidents(),
        role == Role::Responder ==> !role.is_manager() && role.acts_on_incidents(),
        role == Role::Manager ==> role.is_manager() && role.acts_on_incidents(),
        role.is_manager() ==> role.acts_on_incidents(),
{
}

/// The text under which a role is stored.
pub open spec fn role_text(role: Role) -> Seq<char> {
    match role {
        Role::Manager => "manager"@,
        Role::Responder => "responder"@,
        Role::Observer => "observer"@,
    }
}

pub proof fn lemma_role_texts_differ()
    ensures
        "manager"@ != "responder"@,
        "manager"@ != "observer"@,
        "responder"@ != "observer"@,
{
    reveal_strlit("manager");
    reveal_strlit("responder");
    reveal_strlit("observer");
    assert("manager"@.len() != "responder"@.len());
    assert("manager"@[0] != "observer"@[0]);
    assert("responder"@.len() != "observer"@.len());
}

/// The stored text of a role.
pub fn role_to_str(role: &Role) -> (r: &'static str)
    ensures
        r@ == role_text(*role),
{
    match role {
        Role::Manager => "manager",
        Role::Responder => "responder",
        Role::Observer => "observer",
    }
}

/// The role's text, as team member responses give it.
pub fn role_to_string(role: &Role) -> (r: String)
    ensures
        r@ == role_text(*role),
{
    String::from_str(role_to_str(role))
}

/// Reads a stored role; only the three role texts are stored.
pub fn role_from_str(s: &str) -> (r: Role)
    requires
        s@ == "manager"@ || s@ == "responder"@ || s@ == "observer"@,
    ensures
        role_text(r) == s@,
{
    if str_eq(s, "manager") {
        Role::Manager
    } else if str_eq(s, "responder") {
        Role::Responder
    } else {
        Role::Observer
    }
}

/// Reading a role's stored text gives the role back.
pub proof fn law_role_text_round_trip(a: Role, b: Role)
    ensures
        role_text(a) == role_text(b) <==> a == b,
{
    lemma_role_texts_differ();
}

/// A team.
#[derive(Debug)]
pub struct Team {
    pub id: u128,
    pub name: String,
    pub invitation_code: Option<String>,
    pub created_by: Option<u128>,
    /// Nanoseconds since the Unix epoch.
    pub created_at: i128,
}

/// A user's membership of a team.
#[derive(Debug, Clone, Copy)]
pub struct TeamMember {
    pub id: u128,
    pub team_id: u128,
    pub user_id: u128,
    pub role: Role,
    /// Nanoseconds since the Unix epoch.
    pub joined_at: i128,
}

/// A ban of a user from a team, permanent when `until` is `None`.
/// A member together with its user's name.
#[derive(Debug)]
pub struct TeamMemberWithUsername {
    pub id: u128,
    pub team_id: u128,
    pub user_id: u128,
    pub username: String,
    pub role: Role,
    /// Nanoseconds since the Unix epoch.
    pub joined_at: i128,
}

/// A ban together with the banned user's name.
#[derive(Debug)]
pub struct TeamBanWithUsername {
    pub id: u128,
    pub team_id: u128,
    pub user_id: u128,
    pub username: String,
    pub banned_by: Option<u128>,
    /// Nanoseconds since the Unix epoch; `None` for a permanent ban.
    pub until: Option<i128>,
    pub created_at: i128,
}

impl TeamBanWithUsername {
    /// Whether the ban holds at `now`: it is permanent or ends after `now`.
    pub fn is_active_at(&self, now: i128) -> (r: bool)
        ensures
            r == match self.until {
                None => true,
                Some(u) => u > now,
            },
    {
        match self.until {
            None => true,
            Some(u) => u > now,
        }
    }
}

#[derive(Debug, Clone, Copy)]
pub struct TeamBan {
    pub id: u128,
    pub team_id: u128,
    pub user_id: u128,
    pub banned_by: Option<u128>,
    /// End of the ban, in nanoseconds since the Unix epoch.
    pub until: Option<i128>,
    /// Nanoseconds since the Unix epoch.
    pub created_at: i128,
}

impl TeamBan {
    /// Whether the ban still holds at `now` (nanoseconds since the epoch).
    pub open spec fn active_at(self, now: int) -> bool {
        match self.until {
            None => true,
            Some(until) => until > now,
        }
    }

    /// Whether the ban still holds at the given time.
    pub fn is_active_at(&self, now: i128) -> (r: bool)
        ensures
            r == self.active_at(now as int),
    {
        match self.until {
            None => true,
            Some(until) => until > now,
        }
    }

    /// Whether the ban still holds now. A permanent ban always does; a temporary one
    /// holds at the moment of the call exactly when `until` lies later than the
    /// clock's reading: always, if it ends after every instant the clock can read, and
    /// never, if it ended before all of them.
    pub fn is_active(&self) -> (r: bool)
        ensures
            exists|t: int| #[trigger] clock_reading(t) && r == self.active_at(t),
            self.until is None ==> r,
            self.until matches Some(u) && u >= 40_000_000_000_000_000_000_000 ==> r,
            self.until matches Some(u) && u <= -40_000_000_000_000_000_000_000 ==> !r,
    {
        let now = now_unix_nanos();
        let r = self.is_active_at(now);
        assert(clock_reading(now as int) && r == self.active_at(now as int));
        r
    }
}

} // verus!
