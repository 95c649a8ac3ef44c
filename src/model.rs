use vstd::prelude::*;
use crate::address::{Account, Address, Signer};
use crate::error::{ErrorCode, check, outcome};

verus! {

#[derive(Clone, Copy, Debug, PartialEq, Eq, Structural)]
pub enum Role {
    Frontend,
    Backend,
    Fullstack,
    DevOps,
    QA,
    Designer,
    Others,
}

/// A role a project looks for: how many it needs, how many it has accepted,
/// and a label that only `Others` carries.
#[derive(Clone, Debug, PartialEq, Eq)]
pub struct RoleRequirement {
    pub role: Role,
    pub needed: u8,
    pub accepted: u8,
    pub label: Option<String>,
}

#[derive(Clone, Copy, Debug, PartialEq, Eq, Structural)]
pub enum RequestStatus {
    Pending,
    UnderReview,
    Accepted,
    Rejected,
}

#[derive(Clone, Copy, Debug, PartialEq, Eq, Structural)]
pub enum ProfileVisibility {
    Public,
    Private,
    FriendsOnly,
}

#[derive(Clone, Copy, Debug, PartialEq, Eq, Structural)]
pub enum CollaborationLevel {
    Beginner,
    Intermediate,
    Advanced,
    AllLevels,
}

/// A short tag of a project.
#[derive(Clone, Debug, PartialEq, Eq)]
pub struct ShortText {
    pub value: String,
}

#[derive(Clone, Copy, Debug, PartialEq, Eq, Structural)]
pub enum CollaborationAcceptance {
    Open,
    Closed,
}

impl Default for CollaborationAcceptance {
    fn default() -> (r: Self)
        ensures
            r == CollaborationAcceptance::Open,
    {
        CollaborationAcceptance::Open
    }
}

#[derive(Clone, Copy, Debug, PartialEq, Eq, Structural)]
pub enum ProjectStatus {
    JustStarted,
    InProgress,
    NearlyComplete,
    Completed,
    ActiveDev,
    OnHold,
}

/// A developer profile, stored at the address derived from its owner.
#[derive(Clone, Debug, PartialEq, Eq)]
pub struct User {
    pub wallet: Address,
    pub username: String,
    pub display_name: String,
    pub role: String,
    pub location: String,
    pub bio: String,
    pub github_link: String,
    pub ipfs_metadata_hash: String,
    pub contact_info: String,
    pub reputation: u32,
    pub projects_count: u32,
    pub collabs_count: u32,
    pub member_since: i64,
    pub last_active: i64,
    pub is_verified: bool,
    pub open_to_collab: bool,
    pub profile_visibility: ProfileVisibility,
    pub bump: u8,
}

/// A project, stored at the address derived from its creator and name.
#[derive(Clone, Debug, PartialEq, Eq)]
pub struct Project {
    pub creator: Address,
    pub name: String,
    pub description: String,
    pub github_link: String,
    pub logo_ipfs_hash: String,
    pub tech_stack: Vec<ShortText>,
    pub contribution_needs: Vec<ShortText>,
    pub collab_intent: String,
    pub collaboration_level: CollaborationLevel,
    pub project_status: ProjectStatus,
    pub accepting_collaborations: CollaborationAcceptance,
    pub timestamp: i64,
    pub last_updated: i64,
    pub contributors_count: u16,
    pub is_active: bool,
    pub bump: u8,
    pub required_roles: Vec<RoleRequirement>,
}

/// A request to join a project, stored at the address derived from its
/// sender and the project's address.
#[derive(Clone, Debug, PartialEq, Eq)]
pub struct CollaborationRequest {
    pub from: Address,
    pub to: Address,
    pub project: Address,
    pub message: String,
    pub owner_message: String,
    pub status: RequestStatus,
    pub timestamp: i64,
    pub reply_timestamp: i64,
    pub bump: u8,
    pub desired_role: Option<Role>,
}

/// Allocated size of a user account: an 8-byte type tag and every field at
/// its largest.
pub const USER_SPACE: usize = 864;

/// Allocated size of a project account.
pub const PROJECT_SPACE: usize = 2481;

/// Allocated size of a collaboration request account.
pub const REQUEST_SPACE: usize = 1132;

/// The first value where present, else the second.
pub open spec fn or_keep<T>(o: Option<T>, v: T) -> T {
    match o {
        Some(x) => x,
        None => v,
    }
}

/// `acc` holding the record `d`.
pub open spec fn with_data<T>(acc: Account<T>, d: T) -> Account<T> {
    Account { key: acc.key, lamports: acc.lamports, data_len: acc.data_len, data: Some(d) }
}

/// An account after it is closed into `to`: no record, no space, no balance.
pub open spec fn closed<T>(acc: Account<T>) -> Account<T> {
    Account { key: acc.key, lamports: 0, data_len: 0, data: None }
}

/// Whether closing `acc` into `to` would overflow `to`'s balance.
pub open spec fn close_overflows<T>(acc: Account<T>, to: Signer) -> bool {
    to.lamports + acc.lamports > u64::MAX
}

/// Closes `acc`: its whole balance goes to `to`, and its record is gone.
pub fn close_account<T>(acc: &mut Account<T>, to: &mut Signer) -> (r: Result<(), ErrorCode>)
    ensures
        r == outcome(check(!close_overflows(*old(acc), *old(to)), ErrorCode::ArithmeticOverflow)),
        r is Err ==> *final(acc) == *old(acc) && *final(to) == *old(to),
        r is Ok ==> *final(acc) == closed(*old(acc)) && final(to).key == old(to).key
            && final(to).lamports == old(to).lamports + old(acc).lamports,
{
    match to.lamports.checked_add(acc.lamports) {
        Some(total) => {
            to.lamports = total;
            acc.lamports = 0;
            acc.data_len = 0;
            acc.data = None;
            Ok(())
        },
        None => Err(ErrorCode::ArithmeticOverflow),
    }
}

} // verus!
