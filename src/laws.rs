//! Properties that hold across operations, stated over the contracts of
//! the operations and proved.

use vstd::prelude::*;
use crate::address::{Account, derives, user_seeds};
use crate::error::{ErrorCode, ErrorKind, kind_of};
use crate::model::{RequestStatus, Role, RoleRequirement, USER_SPACE, User};
use crate::project::{
    CreateProject, create_project_error, project_fields_error, roles_error, within_capacity,
};
use crate::request::{
    RequestOp, accept_capacity_error, has_role, lemma_accept_keeps_capacity, lemma_first_unique,
    roles_after_accept, transition,
};
use crate::text::{all_fit, byte_len, len_check};
use crate::user::{migrate_charge, migrated_user, user_fields_error};

verus! {

/// A text limit is inclusive: a text of exactly `max` bytes passes its
/// check, and one of `max + 1` bytes fails it with the field's own error.
pub proof fn text_limit_is_inclusive(s: Seq<char>, max: nat, e: ErrorCode)
    ensures
        byte_len(s) == max ==> len_check(s, max, e) is None,
        byte_len(s) == max + 1 ==> len_check(s, max, e) == Some(e),
        kind_of(e) == ErrorKind::Validation ==> (len_check(s, max, e) is Some ==> kind_of(
            len_check(s, max, e)->0,
        ) == ErrorKind::Validation),
{
}

/// The fields of a profile pass exactly when each is within its own limit,
/// independently of the others.
pub proof fn user_fields_valid_iff(
    username: Seq<char>,
    display_name: Seq<char>,
    role: Seq<char>,
    location: Seq<char>,
    bio: Seq<char>,
    github_link: Seq<char>,
    ipfs_metadata_hash: Seq<char>,
    contact_info: Seq<char>,
)
    ensures
        user_fields_error(
            username,
            display_name,
            role,
            location,
            bio,
            github_link,
            ipfs_metadata_hash,
            contact_info,
        ) is None <==> {
            &&& byte_len(username) <= 32
            &&& byte_len(display_name) <= 64
            &&& byte_len(role) <= 50
            &&& byte_len(location) <= 50
            &&& byte_len(bio) <= 200
            &&& byte_len(github_link) <= 100
            &&& byte_len(ipfs_metadata_hash) <= 64
            &&& byte_len(contact_info) <= 200
        },
{
}

/// The fields of a new project pass exactly when each text, each tag and
/// each list is within its own limit and each role requirement is well formed.
pub proof fn project_fields_valid_iff(
    name: Seq<char>,
    description: Seq<char>,
    github_link: Seq<char>,
    logo_ipfs_hash: Seq<char>,
    tech_stack: Seq<String>,
    contribution_needs: Seq<String>,
    collab_intent: Seq<char>,
    required_roles: Seq<RoleRequirement>,
)
    ensures
        project_fields_error(
            name,
            description,
            github_link,
            logo_ipfs_hash,
            tech_stack,
            contribution_needs,
            collab_intent,
            required_roles,
        ) is None <==> {
            &&& byte_len(name) <= 50
            &&& byte_len(description) <= 1000
            &&& byte_len(github_link) <= 100
            &&& byte_len(logo_ipfs_hash) <= 64
            &&& tech_stack.len() <= 12
            &&& contribution_needs.len() <= 10
            &&& byte_len(collab_intent) <= 300
            &&& required_roles.len() <= 8
            &&& all_fit(tech_stack, 24)
            &&& all_fit(contribution_needs, 24)
            &&& roles_error(required_roles) is None
        },
{
}

/// Accepting a request never lets a requirement accept more than it needs.
pub proof fn accept_keeps_capacity(roles: Seq<RoleRequirement>, desired: Option<Role>)
    requires
        within_capacity(roles),
        accept_capacity_error(roles, desired) is None,
    ensures
        within_capacity(roles_after_accept(roles, desired)),
{
    lemma_accept_keeps_capacity(roles, desired);
}

/// A request that is accepted or rejected is never moved to another status:
/// every operation on it is refused or destroys it.
pub proof fn answered_request_is_final(s: RequestStatus, op: RequestOp)
    requires
        s == RequestStatus::Accepted || s == RequestStatus::Rejected,
    ensures
        transition(s, op) is None || transition(s, op) == Some(None::<RequestStatus>),
{
}

/// How far a status stands in the lifecycle.
pub open spec fn stage(s: RequestStatus) -> int {
    match s {
        RequestStatus::Pending => 0,
        RequestStatus::UnderReview => 1,
        RequestStatus::Accepted => 2,
        RequestStatus::Rejected => 2,
    }
}

/// No operation moves a request back to an earlier status.
pub proof fn transitions_never_go_back(s: RequestStatus, op: RequestOp)
    ensures
        transition(s, op) matches Some(Some(t)) ==> stage(t) >= stage(s),
{
}

/// Accepting a request for a role whose requirement is full fails with
/// `RoleSlotFull`, a capacity error.
pub proof fn full_slot_refuses_accept(roles: Seq<RoleRequirement>, role: Role, k: int)
    requires
        0 <= k < roles.len(),
        roles[k].role == role,
        forall|j: int| 0 <= j < k ==> (#[trigger] roles[j]).role != role,
        roles[k].accepted == roles[k].needed,
    ensures
        accept_capacity_error(roles, Some(role)) == Some(ErrorCode::RoleSlotFull),
        kind_of(ErrorCode::RoleSlotFull) == ErrorKind::Capacity,
{
    assert(has_role(roles, role));
    lemma_first_unique(roles, role, k);
}

/// A project cannot be created by a caller without a profile at the address
/// derived from it.
pub proof fn project_needs_creator_profile(
    ctx: CreateProject,
    name: String,
    description: String,
    github_link: String,
    logo_ipfs_hash: String,
    tech_stack: Vec<String>,
    contribution_needs: Vec<String>,
    collab_intent: String,
    required_roles: Vec<RoleRequirement>,
)
    requires
        ctx.user.data is None || !derives(
            user_seeds(ctx.creator.key@),
            ctx.program_id@,
            ctx.user.key@,
        ),
    ensures
        create_project_error(
            ctx,
            name,
            description,
            github_link,
            logo_ipfs_hash,
            tech_stack,
            contribution_needs,
            collab_intent,
            required_roles,
        ) is Some,
{
}

/// Migrating twice charges once: after a migration the account is large
/// enough, so a second one costs nothing and leaves the balance as it is.
pub proof fn migration_is_idempotent(
    acc: Account<User>,
    contact_info: String,
    rent_minimum: u64,
    now: i64,
)
    requires
        acc.data is Some,
        acc.lamports + migrate_charge(acc.data_len, acc.lamports, rent_minimum) <= u64::MAX,
    ensures
        migrated_user(acc, contact_info, rent_minimum, now).data_len >= USER_SPACE,
        migrate_charge(
            migrated_user(acc, contact_info, rent_minimum, now).data_len,
            migrated_user(acc, contact_info, rent_minimum, now).lamports,
            rent_minimum,
        ) == 0,
{
}

} // verus!
