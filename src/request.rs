use vstd::prelude::*;
use vstd::utf8::encode_utf8;
use crate::address::{
    Account, Address, Signer, derives, program_address, project_seeds, project_seeds_of,
    request_seeds, request_seeds_of, verify_address,
};
use crate::error::{ErrorCode, check, first_err, outcome};
use crate::model::{
    REQUEST_SPACE, CollaborationRequest, Project, RequestStatus, Role, RoleRequirement,
    close_account, close_overflows, closed, with_data,
};
use crate::project::{roles_wf, within_capacity};
use crate::text::{MAX_MESSAGE, check_len, len_check};

verus! {

/// Accounts of `send_collab_request`: the account to hold the request, its
/// sender, and the project it is for.
pub struct SendCollabRequest {
    pub program_id: Address,
    pub collab_request: Account<CollaborationRequest>,
    pub sender: Signer,
    pub project: Account<Project>,
}

/// Accounts of the recipient's answers: the request, the recipient, and the
/// project the request is for.
pub struct UpdateCollabRequest {
    pub program_id: Address,
    pub collab_request: Account<CollaborationRequest>,
    pub project_owner: Signer,
    pub project: Account<Project>,
}

/// Accounts of `update_collab_request`: the request and its sender.
pub struct UpdateCollabMessage {
    pub program_id: Address,
    pub collab_request: Account<CollaborationRequest>,
    pub sender: Signer,
}

/// Accounts of `withdraw_collab_request`: the request, and its sender, who
/// gets its balance.
pub struct WithdrawCollabRequest {
    pub program_id: Address,
    pub collab_request: Account<CollaborationRequest>,
    pub sender: Signer,
}

/// Accounts of `delete_collab_request`: the request, and its recipient, who
/// gets its balance.
pub struct DeleteCollabRequest {
    pub program_id: Address,
    pub collab_request: Account<CollaborationRequest>,
    pub project_owner: Signer,
}

/// Accounts of `delete_sender_rejected_request`: the request, and its
/// sender, who gets its balance.
pub struct DeleteSenderRejectedRequest {
    pub program_id: Address,
    pub collab_request: Account<CollaborationRequest>,
    pub sender: Signer,
}

/// The operations on a request.
#[derive(Clone, Copy, Debug, PartialEq, Eq, Structural)]
pub enum RequestOp {
    MarkUnderReview,
    Accept,
    Reject,
    EditMessage,
    Withdraw,
    SenderDelete,
    RecipientDelete,
}

/// The lifecycle of a request: what `op` does to a request in status `s`.
/// `None`: the operation is refused; `Some(None)`: the request is destroyed;
/// `Some(Some(t))`: the request moves to status `t`.
pub open spec fn transition(s: RequestStatus, op: RequestOp) -> Option<Option<RequestStatus>> {
    match op {
        RequestOp::MarkUnderReview => if s == RequestStatus::Pending {
            Some(Some(RequestStatus::UnderReview))
        } else {
            None
        },
        RequestOp::Accept => if s == RequestStatus::Pending || s == RequestStatus::UnderReview {
            Some(Some(RequestStatus::Accepted))
        } else {
            None
        },
        RequestOp::Reject => if s == RequestStatus::Pending || s == RequestStatus::UnderReview {
            Some(Some(RequestStatus::Rejected))
        } else {
            None
        },
        RequestOp::EditMessage => if s == RequestStatus::Pending {
            Some(Some(RequestStatus::Pending))
        } else {
            None
        },
        RequestOp::Withdraw => if s == RequestStatus::Pending {
            Some(None)
        } else {
            None
        },
        RequestOp::SenderDelete => if s == RequestStatus::Rejected {
            Some(None)
        } else {
            None
        },
        RequestOp::RecipientDelete => if s != RequestStatus::Pending {
            Some(None)
        } else {
            None
        },
    }
}

/// Whether `op` may be applied to a request in status `s`.
pub fn allowed(s: RequestStatus, op: RequestOp) -> (r: bool)
    ensures
        r == (transition(s, op) is Some),
{
    match op {
        RequestOp::MarkUnderReview | RequestOp::EditMessage | RequestOp::Withdraw => s
            == RequestStatus::Pending,
        RequestOp::Accept | RequestOp::Reject => s == RequestStatus::Pending || s
            == RequestStatus::UnderReview,
        RequestOp::SenderDelete => s == RequestStatus::Rejected,
        RequestOp::RecipientDelete => s != RequestStatus::Pending,
    }
}

/// Whether some requirement of `roles` is for `role`.
pub open spec fn has_role(roles: Seq<RoleRequirement>, role: Role) -> bool {
    exists|k: int| 0 <= k < roles.len() && (#[trigger] roles[k]).role == role
}

/// Whether `k` is the first requirement of `roles` for `role`.
pub open spec fn is_first_for(roles: Seq<RoleRequirement>, role: Role, k: int) -> bool {
    &&& 0 <= k < roles.len()
    &&& roles[k].role == role
    &&& forall|j: int| 0 <= j < k ==> (#[trigger] roles[j]).role != role
}

/// The first requirement of `roles` for `role`, where `has_role` holds.
pub open spec fn slot_of(roles: Seq<RoleRequirement>, role: Role) -> int {
    choose|k: int| is_first_for(roles, role, k)
}

/// The first requirement for a role is unique.
pub proof fn lemma_first_unique(roles: Seq<RoleRequirement>, role: Role, k: int)
    requires
        is_first_for(roles, role, k),
    ensures
        slot_of(roles, role) == k,
{
    let c = slot_of(roles, role);
    assert(is_first_for(roles, role, c));
    if c < k {
        assert(roles[c].role != role);
    } else if k < c {
        assert(roles[k].role != role);
    }
}

/// Finds the first requirement of `roles` for `role`.
pub fn find_role(roles: &Vec<RoleRequirement>, role: Role) -> (r: Option<usize>)
    ensures
        r is None <==> !has_role(roles@, role),
        r is Some ==> is_first_for(roles@, role, r->0 as int) && slot_of(roles@, role) == r->0,
{
    let mut i: usize = 0;
    while i < roles.len()
        invariant
            0 <= i <= roles@.len(),
            forall|j: int| 0 <= j < i ==> (#[trigger] roles@[j]).role != role,
        decreases roles@.len() - i,
    {
        if roles[i].role == role {
            proof {
                lemma_first_unique(roles@, role, i as int);
            }
            return Some(i);
        }
        i = i + 1;
    }
    None
}

/// Why a request for `desired` may not be sent to a project with `roles`:
/// where the project names roles, the desired one must be among them and
/// have a free slot.
pub open spec fn send_capacity_error(roles: Seq<RoleRequirement>, desired: Option<Role>) -> Option<ErrorCode> {
    match desired {
        None => None,
        Some(role) => if roles.len() == 0 {
            None
        } else if !has_role(roles, role) {
            Some(ErrorCode::RoleNotFound)
        } else {
            check(
                roles[slot_of(roles, role)].accepted < roles[slot_of(roles, role)].needed,
                ErrorCode::RoleSlotFull,
            )
        },
    }
}

/// Checks the capacity of `roles` for a new request as `send_capacity_error` says.
pub fn check_send_capacity(roles: &Vec<RoleRequirement>, desired: Option<Role>) -> (r: Option<ErrorCode>)
    ensures
        r == send_capacity_error(roles@, desired),
{
    match desired {
        None => None,
        Some(role) => {
            if roles.len() == 0 {
                None
            } else {
                match find_role(roles, role) {
                    None => Some(ErrorCode::RoleNotFound),
                    Some(k) => {
                        if roles[k].accepted < roles[k].needed {
                            None
                        } else {
                            Some(ErrorCode::RoleSlotFull)
                        }
                    },
                }
            }
        },
    }
}

/// Why the project in `project` cannot be read: it is missing, or not at
/// the address derived from its own creator and name.
pub open spec fn project_read_error(project: Account<Project>, program_id: Address) -> Option<ErrorCode> {
    if project.data is None {
        Some(ErrorCode::AccountNotInitialized)
    } else {
        check(
            derives(
                project_seeds((project.data->0).creator@, encode_utf8((project.data->0).name@)),
                program_id@,
                project.key@,
            ),
            ErrorCode::ConstraintSeeds,
        )
    }
}

/// Checks that `project` holds a project at its derived address.
pub fn check_project_account(project: &Account<Project>, program_id: &Address) -> (r: Option<ErrorCode>)
    ensures
        r == project_read_error(*project, *program_id),
{
    match &project.data {
        None => Some(ErrorCode::AccountNotInitialized),
        Some(p) => {
            let seeds = project_seeds_of(&p.creator, &p.name);
            match verify_address(&project.key, &seeds, program_id) {
                None => Some(ErrorCode::ConstraintSeeds),
                Some(_) => None,
            }
        },
    }
}

/// The bump seed of the address of the request of `sender` on `project`.
pub open spec fn request_bump(sender: Address, project: Address, program_id: Address) -> u8 {
    (program_address(request_seeds(sender@, project@), program_id@)->0).1
}

/// Why `send_collab_request` fails, if it does.
pub open spec fn send_request_error(ctx: SendCollabRequest, message: String, desired_role: Option<Role>) -> Option<ErrorCode> {
    if ctx.collab_request.data is Some {
        Some(ErrorCode::AccountAlreadyInUse)
    } else {
        first_err(project_read_error(ctx.project, ctx.program_id),
        first_err(check(derives(request_seeds(ctx.sender.key@, ctx.project.key@), ctx.program_id@, ctx.collab_request.key@),
            ErrorCode::ConstraintSeeds),
        first_err(len_check(message@, 500, ErrorCode::MessageTooLong),
        send_capacity_error((ctx.project.data->0).required_roles@, desired_role))))
    }
}

/// Whether `r` is a new pending request of `sender` with `message`, for the
/// project at `project` created by `creator`, sent at `now`.
pub open spec fn is_new_request(
    r: CollaborationRequest,
    sender: Address,
    creator: Address,
    project: Address,
    message: String,
    desired_role: Option<Role>,
    now: i64,
    bump: u8,
) -> bool {
    &&& r.from == sender
    &&& r.to == creator
    &&& r.project == project
    &&& r.message == message
    &&& r.owner_message@ == Seq::<char>::empty()
    &&& r.status == RequestStatus::Pending
    &&& r.timestamp == now
    &&& r.reply_timestamp == 0
    &&& r.bump == bump
    &&& r.desired_role == desired_role
}

/// Sends a request of the signer to join a project, addressed to the
/// project's creator, at time `now`. Where the project names roles, a
/// desired role must be among them with a free slot.
pub fn send_collab_request(
    ctx: &mut SendCollabRequest,
    message: String,
    desired_role: Option<Role>,
    now: i64,
) -> (r: Result<(), ErrorCode>)
    ensures
        r == outcome(send_request_error(*old(ctx), message, desired_role)),
        r is Err ==> *final(ctx) == *old(ctx),
        r is Ok ==> {
            &&& final(ctx).program_id == old(ctx).program_id
            &&& final(ctx).sender == old(ctx).sender
            &&& final(ctx).project == old(ctx).project
            &&& final(ctx).collab_request.key == old(ctx).collab_request.key
            &&& final(ctx).collab_request.lamports == old(ctx).collab_request.lamports
            &&& final(ctx).collab_request.data_len == REQUEST_SPACE
            &&& final(ctx).collab_request.data is Some
            &&& is_new_request(
                final(ctx).collab_request.data->0,
                old(ctx).sender.key,
                (old(ctx).project.data->0).creator,
                old(ctx).project.key,
                message,
                desired_role,
                now,
                request_bump(old(ctx).sender.key, old(ctx).project.key, old(ctx).program_id),
            )
        },
{
    if ctx.collab_request.data.is_some() {
        return Err(ErrorCode::AccountAlreadyInUse);
    }
    if let Some(e) = check_project_account(&ctx.project, &ctx.program_id) {
        return Err(e);
    }
    let seeds = request_seeds_of(&ctx.sender.key, &ctx.project.key);
    let bump = match verify_address(&ctx.collab_request.key, &seeds, &ctx.program_id) {
        None => {
            return Err(ErrorCode::ConstraintSeeds);
        },
        Some(b) => b,
    };
    if let Some(e) = check_len(&message, MAX_MESSAGE, ErrorCode::MessageTooLong) {
        return Err(e);
    }
    let creator = match &ctx.project.data {
        Some(p) => {
            if let Some(e) = check_send_capacity(&p.required_roles, desired_role) {
                return Err(e);
            }
            p.creator
        },
        None => {
            return Err(ErrorCode::AccountNotInitialized);
        },
    };
    ctx.collab_request.data = Some(
        CollaborationRequest {
            from: ctx.sender.key,
            to: creator,
            project: ctx.project.key,
            message,
            owner_message: String::new(),
            status: RequestStatus::Pending,
            timestamp: now,
            reply_timestamp: 0,
            bump,
            desired_role,
        },
    );
    ctx.collab_request.data_len = REQUEST_SPACE;
    Ok(())
}

/// Why `owner` may not answer or delete the request in `req`: it is missing,
/// not at the address derived from its own sender and project, or addressed
/// to someone else.
pub open spec fn recipient_error(req: Account<CollaborationRequest>, owner: Address, program_id: Address) -> Option<ErrorCode> {
    if req.data is None {
        Some(ErrorCode::AccountNotInitialized)
    } else if !derives(
        request_seeds((req.data->0).from@, (req.data->0).project@),
        program_id@,
        req.key@,
    ) {
        Some(ErrorCode::ConstraintSeeds)
    } else {
        check((req.data->0).to@ == owner@, ErrorCode::ConstraintHasOne)
    }
}

/// Checks that `owner` is the recipient of the request in `req`.
pub fn authorize_recipient(req: &Account<CollaborationRequest>, owner: &Address, program_id: &Address) -> (r: Option<ErrorCode>)
    ensures
        r == recipient_error(*req, *owner, *program_id),
{
    match &req.data {
        None => Some(ErrorCode::AccountNotInitialized),
        Some(d) => {
            let seeds = request_seeds_of(&d.from, &d.project);
            match verify_address(&req.key, &seeds, program_id) {
                None => Some(ErrorCode::ConstraintSeeds),
                Some(_) => {
                    if d.to.same(owner) {
                        None
                    } else {
                        Some(ErrorCode::ConstraintHasOne)
                    }
                },
            }
        },
    }
}

/// Why `sender` may not change or delete the request in `req`: it is
/// missing, not at the address derived from `sender` and its project, or
/// sent by someone else.
pub open spec fn sender_error(req: Account<CollaborationRequest>, sender: Address, program_id: Address) -> Option<ErrorCode> {
    if req.data is None {
        Some(ErrorCode::AccountNotInitialized)
    } else if !derives(request_seeds(sender@, (req.data->0).project@), program_id@, req.key@) {
        Some(ErrorCode::ConstraintSeeds)
    } else {
        check((req.data->0).from@ == sender@, ErrorCode::ConstraintHasOne)
    }
}

/// Checks that `sender` sent the request in `req`.
pub fn authorize_sender(req: &Account<CollaborationRequest>, sender: &Address, program_id: &Address) -> (r: Option<ErrorCode>)
    ensures
        r == sender_error(*req, *sender, *program_id),
{
    match &req.data {
        None => Some(ErrorCode::AccountNotInitialized),
        Some(d) => {
            let seeds = request_seeds_of(sender, &d.project);
            match verify_address(&req.key, &seeds, program_id) {
                None => Some(ErrorCode::ConstraintSeeds),
                Some(_) => {
                    if d.from.same(sender) {
                        None
                    } else {
                        Some(ErrorCode::ConstraintHasOne)
                    }
                },
            }
        },
    }
}

/// Why the recipient's answer may not be given: the recipient check, the
/// project check, and the request must be for that project.
pub open spec fn answer_auth_error(ctx: UpdateCollabRequest) -> Option<ErrorCode> {
    first_err(recipient_error(ctx.collab_request, ctx.project_owner.key, ctx.program_id),
    first_err(project_read_error(ctx.project, ctx.program_id),
    check((ctx.collab_request.data->0).project@ == ctx.project.key@, ErrorCode::ConstraintHasOne)))
}

pub fn authorize_answer(ctx: &UpdateCollabRequest) -> (r: Option<ErrorCode>)
    ensures
        r == answer_auth_error(*ctx),
{
    if let Some(e) = authorize_recipient(&ctx.collab_request, &ctx.project_owner.key, &ctx.program_id) {
        return Some(e);
    }
    if let Some(e) = check_project_account(&ctx.project, &ctx.program_id) {
        return Some(e);
    }
    match &ctx.collab_request.data {
        Some(d) => {
            if d.project.same(&ctx.project.key) {
                None
            } else {
                Some(ErrorCode::ConstraintHasOne)
            }
        },
        None => Some(ErrorCode::AccountNotInitialized),
    }
}

/// The status of the request held in `req`.
pub open spec fn status_of(req: Account<CollaborationRequest>) -> RequestStatus {
    (req.data->0).status
}

/// Why `mark_under_review` fails, if it does.
pub open spec fn mark_error(ctx: UpdateCollabRequest) -> Option<ErrorCode> {
    first_err(answer_auth_error(ctx),
    check(transition(status_of(ctx.collab_request), RequestOp::MarkUnderReview) is Some,
        ErrorCode::InvalidRequestStatus))
}

/// Marks a pending request as under review; only its recipient may.
pub fn mark_under_review(ctx: &mut UpdateCollabRequest) -> (r: Result<(), ErrorCode>)
    ensures
        r == outcome(mark_error(*old(ctx))),
        r is Err ==> *final(ctx) == *old(ctx),
        r is Ok ==> {
            &&& final(ctx).program_id == old(ctx).program_id
            &&& final(ctx).project_owner == old(ctx).project_owner
            &&& final(ctx).project == old(ctx).project
            &&& Some(Some(status_of(final(ctx).collab_request))) == transition(
                status_of(old(ctx).collab_request),
                RequestOp::MarkUnderReview,
            )
            &&& final(ctx).collab_request == with_data(
                old(ctx).collab_request,
                CollaborationRequest {
                    status: RequestStatus::UnderReview,
                    ..old(ctx).collab_request.data->0
                },
            )
        },
{
    if let Some(e) = authorize_answer(ctx) {
        return Err(e);
    }
    match &mut ctx.collab_request.data {
        Some(d) => {
            if !allowed(d.status, RequestOp::MarkUnderReview) {
                return Err(ErrorCode::InvalidRequestStatus);
            }
            d.status = RequestStatus::UnderReview;
            Ok(())
        },
        None => Err(ErrorCode::AccountNotInitialized),
    }
}

/// Why accepting a request for `desired` fails on a project with `roles`:
/// a requirement for that role must still have a free slot.
pub open spec fn accept_capacity_error(roles: Seq<RoleRequirement>, desired: Option<Role>) -> Option<ErrorCode> {
    match desired {
        Some(role) => if has_role(roles, role) {
            check(
                roles[slot_of(roles, role)].accepted < roles[slot_of(roles, role)].needed,
                ErrorCode::RoleSlotFull,
            )
        } else {
            None
        },
        None => None,
    }
}

/// `roles` after a request for `desired` is accepted: the requirement for
/// that role has one more accepted.
pub open spec fn roles_after_accept(roles: Seq<RoleRequirement>, desired: Option<Role>) -> Seq<RoleRequirement> {
    match desired {
        Some(role) => if has_role(roles, role) {
            roles.update(
                slot_of(roles, role),
                RoleRequirement {
                    accepted: (roles[slot_of(roles, role)].accepted + 1) as u8,
                    ..roles[slot_of(roles, role)]
                },
            )
        } else {
            roles
        },
        None => roles,
    }
}

/// Taking a free slot keeps every requirement within its capacity and well formed.
pub proof fn lemma_accept_keeps_capacity(roles: Seq<RoleRequirement>, desired: Option<Role>)
    requires
        accept_capacity_error(roles, desired) is None,
    ensures
        within_capacity(roles) ==> within_capacity(roles_after_accept(roles, desired)),
        roles_wf(roles) ==> roles_wf(roles_after_accept(roles, desired)),
{
    if let Some(role) = desired {
        if has_role(roles, role) {
            lemma_slot_exists(roles, role, roles.len() as int);
            let k = slot_of(roles, role);
            assert(is_first_for(roles, role, k));
            let after = roles_after_accept(roles, desired);
            assert(roles[k].accepted < roles[k].needed);
            assert(after.len() == roles.len());
            assert(after[k].accepted == roles[k].accepted + 1 && after[k].needed == roles[k].needed);
            assert forall|i: int| 0 <= i < after.len() && i != k implies after[i] == roles[i] by {}
            if within_capacity(roles) {
                assert forall|i: int| 0 <= i < after.len() implies (#[trigger] after[i]).accepted
                    <= after[i].needed by {
                    if i != k {
                        assert(roles[i].accepted <= roles[i].needed);
                    }
                }
            }
            if roles_wf(roles) {
                assert forall|i: int| 0 <= i < after.len() implies 1 <= (#[trigger] after[i]).needed
                    <= 10 && after[i].accepted <= after[i].needed by {
                    assert(1 <= roles[i].needed <= 10 && roles[i].accepted <= roles[i].needed);
                }
            }
        }
    }
}

/// Where `roles` has a requirement for `role` among its first `n`, it has a first one.
pub proof fn lemma_slot_exists(roles: Seq<RoleRequirement>, role: Role, n: int)
    requires
        0 <= n <= roles.len(),
        exists|k: int| 0 <= k < n && (#[trigger] roles[k]).role == role,
    ensures
        exists|k: int| is_first_for(roles, role, k),
    decreases n,
{
    if exists|k: int| 0 <= k < n - 1 && (#[trigger] roles[k]).role == role {
        lemma_slot_exists(roles, role, n - 1);
    } else {
        assert(is_first_for(roles, role, n - 1));
    }
}

/// Why `accept_collab_request` fails, if it does.
pub open spec fn accept_error(ctx: UpdateCollabRequest, owner_message: String) -> Option<ErrorCode> {
    first_err(answer_auth_error(ctx),
    first_err(len_check(owner_message@, 500, ErrorCode::MessageTooLong),
    first_err(check(transition(status_of(ctx.collab_request), RequestOp::Accept) is Some,
        ErrorCode::InvalidRequestStatus),
    accept_capacity_error((ctx.project.data->0).required_roles@, (ctx.collab_request.data->0).desired_role))))
}

/// Takes one slot of the requirement for `desired`, if the project names it.
fn take_slot(p: &mut Project, desired: Option<Role>) -> (r: Result<(), ErrorCode>)
    ensures
        r == outcome(accept_capacity_error(old(p).required_roles@, desired)),
        r is Err ==> *final(p) == *old(p),
        r is Ok ==> final(p).required_roles@ == roles_after_accept(old(p).required_roles@, desired)
            && *final(p) == (Project { required_roles: final(p).required_roles, ..*old(p) }),
{
    match desired {
        Some(role) => {
            match find_role(&p.required_roles, role) {
                Some(k) => {
                    let a = p.required_roles[k].accepted;
                    if a < p.required_roles[k].needed {
                        p.required_roles[k].accepted = a + 1;
                        Ok(())
                    } else {
                        Err(ErrorCode::RoleSlotFull)
                    }
                },
                None => Ok(()),
            }
        },
        None => Ok(()),
    }
}

/// Accepts a pending or reviewed request with a reply, at time `now`; only
/// its recipient may. The project's requirement for the desired role, if it
/// names one, must have a free slot, and takes it in the same step.
pub fn accept_collab_request(
    ctx: &mut UpdateCollabRequest,
    owner_message: String,
    now: i64,
) -> (r: Result<(), ErrorCode>)
    ensures
        r == outcome(accept_error(*old(ctx), owner_message)),
        r is Err ==> *final(ctx) == *old(ctx),
        r is Ok ==> {
            &&& final(ctx).program_id == old(ctx).program_id
            &&& final(ctx).project_owner == old(ctx).project_owner
            &&& Some(Some(status_of(final(ctx).collab_request))) == transition(
                status_of(old(ctx).collab_request),
                RequestOp::Accept,
            )
            &&& final(ctx).collab_request == with_data(
                old(ctx).collab_request,
                CollaborationRequest {
                    status: RequestStatus::Accepted,
                    owner_message,
                    reply_timestamp: now,
                    ..old(ctx).collab_request.data->0
                },
            )
            &&& final(ctx).project.key == old(ctx).project.key
            &&& final(ctx).project.lamports == old(ctx).project.lamports
            &&& final(ctx).project.data_len == old(ctx).project.data_len
            &&& final(ctx).project.data is Some
            &&& (final(ctx).project.data->0).required_roles@ == roles_after_accept(
                (old(ctx).project.data->0).required_roles@,
                (old(ctx).collab_request.data->0).desired_role,
            )
            &&& final(ctx).project.data == Some(
                Project {
                    required_roles: (final(ctx).project.data->0).required_roles,
                    ..old(ctx).project.data->0
                },
            )
            &&& within_capacity((old(ctx).project.data->0).required_roles@) ==> within_capacity(
                (final(ctx).project.data->0).required_roles@,
            )
            &&& roles_wf((old(ctx).project.data->0).required_roles@) ==> roles_wf(
                (final(ctx).project.data->0).required_roles@,
            )
        },
{
    if let Some(e) = authorize_answer(ctx) {
        return Err(e);
    }
    if let Some(e) = check_len(&owner_message, MAX_MESSAGE, ErrorCode::MessageTooLong) {
        return Err(e);
    }
    let desired = match &ctx.collab_request.data {
        Some(d) => {
            if !allowed(d.status, RequestOp::Accept) {
                return Err(ErrorCode::InvalidRequestStatus);
            }
            d.desired_role
        },
        None => {
            return Err(ErrorCode::AccountNotInitialized);
        },
    };
    match &mut ctx.project.data {
        Some(p) => {
            take_slot(p, desired)?;
            proof {
                lemma_accept_keeps_capacity((old(ctx).project.data->0).required_roles@, desired);
            }
        },
        None => {
            return Err(ErrorCode::AccountNotInitialized);
        },
    }
    match &mut ctx.collab_request.data {
        Some(d) => {
            d.status = RequestStatus::Accepted;
            d.owner_message = owner_message;
            d.reply_timestamp = now;
        },
        None => {},
    }
    Ok(())
}

/// Why `reject_collab_request` fails, if it does.
pub open spec fn reject_error(ctx: UpdateCollabRequest, owner_message: String) -> Option<ErrorCode> {
    first_err(answer_auth_error(ctx),
    first_err(len_check(owner_message@, 500, ErrorCode::MessageTooLong),
    check(transition(status_of(ctx.collab_request), RequestOp::Reject) is Some,
        ErrorCode::InvalidRequestStatus)))
}

/// Rejects a pending or reviewed request with a reply, at time `now`; only
/// its recipient may.
pub fn reject_collab_request(
    ctx: &mut UpdateCollabRequest,
    owner_message: String,
    now: i64,
) -> (r: Result<(), ErrorCode>)
    ensures
        r == outcome(reject_error(*old(ctx), owner_message)),
        r is Err ==> *final(ctx) == *old(ctx),
        r is Ok ==> {
            &&& final(ctx).program_id == old(ctx).program_id
            &&& final(ctx).project_owner == old(ctx).project_owner
            &&& final(ctx).project == old(ctx).project
            &&& Some(Some(status_of(final(ctx).collab_request))) == transition(
                status_of(old(ctx).collab_request),
                RequestOp::Reject,
            )
            &&& final(ctx).collab_request == with_data(
                old(ctx).collab_request,
                CollaborationRequest {
                    status: RequestStatus::Rejected,
                    owner_message,
                    reply_timestamp: now,
                    ..old(ctx).collab_request.data->0
                },
            )
        },
{
    if let Some(e) = authorize_answer(ctx) {
        return Err(e);
    }
    if let Some(e) = check_len(&owner_message, MAX_MESSAGE, ErrorCode::MessageTooLong) {
        return Err(e);
    }
    match &mut ctx.collab_request.data {
        Some(d) => {
            if !allowed(d.status, RequestOp::Reject) {
                return Err(ErrorCode::InvalidRequestStatus);
            }
            d.status = RequestStatus::Rejected;
            d.owner_message = owner_message;
            d.reply_timestamp = now;
            Ok(())
        },
        None => Err(ErrorCode::AccountNotInitialized),
    }
}

/// Why `update_collab_request` fails, if it does.
pub open spec fn edit_error(ctx: UpdateCollabMessage, message: String) -> Option<ErrorCode> {
    first_err(sender_error(ctx.collab_request, ctx.sender.key, ctx.program_id),
    first_err(len_check(message@, 500, ErrorCode::MessageTooLong),
    check(transition(status_of(ctx.collab_request), RequestOp::EditMessage) is Some,
        ErrorCode::InvalidRequestStatus)))
}

/// Replaces the message of a pending request; only its sender may.
pub fn update_collab_request(ctx: &mut UpdateCollabMessage, message: String) -> (r: Result<(), ErrorCode>)
    ensures
        r == outcome(edit_error(*old(ctx), message)),
        r is Err ==> *final(ctx) == *old(ctx),
        r is Ok ==> {
            &&& final(ctx).program_id == old(ctx).program_id
            &&& final(ctx).sender == old(ctx).sender
            &&& Some(Some(status_of(final(ctx).collab_request))) == transition(
                status_of(old(ctx).collab_request),
                RequestOp::EditMessage,
            )
            &&& final(ctx).collab_request == with_data(
                old(ctx).collab_request,
                CollaborationRequest { message, ..old(ctx).collab_request.data->0 },
            )
        },
{
    if let Some(e) = authorize_sender(&ctx.collab_request, &ctx.sender.key, &ctx.program_id) {
        return Err(e);
    }
    if let Some(e) = check_len(&message, MAX_MESSAGE, ErrorCode::MessageTooLong) {
        return Err(e);
    }
    match &mut ctx.collab_request.data {
        Some(d) => {
            if !allowed(d.status, RequestOp::EditMessage) {
                return Err(ErrorCode::InvalidRequestStatus);
            }
            d.message = message;
            Ok(())
        },
        None => Err(ErrorCode::AccountNotInitialized),
    }
}

/// Why closing the request in `req` into `to` by `op` fails, after `auth`.
pub open spec fn close_request_error(
    auth: Option<ErrorCode>,
    req: Account<CollaborationRequest>,
    to: Signer,
    op: RequestOp,
) -> Option<ErrorCode> {
    first_err(auth,
    first_err(check(transition(status_of(req), op) is Some, ErrorCode::InvalidRequestStatus),
    check(!close_overflows(req, to), ErrorCode::ArithmeticOverflow)))
}

fn close_request(req: &mut Account<CollaborationRequest>, to: &mut Signer, op: RequestOp) -> (r: Result<(), ErrorCode>)
    requires
        old(req).data is Some,
        op == RequestOp::Withdraw || op == RequestOp::SenderDelete || op == RequestOp::RecipientDelete,
    ensures
        r == outcome(close_request_error(None, *old(req), *old(to), op)),
        r is Err ==> *final(req) == *old(req) && *final(to) == *old(to),
        r is Ok ==> transition(status_of(*old(req)), op) == Some(None::<RequestStatus>)
            && *final(req) == closed(*old(req)) && final(to).key == old(to).key
            && final(to).lamports == old(to).lamports + old(req).lamports,
{
    let status = match &req.data {
        Some(d) => d.status,
        None => RequestStatus::Pending,
    };
    if !allowed(status, op) {
        return Err(ErrorCode::InvalidRequestStatus);
    }
    close_account(req, to)
}

/// Withdraws a pending request, closing it into its sender; only its sender may.
pub fn withdraw_collab_request(ctx: &mut WithdrawCollabRequest) -> (r: Result<(), ErrorCode>)
    ensures
        r == outcome(
            close_request_error(
                sender_error(old(ctx).collab_request, old(ctx).sender.key, old(ctx).program_id),
                old(ctx).collab_request,
                old(ctx).sender,
                RequestOp::Withdraw,
            ),
        ),
        r is Err ==> *final(ctx) == *old(ctx),
        r is Ok ==> final(ctx).program_id == old(ctx).program_id && final(ctx).collab_request
            == closed(old(ctx).collab_request) && final(ctx).sender.key == old(ctx).sender.key
            && final(ctx).sender.lamports == old(ctx).sender.lamports
            + old(ctx).collab_request.lamports,
{
    if let Some(e) = authorize_sender(&ctx.collab_request, &ctx.sender.key, &ctx.program_id) {
        return Err(e);
    }
    close_request(&mut ctx.collab_request, &mut ctx.sender, RequestOp::Withdraw)
}

/// Deletes an answered request, closing it into its recipient; only its
/// recipient may.
pub fn delete_collab_request(ctx: &mut DeleteCollabRequest) -> (r: Result<(), ErrorCode>)
    ensures
        r == outcome(
            close_request_error(
                recipient_error(old(ctx).collab_request, old(ctx).project_owner.key, old(ctx).program_id),
                old(ctx).collab_request,
                old(ctx).project_owner,
                RequestOp::RecipientDelete,
            ),
        ),
        r is Err ==> *final(ctx) == *old(ctx),
        r is Ok ==> final(ctx).program_id == old(ctx).program_id && final(ctx).collab_request
            == closed(old(ctx).collab_request) && final(ctx).project_owner.key
            == old(ctx).project_owner.key && final(ctx).project_owner.lamports
            == old(ctx).project_owner.lamports + old(ctx).collab_request.lamports,
{
    if let Some(e) = authorize_recipient(&ctx.collab_request, &ctx.project_owner.key, &ctx.program_id) {
        return Err(e);
    }
    close_request(&mut ctx.collab_request, &mut ctx.project_owner, RequestOp::RecipientDelete)
}

/// Deletes a rejected request, closing it into its sender, who may then
/// send another; only its sender may.
pub fn delete_sender_rejected_request(ctx: &mut DeleteSenderRejectedRequest) -> (r: Result<(), ErrorCode>)
    ensures
        r == outcome(
            close_request_error(
                sender_error(old(ctx).collab_request, old(ctx).sender.key, old(ctx).program_id),
                old(ctx).collab_request,
                old(ctx).sender,
                RequestOp::SenderDelete,
            ),
        ),
        r is Err ==> *final(ctx) == *old(ctx),
        r is Ok ==> final(ctx).program_id == old(ctx).program_id && final(ctx).collab_request
            == closed(old(ctx).collab_request) && final(ctx).sender.key == old(ctx).sender.key
            && final(ctx).sender.lamports == old(ctx).sender.lamports
            + old(ctx).collab_request.lamports,
{
    if let Some(e) = authorize_sender(&ctx.collab_request, &ctx.sender.key, &ctx.program_id) {
        return Err(e);
    }
    close_request(&mut ctx.collab_request, &mut ctx.sender, RequestOp::SenderDelete)
}

} // verus!
