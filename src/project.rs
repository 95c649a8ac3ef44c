use vstd::prelude::*;
use vstd::utf8::encode_utf8;
use crate::address::{
    Account, Address, Signer, derives, program_address, project_seeds, project_seeds_of, verify_address,
};
use crate::error::{ErrorCode, check, first_err, outcome};
use crate::model::{
    PROJECT_SPACE, CollaborationAcceptance, CollaborationLevel, Project, ProjectStatus, Role,
    RoleRequirement, ShortText, User, close_account, close_overflows, closed, or_keep, with_data,
};
use crate::text::{
    MAX_COLLAB_INTENT, MAX_CREATE_ROLES, MAX_DESCRIPTION, MAX_GITHUB_LINK, MAX_HASH, MAX_NEED_TAGS,
    MAX_PROJECT_NAME, MAX_ROLE_NEEDED, MAX_TAG, MAX_TECH_TAGS, MAX_UPDATE_ROLES, all_fit, byte_len,
    check_all_fit, check_len, check_opt_len, check_opt_tags, len_check, opt_len_check,
    opt_tags_check, text_len,
};
use crate::user::{authorize_user, user_auth_error};

verus! {

/// Accounts of `create_project`: the account to hold the project, the
/// creator's profile, and the creator.
pub struct CreateProject {
    pub program_id: Address,
    pub project: Account<Project>,
    pub user: Account<User>,
    pub creator: Signer,
}

/// Accounts of the operations that change a project: the project and its creator.
pub struct UpdateProject {
    pub program_id: Address,
    pub project: Account<Project>,
    pub creator: Signer,
}

/// Accounts of `update_project_roles`: the project and its creator.
pub struct UpdateProjectRoles {
    pub program_id: Address,
    pub project: Account<Project>,
    pub creator: Signer,
}

/// Accounts of `delete_project`: the project, and its creator, who gets its balance.
pub struct DeleteProject {
    pub program_id: Address,
    pub project: Account<Project>,
    pub creator: Signer,
}

/// What is wrong with one role requirement, if anything: it needs none, or
/// more than ten, has accepted more than it needs, or carries an overlong
/// label under `Others`.
pub open spec fn role_error(r: RoleRequirement) -> Option<ErrorCode> {
    if r.needed == 0 {
        Some(ErrorCode::InvalidRoleCounts)
    } else if r.needed > 10 {
        Some(ErrorCode::RoleNeededTooLarge)
    } else if r.accepted > r.needed {
        Some(ErrorCode::InvalidRoleCounts)
    } else if r.role == Role::Others && r.label is Some && byte_len((r.label->0)@) > 24 {
        Some(ErrorCode::RoleLabelTooLong)
    } else {
        None
    }
}

/// The error of the first of the first `n` requirements that has one.
pub open spec fn first_role_error(roles: Seq<RoleRequirement>, n: int) -> Option<ErrorCode>
    decreases n,
{
    if n <= 0 {
        None
    } else {
        first_err(first_role_error(roles, n - 1), role_error(roles[n - 1]))
    }
}

/// The error of the first requirement of `roles` that has one.
pub open spec fn roles_error(roles: Seq<RoleRequirement>) -> Option<ErrorCode> {
    first_role_error(roles, roles.len() as int)
}

/// Whether every requirement of `roles` has accepted no more than it needs.
pub open spec fn within_capacity(roles: Seq<RoleRequirement>) -> bool {
    forall|i: int| 0 <= i < roles.len() ==> (#[trigger] roles[i]).accepted <= roles[i].needed
}

/// Whether every requirement of `roles` needs between one and ten and has
/// accepted no more than it needs.
pub open spec fn roles_wf(roles: Seq<RoleRequirement>) -> bool {
    forall|i: int|
        0 <= i < roles.len() ==> 1 <= (#[trigger] roles[i]).needed <= 10 && roles[i].accepted
            <= roles[i].needed
}

/// Checks one role requirement as `role_error` says.
pub fn check_role(r: &RoleRequirement) -> (e: Option<ErrorCode>)
    ensures
        e == role_error(*r),
{
    if r.needed == 0 {
        Some(ErrorCode::InvalidRoleCounts)
    } else if r.needed > MAX_ROLE_NEEDED {
        Some(ErrorCode::RoleNeededTooLarge)
    } else if r.accepted > r.needed {
        Some(ErrorCode::InvalidRoleCounts)
    } else if r.role == Role::Others {
        match &r.label {
            Some(l) => {
                if text_len(l) > MAX_TAG {
                    Some(ErrorCode::RoleLabelTooLong)
                } else {
                    None
                }
            },
            None => None,
        }
    } else {
        None
    }
}

/// Checks every role requirement of `roles` as `roles_error` says.
pub fn check_roles(roles: &Vec<RoleRequirement>) -> (e: Option<ErrorCode>)
    ensures
        e == roles_error(roles@),
{
    let mut e: Option<ErrorCode> = None;
    let mut i: usize = 0;
    while i < roles.len()
        invariant
            0 <= i <= roles@.len(),
            e == first_role_error(roles@, i as int),
        decreases roles@.len() - i,
    {
        if e.is_none() {
            e = check_role(&roles[i]);
        }
        i = i + 1;
    }
    e
}

/// Requirements that pass their checks are well formed.
pub proof fn lemma_roles_error_wf(roles: Seq<RoleRequirement>, n: int)
    requires
        0 <= n <= roles.len(),
        first_role_error(roles, n) is None,
    ensures
        forall|i: int| 0 <= i < n ==> role_error(#[trigger] roles[i]) is None,
    decreases n,
{
    if n > 0 {
        lemma_roles_error_wf(roles, n - 1);
    }
}

/// `r` with its label dropped unless its role is `Others`.
pub open spec fn normalized(r: RoleRequirement) -> RoleRequirement {
    if r.role == Role::Others {
        r
    } else {
        RoleRequirement { label: None, ..r }
    }
}

pub open spec fn normalized_roles(roles: Seq<RoleRequirement>) -> Seq<RoleRequirement> {
    roles.map_values(|r: RoleRequirement| normalized(r))
}

/// A copy of `r` with its label dropped unless its role is `Others`.
pub fn normalize_role(r: &RoleRequirement) -> (o: RoleRequirement)
    ensures
        o == normalized(*r),
{
    let label = if r.role == Role::Others {
        match &r.label {
            Some(l) => Some(l.clone()),
            None => None,
        }
    } else {
        None
    };
    RoleRequirement { role: r.role, needed: r.needed, accepted: r.accepted, label }
}

/// Copies of `roles`, each normalized.
pub fn normalize_roles(roles: &Vec<RoleRequirement>) -> (o: Vec<RoleRequirement>)
    ensures
        o@ == normalized_roles(roles@),
{
    let mut o: Vec<RoleRequirement> = Vec::new();
    let mut i: usize = 0;
    while i < roles.len()
        invariant
            0 <= i <= roles@.len(),
            o@ == normalized_roles(roles@.take(i as int)),
        decreases roles@.len() - i,
    {
        o.push(normalize_role(&roles[i]));
        proof {
            assert(roles@.take(i + 1) == roles@.take(i as int).push(roles@[i as int]));
        }
        i = i + 1;
        assert(o@ =~= normalized_roles(roles@.take(i as int)));
    }
    assert(roles@.take(roles@.len() as int) =~= roles@);
    o
}

pub open spec fn short_texts(tags: Seq<String>) -> Seq<ShortText> {
    tags.map_values(|t: String| ShortText { value: t })
}

/// The tags of `tags` as short texts.
pub fn to_short_texts(tags: &Vec<String>) -> (o: Vec<ShortText>)
    ensures
        o@ == short_texts(tags@),
{
    let mut o: Vec<ShortText> = Vec::new();
    let mut i: usize = 0;
    while i < tags.len()
        invariant
            0 <= i <= tags@.len(),
            o@ == short_texts(tags@.take(i as int)),
        decreases tags@.len() - i,
    {
        o.push(ShortText { value: tags[i].clone() });
        proof {
            assert(tags@.take(i + 1) == tags@.take(i as int).push(tags@[i as int]));
        }
        i = i + 1;
        assert(o@ =~= short_texts(tags@.take(i as int)));
    }
    assert(tags@.take(tags@.len() as int) =~= tags@);
    o
}

/// The first field of a new project that breaks its bounds, in the order
/// of the checks: texts and counts first, then each tag, then each role.
pub open spec fn project_fields_error(
    name: Seq<char>,
    description: Seq<char>,
    github_link: Seq<char>,
    logo_ipfs_hash: Seq<char>,
    tech_stack: Seq<String>,
    contribution_needs: Seq<String>,
    collab_intent: Seq<char>,
    required_roles: Seq<RoleRequirement>,
) -> Option<ErrorCode> {
    first_err(len_check(name, 50, ErrorCode::NameTooLong),
    first_err(len_check(description, 1000, ErrorCode::DescriptionTooLong),
    first_err(len_check(github_link, 100, ErrorCode::GithubLinkTooLong),
    first_err(len_check(logo_ipfs_hash, 64, ErrorCode::IpfsHashTooLong),
    first_err(check(tech_stack.len() <= 12, ErrorCode::TechTagCountExceeded),
    first_err(check(contribution_needs.len() <= 10, ErrorCode::NeedTagCountExceeded),
    first_err(len_check(collab_intent, 300, ErrorCode::CollabIntentTooLong),
    first_err(check(required_roles.len() <= 8, ErrorCode::TooManyRoles),
    first_err(check(all_fit(tech_stack, 24), ErrorCode::TechTagTooLong),
    first_err(check(all_fit(contribution_needs, 24), ErrorCode::NeedTagTooLong),
    roles_error(required_roles)))))))))))
}

/// Checks the fields of a new project as `project_fields_error` says.
pub fn validate_project_fields(
    name: &String,
    description: &String,
    github_link: &String,
    logo_ipfs_hash: &String,
    tech_stack: &Vec<String>,
    contribution_needs: &Vec<String>,
    collab_intent: &String,
    required_roles: &Vec<RoleRequirement>,
) -> (r: Result<(), ErrorCode>)
    ensures
        r == outcome(
            project_fields_error(
                name@,
                description@,
                github_link@,
                logo_ipfs_hash@,
                tech_stack@,
                contribution_needs@,
                collab_intent@,
                required_roles@,
            ),
        ),
{
    if let Some(e) = check_len(name, MAX_PROJECT_NAME, ErrorCode::NameTooLong) {
        return Err(e);
    }
    if let Some(e) = check_len(description, MAX_DESCRIPTION, ErrorCode::DescriptionTooLong) {
        return Err(e);
    }
    if let Some(e) = check_len(github_link, MAX_GITHUB_LINK, ErrorCode::GithubLinkTooLong) {
        return Err(e);
    }
    if let Some(e) = check_len(logo_ipfs_hash, MAX_HASH, ErrorCode::IpfsHashTooLong) {
        return Err(e);
    }
    if tech_stack.len() > MAX_TECH_TAGS {
        return Err(ErrorCode::TechTagCountExceeded);
    }
    if contribution_needs.len() > MAX_NEED_TAGS {
        return Err(ErrorCode::NeedTagCountExceeded);
    }
    if let Some(e) = check_len(collab_intent, MAX_COLLAB_INTENT, ErrorCode::CollabIntentTooLong) {
        return Err(e);
    }
    if required_roles.len() > MAX_CREATE_ROLES {
        return Err(ErrorCode::TooManyRoles);
    }
    if !check_all_fit(tech_stack, MAX_TAG) {
        return Err(ErrorCode::TechTagTooLong);
    }
    if !check_all_fit(contribution_needs, MAX_TAG) {
        return Err(ErrorCode::NeedTagTooLong);
    }
    if let Some(e) = check_roles(required_roles) {
        return Err(e);
    }
    Ok(())
}

/// Why the project in `project` may not be changed by `creator`, if it may
/// not: it is missing, it is not at the address derived from `creator` and
/// its name, or it names another creator.
pub open spec fn project_auth_error(project: Account<Project>, creator: Address, program_id: Address) -> Option<ErrorCode> {
    if project.data is None {
        Some(ErrorCode::AccountNotInitialized)
    } else if !derives(
        project_seeds(creator@, encode_utf8((project.data->0).name@)),
        program_id@,
        project.key@,
    ) {
        Some(ErrorCode::ConstraintSeeds)
    } else if (project.data->0).creator@ != creator@ {
        Some(ErrorCode::ConstraintHasOne)
    } else {
        None
    }
}

/// Checks that `creator` created the project in `project`, at its derived address.
pub fn authorize_project(project: &Account<Project>, creator: &Address, program_id: &Address) -> (r: Option<ErrorCode>)
    ensures
        r == project_auth_error(*project, *creator, *program_id),
{
    match &project.data {
        None => Some(ErrorCode::AccountNotInitialized),
        Some(p) => {
            let seeds = project_seeds_of(creator, &p.name);
            match verify_address(&project.key, &seeds, program_id) {
                None => Some(ErrorCode::ConstraintSeeds),
                Some(_) => {
                    if p.creator.same(creator) {
                        None
                    } else {
                        Some(ErrorCode::ConstraintHasOne)
                    }
                },
            }
        },
    }
}

/// The bump seed of the address of the project `name` of `creator`.
pub open spec fn project_bump(creator: Address, name: String, program_id: Address) -> u8 {
    (program_address(project_seeds(creator@, encode_utf8(name@)), program_id@)->0).1
}

/// Why `create_project` fails, if it does: the project account is taken or
/// not at its derived address, the creator has no profile at the address
/// derived from it, or a field breaks its bounds.
pub open spec fn create_project_error(
    ctx: CreateProject,
    name: String,
    description: String,
    github_link: String,
    logo_ipfs_hash: String,
    tech_stack: Vec<String>,
    contribution_needs: Vec<String>,
    collab_intent: String,
    required_roles: Vec<RoleRequirement>,
) -> Option<ErrorCode> {
    if ctx.project.data is Some {
        Some(ErrorCode::AccountAlreadyInUse)
    } else if !derives(
        project_seeds(ctx.creator.key@, encode_utf8(name@)),
        ctx.program_id@,
        ctx.project.key@,
    ) {
        Some(ErrorCode::ConstraintSeeds)
    } else {
        first_err(user_auth_error(ctx.user, ctx.creator.key, ctx.program_id),
        project_fields_error(
            name@,
            description@,
            github_link@,
            logo_ipfs_hash@,
            tech_stack@,
            contribution_needs@,
            collab_intent@,
            required_roles@,
        ))
    }
}

/// Whether `p` is a new project with the given fields: open, active, with
/// its creator as its one contributor, and each role requirement normalized.
pub open spec fn is_new_project(
    p: Project,
    creator: Address,
    name: String,
    description: String,
    github_link: String,
    logo_ipfs_hash: String,
    tech_stack: Seq<String>,
    contribution_needs: Seq<String>,
    collab_intent: String,
    collaboration_level: CollaborationLevel,
    project_status: ProjectStatus,
    required_roles: Seq<RoleRequirement>,
    now: i64,
    bump: u8,
) -> bool {
    &&& p.creator == creator
    &&& p.name == name
    &&& p.description == description
    &&& p.github_link == github_link
    &&& p.logo_ipfs_hash == logo_ipfs_hash
    &&& p.tech_stack@ == short_texts(tech_stack)
    &&& p.contribution_needs@ == short_texts(contribution_needs)
    &&& p.collab_intent == collab_intent
    &&& p.collaboration_level == collaboration_level
    &&& p.project_status == project_status
    &&& p.accepting_collaborations == CollaborationAcceptance::Open
    &&& p.timestamp == now
    &&& p.last_updated == now
    &&& p.contributors_count == 1
    &&& p.is_active
    &&& p.bump == bump
    &&& p.required_roles@ == normalized_roles(required_roles)
}

/// Creates a project of the signer, named `name`, at the address derived
/// from the two, at time `now`. The signer must already have a profile.
pub fn create_project(
    ctx: &mut CreateProject,
    name: String,
    description: String,
    github_link: String,
    logo_ipfs_hash: String,
    tech_stack: Vec<String>,
    contribution_needs: Vec<String>,
    collab_intent: String,
    collaboration_level: CollaborationLevel,
    project_status: ProjectStatus,
    required_roles: Vec<RoleRequirement>,
    now: i64,
) -> (r: Result<(), ErrorCode>)
    ensures
        r == outcome(
            create_project_error(
                *old(ctx),
                name,
                description,
                github_link,
                logo_ipfs_hash,
                tech_stack,
                contribution_needs,
                collab_intent,
                required_roles,
            ),
        ),
        r is Err ==> *final(ctx) == *old(ctx),
        r is Ok ==> {
            &&& final(ctx).program_id == old(ctx).program_id
            &&& final(ctx).user == old(ctx).user
            &&& final(ctx).creator == old(ctx).creator
            &&& final(ctx).project.key == old(ctx).project.key
            &&& final(ctx).project.lamports == old(ctx).project.lamports
            &&& final(ctx).project.data_len == PROJECT_SPACE
            &&& final(ctx).project.data is Some
            &&& is_new_project(
                final(ctx).project.data->0,
                old(ctx).creator.key,
                name,
                description,
                github_link,
                logo_ipfs_hash,
                tech_stack@,
                contribution_needs@,
                collab_intent,
                collaboration_level,
                project_status,
                required_roles@,
                now,
                project_bump(old(ctx).creator.key, name, old(ctx).program_id),
            )
            &&& roles_wf((final(ctx).project.data->0).required_roles@)
        },
{
    if ctx.project.data.is_some() {
        return Err(ErrorCode::AccountAlreadyInUse);
    }
    let seeds = project_seeds_of(&ctx.creator.key, &name);
    let bump = match verify_address(&ctx.project.key, &seeds, &ctx.program_id) {
        None => {
            return Err(ErrorCode::ConstraintSeeds);
        },
        Some(b) => b,
    };
    if let Some(e) = authorize_user(&ctx.user, &ctx.creator.key, &ctx.program_id) {
        return Err(e);
    }
    validate_project_fields(
        &name,
        &description,
        &github_link,
        &logo_ipfs_hash,
        &tech_stack,
        &contribution_needs,
        &collab_intent,
        &required_roles,
    )?;
    proof {
        lemma_roles_error_wf(required_roles@, required_roles@.len() as int);
    }
    let roles = normalize_roles(&required_roles);
    ctx.project.data = Some(
        Project {
            creator: ctx.creator.key,
            name,
            description,
            github_link,
            logo_ipfs_hash,
            tech_stack: to_short_texts(&tech_stack),
            contribution_needs: to_short_texts(&contribution_needs),
            collab_intent,
            collaboration_level,
            project_status,
            accepting_collaborations: CollaborationAcceptance::Open,
            timestamp: now,
            last_updated: now,
            contributors_count: 1,
            is_active: true,
            bump,
            required_roles: roles,
        },
    );
    ctx.project.data_len = PROJECT_SPACE;
    Ok(())
}

/// Why `update_project` fails, if it does.
pub open spec fn update_project_error(
    ctx: UpdateProject,
    description: Option<String>,
    github_link: Option<String>,
    tech_stack: Option<Vec<String>>,
    contribution_needs: Option<Vec<String>>,
    collab_intent: Option<String>,
) -> Option<ErrorCode> {
    first_err(project_auth_error(ctx.project, ctx.creator.key, ctx.program_id),
    project_update_error(description, github_link, tech_stack, contribution_needs, collab_intent))
}

/// The tags stored for `tags` where present, else `kept`.
pub open spec fn tags_after(tags: Option<Vec<String>>, kept: Seq<ShortText>) -> Seq<ShortText> {
    match tags {
        Some(t) => short_texts(t@),
        None => kept,
    }
}

/// Whether `p` is `q` with each present field replaced and its last update at `now`.
pub open spec fn is_updated_project(
    p: Project,
    q: Project,
    description: Option<String>,
    github_link: Option<String>,
    tech_stack: Option<Vec<String>>,
    contribution_needs: Option<Vec<String>>,
    collab_intent: Option<String>,
    collaboration_level: Option<CollaborationLevel>,
    project_status: Option<ProjectStatus>,
    is_active: Option<bool>,
    now: i64,
) -> bool {
    &&& p.creator == q.creator
    &&& p.name == q.name
    &&& p.description == or_keep(description, q.description)
    &&& p.github_link == or_keep(github_link, q.github_link)
    &&& p.logo_ipfs_hash == q.logo_ipfs_hash
    &&& p.tech_stack@ == tags_after(tech_stack, q.tech_stack@)
    &&& p.contribution_needs@ == tags_after(contribution_needs, q.contribution_needs@)
    &&& p.collab_intent == or_keep(collab_intent, q.collab_intent)
    &&& p.collaboration_level == or_keep(collaboration_level, q.collaboration_level)
    &&& p.project_status == or_keep(project_status, q.project_status)
    &&& p.accepting_collaborations == q.accepting_collaborations
    &&& p.timestamp == q.timestamp
    &&& p.last_updated == now
    &&& p.contributors_count == q.contributors_count
    &&& p.is_active == or_keep(is_active, q.is_active)
    &&& p.bump == q.bump
    &&& p.required_roles == q.required_roles
}

/// Replaces the present fields of the creator's project, at time `now`. The
/// name is part of the project's address and never changes.
pub fn update_project(
    ctx: &mut UpdateProject,
    description: Option<String>,
    github_link: Option<String>,
    tech_stack: Option<Vec<String>>,
    contribution_needs: Option<Vec<String>>,
    collab_intent: Option<String>,
    collaboration_level: Option<CollaborationLevel>,
    project_status: Option<ProjectStatus>,
    is_active: Option<bool>,
    now: i64,
) -> (r: Result<(), ErrorCode>)
    ensures
        r == outcome(
            update_project_error(
                *old(ctx),
                description,
                github_link,
                tech_stack,
                contribution_needs,
                collab_intent,
            ),
        ),
        r is Err ==> *final(ctx) == *old(ctx),
        r is Ok ==> {
            &&& final(ctx).program_id == old(ctx).program_id
            &&& final(ctx).creator == old(ctx).creator
            &&& final(ctx).project.key == old(ctx).project.key
            &&& final(ctx).project.lamports == old(ctx).project.lamports
            &&& final(ctx).project.data_len == old(ctx).project.data_len
            &&& final(ctx).project.data is Some
            &&& is_updated_project(
                final(ctx).project.data->0,
                old(ctx).project.data->0,
                description,
                github_link,
                tech_stack,
                contribution_needs,
                collab_intent,
                collaboration_level,
                project_status,
                is_active,
                now,
            )
        },
{
    if let Some(e) = authorize_project(&ctx.project, &ctx.creator.key, &ctx.program_id) {
        return Err(e);
    }
    validate_project_update(&description, &github_link, &tech_stack, &contribution_needs, &collab_intent)?;
    match &mut ctx.project.data {
        Some(p) => {
            apply_project_update(
                p,
                description,
                github_link,
                tech_stack,
                contribution_needs,
                collab_intent,
                collaboration_level,
                project_status,
                is_active,
                now,
            );
        },
        None => {},
    }
    Ok(())
}

/// The check of the fields given to `update_project`.
pub open spec fn project_update_error(
    description: Option<String>,
    github_link: Option<String>,
    tech_stack: Option<Vec<String>>,
    contribution_needs: Option<Vec<String>>,
    collab_intent: Option<String>,
) -> Option<ErrorCode> {
    first_err(opt_len_check(description, 1000, ErrorCode::DescriptionTooLong),
    first_err(opt_len_check(github_link, 100, ErrorCode::GithubLinkTooLong),
    first_err(opt_tags_check(tech_stack, 12, ErrorCode::TechTagCountExceeded, 24, ErrorCode::TechTagTooLong),
    first_err(opt_tags_check(contribution_needs, 10, ErrorCode::NeedTagCountExceeded, 24, ErrorCode::NeedTagTooLong),
    opt_len_check(collab_intent, 300, ErrorCode::CollabIntentTooLong)))))
}

/// Checks the present fields of a project update; absent ones pass.
pub fn validate_project_update(
    description: &Option<String>,
    github_link: &Option<String>,
    tech_stack: &Option<Vec<String>>,
    contribution_needs: &Option<Vec<String>>,
    collab_intent: &Option<String>,
) -> (r: Result<(), ErrorCode>)
    ensures
        r == outcome(
            project_update_error(*description, *github_link, *tech_stack, *contribution_needs, *collab_intent),
        ),
{
    if let Some(e) = check_opt_len(description, MAX_DESCRIPTION, ErrorCode::DescriptionTooLong) {
        return Err(e);
    }
    if let Some(e) = check_opt_len(github_link, MAX_GITHUB_LINK, ErrorCode::GithubLinkTooLong) {
        return Err(e);
    }
    if let Some(e) = check_opt_tags(
        tech_stack,
        MAX_TECH_TAGS,
        ErrorCode::TechTagCountExceeded,
        MAX_TAG,
        ErrorCode::TechTagTooLong,
    ) {
        return Err(e);
    }
    if let Some(e) = check_opt_tags(
        contribution_needs,
        MAX_NEED_TAGS,
        ErrorCode::NeedTagCountExceeded,
        MAX_TAG,
        ErrorCode::NeedTagTooLong,
    ) {
        return Err(e);
    }
    if let Some(e) = check_opt_len(collab_intent, MAX_COLLAB_INTENT, ErrorCode::CollabIntentTooLong) {
        return Err(e);
    }
    Ok(())
}

fn apply_project_update(
    p: &mut Project,
    description: Option<String>,
    github_link: Option<String>,
    tech_stack: Option<Vec<String>>,
    contribution_needs: Option<Vec<String>>,
    collab_intent: Option<String>,
    collaboration_level: Option<CollaborationLevel>,
    project_status: Option<ProjectStatus>,
    is_active: Option<bool>,
    now: i64,
)
    ensures
        is_updated_project(
            *final(p),
            *old(p),
            description,
            github_link,
            tech_stack,
            contribution_needs,
            collab_intent,
            collaboration_level,
            project_status,
            is_active,
            now,
        ),
{
    if let Some(x) = description {
        p.description = x;
    }
    if let Some(x) = github_link {
        p.github_link = x;
    }
    if let Some(x) = tech_stack {
        p.tech_stack = to_short_texts(&x);
    }
    if let Some(x) = contribution_needs {
        p.contribution_needs = to_short_texts(&x);
    }
    if let Some(x) = collab_intent {
        p.collab_intent = x;
    }
    if let Some(x) = collaboration_level {
        p.collaboration_level = x;
    }
    if let Some(x) = project_status {
        p.project_status = x;
    }
    if let Some(x) = is_active {
        p.is_active = x;
    }
    p.last_updated = now;
}

/// `p` with its acceptance set to `a` and its last update at `now`.
pub open spec fn with_acceptance(p: Project, a: CollaborationAcceptance, now: i64) -> Project {
    Project { accepting_collaborations: a, last_updated: now, ..p }
}

fn set_acceptance(ctx: &mut UpdateProject, a: CollaborationAcceptance, now: i64) -> (r: Result<(), ErrorCode>)
    ensures
        r == outcome(project_auth_error(old(ctx).project, old(ctx).creator.key, old(ctx).program_id)),
        r is Err ==> *final(ctx) == *old(ctx),
        r is Ok ==> final(ctx).program_id == old(ctx).program_id && final(ctx).creator
            == old(ctx).creator && final(ctx).project == with_data(
            old(ctx).project,
            with_acceptance(old(ctx).project.data->0, a, now),
        ),
{
    if let Some(e) = authorize_project(&ctx.project, &ctx.creator.key, &ctx.program_id) {
        return Err(e);
    }
    match &mut ctx.project.data {
        Some(p) => {
            p.accepting_collaborations = a;
            p.last_updated = now;
        },
        None => {},
    }
    Ok(())
}

/// Stops the creator's project from taking collaboration, at time `now`.
pub fn close_project(ctx: &mut UpdateProject, now: i64) -> (r: Result<(), ErrorCode>)
    ensures
        r == outcome(project_auth_error(old(ctx).project, old(ctx).creator.key, old(ctx).program_id)),
        r is Err ==> *final(ctx) == *old(ctx),
        r is Ok ==> final(ctx).program_id == old(ctx).program_id && final(ctx).creator
            == old(ctx).creator && final(ctx).project == with_data(
            old(ctx).project,
            with_acceptance(old(ctx).project.data->0, CollaborationAcceptance::Closed, now),
        ),
{
    set_acceptance(ctx, CollaborationAcceptance::Closed, now)
}

/// Opens the creator's project to collaboration again, at time `now`.
pub fn reopen_project(ctx: &mut UpdateProject, now: i64) -> (r: Result<(), ErrorCode>)
    ensures
        r == outcome(project_auth_error(old(ctx).project, old(ctx).creator.key, old(ctx).program_id)),
        r is Err ==> *final(ctx) == *old(ctx),
        r is Ok ==> final(ctx).program_id == old(ctx).program_id && final(ctx).creator
            == old(ctx).creator && final(ctx).project == with_data(
            old(ctx).project,
            with_acceptance(old(ctx).project.data->0, CollaborationAcceptance::Open, now),
        ),
{
    set_acceptance(ctx, CollaborationAcceptance::Open, now)
}

/// Why `update_project_roles` fails, if it does.
pub open spec fn update_roles_error(ctx: UpdateProjectRoles, role_requirements: Seq<RoleRequirement>) -> Option<ErrorCode> {
    first_err(project_auth_error(ctx.project, ctx.creator.key, ctx.program_id),
    first_err(check(role_requirements.len() <= 12, ErrorCode::TooManyRoles),
    roles_error(role_requirements)))
}

/// Replaces the role requirements of the creator's project, at time `now`.
pub fn update_project_roles(
    ctx: &mut UpdateProjectRoles,
    role_requirements: Vec<RoleRequirement>,
    now: i64,
) -> (r: Result<(), ErrorCode>)
    ensures
        r == outcome(update_roles_error(*old(ctx), role_requirements@)),
        r is Err ==> *final(ctx) == *old(ctx),
        r is Ok ==> {
            &&& final(ctx).program_id == old(ctx).program_id
            &&& final(ctx).creator == old(ctx).creator
            &&& final(ctx).project.key == old(ctx).project.key
            &&& final(ctx).project.lamports == old(ctx).project.lamports
            &&& final(ctx).project.data_len == old(ctx).project.data_len
            &&& final(ctx).project.data is Some
            &&& (final(ctx).project.data->0).required_roles@ == normalized_roles(role_requirements@)
            &&& (final(ctx).project.data->0).last_updated == now
            &&& roles_wf((final(ctx).project.data->0).required_roles@)
            &&& final(ctx).project.data == Some(
                Project {
                    required_roles: (final(ctx).project.data->0).required_roles,
                    last_updated: now,
                    ..old(ctx).project.data->0
                },
            )
        },
{
    if let Some(e) = authorize_project(&ctx.project, &ctx.creator.key, &ctx.program_id) {
        return Err(e);
    }
    if role_requirements.len() > MAX_UPDATE_ROLES {
        return Err(ErrorCode::TooManyRoles);
    }
    if let Some(e) = check_roles(&role_requirements) {
        return Err(e);
    }
    proof {
        lemma_roles_error_wf(role_requirements@, role_requirements@.len() as int);
    }
    let roles = normalize_roles(&role_requirements);
    match &mut ctx.project.data {
        Some(p) => {
            p.required_roles = roles;
            p.last_updated = now;
        },
        None => {},
    }
    Ok(())
}

/// Why `delete_project` fails, if it does.
pub open spec fn delete_project_error(ctx: DeleteProject) -> Option<ErrorCode> {
    first_err(project_auth_error(ctx.project, ctx.creator.key, ctx.program_id),
    check(!close_overflows(ctx.project, ctx.creator), ErrorCode::ArithmeticOverflow))
}

/// Closes the creator's project and returns its whole balance to the creator.
pub fn delete_project(ctx: &mut DeleteProject) -> (r: Result<(), ErrorCode>)
    ensures
        r == outcome(delete_project_error(*old(ctx))),
        r is Err ==> *final(ctx) == *old(ctx),
        r is Ok ==> final(ctx).program_id == old(ctx).program_id && final(ctx).project == closed(
            old(ctx).project,
        ) && final(ctx).creator.key == old(ctx).creator.key && final(ctx).creator.lamports
            == old(ctx).creator.lamports + old(ctx).project.lamports,
{
    if let Some(e) = authorize_project(&ctx.project, &ctx.creator.key, &ctx.program_id) {
        return Err(e);
    }
    close_account(&mut ctx.project, &mut ctx.creator)
}

} // verus!
