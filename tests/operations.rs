use devcol_solana::address::{
    derive_address, project_seeds_of, request_seeds_of, user_seeds_of, Account, Address, Signer,
};
use devcol_solana::error::{ErrorCode, ErrorKind};
use devcol_solana::model::{
    CollaborationAcceptance, CollaborationLevel, CollaborationRequest, ProfileVisibility, Project,
    ProjectStatus, RequestStatus, Role, RoleRequirement, User, PROJECT_SPACE, REQUEST_SPACE,
    USER_SPACE,
};
use devcol_solana::project::{
    close_project, create_project, delete_project, reopen_project, update_project,
    update_project_roles, validate_project_fields, CreateProject, DeleteProject, UpdateProject,
    UpdateProjectRoles,
};
use devcol_solana::request::{
    accept_collab_request, delete_collab_request, delete_sender_rejected_request,
    mark_under_review, reject_collab_request, send_collab_request, update_collab_request,
    withdraw_collab_request, DeleteCollabRequest, DeleteSenderRejectedRequest,
    SendCollabRequest, UpdateCollabMessage, UpdateCollabRequest, WithdrawCollabRequest,
};
use devcol_solana::text::is_blank;
use devcol_solana::user::{
    create_user, delete_user, migrate_user_account, update_user, validate_user_fields,
    CreateUser, DeleteUser, MigrateUser, UpdateUser,
};

fn pid() -> Address {
    Address::new([7u8; 32])
}

fn key(b: u8) -> Address {
    Address::new([b; 32])
}

fn s(x: &str) -> String {
    x.to_string()
}

fn text(n: usize) -> String {
    "a".repeat(n)
}

fn signer(b: u8) -> Signer {
    Signer { key: key(b), lamports: 1_000_000 }
}

fn empty<T>(k: Address) -> Account<T> {
    Account { key: k, lamports: 5_000, data_len: 0, data: None }
}

fn user_addr(owner: &Address) -> Address {
    derive_address(&user_seeds_of(owner), &pid()).unwrap().0
}

fn project_addr(creator: &Address, name: &str) -> Address {
    derive_address(&project_seeds_of(creator, &s(name)), &pid()).unwrap().0
}

fn request_addr(sender: &Address, project: &Address) -> Address {
    derive_address(&request_seeds_of(sender, project), &pid()).unwrap().0
}

fn create_user_ctx(owner: u8) -> CreateUser {
    CreateUser { program_id: pid(), user: empty(user_addr(&key(owner))), signer: signer(owner) }
}

fn make_user(owner: u8, now: i64) -> Account<User> {
    let mut ctx = create_user_ctx(owner);
    create_user(
        &mut ctx,
        s("abc"),
        s("Ann"),
        s("Eng"),
        s("NYC"),
        s("bio"),
        s("gh/a"),
        s("hash"),
        s(""),
        now,
    )
    .unwrap();
    ctx.user
}

fn role(r: Role, needed: u8, accepted: u8) -> RoleRequirement {
    RoleRequirement { role: r, needed, accepted, label: None }
}

fn create_project_ctx(creator: u8, name: &str) -> CreateProject {
    CreateProject {
        program_id: pid(),
        project: empty(project_addr(&key(creator), name)),
        user: make_user(creator, 10),
        creator: signer(creator),
    }
}

fn run_create_project(ctx: &mut CreateProject, name: &str, roles: Vec<RoleRequirement>) -> Result<(), ErrorCode> {
    create_project(
        ctx,
        s(name),
        s("desc"),
        s("gh/p"),
        s("logo"),
        vec![s("rust")],
        vec![s("ui")],
        s("intent"),
        CollaborationLevel::AllLevels,
        ProjectStatus::JustStarted,
        roles,
        50,
    )
}

fn make_project(creator: u8, name: &str, roles: Vec<RoleRequirement>) -> Account<Project> {
    let mut ctx = create_project_ctx(creator, name);
    run_create_project(&mut ctx, name, roles).unwrap();
    ctx.project
}

fn send_ctx(sender: u8, project: Account<Project>) -> SendCollabRequest {
    let k = request_addr(&key(sender), &project.key);
    SendCollabRequest { program_id: pid(), collab_request: empty(k), sender: signer(sender), project }
}

fn make_request(sender: u8, project: Account<Project>, desired: Option<Role>) -> (Account<CollaborationRequest>, Account<Project>) {
    let mut ctx = send_ctx(sender, project);
    send_collab_request(&mut ctx, s("let me in"), desired, 60).unwrap();
    (ctx.collab_request, ctx.project)
}

fn answer_ctx(owner: u8, req: Account<CollaborationRequest>, project: Account<Project>) -> UpdateCollabRequest {
    UpdateCollabRequest { program_id: pid(), collab_request: req, project_owner: signer(owner), project }
}

fn status(req: &Account<CollaborationRequest>) -> RequestStatus {
    req.data.as_ref().unwrap().status
}

// ---------- user ----------

#[test]
fn create_then_update_display_name_keeps_other_fields() {
    let mut ctx = create_user_ctx(1);
    let r = create_user(
        &mut ctx,
        s("abc"),
        s("Ann"),
        s("Eng"),
        s("NYC"),
        s("bio"),
        s("gh/a"),
        s("hash"),
        s(""),
        100,
    );
    assert_eq!(r, Ok(()));
    let before = ctx.user.data.clone().unwrap();
    let mut up = UpdateUser { program_id: pid(), user: ctx.user, signer: signer(1) };
    let r = update_user(&mut up, Some(s("Anna")), None, None, None, None, None, None, None, None, 200);
    assert_eq!(r, Ok(()));
    let u = up.user.data.unwrap();
    assert_eq!(u.display_name, "Anna");
    assert_eq!(u.username, "abc");
    assert_eq!(u.role, "Eng");
    assert_eq!(u.location, "NYC");
    assert_eq!(u.bio, "bio");
    assert_eq!(u.github_link, "gh/a");
    assert_eq!(u.ipfs_metadata_hash, "hash");
    assert_eq!(u.contact_info, "");
    assert_eq!(u.wallet, before.wallet);
    assert_eq!(u.member_since, 100);
    assert!(u.last_active > u.member_since);
    assert_eq!(u.open_to_collab, before.open_to_collab);
    assert_eq!(u.profile_visibility, before.profile_visibility);
}

#[test]
fn new_user_defaults() {
    let acc = make_user(2, 42);
    assert_eq!(acc.data_len, USER_SPACE);
    let u = acc.data.unwrap();
    assert_eq!(u.wallet, key(2));
    assert_eq!(u.reputation, 0);
    assert_eq!(u.projects_count, 0);
    assert_eq!(u.collabs_count, 0);
    assert_eq!(u.member_since, 42);
    assert_eq!(u.last_active, 42);
    assert!(!u.is_verified);
    assert!(u.open_to_collab);
    assert_eq!(u.profile_visibility, ProfileVisibility::Public);
    assert_eq!(u.bump, derive_address(&user_seeds_of(&key(2)), &pid()).unwrap().1);
}

#[test]
fn create_user_twice_is_refused() {
    let acc = make_user(3, 1);
    let mut ctx = CreateUser { program_id: pid(), user: acc, signer: signer(3) };
    let r = create_user(&mut ctx, s("x"), s(""), s(""), s(""), s(""), s(""), s(""), s(""), 2);
    assert_eq!(r, Err(ErrorCode::AccountAlreadyInUse));
    assert_eq!(ctx.user.data.unwrap().username, "abc");
}

#[test]
fn create_user_at_wrong_address_is_refused() {
    let mut ctx = CreateUser { program_id: pid(), user: empty(key(9)), signer: signer(3) };
    let r = create_user(&mut ctx, s("x"), s(""), s(""), s(""), s(""), s(""), s(""), s(""), 2);
    assert_eq!(r, Err(ErrorCode::ConstraintSeeds));
    assert_eq!(r.unwrap_err().kind(), ErrorKind::Authorization);
    assert!(ctx.user.data.is_none());
}

#[test]
fn update_user_by_other_signer_is_refused() {
    let acc = make_user(4, 1);
    let mut up = UpdateUser { program_id: pid(), user: acc, signer: signer(5) };
    let r = update_user(&mut up, Some(s("Eve")), None, None, None, None, None, None, None, None, 9);
    assert_eq!(r, Err(ErrorCode::ConstraintSeeds));
    assert_eq!(up.user.data.unwrap().display_name, "Ann");
}

#[test]
fn update_user_with_foreign_wallet_is_refused() {
    let mut acc = make_user(4, 1);
    acc.data.as_mut().unwrap().wallet = key(8);
    let mut up = UpdateUser { program_id: pid(), user: acc, signer: signer(4) };
    let r = update_user(&mut up, Some(s("Eve")), None, None, None, None, None, None, None, None, 9);
    assert_eq!(r, Err(ErrorCode::ConstraintHasOne));
}

#[test]
fn update_missing_user_is_refused() {
    let mut up = UpdateUser { program_id: pid(), user: empty(user_addr(&key(4))), signer: signer(4) };
    let r = update_user(&mut up, None, None, None, None, None, None, None, None, None, 9);
    assert_eq!(r, Err(ErrorCode::AccountNotInitialized));
}

#[test]
fn update_user_too_long_field_changes_nothing() {
    let acc = make_user(6, 1);
    let mut up = UpdateUser { program_id: pid(), user: acc, signer: signer(6) };
    let r = update_user(&mut up, Some(s("ok")), None, None, Some(text(201)), None, None, None, Some(false), None, 9);
    assert_eq!(r, Err(ErrorCode::BioTooLong));
    let u = up.user.data.unwrap();
    assert_eq!(u.display_name, "Ann");
    assert_eq!(u.last_active, 1);
    assert!(u.open_to_collab);
}

#[test]
fn update_user_all_flags() {
    let acc = make_user(6, 1);
    let mut up = UpdateUser { program_id: pid(), user: acc, signer: signer(6) };
    let r = update_user(
        &mut up,
        None,
        Some(s("Dev")),
        Some(s("Oslo")),
        Some(s("b2")),
        Some(s("gh/b")),
        Some(s("h2")),
        Some(s("discord")),
        Some(false),
        Some(ProfileVisibility::FriendsOnly),
        5,
    );
    assert_eq!(r, Ok(()));
    let u = up.user.data.unwrap();
    assert_eq!(u.display_name, "Ann");
    assert_eq!(u.role, "Dev");
    assert_eq!(u.location, "Oslo");
    assert_eq!(u.bio, "b2");
    assert_eq!(u.github_link, "gh/b");
    assert_eq!(u.ipfs_metadata_hash, "h2");
    assert_eq!(u.contact_info, "discord");
    assert!(!u.open_to_collab);
    assert_eq!(u.profile_visibility, ProfileVisibility::FriendsOnly);
    assert_eq!(u.last_active, 5);
}

#[test]
fn user_field_limits_are_inclusive() {
    let ok = |a: usize, b: usize, c: usize, d: usize, e: usize, f: usize, g: usize, h: usize| {
        validate_user_fields(&text(a), &text(b), &text(c), &text(d), &text(e), &text(f), &text(g), &text(h))
    };
    assert_eq!(ok(32, 64, 50, 50, 200, 100, 64, 200), Ok(()));
    assert_eq!(ok(33, 0, 0, 0, 0, 0, 0, 0), Err(ErrorCode::UsernameTooLong));
    assert_eq!(ok(0, 65, 0, 0, 0, 0, 0, 0), Err(ErrorCode::DisplayNameTooLong));
    assert_eq!(ok(0, 0, 51, 0, 0, 0, 0, 0), Err(ErrorCode::RoleTooLong));
    assert_eq!(ok(0, 0, 0, 51, 0, 0, 0, 0), Err(ErrorCode::LocationTooLong));
    assert_eq!(ok(0, 0, 0, 0, 201, 0, 0, 0), Err(ErrorCode::BioTooLong));
    assert_eq!(ok(0, 0, 0, 0, 0, 101, 0, 0), Err(ErrorCode::GithubLinkTooLong));
    assert_eq!(ok(0, 0, 0, 0, 0, 0, 65, 0), Err(ErrorCode::IpfsHashTooLong));
    assert_eq!(ok(0, 0, 0, 0, 0, 0, 0, 201), Err(ErrorCode::ContactInfoTooLong));
    assert_eq!(ErrorCode::UsernameTooLong.kind(), ErrorKind::Validation);
}

#[test]
fn limits_count_bytes_not_characters() {
    let wide = "é".repeat(17);
    assert_eq!(wide.len(), 34);
    let r = validate_user_fields(&wide, &s(""), &s(""), &s(""), &s(""), &s(""), &s(""), &s(""));
    assert_eq!(r, Err(ErrorCode::UsernameTooLong));
    let fits = "é".repeat(16);
    let r = validate_user_fields(&fits, &s(""), &s(""), &s(""), &s(""), &s(""), &s(""), &s(""));
    assert_eq!(r, Ok(()));
}

#[test]
fn update_user_limits_are_inclusive() {
    let cases: Vec<(usize, usize, ErrorCode)> = vec![
        (0, 64, ErrorCode::DisplayNameTooLong),
        (1, 50, ErrorCode::RoleTooLong),
        (2, 50, ErrorCode::LocationTooLong),
        (3, 200, ErrorCode::BioTooLong),
        (4, 100, ErrorCode::GithubLinkTooLong),
        (5, 64, ErrorCode::IpfsHashTooLong),
        (6, 200, ErrorCode::ContactInfoTooLong),
    ];
    for (field, max, err) in cases {
        for (n, expect) in [(max, Ok(())), (max + 1, Err(err))] {
            let mut args: Vec<Option<String>> = vec![None; 7];
            args[field] = Some(text(n));
            let mut up = UpdateUser { program_id: pid(), user: make_user(12, 1), signer: signer(12) };
            let r = update_user(
                &mut up,
                args[0].clone(),
                args[1].clone(),
                args[2].clone(),
                args[3].clone(),
                args[4].clone(),
                args[5].clone(),
                args[6].clone(),
                None,
                None,
                2,
            );
            assert_eq!(r, expect);
        }
    }
}

#[test]
fn migrate_grows_and_charges_once() {
    let mut acc = make_user(7, 1);
    acc.data_len = 600;
    acc.lamports = 1_000;
    let mut ctx = MigrateUser { program_id: pid(), user: acc, signer: signer(7) };
    let r = migrate_user_account(&mut ctx, s("discord: ann"), 4_000, 30);
    assert_eq!(r, Ok(()));
    assert_eq!(ctx.user.data_len, USER_SPACE);
    assert_eq!(ctx.user.lamports, 4_000);
    assert_eq!(ctx.signer.lamports, 1_000_000 - 3_000);
    assert_eq!(ctx.user.data.as_ref().unwrap().contact_info, "discord: ann");
    let r = migrate_user_account(&mut ctx, s("telegram"), 4_000, 31);
    assert_eq!(r, Ok(()));
    assert_eq!(ctx.user.lamports, 4_000);
    assert_eq!(ctx.signer.lamports, 1_000_000 - 3_000);
    assert_eq!(ctx.user.data.as_ref().unwrap().contact_info, "telegram");
}

#[test]
fn migrate_errors() {
    let mut acc = make_user(7, 1);
    acc.data_len = 600;
    acc.lamports = 0;
    let mut ctx = MigrateUser { program_id: pid(), user: acc, signer: Signer { key: key(7), lamports: 10 } };
    assert_eq!(migrate_user_account(&mut ctx, s("   "), 4_000, 2), Err(ErrorCode::ContactInfoRequired));
    assert_eq!(migrate_user_account(&mut ctx, text(201), 4_000, 2), Err(ErrorCode::ContactInfoTooLong));
    let r = migrate_user_account(&mut ctx, s("x"), 4_000, 2);
    assert_eq!(r, Err(ErrorCode::InsufficientFunds));
    assert_eq!(r.unwrap_err().kind(), ErrorKind::Resource);
    assert_eq!(ctx.user.data_len, 600);
    assert_eq!(ctx.signer.lamports, 10);
}

#[test]
fn blank_text_detection() {
    assert!(is_blank(&s("")));
    assert!(is_blank(&s(" \t\n ")));
    assert!(!is_blank(&s("  x ")));
}

#[test]
fn delete_user_refunds_owner() {
    let acc = make_user(8, 1);
    let lamports = acc.lamports;
    let mut ctx = DeleteUser { program_id: pid(), user: acc, signer: signer(8) };
    assert_eq!(delete_user(&mut ctx), Ok(()));
    assert!(ctx.user.data.is_none());
    assert_eq!(ctx.user.lamports, 0);
    assert_eq!(ctx.signer.lamports, 1_000_000 + lamports);
}

#[test]
fn delete_user_overflow_is_refused() {
    let acc = make_user(8, 1);
    let mut ctx = DeleteUser { program_id: pid(), user: acc, signer: Signer { key: key(8), lamports: u64::MAX } };
    assert_eq!(delete_user(&mut ctx), Err(ErrorCode::ArithmeticOverflow));
    assert!(ctx.user.data.is_some());
}

#[test]
fn delete_user_by_other_is_refused() {
    let acc = make_user(8, 1);
    let mut ctx = DeleteUser { program_id: pid(), user: acc, signer: signer(9) };
    assert_eq!(delete_user(&mut ctx), Err(ErrorCode::ConstraintSeeds));
    assert!(ctx.user.data.is_some());
}

// ---------- addresses ----------

#[test]
fn derived_addresses_differ_by_seed() {
    let a = user_addr(&key(1));
    let b = user_addr(&key(2));
    assert_ne!(a, b);
    assert_ne!(a, key(1));
    assert_ne!(a, pid());
    assert_ne!(project_addr(&key(1), "p"), project_addr(&key(1), "q"));
    assert_eq!(user_addr(&key(1)), a);
}

#[test]
fn long_seed_has_no_address() {
    assert!(derive_address(&project_seeds_of(&key(1), &text(33)), &pid()).is_none());
    assert!(derive_address(&project_seeds_of(&key(1), &text(32)), &pid()).is_some());
}

// ---------- projects ----------

#[test]
fn create_project_sets_defaults_and_normalizes_labels() {
    let roles = vec![
        RoleRequirement { role: Role::Frontend, needed: 2, accepted: 0, label: Some(s("x")) },
        RoleRequirement { role: Role::Others, needed: 1, accepted: 0, label: Some(s("Writer")) },
    ];
    let acc = make_project(1, "proj", roles);
    assert_eq!(acc.data_len, PROJECT_SPACE);
    let p = acc.data.unwrap();
    assert_eq!(p.creator, key(1));
    assert_eq!(p.name, "proj");
    assert_eq!(p.tech_stack.len(), 1);
    assert_eq!(p.tech_stack[0].value, "rust");
    assert_eq!(p.contribution_needs[0].value, "ui");
    assert_eq!(p.accepting_collaborations, CollaborationAcceptance::Open);
    assert_eq!(p.contributors_count, 1);
    assert!(p.is_active);
    assert_eq!(p.timestamp, 50);
    assert_eq!(p.last_updated, 50);
    assert_eq!(p.required_roles[0].label, None);
    assert_eq!(p.required_roles[1].label, Some(s("Writer")));
}

#[test]
fn create_project_without_profile_fails() {
    let mut ctx = create_project_ctx(2, "p");
    ctx.user = empty(user_addr(&key(2)));
    assert_eq!(run_create_project(&mut ctx, "p", vec![]), Err(ErrorCode::AccountNotInitialized));
    assert!(ctx.project.data.is_none());
}

#[test]
fn create_project_with_someone_elses_profile_fails() {
    let mut ctx = create_project_ctx(2, "p");
    ctx.user = make_user(3, 1);
    assert_eq!(run_create_project(&mut ctx, "p", vec![]), Err(ErrorCode::ConstraintSeeds));
    assert!(ctx.project.data.is_none());
}

#[test]
fn create_project_name_mismatch_fails() {
    let mut ctx = create_project_ctx(2, "p");
    assert_eq!(run_create_project(&mut ctx, "other", vec![]), Err(ErrorCode::ConstraintSeeds));
}

#[test]
fn create_project_twice_fails() {
    let acc = make_project(2, "p", vec![]);
    let mut ctx = create_project_ctx(2, "p");
    ctx.project = acc;
    assert_eq!(run_create_project(&mut ctx, "p", vec![]), Err(ErrorCode::AccountAlreadyInUse));
}

fn vp(
    name: usize,
    desc: usize,
    gh: usize,
    logo: usize,
    tech: Vec<String>,
    needs: Vec<String>,
    intent: usize,
    roles: Vec<RoleRequirement>,
) -> Result<(), ErrorCode> {
    validate_project_fields(&text(name), &text(desc), &text(gh), &text(logo), &tech, &needs, &text(intent), &roles)
}

#[test]
fn project_field_limits_are_inclusive() {
    let tags12: Vec<String> = (0..12).map(|_| text(24)).collect();
    let tags10: Vec<String> = (0..10).map(|_| text(24)).collect();
    let roles8: Vec<RoleRequirement> = (0..8).map(|_| role(Role::QA, 10, 10)).collect();
    assert_eq!(vp(50, 1000, 100, 64, tags12.clone(), tags10.clone(), 300, roles8.clone()), Ok(()));
    assert_eq!(vp(51, 0, 0, 0, vec![], vec![], 0, vec![]), Err(ErrorCode::NameTooLong));
    assert_eq!(vp(0, 1001, 0, 0, vec![], vec![], 0, vec![]), Err(ErrorCode::DescriptionTooLong));
    assert_eq!(vp(0, 0, 101, 0, vec![], vec![], 0, vec![]), Err(ErrorCode::GithubLinkTooLong));
    assert_eq!(vp(0, 0, 0, 65, vec![], vec![], 0, vec![]), Err(ErrorCode::IpfsHashTooLong));
    assert_eq!(vp(0, 0, 0, 0, vec![], vec![], 301, vec![]), Err(ErrorCode::CollabIntentTooLong));
    let mut t13 = tags12.clone();
    t13.push(s("x"));
    assert_eq!(vp(0, 0, 0, 0, t13, vec![], 0, vec![]), Err(ErrorCode::TechTagCountExceeded));
    let mut n11 = tags10.clone();
    n11.push(s("x"));
    assert_eq!(vp(0, 0, 0, 0, vec![], n11, 0, vec![]), Err(ErrorCode::NeedTagCountExceeded));
    assert_eq!(vp(0, 0, 0, 0, vec![text(25)], vec![], 0, vec![]), Err(ErrorCode::TechTagTooLong));
    assert_eq!(vp(0, 0, 0, 0, vec![], vec![text(25)], 0, vec![]), Err(ErrorCode::NeedTagTooLong));
    let mut r9 = roles8.clone();
    r9.push(role(Role::QA, 1, 0));
    assert_eq!(vp(0, 0, 0, 0, vec![], vec![], 0, r9), Err(ErrorCode::TooManyRoles));
}

#[test]
fn role_requirement_checks() {
    let one = |r: RoleRequirement| vp(0, 0, 0, 0, vec![], vec![], 0, vec![r]);
    assert_eq!(one(role(Role::Backend, 0, 0)), Err(ErrorCode::InvalidRoleCounts));
    assert_eq!(one(role(Role::Backend, 11, 0)), Err(ErrorCode::RoleNeededTooLarge));
    assert_eq!(one(role(Role::Backend, 2, 3)), Err(ErrorCode::InvalidRoleCounts));
    assert_eq!(one(role(Role::Backend, 10, 10)), Ok(()));
    let label = |n: usize| RoleRequirement { role: Role::Others, needed: 1, accepted: 0, label: Some(text(n)) };
    assert_eq!(one(label(24)), Ok(()));
    assert_eq!(one(label(25)), Err(ErrorCode::RoleLabelTooLong));
    let not_others = RoleRequirement { role: Role::Designer, needed: 1, accepted: 0, label: Some(text(40)) };
    assert_eq!(one(not_others), Ok(()));
}

fn update_ctx(creator: u8, project: Account<Project>) -> UpdateProject {
    UpdateProject { program_id: pid(), project, creator: signer(creator) }
}

#[test]
fn update_project_replaces_present_fields() {
    let acc = make_project(1, "proj", vec![]);
    let mut ctx = update_ctx(1, acc);
    let r = update_project(
        &mut ctx,
        Some(s("new desc")),
        None,
        Some(vec![s("go"), s("sql")]),
        None,
        None,
        Some(CollaborationLevel::Advanced),
        Some(ProjectStatus::OnHold),
        Some(false),
        70,
    );
    assert_eq!(r, Ok(()));
    let p = ctx.project.data.unwrap();
    assert_eq!(p.description, "new desc");
    assert_eq!(p.github_link, "gh/p");
    assert_eq!(p.tech_stack.len(), 2);
    assert_eq!(p.tech_stack[1].value, "sql");
    assert_eq!(p.contribution_needs[0].value, "ui");
    assert_eq!(p.collab_intent, "intent");
    assert_eq!(p.collaboration_level, CollaborationLevel::Advanced);
    assert_eq!(p.project_status, ProjectStatus::OnHold);
    assert!(!p.is_active);
    assert_eq!(p.last_updated, 70);
    assert_eq!(p.timestamp, 50);
}

#[test]
fn update_project_limits_and_auth() {
    let acc = make_project(1, "proj", vec![]);
    let mut ctx = update_ctx(1, acc);
    assert_eq!(
        update_project(&mut ctx, Some(text(1000)), Some(text(100)), None, None, Some(text(300)), None, None, None, 1),
        Ok(())
    );
    assert_eq!(
        update_project(&mut ctx, Some(text(1001)), None, None, None, None, None, None, None, 2),
        Err(ErrorCode::DescriptionTooLong)
    );
    assert_eq!(
        update_project(&mut ctx, None, Some(text(101)), None, None, None, None, None, None, 2),
        Err(ErrorCode::GithubLinkTooLong)
    );
    assert_eq!(
        update_project(&mut ctx, None, None, Some((0..13).map(|_| s("t")).collect()), None, None, None, None, None, 2),
        Err(ErrorCode::TechTagCountExceeded)
    );
    assert_eq!(
        update_project(&mut ctx, None, None, None, Some(vec![text(25)]), None, None, None, None, 2),
        Err(ErrorCode::NeedTagTooLong)
    );
    assert_eq!(
        update_project(&mut ctx, None, None, None, None, Some(text(301)), None, None, None, 2),
        Err(ErrorCode::CollabIntentTooLong)
    );
    assert_eq!(ctx.project.data.as_ref().unwrap().last_updated, 1);
    let mut other = update_ctx(2, ctx.project);
    assert_eq!(
        update_project(&mut other, Some(s("x")), None, None, None, None, None, None, None, 3),
        Err(ErrorCode::ConstraintSeeds)
    );
}

#[test]
fn close_and_reopen_project() {
    let acc = make_project(1, "proj", vec![]);
    let mut ctx = update_ctx(1, acc);
    assert_eq!(close_project(&mut ctx, 80), Ok(()));
    assert_eq!(ctx.project.data.as_ref().unwrap().accepting_collaborations, CollaborationAcceptance::Closed);
    assert_eq!(ctx.project.data.as_ref().unwrap().last_updated, 80);
    assert_eq!(reopen_project(&mut ctx, 90), Ok(()));
    assert_eq!(ctx.project.data.as_ref().unwrap().accepting_collaborations, CollaborationAcceptance::Open);
    assert_eq!(ctx.project.data.as_ref().unwrap().last_updated, 90);
    let mut other = update_ctx(3, ctx.project);
    assert_eq!(close_project(&mut other, 99), Err(ErrorCode::ConstraintSeeds));
    assert_eq!(CollaborationAcceptance::default(), CollaborationAcceptance::Open);
}

#[test]
fn update_project_roles_checks_counts() {
    let acc = make_project(1, "proj", vec![]);
    let mut ctx = UpdateProjectRoles { program_id: pid(), project: acc, creator: signer(1) };
    let twelve: Vec<RoleRequirement> = (0..12).map(|_| role(Role::QA, 3, 1)).collect();
    assert_eq!(update_project_roles(&mut ctx, twelve.clone(), 5), Ok(()));
    assert_eq!(ctx.project.data.as_ref().unwrap().required_roles.len(), 12);
    let mut thirteen = twelve.clone();
    thirteen.push(role(Role::QA, 1, 0));
    assert_eq!(update_project_roles(&mut ctx, thirteen, 6), Err(ErrorCode::TooManyRoles));
    assert_eq!(update_project_roles(&mut ctx, vec![role(Role::QA, 2, 3)], 6), Err(ErrorCode::InvalidRoleCounts));
    assert_eq!(update_project_roles(&mut ctx, vec![role(Role::QA, 11, 0)], 6), Err(ErrorCode::RoleNeededTooLarge));
    assert_eq!(ctx.project.data.as_ref().unwrap().required_roles.len(), 12);
    assert_eq!(ctx.project.data.as_ref().unwrap().last_updated, 5);
    for r in ctx.project.data.as_ref().unwrap().required_roles.iter() {
        assert!(r.accepted <= r.needed);
    }
}

#[test]
fn delete_project_refunds_creator() {
    let acc = make_project(1, "proj", vec![]);
    let lamports = acc.lamports;
    let mut ctx = DeleteProject { program_id: pid(), project: acc, creator: signer(1) };
    assert_eq!(delete_project(&mut ctx), Ok(()));
    assert!(ctx.project.data.is_none());
    assert_eq!(ctx.creator.lamports, 1_000_000 + lamports);
    let acc = make_project(1, "proj", vec![]);
    let mut ctx = DeleteProject { program_id: pid(), project: acc, creator: signer(2) };
    assert_eq!(delete_project(&mut ctx), Err(ErrorCode::ConstraintSeeds));
    assert!(ctx.project.data.is_some());
}

// ---------- requests ----------

#[test]
fn send_to_full_role_fails_and_without_roles_succeeds() {
    let full = make_project(1, "full", vec![role(Role::Frontend, 1, 1)]);
    let mut ctx = send_ctx(2, full);
    let r = send_collab_request(&mut ctx, s("hi"), Some(Role::Frontend), 60);
    assert_eq!(r, Err(ErrorCode::RoleSlotFull));
    assert_eq!(r.unwrap_err().kind(), ErrorKind::Capacity);
    assert!(ctx.collab_request.data.is_none());

    let open = make_project(1, "open", vec![]);
    let mut ctx = send_ctx(2, open);
    assert_eq!(send_collab_request(&mut ctx, s("hi"), Some(Role::Frontend), 60), Ok(()));
    let req = ctx.collab_request.data.unwrap();
    assert_eq!(req.from, key(2));
    assert_eq!(req.to, key(1));
    assert_eq!(req.project, ctx.project.key);
    assert_eq!(req.message, "hi");
    assert_eq!(req.owner_message, "");
    assert_eq!(req.status, RequestStatus::Pending);
    assert_eq!(req.timestamp, 60);
    assert_eq!(req.reply_timestamp, 0);
    assert_eq!(req.desired_role, Some(Role::Frontend));
    assert_eq!(ctx.collab_request.data_len, REQUEST_SPACE);
}

#[test]
fn send_for_unknown_role_fails() {
    let p = make_project(1, "p", vec![role(Role::Backend, 2, 0)]);
    let mut ctx = send_ctx(2, p);
    assert_eq!(send_collab_request(&mut ctx, s("hi"), Some(Role::Designer), 60), Err(ErrorCode::RoleNotFound));
    assert_eq!(send_collab_request(&mut ctx, text(501), None, 60), Err(ErrorCode::MessageTooLong));
    assert_eq!(send_collab_request(&mut ctx, text(500), Some(Role::Backend), 60), Ok(()));
    assert_eq!(send_collab_request(&mut ctx, s("again"), None, 61), Err(ErrorCode::AccountAlreadyInUse));
}

#[test]
fn send_to_missing_project_fails() {
    let p: Account<Project> = empty(project_addr(&key(1), "ghost"));
    let mut ctx = send_ctx(2, p);
    assert_eq!(send_collab_request(&mut ctx, s("hi"), None, 60), Err(ErrorCode::AccountNotInitialized));
}

#[test]
fn accept_takes_slot_until_full() {
    let p = make_project(1, "p", vec![role(Role::Backend, 1, 0)]);
    let (req_a, p) = make_request(2, p, Some(Role::Backend));
    let (req_b, p) = make_request(3, p, Some(Role::Backend));
    let mut ctx = answer_ctx(1, req_a, p);
    assert_eq!(accept_collab_request(&mut ctx, s("welcome"), 70), Ok(()));
    assert_eq!(status(&ctx.collab_request), RequestStatus::Accepted);
    let d = ctx.collab_request.data.as_ref().unwrap();
    assert_eq!(d.owner_message, "welcome");
    assert_eq!(d.reply_timestamp, 70);
    assert_eq!(ctx.project.data.as_ref().unwrap().required_roles[0].accepted, 1);

    let mut ctx = answer_ctx(1, req_b, ctx.project);
    let r = accept_collab_request(&mut ctx, s("sorry"), 71);
    assert_eq!(r, Err(ErrorCode::RoleSlotFull));
    assert_eq!(r.unwrap_err().kind(), ErrorKind::Capacity);
    assert_eq!(ctx.project.data.as_ref().unwrap().required_roles[0].accepted, 1);
    assert_eq!(status(&ctx.collab_request), RequestStatus::Pending);
    assert_eq!(ctx.collab_request.data.as_ref().unwrap().owner_message, "");
}

#[test]
fn accept_without_role_keeps_roles() {
    let p = make_project(1, "p", vec![role(Role::Backend, 1, 0)]);
    let (req, p) = make_request(2, p, None);
    let mut ctx = answer_ctx(1, req, p);
    assert_eq!(accept_collab_request(&mut ctx, s("ok"), 70), Ok(()));
    assert_eq!(ctx.project.data.as_ref().unwrap().required_roles[0].accepted, 0);
}

#[test]
fn mark_then_reject() {
    let p = make_project(1, "p", vec![]);
    let (req, p) = make_request(2, p, None);
    let mut ctx = answer_ctx(1, req, p);
    assert_eq!(mark_under_review(&mut ctx), Ok(()));
    assert_eq!(status(&ctx.collab_request), RequestStatus::UnderReview);
    assert_eq!(mark_under_review(&mut ctx), Err(ErrorCode::InvalidRequestStatus));
    assert_eq!(reject_collab_request(&mut ctx, text(501), 80), Err(ErrorCode::MessageTooLong));
    assert_eq!(reject_collab_request(&mut ctx, s("no"), 80), Ok(()));
    assert_eq!(status(&ctx.collab_request), RequestStatus::Rejected);
    assert_eq!(ctx.collab_request.data.as_ref().unwrap().reply_timestamp, 80);
}

#[test]
fn answered_request_does_not_move() {
    let p = make_project(1, "p", vec![]);
    let (req, p) = make_request(2, p, None);
    let mut ctx = answer_ctx(1, req, p);
    assert_eq!(accept_collab_request(&mut ctx, s("ok"), 70), Ok(()));
    assert_eq!(mark_under_review(&mut ctx), Err(ErrorCode::InvalidRequestStatus));
    assert_eq!(reject_collab_request(&mut ctx, s("no"), 71), Err(ErrorCode::InvalidRequestStatus));
    assert_eq!(accept_collab_request(&mut ctx, s("again"), 72), Err(ErrorCode::InvalidRequestStatus));
    assert_eq!(status(&ctx.collab_request), RequestStatus::Accepted);
    let mut edit = UpdateCollabMessage { program_id: pid(), collab_request: ctx.collab_request, sender: signer(2) };
    let r = update_collab_request(&mut edit, s("changed"));
    assert_eq!(r, Err(ErrorCode::InvalidRequestStatus));
    assert_eq!(r.unwrap_err().kind(), ErrorKind::State);
    assert_eq!(edit.collab_request.data.as_ref().unwrap().message, "let me in");
}

#[test]
fn answer_by_non_recipient_fails() {
    let p = make_project(1, "p", vec![]);
    let (req, p) = make_request(2, p, None);
    let mut ctx = answer_ctx(3, req, p);
    assert_eq!(accept_collab_request(&mut ctx, s("ok"), 70), Err(ErrorCode::ConstraintHasOne));
    assert_eq!(status(&ctx.collab_request), RequestStatus::Pending);
}

#[test]
fn answer_with_other_project_fails() {
    let p = make_project(1, "p", vec![]);
    let q = make_project(1, "q", vec![role(Role::QA, 1, 0)]);
    let (req, _p) = make_request(2, p, Some(Role::QA));
    let mut ctx = answer_ctx(1, req, q);
    assert_eq!(accept_collab_request(&mut ctx, s("ok"), 70), Err(ErrorCode::ConstraintHasOne));
    assert_eq!(ctx.project.data.as_ref().unwrap().required_roles[0].accepted, 0);
}

#[test]
fn sender_edits_pending_message() {
    let p = make_project(1, "p", vec![]);
    let (req, _p) = make_request(2, p, None);
    let mut edit = UpdateCollabMessage { program_id: pid(), collab_request: req, sender: signer(2) };
    assert_eq!(update_collab_request(&mut edit, text(501)), Err(ErrorCode::MessageTooLong));
    assert_eq!(update_collab_request(&mut edit, s("new text")), Ok(()));
    assert_eq!(edit.collab_request.data.as_ref().unwrap().message, "new text");
    assert_eq!(status(&edit.collab_request), RequestStatus::Pending);
    let mut other = UpdateCollabMessage { program_id: pid(), collab_request: edit.collab_request, sender: signer(3) };
    assert_eq!(update_collab_request(&mut other, s("x")), Err(ErrorCode::ConstraintSeeds));
}

#[test]
fn withdraw_accepted_request_fails_and_keeps_it() {
    let p = make_project(1, "p", vec![]);
    let (req, p) = make_request(2, p, None);
    let mut ctx = answer_ctx(1, req, p);
    assert_eq!(accept_collab_request(&mut ctx, s("ok"), 70), Ok(()));
    let before = ctx.collab_request.clone();
    let mut w = WithdrawCollabRequest { program_id: pid(), collab_request: ctx.collab_request, sender: signer(2) };
    let r = withdraw_collab_request(&mut w);
    assert_eq!(r, Err(ErrorCode::InvalidRequestStatus));
    assert_eq!(r.unwrap_err().kind(), ErrorKind::State);
    assert_eq!(w.collab_request, before);
    assert_eq!(w.sender.lamports, 1_000_000);
}

#[test]
fn withdraw_pending_request_refunds_sender() {
    let p = make_project(1, "p", vec![]);
    let (req, _p) = make_request(2, p, None);
    let lamports = req.lamports;
    let mut w = WithdrawCollabRequest { program_id: pid(), collab_request: req, sender: signer(2) };
    assert_eq!(withdraw_collab_request(&mut w), Ok(()));
    assert!(w.collab_request.data.is_none());
    assert_eq!(w.sender.lamports, 1_000_000 + lamports);
}

#[test]
fn recipient_deletes_only_answered_requests() {
    let p = make_project(1, "p", vec![]);
    let (req, p) = make_request(2, p, None);
    let mut d = DeleteCollabRequest { program_id: pid(), collab_request: req, project_owner: signer(1) };
    assert_eq!(delete_collab_request(&mut d), Err(ErrorCode::InvalidRequestStatus));
    let mut ctx = answer_ctx(1, d.collab_request, p);
    assert_eq!(mark_under_review(&mut ctx), Ok(()));
    let lamports = ctx.collab_request.lamports;
    let mut d = DeleteCollabRequest { program_id: pid(), collab_request: ctx.collab_request, project_owner: signer(1) };
    assert_eq!(delete_collab_request(&mut d), Ok(()));
    assert!(d.collab_request.data.is_none());
    assert_eq!(d.project_owner.lamports, 1_000_000 + lamports);
}

#[test]
fn sender_deletes_only_rejected_requests() {
    let p = make_project(1, "p", vec![]);
    let (req, p) = make_request(2, p, None);
    let mut d = DeleteSenderRejectedRequest { program_id: pid(), collab_request: req, sender: signer(2) };
    assert_eq!(delete_sender_rejected_request(&mut d), Err(ErrorCode::InvalidRequestStatus));
    let mut ctx = answer_ctx(1, d.collab_request, p);
    assert_eq!(reject_collab_request(&mut ctx, s("no"), 80), Ok(()));
    let mut d = DeleteSenderRejectedRequest { program_id: pid(), collab_request: ctx.collab_request, sender: signer(2) };
    assert_eq!(delete_sender_rejected_request(&mut d), Ok(()));
    assert!(d.collab_request.data.is_none());
    let (again, _p) = make_request(2, ctx.project, None);
    assert_eq!(status(&again), RequestStatus::Pending);
}

#[test]
fn verification_flag_changes_alone() {
    let mut acc = make_user(11, 1);
    assert_eq!(devcol_solana::user::set_verification(&mut acc, true), Ok(()));
    let u = acc.data.as_ref().unwrap();
    assert!(u.is_verified);
    assert_eq!(u.display_name, "Ann");
    assert_eq!(u.last_active, 1);
    let mut none: Account<User> = empty(key(3));
    assert_eq!(devcol_solana::user::set_verification(&mut none, true), Err(ErrorCode::AccountNotInitialized));
}
