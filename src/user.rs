use vstd::prelude::*;
use crate::address::{
    Account, Address, Signer, derives, program_address, user_seeds, user_seeds_of, verify_address,
};
use crate::error::{ErrorCode, check, first_err, outcome};
use crate::model::{
    USER_SPACE, ProfileVisibility, User, close_account, close_overflows, closed, or_keep, with_data,
};
use crate::text::{
    MAX_BIO, MAX_CONTACT_INFO, MAX_DISPLAY_NAME, MAX_GITHUB_LINK, MAX_HASH, MAX_LOCATION,
    MAX_USERNAME, MAX_USER_ROLE, check_len, check_opt_len, is_blank, len_check, opt_len_check,
    trimmed,
};

verus! {

/// Accounts of `create_user`: the account to hold the new profile and its owner.
pub struct CreateUser {
    pub program_id: Address,
    pub user: Account<User>,
    pub signer: Signer,
}

/// Accounts of `update_user`: the owner's profile and the owner.
pub struct UpdateUser {
    pub program_id: Address,
    pub user: Account<User>,
    pub signer: Signer,
}

/// Accounts of `migrate_user_account`: the profile, and its owner, who pays
/// for the larger account.
pub struct MigrateUser {
    pub program_id: Address,
    pub user: Account<User>,
    pub signer: Signer,
}

/// Accounts of `delete_user`: the profile, and its owner, who gets its balance.
pub struct DeleteUser {
    pub program_id: Address,
    pub user: Account<User>,
    pub signer: Signer,
}

/// The first field of a profile that is too long, in the order of the fields.
pub open spec fn user_fields_error(
    username: Seq<char>,
    display_name: Seq<char>,
    role: Seq<char>,
    location: Seq<char>,
    bio: Seq<char>,
    github_link: Seq<char>,
    ipfs_metadata_hash: Seq<char>,
    contact_info: Seq<char>,
) -> Option<ErrorCode> {
    first_err(len_check(username, 32, ErrorCode::UsernameTooLong),
    first_err(len_check(display_name, 64, ErrorCode::DisplayNameTooLong),
    first_err(len_check(role, 50, ErrorCode::RoleTooLong),
    first_err(len_check(location, 50, ErrorCode::LocationTooLong),
    first_err(len_check(bio, 200, ErrorCode::BioTooLong),
    first_err(len_check(github_link, 100, ErrorCode::GithubLinkTooLong),
    first_err(len_check(ipfs_metadata_hash, 64, ErrorCode::IpfsHashTooLong),
    len_check(contact_info, 200, ErrorCode::ContactInfoTooLong))))))))
}

/// Checks the fields of a profile; each text has its own byte limit.
pub fn validate_user_fields(
    username: &String,
    display_name: &String,
    role: &String,
    location: &String,
    bio: &String,
    github_link: &String,
    ipfs_metadata_hash: &String,
    contact_info: &String,
) -> (r: Result<(), ErrorCode>)
    ensures
        r == outcome(
            user_fields_error(
                username@,
                display_name@,
                role@,
                location@,
                bio@,
                github_link@,
                ipfs_metadata_hash@,
                contact_info@,
            ),
        ),
{
    if let Some(e) = check_len(username, MAX_USERNAME, ErrorCode::UsernameTooLong) {
        return Err(e);
    }
    if let Some(e) = check_len(display_name, MAX_DISPLAY_NAME, ErrorCode::DisplayNameTooLong) {
        return Err(e);
    }
    if let Some(e) = check_len(role, MAX_USER_ROLE, ErrorCode::RoleTooLong) {
        return Err(e);
    }
    if let Some(e) = check_len(location, MAX_LOCATION, ErrorCode::LocationTooLong) {
        return Err(e);
    }
    if let Some(e) = check_len(bio, MAX_BIO, ErrorCode::BioTooLong) {
        return Err(e);
    }
    if let Some(e) = check_len(github_link, MAX_GITHUB_LINK, ErrorCode::GithubLinkTooLong) {
        return Err(e);
    }
    if let Some(e) = check_len(ipfs_metadata_hash, MAX_HASH, ErrorCode::IpfsHashTooLong) {
        return Err(e);
    }
    if let Some(e) = check_len(contact_info, MAX_CONTACT_INFO, ErrorCode::ContactInfoTooLong) {
        return Err(e);
    }
    Ok(())
}

/// The bump seed of the profile address of `owner`.
pub open spec fn user_bump(owner: Address, program_id: Address) -> u8 {
    (program_address(user_seeds(owner@), program_id@)->0).1
}

/// Why the profile in `user` may not be changed by `signer`, if it may not:
/// it is missing, it is not at the address derived from `signer`, or it
/// names another owner.
pub open spec fn user_auth_error(user: Account<User>, signer: Address, program_id: Address) -> Option<ErrorCode> {
    if user.data is None {
        Some(ErrorCode::AccountNotInitialized)
    } else if !derives(user_seeds(signer@), program_id@, user.key@) {
        Some(ErrorCode::ConstraintSeeds)
    } else if (user.data->0).wallet@ != signer@ {
        Some(ErrorCode::ConstraintHasOne)
    } else {
        None
    }
}

/// Checks that `signer` owns the profile in `user`, at its derived address.
pub fn authorize_user(user: &Account<User>, signer: &Address, program_id: &Address) -> (r: Option<ErrorCode>)
    ensures
        r == user_auth_error(*user, *signer, *program_id),
{
    match &user.data {
        None => Some(ErrorCode::AccountNotInitialized),
        Some(u) => {
            let seeds = user_seeds_of(signer);
            match verify_address(&user.key, &seeds, program_id) {
                None => Some(ErrorCode::ConstraintSeeds),
                Some(_) => {
                    if u.wallet.same(signer) {
                        None
                    } else {
                        Some(ErrorCode::ConstraintHasOne)
                    }
                },
            }
        },
    }
}

/// Why `create_user` fails, if it does.
pub open spec fn create_user_error(
    ctx: CreateUser,
    username: String,
    display_name: String,
    role: String,
    location: String,
    bio: String,
    github_link: String,
    ipfs_metadata_hash: String,
    contact_info: String,
) -> Option<ErrorCode> {
    if ctx.user.data is Some {
        Some(ErrorCode::AccountAlreadyInUse)
    } else if !derives(user_seeds(ctx.signer.key@), ctx.program_id@, ctx.user.key@) {
        Some(ErrorCode::ConstraintSeeds)
    } else {
        user_fields_error(
            username@,
            display_name@,
            role@,
            location@,
            bio@,
            github_link@,
            ipfs_metadata_hash@,
            contact_info@,
        )
    }
}

/// A new profile: counters at zero, unverified, open to collaboration and public.
pub open spec fn new_user(
    wallet: Address,
    username: String,
    display_name: String,
    role: String,
    location: String,
    bio: String,
    github_link: String,
    ipfs_metadata_hash: String,
    contact_info: String,
    now: i64,
    bump: u8,
) -> User {
    User {
        wallet,
        username,
        display_name,
        role,
        location,
        bio,
        github_link,
        ipfs_metadata_hash,
        contact_info,
        reputation: 0,
        projects_count: 0,
        collabs_count: 0,
        member_since: now,
        last_active: now,
        is_verified: false,
        open_to_collab: true,
        profile_visibility: ProfileVisibility::Public,
        bump,
    }
}

/// Creates the profile of the signer at the address derived from it, at
/// time `now`.
pub fn create_user(
    ctx: &mut CreateUser,
    username: String,
    display_name: String,
    role: String,
    location: String,
    bio: String,
    github_link: String,
    ipfs_metadata_hash: String,
    contact_info: String,
    now: i64,
) -> (r: Result<(), ErrorCode>)
    ensures
        r == outcome(
            create_user_error(
                *old(ctx),
                username,
                display_name,
                role,
                location,
                bio,
                github_link,
                ipfs_metadata_hash,
                contact_info,
            ),
        ),
        r is Err ==> *final(ctx) == *old(ctx),
        r is Ok ==> final(ctx).program_id == old(ctx).program_id && final(ctx).signer == old(ctx).signer
            && final(ctx).user.key == old(ctx).user.key && final(ctx).user.lamports
            == old(ctx).user.lamports && final(ctx).user.data_len == USER_SPACE
            && final(ctx).user.data == Some(
            new_user(
                old(ctx).signer.key,
                username,
                display_name,
                role,
                location,
                bio,
                github_link,
                ipfs_metadata_hash,
                contact_info,
                now,
                user_bump(old(ctx).signer.key, old(ctx).program_id),
            ),
        ),
{
    if ctx.user.data.is_some() {
        return Err(ErrorCode::AccountAlreadyInUse);
    }
    let seeds = user_seeds_of(&ctx.signer.key);
    let bump = match verify_address(&ctx.user.key, &seeds, &ctx.program_id) {
        None => {
            return Err(ErrorCode::ConstraintSeeds);
        },
        Some(b) => b,
    };
    validate_user_fields(
        &username,
        &display_name,
        &role,
        &location,
        &bio,
        &github_link,
        &ipfs_metadata_hash,
        &contact_info,
    )?;
    ctx.user.data = Some(
        User {
            wallet: ctx.signer.key,
            username,
            display_name,
            role,
            location,
            bio,
            github_link,
            ipfs_metadata_hash,
            contact_info,
            reputation: 0,
            projects_count: 0,
            collabs_count: 0,
            member_since: now,
            last_active: now,
            is_verified: false,
            open_to_collab: true,
            profile_visibility: ProfileVisibility::Public,
            bump,
        },
    );
    ctx.user.data_len = USER_SPACE;
    Ok(())
}

/// Why `update_user` fails, if it does.
pub open spec fn update_user_error(
    ctx: UpdateUser,
    display_name: Option<String>,
    role: Option<String>,
    location: Option<String>,
    bio: Option<String>,
    github_link: Option<String>,
    ipfs_metadata_hash: Option<String>,
    contact_info: Option<String>,
) -> Option<ErrorCode> {
    first_err(user_auth_error(ctx.user, ctx.signer.key, ctx.program_id),
    first_err(opt_len_check(display_name, 64, ErrorCode::DisplayNameTooLong),
    first_err(opt_len_check(role, 50, ErrorCode::RoleTooLong),
    first_err(opt_len_check(location, 50, ErrorCode::LocationTooLong),
    first_err(opt_len_check(bio, 200, ErrorCode::BioTooLong),
    first_err(opt_len_check(github_link, 100, ErrorCode::GithubLinkTooLong),
    first_err(opt_len_check(ipfs_metadata_hash, 64, ErrorCode::IpfsHashTooLong),
    opt_len_check(contact_info, 200, ErrorCode::ContactInfoTooLong))))))))
}

/// `u` with each present field replaced and its last activity at `now`.
pub open spec fn updated_user(
    u: User,
    display_name: Option<String>,
    role: Option<String>,
    location: Option<String>,
    bio: Option<String>,
    github_link: Option<String>,
    ipfs_metadata_hash: Option<String>,
    contact_info: Option<String>,
    open_to_collab: Option<bool>,
    profile_visibility: Option<ProfileVisibility>,
    now: i64,
) -> User {
    User {
        display_name: or_keep(display_name, u.display_name),
        role: or_keep(role, u.role),
        location: or_keep(location, u.location),
        bio: or_keep(bio, u.bio),
        github_link: or_keep(github_link, u.github_link),
        ipfs_metadata_hash: or_keep(ipfs_metadata_hash, u.ipfs_metadata_hash),
        contact_info: or_keep(contact_info, u.contact_info),
        open_to_collab: or_keep(open_to_collab, u.open_to_collab),
        profile_visibility: or_keep(profile_visibility, u.profile_visibility),
        last_active: now,
        ..u
    }
}

/// Replaces the present fields of the signer's profile, at time `now`;
/// an absent field keeps its value.
pub fn update_user(
    ctx: &mut UpdateUser,
    display_name: Option<String>,
    role: Option<String>,
    location: Option<String>,
    bio: Option<String>,
    github_link: Option<String>,
    ipfs_metadata_hash: Option<String>,
    contact_info: Option<String>,
    open_to_collab: Option<bool>,
    profile_visibility: Option<ProfileVisibility>,
    now: i64,
) -> (r: Result<(), ErrorCode>)
    ensures
        r == outcome(
            update_user_error(
                *old(ctx),
                display_name,
                role,
                location,
                bio,
                github_link,
                ipfs_metadata_hash,
                contact_info,
            ),
        ),
        r is Err ==> *final(ctx) == *old(ctx),
        r is Ok ==> final(ctx).program_id == old(ctx).program_id && final(ctx).signer == old(ctx).signer
            && final(ctx).user == with_data(
            old(ctx).user,
            updated_user(
                old(ctx).user.data->0,
                display_name,
                role,
                location,
                bio,
                github_link,
                ipfs_metadata_hash,
                contact_info,
                open_to_collab,
                profile_visibility,
                now,
            ),
        ),
{
    if let Some(e) = authorize_user(&ctx.user, &ctx.signer.key, &ctx.program_id) {
        return Err(e);
    }
    if let Some(e) = check_opt_len(&display_name, MAX_DISPLAY_NAME, ErrorCode::DisplayNameTooLong) {
        return Err(e);
    }
    if let Some(e) = check_opt_len(&role, MAX_USER_ROLE, ErrorCode::RoleTooLong) {
        return Err(e);
    }
    if let Some(e) = check_opt_len(&location, MAX_LOCATION, ErrorCode::LocationTooLong) {
        return Err(e);
    }
    if let Some(e) = check_opt_len(&bio, MAX_BIO, ErrorCode::BioTooLong) {
        return Err(e);
    }
    if let Some(e) = check_opt_len(&github_link, MAX_GITHUB_LINK, ErrorCode::GithubLinkTooLong) {
        return Err(e);
    }
    if let Some(e) = check_opt_len(&ipfs_metadata_hash, MAX_HASH, ErrorCode::IpfsHashTooLong) {
        return Err(e);
    }
    if let Some(e) = check_opt_len(&contact_info, MAX_CONTACT_INFO, ErrorCode::ContactInfoTooLong) {
        return Err(e);
    }
    match &mut ctx.user.data {
        Some(u) => {
            if let Some(x) = display_name {
                u.display_name = x;
            }
            if let Some(x) = role {
                u.role = x;
            }
            if let Some(x) = location {
                u.location = x;
            }
            if let Some(x) = bio {
                u.bio = x;
            }
            if let Some(x) = github_link {
                u.github_link = x;
            }
            if let Some(x) = ipfs_metadata_hash {
                u.ipfs_metadata_hash = x;
            }
            if let Some(x) = contact_info {
                u.contact_info = x;
            }
            if let Some(x) = open_to_collab {
                u.open_to_collab = x;
            }
            if let Some(x) = profile_visibility {
                u.profile_visibility = x;
            }
            u.last_active = now;
        },
        None => {},
    }
    Ok(())
}

/// What migrating an account of `data_len` bytes holding `lamports` costs
/// its owner, where `rent_minimum` is the balance that keeps an account of
/// `USER_SPACE` bytes alive: the shortfall of an undersized account, else
/// nothing.
pub open spec fn migrate_charge(data_len: usize, lamports: u64, rent_minimum: u64) -> u64 {
    if data_len < USER_SPACE && lamports < rent_minimum {
        (rent_minimum - lamports) as u64
    } else {
        0
    }
}

/// Why `migrate_user_account` fails, if it does.
pub open spec fn migrate_user_error(ctx: MigrateUser, contact_info: String, rent_minimum: u64) -> Option<ErrorCode> {
    first_err(user_auth_error(ctx.user, ctx.signer.key, ctx.program_id),
    first_err(len_check(contact_info@, 200, ErrorCode::ContactInfoTooLong),
    first_err(check(trimmed(contact_info@).len() > 0, ErrorCode::ContactInfoRequired),
    check(ctx.signer.lamports >= migrate_charge(ctx.user.data_len, ctx.user.lamports, rent_minimum),
        ErrorCode::InsufficientFunds))))
}

/// The profile account after a migration.
pub open spec fn migrated_user(acc: Account<User>, contact_info: String, rent_minimum: u64, now: i64) -> Account<User> {
    Account {
        key: acc.key,
        lamports: (acc.lamports + migrate_charge(acc.data_len, acc.lamports, rent_minimum)) as u64,
        data_len: if acc.data_len < USER_SPACE { USER_SPACE } else { acc.data_len },
        data: Some(User { contact_info, last_active: now, ..acc.data->0 }),
    }
}

/// Brings a profile stored under an older, smaller layout to the current
/// one: grows the account to `USER_SPACE`, moves from the owner what the
/// account lacks of `rent_minimum`, and sets the contact information. An
/// account that is already large enough is not charged.
pub fn migrate_user_account(
    ctx: &mut MigrateUser,
    contact_info: String,
    rent_minimum: u64,
    now: i64,
) -> (r: Result<(), ErrorCode>)
    ensures
        r == outcome(migrate_user_error(*old(ctx), contact_info, rent_minimum)),
        r is Err ==> *final(ctx) == *old(ctx),
        r is Ok ==> final(ctx).program_id == old(ctx).program_id && final(ctx).user == migrated_user(
            old(ctx).user,
            contact_info,
            rent_minimum,
            now,
        ) && final(ctx).signer.key == old(ctx).signer.key && final(ctx).signer.lamports
            == old(ctx).signer.lamports - migrate_charge(
            old(ctx).user.data_len,
            old(ctx).user.lamports,
            rent_minimum,
        ),
{
    if let Some(e) = authorize_user(&ctx.user, &ctx.signer.key, &ctx.program_id) {
        return Err(e);
    }
    if let Some(e) = check_len(&contact_info, MAX_CONTACT_INFO, ErrorCode::ContactInfoTooLong) {
        return Err(e);
    }
    if is_blank(&contact_info) {
        return Err(ErrorCode::ContactInfoRequired);
    }
    let charge: u64 = if ctx.user.data_len < USER_SPACE && ctx.user.lamports < rent_minimum {
        rent_minimum - ctx.user.lamports
    } else {
        0
    };
    if ctx.signer.lamports < charge {
        return Err(ErrorCode::InsufficientFunds);
    }
    if ctx.user.data_len < USER_SPACE {
        ctx.user.data_len = USER_SPACE;
    }
    ctx.signer.lamports = ctx.signer.lamports - charge;
    ctx.user.lamports = ctx.user.lamports + charge;
    match &mut ctx.user.data {
        Some(u) => {
            u.contact_info = contact_info;
            u.last_active = now;
        },
        None => {},
    }
    Ok(())
}

/// Why `delete_user` fails, if it does.
pub open spec fn delete_user_error(ctx: DeleteUser) -> Option<ErrorCode> {
    first_err(user_auth_error(ctx.user, ctx.signer.key, ctx.program_id),
    check(!close_overflows(ctx.user, ctx.signer), ErrorCode::ArithmeticOverflow))
}

/// Closes the signer's profile and returns its whole balance to the signer.
pub fn delete_user(ctx: &mut DeleteUser) -> (r: Result<(), ErrorCode>)
    ensures
        r == outcome(delete_user_error(*old(ctx))),
        r is Err ==> *final(ctx) == *old(ctx),
        r is Ok ==> final(ctx).program_id == old(ctx).program_id && final(ctx).user == closed(
            old(ctx).user,
        ) && final(ctx).signer.key == old(ctx).signer.key && final(ctx).signer.lamports
            == old(ctx).signer.lamports + old(ctx).user.lamports,
{
    if let Some(e) = authorize_user(&ctx.user, &ctx.signer.key, &ctx.program_id) {
        return Err(e);
    }
    close_account(&mut ctx.user, &mut ctx.signer)
}

/// Sets whether a profile is verified. This is the one change open to a
/// trust authority outside this library; it grants no other change, and
/// the caller decides who that authority is.
pub fn set_verification(user: &mut Account<User>, verified: bool) -> (r: Result<(), ErrorCode>)
    ensures
        r == outcome(check(old(user).data is Some, ErrorCode::AccountNotInitialized)),
        r is Err ==> *final(user) == *old(user),
        r is Ok ==> *final(user) == with_data(
            *old(user),
            User { is_verified: verified, ..old(user).data->0 },
        ),
{
    match &mut user.data {
        Some(u) => {
            u.is_verified = verified;
            Ok(())
        },
        None => Err(ErrorCode::AccountNotInitialized),
    }
}

} // verus!
