use vstd::prelude::*;

verus! {

/// The errors of every operation.
#[derive(Clone, Copy, Debug, PartialEq, Eq, Structural)]
pub enum ErrorCode {
    UsernameTooLong,
    GithubLinkTooLong,
    BioTooLong,
    DisplayNameTooLong,
    RoleTooLong,
    LocationTooLong,
    IpfsHashTooLong,
    NameTooLong,
    DescriptionTooLong,
    CollabLevelTooLong,
    TechTagTooLong,
    NeedTagTooLong,
    TechTagCountExceeded,
    NeedTagCountExceeded,
    CollabIntentTooLong,
    MessageTooLong,
    InvalidRequestStatus,
    TooManyRoles,
    InvalidRoleCounts,
    RoleNeededTooLarge,
    ContactInfoTooLong,
    ContactInfoRequired,
    RoleNotFound,
    RoleSlotFull,
    RoleLabelTooLong,
    /// An account that the operation reads holds no record.
    AccountNotInitialized,
    /// An account that the operation creates already holds a record.
    AccountAlreadyInUse,
    /// An account does not stand at the address derived from its seeds.
    ConstraintSeeds,
    /// The caller, or a linked account, is not the one the record names.
    ConstraintHasOne,
    /// The payer cannot cover a transfer.
    InsufficientFunds,
    /// A balance would overflow.
    ArithmeticOverflow,
}

/// The classes of errors: what went wrong, whatever the field or account.
#[derive(Clone, Copy, Debug, PartialEq, Eq, Structural)]
pub enum ErrorKind {
    Validation,
    Authorization,
    State,
    Capacity,
    Resource,
}

pub open spec fn kind_of(e: ErrorCode) -> ErrorKind {
    match e {
        ErrorCode::InvalidRequestStatus | ErrorCode::AccountNotInitialized
        | ErrorCode::AccountAlreadyInUse => ErrorKind::State,
        ErrorCode::RoleNotFound | ErrorCode::RoleSlotFull => ErrorKind::Capacity,
        ErrorCode::ConstraintSeeds | ErrorCode::ConstraintHasOne => ErrorKind::Authorization,
        ErrorCode::InsufficientFunds | ErrorCode::ArithmeticOverflow => ErrorKind::Resource,
        _ => ErrorKind::Validation,
    }
}

impl ErrorCode {
    /// The class this error belongs to.
    pub fn kind(&self) -> (r: ErrorKind)
        ensures
            r == kind_of(*self),
    {
        match self {
            ErrorCode::InvalidRequestStatus | ErrorCode::AccountNotInitialized
            | ErrorCode::AccountAlreadyInUse => ErrorKind::State,
            ErrorCode::RoleNotFound | ErrorCode::RoleSlotFull => ErrorKind::Capacity,
            ErrorCode::ConstraintSeeds | ErrorCode::ConstraintHasOne => ErrorKind::Authorization,
            ErrorCode::InsufficientFunds | ErrorCode::ArithmeticOverflow => ErrorKind::Resource,
            _ => ErrorKind::Validation,
        }
    }
}

/// The first error of two checks made in order.
pub open spec fn first_err(a: Option<ErrorCode>, b: Option<ErrorCode>) -> Option<ErrorCode> {
    if a is Some {
        a
    } else {
        b
    }
}

/// A check that fails with `e` unless `ok`.
pub open spec fn check(ok: bool, e: ErrorCode) -> Option<ErrorCode> {
    if ok {
        None
    } else {
        Some(e)
    }
}

/// What an operation returns when its first failing check is `e`.
pub open spec fn outcome(e: Option<ErrorCode>) -> Result<(), ErrorCode> {
    match e {
        Some(x) => Err(x),
        None => Ok(()),
    }
}

} // verus!
