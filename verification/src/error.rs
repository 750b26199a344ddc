//! Error taxonomy: a coarse kind that callers see, and a reason kept for the audit trail.

use vstd::prelude::*;

verus! {

/// Why an operation failed. Recorded in the audit trail, never decisive for a caller.
#[derive(Clone, Copy, Debug, PartialEq, Eq, Structural)]
pub enum DriverError {
    CsrfNotFoundOrUsed,
    CsrfServiceMismatch,
    CsrfKeyConflict,
    KeyValueConflict,
    KeyUndefined,
    KeyNotFound,
    KeyDisabled,
    KeyRevoked,
    KeyTypeMismatch,
    KeyServiceUndefined,
    KeyUserDefined,
    KeyServiceDefined,
    ServiceNotFound,
    ServiceDisabled,
    ServiceUserRegisterDisabled,
    ServiceCannotCreateServiceKey,
    ServiceProviderMicrosoftOauth2Disabled,
    UserNotFound,
    UserDisabled,
    UserEmailConflict,
    UserPasswordIncorrect,
    UserPasswordUndefined,
    UserPasswordUpdateRequired,
    UserResetPasswordDisabled,
    JwtInvalid,
    JwtClaimsTypeMismatch,
    JwtServiceMismatch,
    JwtUserMismatch,
    JwtKeyMismatch,
    JwtExpired,
    JwtCsrfUndefined,
    Bcrypt,
    PasswordHash,
    UrlParse,
    Oauth2Request,
    Oauth2Verifier,
    TotpInvalid,
    EmailSend,
    UuidParse,
    AuditNotFound,
    IdExhausted,
    ExpiryOverflow,
}

/// What a caller sees of a failure: the kind, with the reason attached for the audit trail.
#[derive(Clone, Copy, Debug, PartialEq, Eq, Structural)]
pub enum MethodError {
    BadRequest(DriverError),
    Unauthorised(DriverError),
    Forbidden(DriverError),
    NotFound(DriverError),
    Conflict(DriverError),
}

/// What an operation of the store or of the engine below the request boundary returns.
pub type DriverResult<T> = Result<T, DriverError>;

/// What an operation returns to its caller.
pub type MethodResult<T> = Result<T, MethodError>;

impl DriverError {
    /// A store-level conflict: a second record under a key that must be unique.
    pub open spec fn is_conflict(self) -> bool {
        self == DriverError::CsrfKeyConflict || self == DriverError::UserEmailConflict
            || self == DriverError::KeyValueConflict
    }
}

impl MethodError {
    /// The reason carried by the error, whatever its kind.
    pub open spec fn reason(self) -> DriverError {
        match self {
            MethodError::BadRequest(e) => e,
            MethodError::Unauthorised(e) => e,
            MethodError::Forbidden(e) => e,
            MethodError::NotFound(e) => e,
            MethodError::Conflict(e) => e,
        }
    }

    /// The error a lifecycle operation reports for a store-level failure:
    /// `Conflict` for a duplicate, `BadRequest` for everything else.
    pub open spec fn rejected(e: DriverError) -> MethodError {
        if e.is_conflict() {
            MethodError::Conflict(e)
        } else {
            MethodError::BadRequest(e)
        }
    }

    /// Wraps a store-level failure as [`MethodError::rejected`] describes.
    pub fn reject(e: DriverError) -> (r: MethodError)
        ensures
            r == MethodError::rejected(e),
    {
        if e == DriverError::CsrfKeyConflict || e == DriverError::UserEmailConflict
            || e == DriverError::KeyValueConflict {
            MethodError::Conflict(e)
        } else {
            MethodError::BadRequest(e)
        }
    }

    /// The reason carried by the error.
    pub fn get_reason(&self) -> (r: DriverError)
        ensures
            r == self.reason(),
    {
        match *self {
            MethodError::BadRequest(e) => e,
            MethodError::Unauthorised(e) => e,
            MethodError::Forbidden(e) => e,
            MethodError::NotFound(e) => e,
            MethodError::Conflict(e) => e,
        }
    }
}

} // verus!
