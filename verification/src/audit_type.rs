//! The kinds of operation that the audit trail records.

use vstd::prelude::*;
use vstd::string::StringExecFns;
use crate::text::str_eq;

verus! {

/// The operation that an audit record is about.
#[derive(Clone, Copy, Debug, PartialEq, Eq, Structural)]
pub enum AuditType {
    Metrics,
    AuditList,
    AuditCreate,
    AuditRead,
    AuditUpdate,
    KeyList,
    KeyCreate,
    KeyRead,
    KeyUpdate,
    KeyDelete,
    ServiceList,
    ServiceCreate,
    ServiceRead,
    ServiceUpdate,
    ServiceDelete,
    UserList,
    UserCreate,
    UserRead,
    UserUpdate,
    UserDelete,
    AuthLocalLogin,
    AuthLocalRegister,
    AuthLocalRegisterConfirm,
    AuthLocalRegisterRevoke,
    AuthLocalResetPassword,
    AuthLocalResetPasswordConfirm,
    AuthLocalResetPasswordRevoke,
    AuthLocalUpdateEmail,
    AuthLocalUpdateEmailRevoke,
    AuthLocalUpdatePassword,
    AuthLocalUpdatePasswordRevoke,
    AuthGithubOauth2Url,
    AuthGithubOauth2Callback,
    AuthMicrosoftOauth2Url,
    AuthMicrosoftOauth2Callback,
    AuthOauth2Login,
    AuthKeyVerify,
    AuthKeyRevoke,
    AuthTokenVerify,
    AuthTokenRefresh,
    AuthTokenRevoke,
    AuthTotp,
    AuthCsrfCreate,
    AuthCsrfVerify,
}

impl AuditType {
    /// The name under which the operation is recorded.
    pub open spec fn name(self) -> Seq<char> {
        match self {
            AuditType::Metrics => "SsoMetrics"@,
            AuditType::AuditList => "SsoAuditList"@,
            AuditType::AuditCreate => "SsoAuditCreate"@,
            AuditType::AuditRead => "SsoAuditRead"@,
            AuditType::AuditUpdate => "SsoAuditUpdate"@,
            AuditType::KeyList => "SsoKeyList"@,
            AuditType::KeyCreate => "SsoKeyCreate"@,
            AuditType::KeyRead => "SsoKeyRead"@,
            AuditType::KeyUpdate => "SsoKeyUpdate"@,
            AuditType::KeyDelete => "SsoKeyDelete"@,
            AuditType::ServiceList => "SsoServiceList"@,
            AuditType::ServiceCreate => "SsoServiceCreate"@,
            AuditType::ServiceRead => "SsoServiceRead"@,
            AuditType::ServiceUpdate => "SsoServiceUpdate"@,
            AuditType::ServiceDelete => "SsoServiceDelete"@,
            AuditType::UserList => "SsoUserList"@,
            AuditType::UserCreate => "SsoUserCreate"@,
            AuditType::UserRead => "SsoUserRead"@,
            AuditType::UserUpdate => "SsoUserUpdate"@,
            AuditType::UserDelete => "SsoUserDelete"@,
            AuditType::AuthLocalLogin => "SsoAuthLocalLogin"@,
            AuditType::AuthLocalRegister => "SsoAuthLocalRegister"@,
            AuditType::AuthLocalRegisterConfirm => "SsoAuthLocalRegisterConfirm"@,
            AuditType::AuthLocalRegisterRevoke => "SsoAuthLocalRegisterRevoke"@,
            AuditType::AuthLocalResetPassword => "SsoAuthLocalResetPassword"@,
            AuditType::AuthLocalResetPasswordConfirm => "SsoAuthLocalResetPasswordConfirm"@,
            AuditType::AuthLocalResetPasswordRevoke => "SsoAuthLocalResetPasswordRevoke"@,
            AuditType::AuthLocalUpdateEmail => "SsoAuthLocalUpdateEmail"@,
            AuditType::AuthLocalUpdateEmailRevoke => "SsoAuthLocalUpdateEmailRevoke"@,
            AuditType::AuthLocalUpdatePassword => "SsoAuthLocalUpdatePassword"@,
            AuditType::AuthLocalUpdatePasswordRevoke => "SsoAuthLocalUpdatePasswordRevoke"@,
            AuditType::AuthGithubOauth2Url => "SsoAuthGithubOauth2Url"@,
            AuditType::AuthGithubOauth2Callback => "SsoAuthGithubOauth2Callback"@,
            AuditType::AuthMicrosoftOauth2Url => "SsoAuthMicrosoftOauth2Url"@,
            AuditType::AuthMicrosoftOauth2Callback => "SsoAuthMicrosoftOauth2Callback"@,
            AuditType::AuthOauth2Login => "SsoAuthOauth2Login"@,
            AuditType::AuthKeyVerify => "SsoAuthKeyVerify"@,
            AuditType::AuthKeyRevoke => "SsoAuthKeyRevoke"@,
            AuditType::AuthTokenVerify => "SsoAuthTokenVerify"@,
            AuditType::AuthTokenRefresh => "SsoAuthTokenRefresh"@,
            AuditType::AuthTokenRevoke => "SsoAuthTokenRevoke"@,
            AuditType::AuthTotp => "SsoAuthTotp"@,
            AuditType::AuthCsrfCreate => "SsoAuthCsrfCreate"@,
            AuditType::AuthCsrfVerify => "SsoAuthCsrfVerify"@,
        }
    }

    /// The name under which the operation is recorded.
    pub fn to_string(self) -> (r: String)
        ensures
            r@ == self.name(),
    {
        String::from_str(self.as_str())
    }

    /// The name under which the operation is recorded, as a literal.
    pub fn as_str(self) -> (r: &'static str)
        ensures
            r@ == self.name(),
    {
        match self {
            AuditType::Metrics => "SsoMetrics",
            AuditType::AuditList => "SsoAuditList",
            AuditType::AuditCreate => "SsoAuditCreate",
            AuditType::AuditRead => "SsoAuditRead",
            AuditType::AuditUpdate => "SsoAuditUpdate",
            AuditType::KeyList => "SsoKeyList",
            AuditType::KeyCreate => "SsoKeyCreate",
            AuditType::KeyRead => "SsoKeyRead",
            AuditType::KeyUpdate => "SsoKeyUpdate",
            AuditType::KeyDelete => "SsoKeyDelete",
            AuditType::ServiceList => "SsoServiceList",
            AuditType::ServiceCreate => "SsoServiceCreate",
            AuditType::ServiceRead => "SsoServiceRead",
            AuditType::ServiceUpdate => "SsoServiceUpdate",
            AuditType::ServiceDelete => "SsoServiceDelete",
            AuditType::UserList => "SsoUserList",
            AuditType::UserCreate => "SsoUserCreate",
            AuditType::UserRead => "SsoUserRead",
            AuditType::UserUpdate => "SsoUserUpdate",
            AuditType::UserDelete => "SsoUserDelete",
            AuditType::AuthLocalLogin => "SsoAuthLocalLogin",
            AuditType::AuthLocalRegister => "SsoAuthLocalRegister",
            AuditType::AuthLocalRegisterConfirm => "SsoAuthLocalRegisterConfirm",
            AuditType::AuthLocalRegisterRevoke => "SsoAuthLocalRegisterRevoke",
            AuditType::AuthLocalResetPassword => "SsoAuthLocalResetPassword",
            AuditType::AuthLocalResetPasswordConfirm => "SsoAuthLocalResetPasswordConfirm",
            AuditType::AuthLocalResetPasswordRevoke => "SsoAuthLocalResetPasswordRevoke",
            AuditType::AuthLocalUpdateEmail => "SsoAuthLocalUpdateEmail",
            AuditType::AuthLocalUpdateEmailRevoke => "SsoAuthLocalUpdateEmailRevoke",
            AuditType::AuthLocalUpdatePassword => "SsoAuthLocalUpdatePassword",
            AuditType::AuthLocalUpdatePasswordRevoke => "SsoAuthLocalUpdatePasswordRevoke",
            AuditType::AuthGithubOauth2Url => "SsoAuthGithubOauth2Url",
            AuditType::AuthGithubOauth2Callback => "SsoAuthGithubOauth2Callback",
            AuditType::AuthMicrosoftOauth2Url => "SsoAuthMicrosoftOauth2Url",
            AuditType::AuthMicrosoftOauth2Callback => "SsoAuthMicrosoftOauth2Callback",
            AuditType::AuthOauth2Login => "SsoAuthOauth2Login",
            AuditType::AuthKeyVerify => "SsoAuthKeyVerify",
            AuditType::AuthKeyRevoke => "SsoAuthKeyRevoke",
            AuditType::AuthTokenVerify => "SsoAuthTokenVerify",
            AuditType::AuthTokenRefresh => "SsoAuthTokenRefresh",
            AuditType::AuthTokenRevoke => "SsoAuthTokenRevoke",
            AuditType::AuthTotp => "SsoAuthTotp",
            AuditType::AuthCsrfCreate => "SsoAuthCsrfCreate",
            AuditType::AuthCsrfVerify => "SsoAuthCsrfVerify",
        }
    }

    /// The operation recorded under `s`, if there is one.
    pub fn from_string(s: &str) -> (r: Option<AuditType>)
        ensures
            r matches Some(t) ==> t.name() == s@,
            r is None ==> forall|t: AuditType| t.name() != s@,
    {
        if str_eq(s, "SsoMetrics") {
            Some(AuditType::Metrics)
        } else if str_eq(s, "SsoAuditList") {
            Some(AuditType::AuditList)
        } else if str_eq(s, "SsoAuditCreate") {
            Some(AuditType::AuditCreate)
        } else if str_eq(s, "SsoAuditRead") {
            Some(AuditType::AuditRead)
        } else if str_eq(s, "SsoAuditUpdate") {
            Some(AuditType::AuditUpdate)
        } else if str_eq(s, "SsoKeyList") {
            Some(AuditType::KeyList)
        } else if str_eq(s, "SsoKeyCreate") {
            Some(AuditType::KeyCreate)
        } else if str_eq(s, "SsoKeyRead") {
            Some(AuditType::KeyRead)
        } else if str_eq(s, "SsoKeyUpdate") {
            Some(AuditType::KeyUpdate)
        } else if str_eq(s, "SsoKeyDelete") {
            Some(AuditType::KeyDelete)
        } else if str_eq(s, "SsoServiceList") {
            Some(AuditType::ServiceList)
        } else if str_eq(s, "SsoServiceCreate") {
            Some(AuditType::ServiceCreate)
        } else if str_eq(s, "SsoServiceRead") {
            Some(AuditType::ServiceRead)
        } else if str_eq(s, "SsoServiceUpdate") {
            Some(AuditType::ServiceUpdate)
        } else if str_eq(s, "SsoServiceDelete") {
            Some(AuditType::ServiceDelete)
        } else if str_eq(s, "SsoUserList") {
            Some(AuditType::UserList)
        } else if str_eq(s, "SsoUserCreate") {
            Some(AuditType::UserCreate)
        } else if str_eq(s, "SsoUserRead") {
            Some(AuditType::UserRead)
        } else if str_eq(s, "SsoUserUpdate") {
            Some(AuditType::UserUpdate)
        } else if str_eq(s, "SsoUserDelete") {
            Some(AuditType::UserDelete)
        } else if str_eq(s, "SsoAuthLocalLogin") {
            Some(AuditType::AuthLocalLogin)
        } else if str_eq(s, "SsoAuthLocalRegister") {
            Some(AuditType::AuthLocalRegister)
        } else if str_eq(s, "SsoAuthLocalRegisterConfirm") {
            Some(AuditType::AuthLocalRegisterConfirm)
        } else if str_eq(s, "SsoAuthLocalRegisterRevoke") {
            Some(AuditType::AuthLocalRegisterRevoke)
        } else if str_eq(s, "SsoAuthLocalResetPassword") {
            Some(AuditType::AuthLocalResetPassword)
        } else if str_eq(s, "SsoAuthLocalResetPasswordConfirm") {
            Some(AuditType::AuthLocalResetPasswordConfirm)
        } else if str_eq(s, "SsoAuthLocalResetPasswordRevoke") {
            Some(AuditType::AuthLocalResetPasswordRevoke)
        } else if str_eq(s, "SsoAuthLocalUpdateEmail") {
            Some(AuditType::AuthLocalUpdateEmail)
        } else if str_eq(s, "SsoAuthLocalUpdateEmailRevoke") {
            Some(AuditType::AuthLocalUpdateEmailRevoke)
        } else if str_eq(s, "SsoAuthLocalUpdatePassword") {
            Some(AuditType::AuthLocalUpdatePassword)
        } else if str_eq(s, "SsoAuthLocalUpdatePasswordRevoke") {
            Some(AuditType::AuthLocalUpdatePasswordRevoke)
        } else if str_eq(s, "SsoAuthGithubOauth2Url") {
            Some(AuditType::AuthGithubOauth2Url)
        } else if str_eq(s, "SsoAuthGithubOauth2Callback") {
            Some(AuditType::AuthGithubOauth2Callback)
        } else if str_eq(s, "SsoAuthMicrosoftOauth2Url") {
            Some(AuditType::AuthMicrosoftOauth2Url)
        } else if str_eq(s, "SsoAuthMicrosoftOauth2Callback") {
            Some(AuditType::AuthMicrosoftOauth2Callback)
        } else if str_eq(s, "SsoAuthOauth2Login") {
            Some(AuditType::AuthOauth2Login)
        } else if str_eq(s, "SsoAuthKeyVerify") {
            Some(AuditType::AuthKeyVerify)
        } else if str_eq(s, "SsoAuthKeyRevoke") {
            Some(AuditType::AuthKeyRevoke)
        } else if str_eq(s, "SsoAuthTokenVerify") {
            Some(AuditType::AuthTokenVerify)
        } else if str_eq(s, "SsoAuthTokenRefresh") {
            Some(AuditType::AuthTokenRefresh)
        } else if str_eq(s, "SsoAuthTokenRevoke") {
            Some(AuditType::AuthTokenRevoke)
        } else if str_eq(s, "SsoAuthTotp") {
            Some(AuditType::AuthTotp)
        } else if str_eq(s, "SsoAuthCsrfCreate") {
            Some(AuditType::AuthCsrfCreate)
        } else if str_eq(s, "SsoAuthCsrfVerify") {
            Some(AuditType::AuthCsrfVerify)
        } else {
            None
        }
    }
}

} // verus!
