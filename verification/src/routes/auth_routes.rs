//! Credentials: log in, set a password, change a password.
use vstd::prelude::*;
use crate::models::user::User;
use crate::plan::{Check, Guard, Notice, Plan, Script, Work};
use crate::store::{Collection, Filter, TextField};

verus! {

pub const LOGIN_DONE: &'static str = "Login successful";

/// The one message for every login that is refused: it does not tell an
/// unknown name from a wrong password.
pub const LOGIN_REFUSED: &'static str = "Invalid username or password";

pub const LOGIN_FAILED: &'static str = "Failed to login";

pub const PASSWORD_SET: &'static str = "Password set successfully";

pub const PASSWORD_NOT_SET: &'static str = "Failed to set password";

pub const ACCOUNT_MISSING: &'static str = "Error 10001 : User does not exist";

pub const PASSWORD_CHANGED: &'static str = "Password changed successfully";

pub const PASSWORD_NOT_CHANGED: &'static str = "Failed to change password";

pub const EMAIL_UNKNOWN: &'static str = "Invalid username";

pub const OLD_PASSWORD_REFUSED: &'static str = "Invalid old password";

#[derive(Clone, Debug, PartialEq, Eq)]
pub struct LoginRequest {
    pub username: String,
    pub password: String,
}

#[derive(Clone, Debug, PartialEq, Eq)]
pub struct PasswordChangeRequest {
    pub email: String,
    pub old_password: String,
    pub new_password: String,
}

/// The plan of a login: look the user up by name and check the password
/// against the digest; there is nothing to write.
pub open spec fn login(request: LoginRequest) -> Plan {
    Plan::Scripted(
        Script {
            guard: Some(
                Guard {
                    collection: Collection::Users,
                    filter: Filter::Text { field: TextField::Username, value: request.username },
                    check: Check::Password {
                        plain: request.password,
                        unknown: LOGIN_REFUSED,
                        mismatch: LOGIN_REFUSED,
                    },
                },
            ),
            work: Work::Nothing { done: Notice::Plain(LOGIN_DONE) },
            failed: LOGIN_FAILED,
        },
    )
}

/// The plan of setting a password: no earlier password is asked for; the
/// user with this email gets a digest of the new one.
pub open spec fn password_reset(email: String, password: String) -> Plan {
    Plan::Scripted(
        Script {
            guard: None,
            work: Work::Rekey {
                collection: Collection::Users,
                filter: Filter::Text { field: TextField::Email, value: email },
                plain: password,
                done: Notice::Plain(PASSWORD_SET),
                missing: ACCOUNT_MISSING,
            },
            failed: PASSWORD_NOT_SET,
        },
    )
}

/// The plan of changing a password: the old password is checked against the
/// digest of the user with this email, and only where it is accepted is a
/// digest of the new one made and stored. An unknown email and a refused
/// password end in different messages.
pub open spec fn password_change(request: PasswordChangeRequest) -> Plan {
    Plan::Scripted(
        Script {
            guard: Some(
                Guard {
                    collection: Collection::Users,
                    filter: Filter::Text { field: TextField::Email, value: request.email },
                    check: Check::Password {
                        plain: request.old_password,
                        unknown: EMAIL_UNKNOWN,
                        mismatch: OLD_PASSWORD_REFUSED,
                    },
                },
            ),
            work: Work::Rekey {
                collection: Collection::Users,
                filter: Filter::Text { field: TextField::Email, value: request.email },
                plain: request.new_password,
                done: Notice::Plain(PASSWORD_CHANGED),
                missing: EMAIL_UNKNOWN,
            },
            failed: PASSWORD_NOT_CHANGED,
        },
    )
}

pub fn login_user(login_request: LoginRequest) -> (plan: Plan)
    ensures
        plan == login(login_request),
{
    Plan::Scripted(
        Script {
            guard: Some(
                Guard {
                    collection: Collection::Users,
                    filter: Filter::Text {
                        field: TextField::Username,
                        value: login_request.username,
                    },
                    check: Check::Password {
                        plain: login_request.password,
                        unknown: LOGIN_REFUSED,
                        mismatch: LOGIN_REFUSED,
                    },
                },
            ),
            work: Work::Nothing { done: Notice::Plain(LOGIN_DONE) },
            failed: LOGIN_FAILED,
        },
    )
}

/// Sets the password of the user whose email `user` carries to the
/// password that `user` carries, as plaintext.
pub fn set_password(user: User) -> (plan: Plan)
    ensures
        plan == password_reset(user.email, user.password),
{
    Plan::Scripted(
        Script {
            guard: None,
            work: Work::Rekey {
                collection: Collection::Users,
                filter: Filter::Text { field: TextField::Email, value: user.email },
                plain: user.password,
                done: Notice::Plain(PASSWORD_SET),
                missing: ACCOUNT_MISSING,
            },
            failed: PASSWORD_NOT_SET,
        },
    )
}

pub fn change_password(password_change_request: PasswordChangeRequest) -> (plan: Plan)
    ensures
        plan == password_change(password_change_request),
{
    let email = password_change_request.email.clone();
    Plan::Scripted(
        Script {
            guard: Some(
                Guard {
                    collection: Collection::Users,
                    filter: Filter::Text { field: TextField::Email, value: email },
                    check: Check::Password {
                        plain: password_change_request.old_password,
                        unknown: EMAIL_UNKNOWN,
                        mismatch: OLD_PASSWORD_REFUSED,
                    },
                },
            ),
            work: Work::Rekey {
                collection: Collection::Users,
                filter: Filter::Text {
                    field: TextField::Email,
                    value: password_change_request.email,
                },
                plain: password_change_request.new_password,
                done: Notice::Plain(PASSWORD_CHANGED),
                missing: EMAIL_UNKNOWN,
            },
            failed: PASSWORD_NOT_CHANGED,
        },
    )
}

} // verus!
