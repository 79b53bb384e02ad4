//! The surface of the service: which path names which operation, and how a
//! request that reached no operation is answered.
use crate::response::AuthError;
use crate::utils::str_eq;
use vstd::prelude::*;

verus! {

/// The name under which the service presents itself.
pub const SERVICE_NAME: &'static str = "auth-service";

/// The version that the service presents.
pub const SERVICE_VERSION: &'static str = "0.1";

/// An operation of the service. Those whose path starts with `public` are
/// open to users; the others are for the services of the site.
#[derive(Clone, Copy, Debug, PartialEq, Eq, Structural)]
pub enum Operation {
    Info,
    VerificationChallengeNew,
    ApiKeyNewValid,
    ApiKeyNewCancel,
    UserNew,
    UserDataNew,
    EmailNew,
    ParentPermissionNew,
    PasswordResetNew,
    PasswordNewReset,
    PasswordNewChange,
    UserView,
    UserDataView,
    PasswordView,
    EmailView,
    ParentPermissionView,
    VerificationChallengeView,
    ApiKeyView,
    GetUserById,
    GetUserByApiKeyIfValid,
}

impl Operation {
    /// The path of the operation, without a leading slash.
    pub open spec fn path(self) -> Seq<char> {
        match self {
            Operation::Info => "info"@,
            Operation::VerificationChallengeNew => "public/verification_challenge/new"@,
            Operation::ApiKeyNewValid => "public/api_key/new_valid"@,
            Operation::ApiKeyNewCancel => "public/api_key/new_cancel"@,
            Operation::UserNew => "public/user/new"@,
            Operation::UserDataNew => "public/user_data/new"@,
            Operation::EmailNew => "public/email/new"@,
            Operation::ParentPermissionNew => "public/parent_permission/new"@,
            Operation::PasswordResetNew => "public/password_reset/new"@,
            Operation::PasswordNewReset => "public/password/new_reset"@,
            Operation::PasswordNewChange => "public/password/new_change"@,
            Operation::UserView => "public/user/view"@,
            Operation::UserDataView => "public/user_data/view"@,
            Operation::PasswordView => "public/password/view"@,
            Operation::EmailView => "public/email/view"@,
            Operation::ParentPermissionView => "public/parent_permission/view"@,
            Operation::VerificationChallengeView => "public/verification_challenge/view"@,
            Operation::ApiKeyView => "public/api_key/view"@,
            Operation::GetUserById => "get_user_by_id"@,
            Operation::GetUserByApiKeyIfValid => "get_user_by_api_key_if_valid"@,
        }
    }

    /// The path of the operation, without a leading slash.
    pub fn path_str(self) -> (p: &'static str)
        ensures
            p@ == self.path(),
    {
        match self {
            Operation::Info => "info",
            Operation::VerificationChallengeNew => "public/verification_challenge/new",
            Operation::ApiKeyNewValid => "public/api_key/new_valid",
            Operation::ApiKeyNewCancel => "public/api_key/new_cancel",
            Operation::UserNew => "public/user/new",
            Operation::UserDataNew => "public/user_data/new",
            Operation::EmailNew => "public/email/new",
            Operation::ParentPermissionNew => "public/parent_permission/new",
            Operation::PasswordResetNew => "public/password_reset/new",
            Operation::PasswordNewReset => "public/password/new_reset",
            Operation::PasswordNewChange => "public/password/new_change",
            Operation::UserView => "public/user/view",
            Operation::UserDataView => "public/user_data/view",
            Operation::PasswordView => "public/password/view",
            Operation::EmailView => "public/email/view",
            Operation::ParentPermissionView => "public/parent_permission/view",
            Operation::VerificationChallengeView => "public/verification_challenge/view",
            Operation::ApiKeyView => "public/api_key/view",
            Operation::GetUserById => "get_user_by_id",
            Operation::GetUserByApiKeyIfValid => "get_user_by_api_key_if_valid",
        }
    }
}

/// What tells the path of an operation from the others: its length, and
/// its eighth and sixteenth character where it is that long.
spec fn mark(op: Operation) -> (nat, char, char) {
    match op {
        Operation::Info => (4, ' ', ' '),
        Operation::VerificationChallengeNew => (33, 'v', 't'),
        Operation::ApiKeyNewValid => (24, 'a', 'n'),
        Operation::ApiKeyNewCancel => (25, 'a', 'n'),
        Operation::UserNew => (15, 'u', ' '),
        Operation::UserDataNew => (20, 'u', 'a'),
        Operation::EmailNew => (16, 'e', 'w'),
        Operation::ParentPermissionNew => (28, 'p', 'e'),
        Operation::PasswordResetNew => (25, 'p', '_'),
        Operation::PasswordNewReset => (25, 'p', '/'),
        Operation::PasswordNewChange => (26, 'p', '/'),
        Operation::UserView => (16, 'u', 'w'),
        Operation::UserDataView => (21, 'u', 'a'),
        Operation::PasswordView => (20, 'p', '/'),
        Operation::EmailView => (17, 'e', 'e'),
        Operation::ParentPermissionView => (29, 'p', 'e'),
        Operation::VerificationChallengeView => (34, 'v', 't'),
        Operation::ApiKeyView => (19, 'a', 'v'),
        Operation::GetUserById => (14, 'r', ' '),
        Operation::GetUserByApiKeyIfValid => (28, 'r', '_'),
    }
}

proof fn lemma_mark(op: Operation)
    ensures
        op.path().len() == mark(op).0,
        op.path().len() > 7 ==> op.path()[7] == mark(op).1,
        op.path().len() > 15 ==> op.path()[15] == mark(op).2,
{
    match op {
        Operation::Info => {
            reveal_strlit("info");
        },
        Operation::VerificationChallengeNew => {
            reveal_strlit("public/verification_challenge/new");
        },
        Operation::ApiKeyNewValid => {
            reveal_strlit("public/api_key/new_valid");
        },
        Operation::ApiKeyNewCancel => {
            reveal_strlit("public/api_key/new_cancel");
        },
        Operation::UserNew => {
            reveal_strlit("public/user/new");
        },
        Operation::UserDataNew => {
            reveal_strlit("public/user_data/new");
        },
        Operation::EmailNew => {
            reveal_strlit("public/email/new");
        },
        Operation::ParentPermissionNew => {
            reveal_strlit("public/parent_permission/new");
        },
        Operation::PasswordResetNew => {
            reveal_strlit("public/password_reset/new");
        },
        Operation::PasswordNewReset => {
            reveal_strlit("public/password/new_reset");
        },
        Operation::PasswordNewChange => {
            reveal_strlit("public/password/new_change");
        },
        Operation::UserView => {
            reveal_strlit("public/user/view");
        },
        Operation::UserDataView => {
            reveal_strlit("public/user_data/view");
        },
        Operation::PasswordView => {
            reveal_strlit("public/password/view");
        },
        Operation::EmailView => {
            reveal_strlit("public/email/view");
        },
        Operation::ParentPermissionView => {
            reveal_strlit("public/parent_permission/view");
        },
        Operation::VerificationChallengeView => {
            reveal_strlit("public/verification_challenge/view");
        },
        Operation::ApiKeyView => {
            reveal_strlit("public/api_key/view");
        },
        Operation::GetUserById => {
            reveal_strlit("get_user_by_id");
        },
        Operation::GetUserByApiKeyIfValid => {
            reveal_strlit("get_user_by_api_key_if_valid");
        },
    }
}

/// No two operations share a path.
pub proof fn lemma_paths_differ(a: Operation, b: Operation)
    requires
        a.path() == b.path(),
    ensures
        a == b,
{
    lemma_mark(a);
    lemma_mark(b);
}

fn names(path: &str, op: Operation) -> (r: bool)
    ensures
        r == (path@ == op.path()),
{
    str_eq(path, op.path_str())
}

/// The operation that `path` names, if it names one. The path carries no
/// leading slash.
pub fn api(path: &str) -> (r: Option<Operation>)
    ensures
        forall|op: Operation| r == Some(op) <==> path@ == #[trigger] op.path(),
{
    proof {
        assert forall|a: Operation, b: Operation| #[trigger] a.path() == #[trigger] b.path() implies a
            == b by {
            lemma_paths_differ(a, b);
        }
    }
    if names(path, Operation::Info) {
        Some(Operation::Info)
    } else if names(path, Operation::VerificationChallengeNew) {
        Some(Operation::VerificationChallengeNew)
    } else if names(path, Operation::ApiKeyNewValid) {
        Some(Operation::ApiKeyNewValid)
    } else if names(path, Operation::ApiKeyNewCancel) {
        Some(Operation::ApiKeyNewCancel)
    } else if names(path, Operation::UserNew) {
        Some(Operation::UserNew)
    } else if names(path, Operation::UserDataNew) {
        Some(Operation::UserDataNew)
    } else if names(path, Operation::EmailNew) {
        Some(Operation::EmailNew)
    } else if names(path, Operation::ParentPermissionNew) {
        Some(Operation::ParentPermissionNew)
    } else if names(path, Operation::PasswordResetNew) {
        Some(Operation::PasswordResetNew)
    } else if names(path, Operation::PasswordNewReset) {
        Some(Operation::PasswordNewReset)
    } else if names(path, Operation::PasswordNewChange) {
        Some(Operation::PasswordNewChange)
    } else if names(path, Operation::UserView) {
        Some(Operation::UserView)
    } else if names(path, Operation::UserDataView) {
        Some(Operation::UserDataView)
    } else if names(path, Operation::PasswordView) {
        Some(Operation::PasswordView)
    } else if names(path, Operation::EmailView) {
        Some(Operation::EmailView)
    } else if names(path, Operation::ParentPermissionView) {
        Some(Operation::ParentPermissionView)
    } else if names(path, Operation::VerificationChallengeView) {
        Some(Operation::VerificationChallengeView)
    } else if names(path, Operation::ApiKeyView) {
        Some(Operation::ApiKeyView)
    } else if names(path, Operation::GetUserById) {
        Some(Operation::GetUserById)
    } else if names(path, Operation::GetUserByApiKeyIfValid) {
        Some(Operation::GetUserByApiKeyIfValid)
    } else {
        None
    }
}

/// Why a request reached no answer of an operation.
#[derive(Clone, Copy, Debug, PartialEq, Eq, Structural)]
pub enum Rejection {
    /// No operation has the path.
    NotFound,
    /// The body of the request is no request of the operation.
    BodyDeserialize,
    /// The operation does not take the method of the request.
    MethodNotAllowed,
    /// The operation refused the request.
    Refused(AuthError),
    /// Anything else.
    Other,
}

/// The status code and the error that answer a rejection.
pub open spec fn rejection_answer(rejection: Rejection) -> (u16, AuthError) {
    match rejection {
        Rejection::NotFound => (404, AuthError::NotFound),
        Rejection::BodyDeserialize => (400, AuthError::DecodeError),
        Rejection::MethodNotAllowed => (405, AuthError::MethodNotAllowed),
        Rejection::Refused(e) => (400, e),
        Rejection::Other => (500, AuthError::Unknown),
    }
}

/// Answers a rejection with a status code and an error.
pub fn handle_rejection(rejection: Rejection) -> (r: (u16, AuthError))
    ensures
        r == rejection_answer(rejection),
{
    match rejection {
        Rejection::NotFound => (404, AuthError::NotFound),
        Rejection::BodyDeserialize => (400, AuthError::DecodeError),
        Rejection::MethodNotAllowed => (405, AuthError::MethodNotAllowed),
        Rejection::Refused(e) => (400, e),
        Rejection::Other => (500, AuthError::Unknown),
    }
}

} // verus!
