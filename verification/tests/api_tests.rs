use auth_service::api::{api, handle_rejection, Operation, Rejection, SERVICE_NAME, SERVICE_VERSION};
use auth_service::handlers::{report_internal_err, report_mail_err, report_store_err};
use auth_service::mail::MailError;
use auth_service::response::AuthError;
use auth_service::store::StoreError;
use auth_service::utils::PasswordHashError;

#[test]
fn service_presents_itself() {
    assert_eq!(SERVICE_NAME, "auth-service");
    assert_eq!(SERVICE_VERSION, "0.1");
}

#[test]
fn paths_name_their_operations() {
    assert_eq!(api("info"), Some(Operation::Info));
    assert_eq!(api("public/user/new"), Some(Operation::UserNew));
    assert_eq!(api("public/user/view"), Some(Operation::UserView));
    assert_eq!(api("public/api_key/new_valid"), Some(Operation::ApiKeyNewValid));
    assert_eq!(api("public/api_key/new_cancel"), Some(Operation::ApiKeyNewCancel));
    assert_eq!(api("public/password_reset/new"), Some(Operation::PasswordResetNew));
    assert_eq!(api("public/password/new_reset"), Some(Operation::PasswordNewReset));
    assert_eq!(api("public/password/new_change"), Some(Operation::PasswordNewChange));
    assert_eq!(api("get_user_by_id"), Some(Operation::GetUserById));
    assert_eq!(api("get_user_by_api_key_if_valid"), Some(Operation::GetUserByApiKeyIfValid));
}

#[test]
fn every_operation_is_reached_by_its_path() {
    let all = [
        Operation::Info,
        Operation::VerificationChallengeNew,
        Operation::ApiKeyNewValid,
        Operation::ApiKeyNewCancel,
        Operation::UserNew,
        Operation::UserDataNew,
        Operation::EmailNew,
        Operation::ParentPermissionNew,
        Operation::PasswordResetNew,
        Operation::PasswordNewReset,
        Operation::PasswordNewChange,
        Operation::UserView,
        Operation::UserDataView,
        Operation::PasswordView,
        Operation::EmailView,
        Operation::ParentPermissionView,
        Operation::VerificationChallengeView,
        Operation::ApiKeyView,
        Operation::GetUserById,
        Operation::GetUserByApiKeyIfValid,
    ];
    for op in all.iter() {
        assert_eq!(api(op.path_str()), Some(*op));
    }
}

#[test]
fn internal_operations_are_not_public() {
    assert_eq!(api("public/get_user_by_id"), None);
    assert_eq!(api("public/get_user_by_api_key_if_valid"), None);
}

#[test]
fn other_paths_name_no_operation() {
    assert_eq!(api(""), None);
    assert_eq!(api("/info"), None);
    assert_eq!(api("public/user/new/"), None);
    assert_eq!(api("public/user"), None);
    assert_eq!(api("public/user/delete"), None);
}

#[test]
fn rejections_are_answered_with_status_and_error() {
    assert_eq!(handle_rejection(Rejection::NotFound), (404, AuthError::NotFound));
    assert_eq!(handle_rejection(Rejection::BodyDeserialize), (400, AuthError::DecodeError));
    assert_eq!(
        handle_rejection(Rejection::MethodNotAllowed),
        (405, AuthError::MethodNotAllowed)
    );
    assert_eq!(
        handle_rejection(Rejection::Refused(AuthError::PasswordIncorrect)),
        (400, AuthError::PasswordIncorrect)
    );
    assert_eq!(handle_rejection(Rejection::Other), (500, AuthError::Unknown));
}

#[test]
fn mail_failures_are_answered_as_bounced_or_unknown() {
    assert_eq!(report_mail_err(MailError::DestinationBounced), AuthError::EmailBounced);
    assert_eq!(report_mail_err(MailError::DestinationProhibited), AuthError::EmailBounced);
    assert_eq!(report_mail_err(MailError::Other), AuthError::EmailUnknown);
}

#[test]
fn store_failures_are_answered_as_internal() {
    assert_eq!(report_store_err(StoreError::Full), AuthError::InternalServerError);
    assert_eq!(report_store_err(StoreError::Duplicate), AuthError::InternalServerError);
}

#[test]
fn hashing_failures_are_answered_as_unknown() {
    let e = PasswordHashError { msg: "Salt is too short".to_string() };
    assert_eq!(report_internal_err(e), AuthError::Unknown);
}
