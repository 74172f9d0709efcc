use flowy_error::code::ErrorCode;
use flowy_error::errors::{internal_error, FlowyError};

fn all_codes() -> Vec<ErrorCode> {
    vec![
        ErrorCode::Success,
        ErrorCode::Internal,
        ErrorCode::RecordNotFound,
        ErrorCode::RecordAlreadyExists,
        ErrorCode::WorkspaceInitializeError,
        ErrorCode::ViewNameInvalid,
        ErrorCode::ViewThumbnailInvalid,
        ErrorCode::ViewIdIsInvalid,
        ErrorCode::ViewDataInvalid,
        ErrorCode::ViewIsLocked,
        ErrorCode::UserUnauthorized,
        ErrorCode::UserNotLogin,
        ErrorCode::UserIdInvalid,
        ErrorCode::UserNameTooLong,
        ErrorCode::UserNameContainForbiddenCharacters,
        ErrorCode::UserNameIsEmpty,
        ErrorCode::EmailIsEmpty,
        ErrorCode::EmailFormatInvalid,
        ErrorCode::EmailAlreadyExists,
        ErrorCode::PasswordIsEmpty,
        ErrorCode::PasswordTooLong,
        ErrorCode::PasswordContainsForbidCharacters,
        ErrorCode::PasswordFormatInvalid,
        ErrorCode::PasswordNotMatch,
        ErrorCode::TextTooLong,
        ErrorCode::InvalidParams,
        ErrorCode::OutOfBounds,
        ErrorCode::Serde,
        ErrorCode::FieldRecordNotFound,
        ErrorCode::UnexpectedEmpty,
        ErrorCode::NetworkError,
        ErrorCode::UnexpectedCalendarFieldType,
        ErrorCode::CollabDataNotSync,
        ErrorCode::InternalServerError,
        ErrorCode::NotSupportYet,
        ErrorCode::LocalVersionNotSupport,
        ErrorCode::FolderIndexManagerUnavailable,
        ErrorCode::WorkspaceDataNotMatch,
        ErrorCode::LocalAIError,
        ErrorCode::LocalAIUnavailable,
        ErrorCode::LocalAINotReady,
        ErrorCode::LocalAIDisabled,
        ErrorCode::ResponseTimeout,
        ErrorCode::FileStorageLimitExceeded,
        ErrorCode::SingleUploadLimitExceeded,
        ErrorCode::AIResponseLimitExceeded,
        ErrorCode::AIImageResponseLimitExceeded,
        ErrorCode::AIMaxRequired,
        ErrorCode::WeakRefDrop,
    ]
}

#[test]
fn code_round_trips_for_every_code() {
    for code in all_codes() {
        let e = FlowyError::from_code(code);
        assert_eq!(e.code, code);
        assert_eq!(e.msg, code.canonical_message());
        assert!(e.payload.is_empty());
    }
}

#[test]
fn default_error_carries_the_success_tag() {
    let e = FlowyError::default();
    assert_eq!(e.code, ErrorCode::Success);
    assert_eq!(e.msg, "");
    assert!(e.payload.is_empty());
    assert_eq!(ErrorCode::default(), ErrorCode::Success);
}

#[test]
fn named_constructors_fix_their_codes() {
    assert_eq!(FlowyError::internal().code, ErrorCode::Internal);
    assert_eq!(FlowyError::record_not_found().code, ErrorCode::RecordNotFound);
    assert_eq!(FlowyError::workspace_initialize().code, ErrorCode::WorkspaceInitializeError);
    assert_eq!(FlowyError::view_name().code, ErrorCode::ViewNameInvalid);
    assert_eq!(FlowyError::view_thumbnail().code, ErrorCode::ViewThumbnailInvalid);
    assert_eq!(FlowyError::invalid_view_id().code, ErrorCode::ViewIdIsInvalid);
    assert_eq!(FlowyError::view_data().code, ErrorCode::ViewDataInvalid);
    assert_eq!(FlowyError::unauthorized().code, ErrorCode::UserUnauthorized);
    assert_eq!(FlowyError::email_empty().code, ErrorCode::EmailIsEmpty);
    assert_eq!(FlowyError::email_format().code, ErrorCode::EmailFormatInvalid);
    assert_eq!(FlowyError::email_exist().code, ErrorCode::EmailAlreadyExists);
    assert_eq!(FlowyError::password_empty().code, ErrorCode::PasswordIsEmpty);
    assert_eq!(FlowyError::passworkd_too_long().code, ErrorCode::PasswordTooLong);
    assert_eq!(
        FlowyError::password_forbid_char().code,
        ErrorCode::PasswordContainsForbidCharacters
    );
    assert_eq!(FlowyError::password_format().code, ErrorCode::PasswordFormatInvalid);
    assert_eq!(FlowyError::password_not_match().code, ErrorCode::PasswordNotMatch);
    assert_eq!(FlowyError::name_too_long().code, ErrorCode::UserNameTooLong);
    assert_eq!(
        FlowyError::name_forbid_char().code,
        ErrorCode::UserNameContainForbiddenCharacters
    );
    assert_eq!(FlowyError::name_empty().code, ErrorCode::UserNameIsEmpty);
    assert_eq!(FlowyError::user_id().code, ErrorCode::UserIdInvalid);
    assert_eq!(FlowyError::text_too_long().code, ErrorCode::TextTooLong);
    assert_eq!(FlowyError::invalid_data().code, ErrorCode::InvalidParams);
    assert_eq!(FlowyError::out_of_bounds().code, ErrorCode::OutOfBounds);
    assert_eq!(FlowyError::serde().code, ErrorCode::Serde);
    assert_eq!(FlowyError::field_record_not_found().code, ErrorCode::FieldRecordNotFound);
    assert_eq!(FlowyError::payload_none().code, ErrorCode::UnexpectedEmpty);
    assert_eq!(FlowyError::http().code, ErrorCode::NetworkError);
    assert_eq!(
        FlowyError::unexpect_calendar_field_type().code,
        ErrorCode::UnexpectedCalendarFieldType
    );
    assert_eq!(FlowyError::collab_not_sync().code, ErrorCode::CollabDataNotSync);
    assert_eq!(FlowyError::server_error().code, ErrorCode::InternalServerError);
    assert_eq!(FlowyError::not_support().code, ErrorCode::NotSupportYet);
    assert_eq!(
        FlowyError::local_version_not_support().code,
        ErrorCode::LocalVersionNotSupport
    );
    assert_eq!(
        FlowyError::folder_index_manager_unavailable().code,
        ErrorCode::FolderIndexManagerUnavailable
    );
    assert_eq!(
        FlowyError::workspace_data_not_match().code,
        ErrorCode::WorkspaceDataNotMatch
    );
    assert_eq!(FlowyError::local_ai().code, ErrorCode::LocalAIError);
    assert_eq!(FlowyError::local_ai_unavailable().code, ErrorCode::LocalAIUnavailable);
    assert_eq!(FlowyError::response_timeout().code, ErrorCode::ResponseTimeout);
    assert_eq!(FlowyError::file_storage_limit().code, ErrorCode::FileStorageLimitExceeded);
    assert_eq!(FlowyError::view_is_locked().code, ErrorCode::ViewIsLocked);
    assert_eq!(FlowyError::local_ai_not_ready().code, ErrorCode::LocalAINotReady);
    assert_eq!(FlowyError::local_ai_disabled().code, ErrorCode::LocalAIDisabled);
    assert_eq!(FlowyError::user_not_login().code, ErrorCode::UserNotLogin);
    assert_eq!(FlowyError::ref_drop().code, ErrorCode::WeakRefDrop);
}

#[test]
fn named_constructors_classify_and_render_canonically() {
    assert!(FlowyError::record_not_found().is_record_not_found());
    assert!(FlowyError::unauthorized().is_unauthorized());
    assert!(FlowyError::invalid_data().is_invalid_data());
    assert!(FlowyError::local_version_not_support().is_local_version_not_support());
    assert!(FlowyError::file_storage_limit().is_file_limit_exceeded());
    assert!(FlowyError::local_ai_not_ready().is_local_ai_not_ready());
    assert!(FlowyError::local_ai_disabled().is_local_ai_disabled());
    assert!(FlowyError::from_code(ErrorCode::RecordAlreadyExists).is_already_exists());
    assert!(FlowyError::from_code(ErrorCode::SingleUploadLimitExceeded)
        .is_single_file_limit_exceeded());
    assert!(FlowyError::from_code(ErrorCode::AIResponseLimitExceeded)
        .is_ai_response_limit_exceeded());
    assert!(FlowyError::from_code(ErrorCode::AIImageResponseLimitExceeded)
        .is_ai_image_response_limit_exceeded());
    assert!(FlowyError::from_code(ErrorCode::AIMaxRequired).is_ai_max_required());

    assert_eq!(FlowyError::internal().msg, "Internal");
    assert_eq!(FlowyError::record_not_found().msg, "RecordNotFound");
    assert_eq!(FlowyError::not_support().msg, "NotSupportYet");
    assert_eq!(FlowyError::http().msg, "NetworkError");
}

#[test]
fn new_renders_the_given_message() {
    let e = FlowyError::new(ErrorCode::TextTooLong, "too long");
    assert_eq!(e.code, ErrorCode::TextTooLong);
    assert_eq!(e.msg, "too long");
    assert!(e.payload.is_empty());

    let n = FlowyError::new(ErrorCode::OutOfBounds, 42u32);
    assert_eq!(n.msg, "42");
}

#[test]
fn with_context_replaces_the_whole_message() {
    let e = FlowyError::record_not_found().with_context("row 7 vanished");
    assert_eq!(e.code, ErrorCode::RecordNotFound);
    assert_eq!(e.msg, "row 7 vanished");

    let twice = e.with_context("second look");
    assert_eq!(twice.msg, "second look");
    assert_eq!(twice.code, ErrorCode::RecordNotFound);
}

#[test]
fn with_context_is_total_for_any_displayable_input() {
    let empty = FlowyError::internal().with_context("");
    assert_eq!(empty.msg, "");
    assert_eq!(empty.code, ErrorCode::Internal);

    let multi = FlowyError::internal().with_context("line one\nline two\n");
    assert_eq!(multi.msg, "line one\nline two\n");

    let owned = FlowyError::internal().with_context(String::from("owned"));
    assert_eq!(owned.msg, "owned");

    let number = FlowyError::internal().with_context(-3i64);
    assert_eq!(number.msg, "-3");
}

#[test]
fn with_context_keeps_the_payload() {
    let e = FlowyError::internal()
        .with_payload_bytes(vec![9u8, 8, 7])
        .with_context("still here");
    assert_eq!(e.payload, vec![9u8, 8, 7]);
    assert_eq!(e.msg, "still here");
}

#[test]
fn with_payload_bytes_keeps_code_and_message() {
    let e = FlowyError::text_too_long().with_payload_bytes(vec![1u8, 2, 3]);
    assert_eq!(e.code, ErrorCode::TextTooLong);
    assert_eq!(e.msg, "TextTooLong");
    assert_eq!(e.payload, vec![1u8, 2, 3]);

    let again = e.with_payload_bytes(vec![4u8]);
    assert_eq!(again.payload, vec![4u8]);
}

#[test]
fn should_retry_upload_is_false_exactly_for_the_two_quota_codes() {
    for code in all_codes() {
        let e = FlowyError::from_code(code);
        let quota = code == ErrorCode::FileStorageLimitExceeded
            || code == ErrorCode::SingleUploadLimitExceeded;
        assert_eq!(e.should_retry_upload(), !quota);
    }
    assert!(FlowyError::default().should_retry_upload());
    assert!(FlowyError::internal().should_retry_upload());
}

#[test]
fn is_unauthorized_conflates_not_found_with_unauthorized() {
    for code in all_codes() {
        let e = FlowyError::from_code(code);
        let expected =
            code == ErrorCode::UserUnauthorized || code == ErrorCode::RecordNotFound;
        assert_eq!(e.is_unauthorized(), expected);
    }
}

#[test]
fn internal_error_uses_the_debug_rendering() {
    let e = internal_error("oops");
    assert_eq!(e.code, ErrorCode::Internal);
    assert_eq!(e.msg, format!("{:?}", "oops"));
    assert!(e.payload.is_empty());

    let pair = internal_error((1u8, 2u8));
    assert_eq!(pair.msg, "(1, 2)");
}

#[test]
fn clone_preserves_all_fields() {
    let e = FlowyError::serde()
        .with_context("ctx")
        .with_payload_bytes(vec![5u8, 6]);
    let c = e.clone();
    assert_eq!(c.code, e.code);
    assert_eq!(c.msg, e.msg);
    assert_eq!(c.payload, e.payload);
}
