use vstd::prelude::*;

use crate::code::ErrorCode;

verus! {

/// The abstract value of a unified error: its classification tag, the
/// characters of its message, and the bytes of its payload.
#[verifier::ext_equal]
pub ghost struct ErrorModel {
    pub code: ErrorCode,
    pub msg: Seq<char>,
    pub payload: Seq<u8>,
}

/// An error model assembled from its three fields.
pub open spec fn error_model(code: ErrorCode, msg: Seq<char>, payload: Seq<u8>) -> ErrorModel {
    ErrorModel { code, msg, payload }
}

/// The model of a freshly constructed error for `code`: the tag itself, its
/// canonical rendering as the message, and no payload.
pub open spec fn fresh_error(code: ErrorCode) -> ErrorModel {
    error_model(code, code.canonical(), Seq::empty())
}

/// Replacing the message of `m` with `msg`: the tag and the payload are kept.
pub open spec fn replace_message(m: ErrorModel, msg: Seq<char>) -> ErrorModel {
    error_model(m.code, msg, m.payload)
}

/// Replacing the payload of `m` with `payload`: the tag and the message are kept.
pub open spec fn replace_payload(m: ErrorModel, payload: Seq<u8>) -> ErrorModel {
    error_model(m.code, m.msg, payload)
}

impl ErrorModel {
    pub open spec fn is_record_not_found(self) -> bool {
        self.code == ErrorCode::RecordNotFound
    }

    pub open spec fn is_already_exists(self) -> bool {
        self.code == ErrorCode::RecordAlreadyExists
    }

    pub open spec fn is_unauthorized(self) -> bool {
        self.code == ErrorCode::UserUnauthorized || self.code == ErrorCode::RecordNotFound
    }

    pub open spec fn is_invalid_data(self) -> bool {
        self.code == ErrorCode::InvalidParams
    }

    pub open spec fn is_local_version_not_support(self) -> bool {
        self.code == ErrorCode::LocalVersionNotSupport
    }

    pub open spec fn is_file_limit_exceeded(self) -> bool {
        self.code == ErrorCode::FileStorageLimitExceeded
    }

    pub open spec fn is_single_file_limit_exceeded(self) -> bool {
        self.code == ErrorCode::SingleUploadLimitExceeded
    }

    pub open spec fn should_retry_upload(self) -> bool {
        !(self.code == ErrorCode::FileStorageLimitExceeded || self.code == ErrorCode::SingleUploadLimitExceeded)
    }

    pub open spec fn is_ai_response_limit_exceeded(self) -> bool {
        self.code == ErrorCode::AIResponseLimitExceeded
    }

    pub open spec fn is_ai_image_response_limit_exceeded(self) -> bool {
        self.code == ErrorCode::AIImageResponseLimitExceeded
    }

    pub open spec fn is_local_ai_not_ready(self) -> bool {
        self.code == ErrorCode::LocalAINotReady
    }

    pub open spec fn is_local_ai_disabled(self) -> bool {
        self.code == ErrorCode::LocalAIDisabled
    }

    pub open spec fn is_ai_max_required(self) -> bool {
        self.code == ErrorCode::AIMaxRequired
    }

}

/// The unified error value: a classification tag, a human-readable message,
/// and an optional binary payload that this library never interprets.
#[derive(Debug, Clone)]
pub struct FlowyError {
    pub code: ErrorCode,
    pub msg: String,
    pub payload: Vec<u8>,
}

/// The result type every fallible operation of the surrounding layers uses.
pub type FlowyResult<T> = Result<T, FlowyError>;

impl View for FlowyError {
    type V = ErrorModel;

    open spec fn view(&self) -> ErrorModel {
        error_model(self.code, self.msg@, self.payload@)
    }
}

impl Default for FlowyError {
    /// A default-constructed error carries the designated `Success` tag, an empty
    /// message, and no payload.
    fn default() -> (r: Self)
        ensures
            r@ == error_model(ErrorCode::Success, Seq::empty(), Seq::empty()),
    {
        let r = FlowyError { code: ErrorCode::Success, msg: String::new(), payload: Vec::new() };
        proof {
            assert(r@ =~= error_model(ErrorCode::Success, Seq::empty(), Seq::empty()));
        }
        r
    }
}

impl FlowyError {
    /// A new error with the given tag and message and an empty payload.
    /// Total: it succeeds for every displayable message.
    pub fn new<T: core::fmt::Display>(code: ErrorCode, msg: T) -> (r: Self)
        ensures
            r@ == replace_message(error_model(code, Seq::empty(), Seq::empty()), r@.msg),
    {
        let r = FlowyError { code, msg: msg.to_string(), payload: Vec::new() };
        proof {
            assert(r@ =~= replace_message(error_model(code, Seq::empty(), Seq::empty()), r.msg@));
        }
        r
    }

    /// A new error with the given tag, exactly the given message, and an
    /// empty payload.
    pub fn new_message(code: ErrorCode, msg: String) -> (r: Self)
        ensures
            r@ == error_model(code, msg@, Seq::empty()),
    {
        let r = FlowyError { code, msg, payload: Vec::new() };
        proof {
            assert(r@ =~= error_model(code, r.msg@, Seq::empty()));
        }
        r
    }

    /// The canonical error for a tag: the tag itself, its canonical rendering
    /// as the message, and no payload. Every named constructor goes through
    /// here, so reading the tag back always returns the tag given.
    pub fn from_code(code: ErrorCode) -> (r: Self)
        ensures
            r@ == fresh_error(code),
    {
        Self::new_message(code, code.canonical_message())
    }

    /// Replaces the message with the rendering of `error`; the tag and the
    /// payload are kept. Total for every displayable value.
    pub fn with_context<T: core::fmt::Display>(self, error: T) -> (r: Self)
        ensures
            r@ == replace_message(self@, r@.msg),
    {
        let msg = error.to_string();
        self.with_message(msg)
    }

    /// Replaces the message with exactly `msg`; the tag and the payload are
    /// kept. The previous message is discarded: the last write wins.
    pub fn with_message(self, msg: String) -> (r: Self)
        ensures
            r@ == replace_message(self@, msg@),
    {
        let r = FlowyError { code: self.code, msg, payload: self.payload };
        proof {
            assert(r@ =~= replace_message(self@, r.msg@));
        }
        r
    }

    /// Tries to serialize `payload` into the binary payload slot; on failure
    /// the slot is left empty. The call itself never fails, and the tag and
    /// the message are untouched either way.
    pub fn with_payload<T: TryInto<Vec<u8>, Error = protobuf::ProtobufError>>(self, payload: T) -> (r: Self)
        ensures
            r@ == replace_payload(self@, r@.payload),
    {
        self.with_payload_outcome(payload.try_into())
    }

    /// Stores the outcome of a payload serialization: the bytes of a success
    /// exactly, and the empty payload for a failure. The tag and the message
    /// are kept either way.
    pub fn with_payload_outcome(self, outcome: Result<Vec<u8>, protobuf::ProtobufError>) -> (r: Self)
        ensures
            (match outcome {
                Ok(bytes) => r@ == replace_payload(self@, bytes@),
                Err(_) => r@ == replace_payload(self@, Seq::empty()),
            }),
    {
        match outcome {
            Ok(bytes) => self.with_payload_bytes(bytes),
            Err(_) => self.with_payload_bytes(Vec::new()),
        }
    }

    /// Replaces the payload with exactly `payload`; the tag and the message
    /// are kept.
    pub fn with_payload_bytes(self, payload: Vec<u8>) -> (r: Self)
        ensures
            r@ == replace_payload(self@, payload@),
    {
        let r = FlowyError { code: self.code, msg: self.msg, payload };
        proof {
            assert(r@ =~= replace_payload(self@, r.payload@));
        }
        r
    }

    pub fn is_record_not_found(&self) -> (r: bool)
        ensures
            r == self@.is_record_not_found(),
    {
        self.code == ErrorCode::RecordNotFound
    }

    pub fn is_already_exists(&self) -> (r: bool)
        ensures
            r == self@.is_already_exists(),
    {
        self.code == ErrorCode::RecordAlreadyExists
    }

    pub fn is_unauthorized(&self) -> (r: bool)
        ensures
            r == self@.is_unauthorized(),
    {
        self.code == ErrorCode::UserUnauthorized || self.code == ErrorCode::RecordNotFound
    }

    pub fn is_invalid_data(&self) -> (r: bool)
        ensures
            r == self@.is_invalid_data(),
    {
        self.code == ErrorCode::InvalidParams
    }

    pub fn is_local_version_not_support(&self) -> (r: bool)
        ensures
            r == self@.is_local_version_not_support(),
    {
        self.code == ErrorCode::LocalVersionNotSupport
    }

    pub fn is_file_limit_exceeded(&self) -> (r: bool)
        ensures
            r == self@.is_file_limit_exceeded(),
    {
        self.code == ErrorCode::FileStorageLimitExceeded
    }

    pub fn is_single_file_limit_exceeded(&self) -> (r: bool)
        ensures
            r == self@.is_single_file_limit_exceeded(),
    {
        self.code == ErrorCode::SingleUploadLimitExceeded
    }

    pub fn should_retry_upload(&self) -> (r: bool)
        ensures
            r == self@.should_retry_upload(),
    {
        !(self.code == ErrorCode::FileStorageLimitExceeded || self.code == ErrorCode::SingleUploadLimitExceeded)
    }

    pub fn is_ai_response_limit_exceeded(&self) -> (r: bool)
        ensures
            r == self@.is_ai_response_limit_exceeded(),
    {
        self.code == ErrorCode::AIResponseLimitExceeded
    }

    pub fn is_ai_image_response_limit_exceeded(&self) -> (r: bool)
        ensures
            r == self@.is_ai_image_response_limit_exceeded(),
    {
        self.code == ErrorCode::AIImageResponseLimitExceeded
    }

    pub fn is_local_ai_not_ready(&self) -> (r: bool)
        ensures
            r == self@.is_local_ai_not_ready(),
    {
        self.code == ErrorCode::LocalAINotReady
    }

    pub fn is_local_ai_disabled(&self) -> (r: bool)
        ensures
            r == self@.is_local_ai_disabled(),
    {
        self.code == ErrorCode::LocalAIDisabled
    }

    pub fn is_ai_max_required(&self) -> (r: bool)
        ensures
            r == self@.is_ai_max_required(),
    {
        self.code == ErrorCode::AIMaxRequired
    }

    // The bank of named constructors: one canonical factory per tag.

    /// Fresh error for the `Internal` tag.
    pub fn internal() -> (r: FlowyError)
        ensures
            r@ == fresh_error(ErrorCode::Internal),
    {
        Self::from_code(ErrorCode::Internal)
    }

    /// Fresh error for the `RecordNotFound` tag.
    pub fn record_not_found() -> (r: FlowyError)
        ensures
            r@ == fresh_error(ErrorCode::RecordNotFound),
    {
        Self::from_code(ErrorCode::RecordNotFound)
    }

    /// Fresh error for the `WorkspaceInitializeError` tag.
    pub fn workspace_initialize() -> (r: FlowyError)
        ensures
            r@ == fresh_error(ErrorCode::WorkspaceInitializeError),
    {
        Self::from_code(ErrorCode::WorkspaceInitializeError)
    }

    /// Fresh error for the `ViewNameInvalid` tag.
    pub fn view_name() -> (r: FlowyError)
        ensures
            r@ == fresh_error(ErrorCode::ViewNameInvalid),
    {
        Self::from_code(ErrorCode::ViewNameInvalid)
    }

    /// Fresh error for the `ViewThumbnailInvalid` tag.
    pub fn view_thumbnail() -> (r: FlowyError)
        ensures
            r@ == fresh_error(ErrorCode::ViewThumbnailInvalid),
    {
        Self::from_code(ErrorCode::ViewThumbnailInvalid)
    }

    /// Fresh error for the `ViewIdIsInvalid` tag.
    pub fn invalid_view_id() -> (r: FlowyError)
        ensures
            r@ == fresh_error(ErrorCode::ViewIdIsInvalid),
    {
        Self::from_code(ErrorCode::ViewIdIsInvalid)
    }

    /// Fresh error for the `ViewDataInvalid` tag.
    pub fn view_data() -> (r: FlowyError)
        ensures
            r@ == fresh_error(ErrorCode::ViewDataInvalid),
    {
        Self::from_code(ErrorCode::ViewDataInvalid)
    }

    /// Fresh error for the `UserUnauthorized` tag.
    pub fn unauthorized() -> (r: FlowyError)
        ensures
            r@ == fresh_error(ErrorCode::UserUnauthorized),
    {
        Self::from_code(ErrorCode::UserUnauthorized)
    }

    /// Fresh error for the `EmailIsEmpty` tag.
    pub fn email_empty() -> (r: FlowyError)
        ensures
            r@ == fresh_error(ErrorCode::EmailIsEmpty),
    {
        Self::from_code(ErrorCode::EmailIsEmpty)
    }

    /// Fresh error for the `EmailFormatInvalid` tag.
    pub fn email_format() -> (r: FlowyError)
        ensures
            r@ == fresh_error(ErrorCode::EmailFormatInvalid),
    {
        Self::from_code(ErrorCode::EmailFormatInvalid)
    }

    /// Fresh error for the `EmailAlreadyExists` tag.
    pub fn email_exist() -> (r: FlowyError)
        ensures
            r@ == fresh_error(ErrorCode::EmailAlreadyExists),
    {
        Self::from_code(ErrorCode::EmailAlreadyExists)
    }

    /// Fresh error for the `PasswordIsEmpty` tag.
    pub fn password_empty() -> (r: FlowyError)
        ensures
            r@ == fresh_error(ErrorCode::PasswordIsEmpty),
    {
        Self::from_code(ErrorCode::PasswordIsEmpty)
    }

    /// Fresh error for the `PasswordTooLong` tag.
    pub fn passworkd_too_long() -> (r: FlowyError)
        ensures
            r@ == fresh_error(ErrorCode::PasswordTooLong),
    {
        Self::from_code(ErrorCode::PasswordTooLong)
    }

    /// Fresh error for the `PasswordContainsForbidCharacters` tag.
    pub fn password_forbid_char() -> (r: FlowyError)
        ensures
            r@ == fresh_error(ErrorCode::PasswordContainsForbidCharacters),
    {
        Self::from_code(ErrorCode::PasswordContainsForbidCharacters)
    }

    /// Fresh error for the `PasswordFormatInvalid` tag.
    pub fn password_format() -> (r: FlowyError)
        ensures
            r@ == fresh_error(ErrorCode::PasswordFormatInvalid),
    {
        Self::from_code(ErrorCode::PasswordFormatInvalid)
    }

    /// Fresh error for the `PasswordNotMatch` tag.
    pub fn password_not_match() -> (r: FlowyError)
        ensures
            r@ == fresh_error(ErrorCode::PasswordNotMatch),
    {
        Self::from_code(ErrorCode::PasswordNotMatch)
    }

    /// Fresh error for the `UserNameTooLong` tag.
    pub fn name_too_long() -> (r: FlowyError)
        ensures
            r@ == fresh_error(ErrorCode::UserNameTooLong),
    {
        Self::from_code(ErrorCode::UserNameTooLong)
    }

    /// Fresh error for the `UserNameContainForbiddenCharacters` tag.
    pub fn name_forbid_char() -> (r: FlowyError)
        ensures
            r@ == fresh_error(ErrorCode::UserNameContainForbiddenCharacters),
    {
        Self::from_code(ErrorCode::UserNameContainForbiddenCharacters)
    }

    /// Fresh error for the `UserNameIsEmpty` tag.
    pub fn name_empty() -> (r: FlowyError)
        ensures
            r@ == fresh_error(ErrorCode::UserNameIsEmpty),
    {
        Self::from_code(ErrorCode::UserNameIsEmpty)
    }

    /// Fresh error for the `UserIdInvalid` tag.
    pub fn user_id() -> (r: FlowyError)
        ensures
            r@ == fresh_error(ErrorCode::UserIdInvalid),
    {
        Self::from_code(ErrorCode::UserIdInvalid)
    }

    /// Fresh error for the `TextTooLong` tag.
    pub fn text_too_long() -> (r: FlowyError)
        ensures
            r@ == fresh_error(ErrorCode::TextTooLong),
    {
        Self::from_code(ErrorCode::TextTooLong)
    }

    /// Fresh error for the `InvalidParams` tag.
    pub fn invalid_data() -> (r: FlowyError)
        ensures
            r@ == fresh_error(ErrorCode::InvalidParams),
    {
        Self::from_code(ErrorCode::InvalidParams)
    }

    /// Fresh error for the `OutOfBounds` tag.
    pub fn out_of_bounds() -> (r: FlowyError)
        ensures
            r@ == fresh_error(ErrorCode::OutOfBounds),
    {
        Self::from_code(ErrorCode::OutOfBounds)
    }

    /// Fresh error for the `Serde` tag.
    pub fn serde() -> (r: FlowyError)
        ensures
            r@ == fresh_error(ErrorCode::Serde),
    {
        Self::from_code(ErrorCode::Serde)
    }

    /// Fresh error for the `FieldRecordNotFound` tag.
    pub fn field_record_not_found() -> (r: FlowyError)
        ensures
            r@ == fresh_error(ErrorCode::FieldRecordNotFound),
    {
        Self::from_code(ErrorCode::FieldRecordNotFound)
    }

    /// Fresh error for the `UnexpectedEmpty` tag.
    pub fn payload_none() -> (r: FlowyError)
        ensures
            r@ == fresh_error(ErrorCode::UnexpectedEmpty),
    {
        Self::from_code(ErrorCode::UnexpectedEmpty)
    }

    /// Fresh error for the `NetworkError` tag.
    pub fn http() -> (r: FlowyError)
        ensures
            r@ == fresh_error(ErrorCode::NetworkError),
    {
        Self::from_code(ErrorCode::NetworkError)
    }

    /// Fresh error for the `UnexpectedCalendarFieldType` tag.
    pub fn unexpect_calendar_field_type() -> (r: FlowyError)
        ensures
            r@ == fresh_error(ErrorCode::UnexpectedCalendarFieldType),
    {
        Self::from_code(ErrorCode::UnexpectedCalendarFieldType)
    }

    /// Fresh error for the `CollabDataNotSync` tag.
    pub fn collab_not_sync() -> (r: FlowyError)
        ensures
            r@ == fresh_error(ErrorCode::CollabDataNotSync),
    {
        Self::from_code(ErrorCode::CollabDataNotSync)
    }

    /// Fresh error for the `InternalServerError` tag.
    pub fn server_error() -> (r: FlowyError)
        ensures
            r@ == fresh_error(ErrorCode::InternalServerError),
    {
        Self::from_code(ErrorCode::InternalServerError)
    }

    /// Fresh error for the `NotSupportYet` tag.
    pub fn not_support() -> (r: FlowyError)
        ensures
            r@ == fresh_error(ErrorCode::NotSupportYet),
    {
        Self::from_code(ErrorCode::NotSupportYet)
    }

    /// Fresh error for the `LocalVersionNotSupport` tag.
    pub fn local_version_not_support() -> (r: FlowyError)
        ensures
            r@ == fresh_error(ErrorCode::LocalVersionNotSupport),
    {
        Self::from_code(ErrorCode::LocalVersionNotSupport)
    }

    /// Fresh error for the `FolderIndexManagerUnavailable` tag.
    pub fn folder_index_manager_unavailable() -> (r: FlowyError)
        ensures
            r@ == fresh_error(ErrorCode::FolderIndexManagerUnavailable),
    {
        Self::from_code(ErrorCode::FolderIndexManagerUnavailable)
    }

    /// Fresh error for the `WorkspaceDataNotMatch` tag.
    pub fn workspace_data_not_match() -> (r: FlowyError)
        ensures
            r@ == fresh_error(ErrorCode::WorkspaceDataNotMatch),
    {
        Self::from_code(ErrorCode::WorkspaceDataNotMatch)
    }

    /// Fresh error for the `LocalAIError` tag.
    pub fn local_ai() -> (r: FlowyError)
        ensures
            r@ == fresh_error(ErrorCode::LocalAIError),
    {
        Self::from_code(ErrorCode::LocalAIError)
    }

    /// Fresh error for the `LocalAIUnavailable` tag.
    pub fn local_ai_unavailable() -> (r: FlowyError)
        ensures
            r@ == fresh_error(ErrorCode::LocalAIUnavailable),
    {
        Self::from_code(ErrorCode::LocalAIUnavailable)
    }

    /// Fresh error for the `ResponseTimeout` tag.
    pub fn response_timeout() -> (r: FlowyError)
        ensures
            r@ == fresh_error(ErrorCode::ResponseTimeout),
    {
        Self::from_code(ErrorCode::ResponseTimeout)
    }

    /// Fresh error for the `FileStorageLimitExceeded` tag.
    pub fn file_storage_limit() -> (r: FlowyError)
        ensures
            r@ == fresh_error(ErrorCode::FileStorageLimitExceeded),
    {
        Self::from_code(ErrorCode::FileStorageLimitExceeded)
    }

    /// Fresh error for the `ViewIsLocked` tag.
    pub fn view_is_locked() -> (r: FlowyError)
        ensures
            r@ == fresh_error(ErrorCode::ViewIsLocked),
    {
        Self::from_code(ErrorCode::ViewIsLocked)
    }

    /// Fresh error for the `LocalAINotReady` tag.
    pub fn local_ai_not_ready() -> (r: FlowyError)
        ensures
            r@ == fresh_error(ErrorCode::LocalAINotReady),
    {
        Self::from_code(ErrorCode::LocalAINotReady)
    }

    /// Fresh error for the `LocalAIDisabled` tag.
    pub fn local_ai_disabled() -> (r: FlowyError)
        ensures
            r@ == fresh_error(ErrorCode::LocalAIDisabled),
    {
        Self::from_code(ErrorCode::LocalAIDisabled)
    }

    /// Fresh error for the `UserNotLogin` tag.
    pub fn user_not_login() -> (r: FlowyError)
        ensures
            r@ == fresh_error(ErrorCode::UserNotLogin),
    {
        Self::from_code(ErrorCode::UserNotLogin)
    }

    /// Fresh error for the `WeakRefDrop` tag.
    pub fn ref_drop() -> (r: FlowyError)
        ensures
            r@ == fresh_error(ErrorCode::WeakRefDrop),
    {
        Self::from_code(ErrorCode::WeakRefDrop)
    }

}

/// Relies on `format!`: some debug rendering for any `Debug` value.
#[verifier::external_body]
fn debug_string<T: core::fmt::Debug>(value: &T) -> String {
    format!("{:?}", value)
}

/// Wraps any debug-printable failure as an `Internal` error whose message is
/// the failure's debug rendering.
pub fn internal_error<T: core::fmt::Debug>(e: T) -> (r: FlowyError)
    ensures
        r@ == replace_message(fresh_error(ErrorCode::Internal), r@.msg),
{
    FlowyError::internal().with_message(debug_string(&e))
}

/// Law: constructing the canonical error for a tag and reading the tag back
/// returns the original tag, for every tag in the set; until context is
/// attached, its message is exactly the tag's canonical rendering.
pub proof fn lemma_fresh_error_round_trip(code: ErrorCode)
    ensures
        fresh_error(code).code == code,
        fresh_error(code).msg == code.canonical(),
        fresh_error(code).payload == Seq::<u8>::empty(),
{
}

/// Law: the canonical error for a tag satisfies the classification predicate
/// of that tag's own category.
pub proof fn lemma_fresh_error_classified()
    ensures
        fresh_error(ErrorCode::RecordNotFound).is_record_not_found(),
        fresh_error(ErrorCode::RecordAlreadyExists).is_already_exists(),
        fresh_error(ErrorCode::UserUnauthorized).is_unauthorized(),
        fresh_error(ErrorCode::InvalidParams).is_invalid_data(),
        fresh_error(ErrorCode::LocalVersionNotSupport).is_local_version_not_support(),
        fresh_error(ErrorCode::FileStorageLimitExceeded).is_file_limit_exceeded(),
        fresh_error(ErrorCode::SingleUploadLimitExceeded).is_single_file_limit_exceeded(),
        fresh_error(ErrorCode::AIResponseLimitExceeded).is_ai_response_limit_exceeded(),
        fresh_error(ErrorCode::AIImageResponseLimitExceeded).is_ai_image_response_limit_exceeded(),
        fresh_error(ErrorCode::LocalAINotReady).is_local_ai_not_ready(),
        fresh_error(ErrorCode::LocalAIDisabled).is_local_ai_disabled(),
        fresh_error(ErrorCode::AIMaxRequired).is_ai_max_required(),
{
}

/// Law: replacing the message fully replaces it — the last write wins — and
/// never touches the tag or the payload. Replacement is total: it is defined
/// for every model and every message, the empty one included.
pub proof fn lemma_replace_message_last_write_wins(
    m: ErrorModel,
    first: Seq<char>,
    second: Seq<char>,
)
    ensures
        replace_message(replace_message(m, first), second) == replace_message(m, second),
        replace_message(m, first).msg == first,
        replace_message(m, first).code == m.code,
        replace_message(m, first).payload == m.payload,
{
}

/// Law: replacing the payload fully replaces it and never touches the tag or
/// the message, so attaching a payload cannot change how an error classifies.
pub proof fn lemma_replace_payload_keeps_classification(
    m: ErrorModel,
    first: Seq<u8>,
    second: Seq<u8>,
)
    ensures
        replace_payload(replace_payload(m, first), second) == replace_payload(m, second),
        replace_payload(m, first).payload == first,
        replace_payload(m, first).code == m.code,
        replace_payload(m, first).msg == m.msg,
{
}

/// Law: an upload retry is ruled out exactly by the two storage-quota tags;
/// every other tag — the default `Success` tag and `Internal` included —
/// allows a retry.
pub proof fn lemma_should_retry_upload_exact(m: ErrorModel)
    ensures
        m.should_retry_upload() == !(m.is_file_limit_exceeded()
            || m.is_single_file_limit_exceeded()),
        m.should_retry_upload() == !(m.code == ErrorCode::FileStorageLimitExceeded
            || m.code == ErrorCode::SingleUploadLimitExceeded),
{
}

/// Law: the authorization predicate deliberately conflates the explicit
/// unauthorized tag with the not-found tag, and holds for no other tag, so a
/// caller cannot tell a missing record from a forbidden one.
pub proof fn lemma_unauthorized_conflation(m: ErrorModel)
    ensures
        m.is_unauthorized() == (m.code == ErrorCode::UserUnauthorized
            || m.code == ErrorCode::RecordNotFound),
        m.is_record_not_found() ==> m.is_unauthorized(),
{
}

} // verus!
