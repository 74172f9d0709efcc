use vstd::prelude::*;

verus! {

/// The closed set of classification tags that a unified error can carry.
///
/// Every tag is a pure label: equality is by tag identity, and each tag has
/// exactly one canonical human-readable rendering. The `Success` tag is the
/// designated default for uninitialized states and names no real failure.
#[derive(Debug, Clone, Copy, PartialEq, Eq, Structural)]
pub enum ErrorCode {
    Success,
    Internal,
    RecordNotFound,
    RecordAlreadyExists,
    WorkspaceInitializeError,
    ViewNameInvalid,
    ViewThumbnailInvalid,
    ViewIdIsInvalid,
    ViewDataInvalid,
    ViewIsLocked,
    UserUnauthorized,
    UserNotLogin,
    UserIdInvalid,
    UserNameTooLong,
    UserNameContainForbiddenCharacters,
    UserNameIsEmpty,
    EmailIsEmpty,
    EmailFormatInvalid,
    EmailAlreadyExists,
    PasswordIsEmpty,
    PasswordTooLong,
    PasswordContainsForbidCharacters,
    PasswordFormatInvalid,
    PasswordNotMatch,
    TextTooLong,
    InvalidParams,
    OutOfBounds,
    Serde,
    FieldRecordNotFound,
    UnexpectedEmpty,
    NetworkError,
    UnexpectedCalendarFieldType,
    CollabDataNotSync,
    InternalServerError,
    NotSupportYet,
    LocalVersionNotSupport,
    FolderIndexManagerUnavailable,
    WorkspaceDataNotMatch,
    LocalAIError,
    LocalAIUnavailable,
    LocalAINotReady,
    LocalAIDisabled,
    ResponseTimeout,
    FileStorageLimitExceeded,
    SingleUploadLimitExceeded,
    AIResponseLimitExceeded,
    AIImageResponseLimitExceeded,
    AIMaxRequired,
    WeakRefDrop,
}

impl ErrorCode {
    /// The canonical rendering of this tag, as an abstract sequence of characters.
    pub open spec fn canonical(self) -> Seq<char> {
        match self {
            ErrorCode::Success => "Success"@,
            ErrorCode::Internal => "Internal"@,
            ErrorCode::RecordNotFound => "RecordNotFound"@,
            ErrorCode::RecordAlreadyExists => "RecordAlreadyExists"@,
            ErrorCode::WorkspaceInitializeError => "WorkspaceInitializeError"@,
            ErrorCode::ViewNameInvalid => "ViewNameInvalid"@,
            ErrorCode::ViewThumbnailInvalid => "ViewThumbnailInvalid"@,
            ErrorCode::ViewIdIsInvalid => "ViewIdIsInvalid"@,
            ErrorCode::ViewDataInvalid => "ViewDataInvalid"@,
            ErrorCode::ViewIsLocked => "ViewIsLocked"@,
            ErrorCode::UserUnauthorized => "UserUnauthorized"@,
            ErrorCode::UserNotLogin => "UserNotLogin"@,
            ErrorCode::UserIdInvalid => "UserIdInvalid"@,
            ErrorCode::UserNameTooLong => "UserNameTooLong"@,
            ErrorCode::UserNameContainForbiddenCharacters => "UserNameContainForbiddenCharacters"@,
            ErrorCode::UserNameIsEmpty => "UserNameIsEmpty"@,
            ErrorCode::EmailIsEmpty => "EmailIsEmpty"@,
            ErrorCode::EmailFormatInvalid => "EmailFormatInvalid"@,
            ErrorCode::EmailAlreadyExists => "EmailAlreadyExists"@,
            ErrorCode::PasswordIsEmpty => "PasswordIsEmpty"@,
            ErrorCode::PasswordTooLong => "PasswordTooLong"@,
            ErrorCode::PasswordContainsForbidCharacters => "PasswordContainsForbidCharacters"@,
            ErrorCode::PasswordFormatInvalid => "PasswordFormatInvalid"@,
            ErrorCode::PasswordNotMatch => "PasswordNotMatch"@,
            ErrorCode::TextTooLong => "TextTooLong"@,
            ErrorCode::InvalidParams => "InvalidParams"@,
            ErrorCode::OutOfBounds => "OutOfBounds"@,
            ErrorCode::Serde => "Serde"@,
            ErrorCode::FieldRecordNotFound => "FieldRecordNotFound"@,
            ErrorCode::UnexpectedEmpty => "UnexpectedEmpty"@,
            ErrorCode::NetworkError => "NetworkError"@,
            ErrorCode::UnexpectedCalendarFieldType => "UnexpectedCalendarFieldType"@,
            ErrorCode::CollabDataNotSync => "CollabDataNotSync"@,
            ErrorCode::InternalServerError => "InternalServerError"@,
            ErrorCode::NotSupportYet => "NotSupportYet"@,
            ErrorCode::LocalVersionNotSupport => "LocalVersionNotSupport"@,
            ErrorCode::FolderIndexManagerUnavailable => "FolderIndexManagerUnavailable"@,
            ErrorCode::WorkspaceDataNotMatch => "WorkspaceDataNotMatch"@,
            ErrorCode::LocalAIError => "LocalAIError"@,
            ErrorCode::LocalAIUnavailable => "LocalAIUnavailable"@,
            ErrorCode::LocalAINotReady => "LocalAINotReady"@,
            ErrorCode::LocalAIDisabled => "LocalAIDisabled"@,
            ErrorCode::ResponseTimeout => "ResponseTimeout"@,
            ErrorCode::FileStorageLimitExceeded => "FileStorageLimitExceeded"@,
            ErrorCode::SingleUploadLimitExceeded => "SingleUploadLimitExceeded"@,
            ErrorCode::AIResponseLimitExceeded => "AIResponseLimitExceeded"@,
            ErrorCode::AIImageResponseLimitExceeded => "AIImageResponseLimitExceeded"@,
            ErrorCode::AIMaxRequired => "AIMaxRequired"@,
            ErrorCode::WeakRefDrop => "WeakRefDrop"@,
        }
    }

    /// Renders this tag to its canonical display string.
    pub fn canonical_message(self) -> (r: String)
        ensures
            r@ == self.canonical(),
    {
        match self {
            ErrorCode::Success => "Success".to_owned(),
            ErrorCode::Internal => "Internal".to_owned(),
            ErrorCode::RecordNotFound => "RecordNotFound".to_owned(),
            ErrorCode::RecordAlreadyExists => "RecordAlreadyExists".to_owned(),
            ErrorCode::WorkspaceInitializeError => "WorkspaceInitializeError".to_owned(),
            ErrorCode::ViewNameInvalid => "ViewNameInvalid".to_owned(),
            ErrorCode::ViewThumbnailInvalid => "ViewThumbnailInvalid".to_owned(),
            ErrorCode::ViewIdIsInvalid => "ViewIdIsInvalid".to_owned(),
            ErrorCode::ViewDataInvalid => "ViewDataInvalid".to_owned(),
            ErrorCode::ViewIsLocked => "ViewIsLocked".to_owned(),
            ErrorCode::UserUnauthorized => "UserUnauthorized".to_owned(),
            ErrorCode::UserNotLogin => "UserNotLogin".to_owned(),
            ErrorCode::UserIdInvalid => "UserIdInvalid".to_owned(),
            ErrorCode::UserNameTooLong => "UserNameTooLong".to_owned(),
            ErrorCode::UserNameContainForbiddenCharacters => "UserNameContainForbiddenCharacters".to_owned(),
            ErrorCode::UserNameIsEmpty => "UserNameIsEmpty".to_owned(),
            ErrorCode::EmailIsEmpty => "EmailIsEmpty".to_owned(),
            ErrorCode::EmailFormatInvalid => "EmailFormatInvalid".to_owned(),
            ErrorCode::EmailAlreadyExists => "EmailAlreadyExists".to_owned(),
            ErrorCode::PasswordIsEmpty => "PasswordIsEmpty".to_owned(),
            ErrorCode::PasswordTooLong => "PasswordTooLong".to_owned(),
            ErrorCode::PasswordContainsForbidCharacters => "PasswordContainsForbidCharacters".to_owned(),
            ErrorCode::PasswordFormatInvalid => "PasswordFormatInvalid".to_owned(),
            ErrorCode::PasswordNotMatch => "PasswordNotMatch".to_owned(),
            ErrorCode::TextTooLong => "TextTooLong".to_owned(),
            ErrorCode::InvalidParams => "InvalidParams".to_owned(),
            ErrorCode::OutOfBounds => "OutOfBounds".to_owned(),
            ErrorCode::Serde => "Serde".to_owned(),
            ErrorCode::FieldRecordNotFound => "FieldRecordNotFound".to_owned(),
            ErrorCode::UnexpectedEmpty => "UnexpectedEmpty".to_owned(),
            ErrorCode::NetworkError => "NetworkError".to_owned(),
            ErrorCode::UnexpectedCalendarFieldType => "UnexpectedCalendarFieldType".to_owned(),
            ErrorCode::CollabDataNotSync => "CollabDataNotSync".to_owned(),
            ErrorCode::InternalServerError => "InternalServerError".to_owned(),
            ErrorCode::NotSupportYet => "NotSupportYet".to_owned(),
            ErrorCode::LocalVersionNotSupport => "LocalVersionNotSupport".to_owned(),
            ErrorCode::FolderIndexManagerUnavailable => "FolderIndexManagerUnavailable".to_owned(),
            ErrorCode::WorkspaceDataNotMatch => "WorkspaceDataNotMatch".to_owned(),
            ErrorCode::LocalAIError => "LocalAIError".to_owned(),
            ErrorCode::LocalAIUnavailable => "LocalAIUnavailable".to_owned(),
            ErrorCode::LocalAINotReady => "LocalAINotReady".to_owned(),
            ErrorCode::LocalAIDisabled => "LocalAIDisabled".to_owned(),
            ErrorCode::ResponseTimeout => "ResponseTimeout".to_owned(),
            ErrorCode::FileStorageLimitExceeded => "FileStorageLimitExceeded".to_owned(),
            ErrorCode::SingleUploadLimitExceeded => "SingleUploadLimitExceeded".to_owned(),
            ErrorCode::AIResponseLimitExceeded => "AIResponseLimitExceeded".to_owned(),
            ErrorCode::AIImageResponseLimitExceeded => "AIImageResponseLimitExceeded".to_owned(),
            ErrorCode::AIMaxRequired => "AIMaxRequired".to_owned(),
            ErrorCode::WeakRefDrop => "WeakRefDrop".to_owned(),
        }
    }
}

impl Default for ErrorCode {
    /// A default-constructed tag is the designated `Success` tag, distinct from
    /// every real failure tag.
    fn default() -> (r: Self)
        ensures
            r == ErrorCode::Success,
    {
        ErrorCode::Success
    }
}

} // verus!
