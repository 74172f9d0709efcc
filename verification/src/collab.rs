use vstd::prelude::*;

use crate::code::ErrorCode;
use crate::errors::{error_model, FlowyError};

verus! {

/// The failure surface of the collaborative data-synchronization engine, as
/// this library consumes it: one variant per engine failure, holding the
/// engine's own rendering of the underlying cause where the engine carries
/// one. The engine itself is an external collaborator: its failures reach
/// this library already taken apart into these plain values.
pub enum CollabFailure {
    SerdeJson(String),
    UnexpectedEmpty(String),
    AcquiredWriteTxnFail,
    AcquiredReadTxnFail,
    YrsTransaction(String),
    YrsEncodeState(String),
    UndoManagerNotEnabled,
    DecodeUpdate(String),
    NoRequiredData(String),
    Awareness(String),
    UpdateFailed(String),
    Internal(String),
}

/// The classification tag each engine failure maps to: serialization
/// failures keep their own tag, a missing value keeps its own tag, an
/// unsupported operation maps to `NotSupportYet`, and everything else is
/// internal.
pub open spec fn collab_failure_code(f: CollabFailure) -> ErrorCode {
    match f {
        CollabFailure::SerdeJson(_) => ErrorCode::Serde,
        CollabFailure::UnexpectedEmpty(_) => ErrorCode::UnexpectedEmpty,
        CollabFailure::AcquiredWriteTxnFail => ErrorCode::Internal,
        CollabFailure::AcquiredReadTxnFail => ErrorCode::Internal,
        CollabFailure::YrsTransaction(_) => ErrorCode::Internal,
        CollabFailure::YrsEncodeState(_) => ErrorCode::Internal,
        CollabFailure::UndoManagerNotEnabled => ErrorCode::NotSupportYet,
        CollabFailure::DecodeUpdate(_) => ErrorCode::Internal,
        CollabFailure::NoRequiredData(_) => ErrorCode::Internal,
        CollabFailure::Awareness(_) => ErrorCode::Internal,
        CollabFailure::UpdateFailed(_) => ErrorCode::Internal,
        CollabFailure::Internal(_) => ErrorCode::Internal,
    }
}

/// The message each engine failure maps to: the carried rendering where
/// there is one, the canonical `Internal` rendering for the two bare
/// transaction failures, and a fixed explanatory string for the disabled
/// undo manager.
pub open spec fn collab_failure_message(f: CollabFailure) -> Seq<char> {
    match f {
        CollabFailure::SerdeJson(d) => d@,
        CollabFailure::UnexpectedEmpty(d) => d@,
        CollabFailure::AcquiredWriteTxnFail => ErrorCode::Internal.canonical(),
        CollabFailure::AcquiredReadTxnFail => ErrorCode::Internal.canonical(),
        CollabFailure::YrsTransaction(d) => d@,
        CollabFailure::YrsEncodeState(d) => d@,
        CollabFailure::UndoManagerNotEnabled => "UndoManager is not enabled"@,
        CollabFailure::DecodeUpdate(d) => d@,
        CollabFailure::NoRequiredData(d) => d@,
        CollabFailure::Awareness(d) => d@,
        CollabFailure::UpdateFailed(d) => d@,
        CollabFailure::Internal(d) => d@,
    }
}

impl FlowyError {
    /// Converts an engine failure into the unified error deterministically:
    /// the tag is `collab_failure_code`, the message `collab_failure_message`,
    /// and the payload stays empty.
    pub fn from_collab(failure: CollabFailure) -> (r: Self)
        ensures
            r@ == error_model(
                collab_failure_code(failure),
                collab_failure_message(failure),
                Seq::empty(),
            ),
    {
        match failure {
            CollabFailure::SerdeJson(d) => Self::serde().with_message(d),
            CollabFailure::UnexpectedEmpty(d) => Self::payload_none().with_message(d),
            CollabFailure::AcquiredWriteTxnFail => Self::internal(),
            CollabFailure::AcquiredReadTxnFail => Self::internal(),
            CollabFailure::YrsTransaction(d) => Self::internal().with_message(d),
            CollabFailure::YrsEncodeState(d) => Self::internal().with_message(d),
            CollabFailure::UndoManagerNotEnabled => Self::not_support().with_message(
                "UndoManager is not enabled".to_owned(),
            ),
            CollabFailure::DecodeUpdate(d) => Self::internal().with_message(d),
            CollabFailure::NoRequiredData(d) => Self::internal().with_message(d),
            CollabFailure::Awareness(d) => Self::internal().with_message(d),
            CollabFailure::UpdateFailed(d) => Self::internal().with_message(d),
            CollabFailure::Internal(d) => Self::internal().with_message(d),
        }
    }
}

/// Law: the engine's disabled-undo-manager failure maps to an error whose
/// tag is `NotSupportYet` — the "not supported" classification — and whose
/// message is exactly the fixed string "UndoManager is not enabled".
pub proof fn lemma_undo_manager_not_enabled_mapping()
    ensures
        collab_failure_code(CollabFailure::UndoManagerNotEnabled) == ErrorCode::NotSupportYet,
        collab_failure_message(CollabFailure::UndoManagerNotEnabled)
            == "UndoManager is not enabled"@,
{
}

} // verus!
