use vstd::prelude::*;

use crate::code::ErrorCode;
use crate::errors::{error_model, fresh_error, replace_message, FlowyError};

verus! {

// Foreign error types consumed at subsystem boundaries. Each is opaque here:
// only its rendering ever reaches a unified error.

/// Relies on std's `std::io::Error` being a plain error value.
#[verifier::external_type_specification]
#[verifier::external_body]
pub struct ExIoError(std::io::Error);

/// Relies on protobuf's `ProtobufError` being a plain error value.
#[verifier::external_type_specification]
#[verifier::external_body]
pub struct ExProtobufError(protobuf::ProtobufError);

/// Relies on validator's `ValidationError` being a plain error value.
#[verifier::external_type_specification]
#[verifier::external_body]
pub struct ExValidationError(validator::ValidationError);

/// Relies on validator's `ValidationErrors` being a plain error value.
#[verifier::external_type_specification]
#[verifier::external_body]
pub struct ExValidationErrors(validator::ValidationErrors);

/// Relies on fancy_regex's `Error` being a plain error value.
#[verifier::external_type_specification]
#[verifier::external_body]
pub struct ExRegexError(fancy_regex::Error);

/// Relies on tokio's `JoinError` being a plain error value.
#[verifier::external_type_specification]
#[verifier::external_body]
pub struct ExJoinError(tokio::task::JoinError);

/// Relies on tokio's oneshot `RecvError` being a plain error value.
#[verifier::external_type_specification]
#[verifier::external_body]
pub struct ExRecvError(tokio::sync::oneshot::error::RecvError);

/// Relies on uuid's `Error` being a plain error value.
#[verifier::external_type_specification]
#[verifier::external_body]
pub struct ExUuidError(uuid::Error);

/// What fancy_regex renders a compilation failure as: a function of the
/// error value alone.
pub uninterp spec fn regex_error_rendering(e: fancy_regex::Error) -> Seq<char>;

/// What tokio renders a task-join failure as: the task's id together with
/// its cancelled or panicked outcome, a function of the error value alone.
pub uninterp spec fn join_error_rendering(e: tokio::task::JoinError) -> Seq<char>;

/// What uuid renders an identifier-parsing failure as: a function of the
/// error value alone.
pub uninterp spec fn uuid_error_rendering(e: uuid::Error) -> Seq<char>;

/// Relies on fancy_regex's `Error` `Display` implementation: the rendering
/// is built from the error value and nothing else.
#[verifier::external_body]
fn render_regex_error(error: &fancy_regex::Error) -> (r: String)
    ensures
        r@ == regex_error_rendering(*error),
{
    error.to_string()
}

/// Relies on tokio's `JoinError` `Display` implementation: the rendering is
/// built from the error value and nothing else.
#[verifier::external_body]
fn render_join_error(error: &tokio::task::JoinError) -> (r: String)
    ensures
        r@ == join_error_rendering(*error),
{
    error.to_string()
}

/// Relies on tokio's oneshot `RecvError` `Display` implementation: it
/// renders the fixed string "channel closed".
#[verifier::external_body]
fn render_recv_error(error: &tokio::sync::oneshot::error::RecvError) -> (r: String)
    ensures
        r@ == "channel closed"@,
{
    error.to_string()
}

/// Relies on uuid's `Error` `Display` implementation: the rendering is
/// built from the error value and nothing else.
#[verifier::external_body]
fn render_uuid_error(error: &uuid::Error) -> (r: String)
    ensures
        r@ == uuid_error_rendering(*error),
{
    error.to_string()
}

impl FlowyError {
    /// An I/O failure is internal: the `Internal` tag, with the failure's
    /// rendering attached as the message.
    pub fn from_io_error(error: std::io::Error) -> (r: Self)
        ensures
            r@ == replace_message(fresh_error(ErrorCode::Internal), r@.msg),
    {
        Self::internal().with_context(error)
    }

    /// A protobuf (de)serialization failure is internal: the `Internal` tag,
    /// with the failure's rendering attached as the message.
    pub fn from_protobuf_error(error: protobuf::ProtobufError) -> (r: Self)
        ensures
            r@ == replace_message(fresh_error(ErrorCode::Internal), r@.msg),
    {
        Self::internal().with_context(error)
    }

    /// A single input-validation failure carries the `InvalidParams` tag,
    /// with the failure's rendering as the message and no payload.
    pub fn from_validation_error(error: validator::ValidationError) -> (r: Self)
        ensures
            r@ == replace_message(error_model(ErrorCode::InvalidParams, Seq::empty(), Seq::empty()), r@.msg),
    {
        Self::new(ErrorCode::InvalidParams, error)
    }

    /// An aggregate input-validation failure carries the `InvalidParams` tag,
    /// with the failure's rendering as the message and no payload.
    pub fn from_validation_errors(errors: validator::ValidationErrors) -> (r: Self)
        ensures
            r@ == replace_message(error_model(ErrorCode::InvalidParams, Seq::empty(), Seq::empty()), r@.msg),
    {
        Self::new(ErrorCode::InvalidParams, errors)
    }

    /// A regular-expression compilation failure is internal: the `Internal`
    /// tag, with exactly the failure's rendering as the message.
    pub fn from_regex_error(error: fancy_regex::Error) -> (r: Self)
        ensures
            r@ == error_model(ErrorCode::Internal, regex_error_rendering(error), Seq::empty()),
    {
        let msg = render_regex_error(&error);
        Self::internal().with_message(msg)
    }

    /// A task-join failure is internal: the `Internal` tag, with exactly the
    /// failure's rendering as the message.
    pub fn from_join_error(error: tokio::task::JoinError) -> (r: Self)
        ensures
            r@ == error_model(ErrorCode::Internal, join_error_rendering(error), Seq::empty()),
    {
        let msg = render_join_error(&error);
        Self::internal().with_message(msg)
    }

    /// A single-use-channel receive failure is internal: the `Internal` tag,
    /// with exactly the channel's fixed closed-channel rendering as the
    /// message.
    pub fn from_recv_error(error: tokio::sync::oneshot::error::RecvError) -> (r: Self)
        ensures
            r@ == error_model(ErrorCode::Internal, "channel closed"@, Seq::empty()),
    {
        let msg = render_recv_error(&error);
        Self::internal().with_message(msg)
    }

    /// An identifier-parsing failure is internal: the `Internal` tag, with
    /// exactly the failure's rendering as the message.
    pub fn from_uuid_error(error: uuid::Error) -> (r: Self)
        ensures
            r@ == error_model(ErrorCode::Internal, uuid_error_rendering(error), Seq::empty()),
    {
        let msg = render_uuid_error(&error);
        Self::internal().with_message(msg)
    }

    /// A plain string-based failure is internal: the `Internal` tag, with
    /// exactly that string as the message.
    pub fn from_string(message: String) -> (r: Self)
        ensures
            r@ == error_model(ErrorCode::Internal, message@, Seq::empty()),
    {
        Self::internal().with_message(message)
    }

    /// Resolves a type-erased failure: a container that already held a
    /// unified error yields that exact error back, unchanged; anything else
    /// is wrapped as `Internal` with its description as the message.
    pub fn from_erased(found: Option<FlowyError>, description: String) -> (r: Self)
        ensures
            (match found {
                Some(e) => r == e,
                None => r@ == error_model(ErrorCode::Internal, description@, Seq::empty()),
            }),
    {
        match found {
            Some(e) => e,
            None => Self::new_message(ErrorCode::Internal, description),
        }
    }
}

} // verus!
