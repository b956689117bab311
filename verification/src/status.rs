//! Status reports of transport operations.

use dust_dds::infrastructure::error::DdsError;
use vstd::prelude::*;

use crate::text::join3;

verus! {

/// Category of a failed operation.
#[derive(Clone, Copy, Debug, PartialEq, Eq, Structural)]
pub enum StatusCode {
    /// The caller handed over something that the transport cannot accept.
    InvalidArgument,
    /// A deadline passed before the operation finished.
    DeadlineExceeded,
    /// The thing to remove does not exist.
    NotFound,
    /// The thing to add exists already.
    AlreadyExists,
    /// A resource is used up.
    ResourceExhausted,
    /// Any other failure inside the transport or the middleware.
    Internal,
    /// The transport or one of its entities is not operational.
    Unavailable,
}

/// A failed operation: its category and a human-readable detail.
#[derive(Debug, PartialEq, Eq)]
pub struct Status {
    /// Category of the failure.
    pub code: StatusCode,
    /// Human-readable detail.
    pub message: String,
}

/// A failed operation as contracts see it.
#[verifier::ext_equal]
pub struct StatusView {
    /// Category of the failure.
    pub code: StatusCode,
    /// Human-readable detail.
    pub message: Seq<char>,
}

impl View for Status {
    type V = StatusView;

    open spec fn view(&self) -> StatusView {
        StatusView { code: self.code, message: self.message@ }
    }
}

/// The outcome of an operation that returns nothing on success.
pub open spec fn outcome_view(outcome: Result<(), Status>) -> Result<(), StatusView> {
    match outcome {
        Ok(_) => Ok(()),
        Err(status) => Err(status@),
    }
}

/// A refusal of what the caller handed over.
pub open spec fn invalid_view(detail: Seq<char>) -> StatusView {
    StatusView { code: StatusCode::InvalidArgument, message: detail }
}

/// The answer of every operation on a transport whose writer is gone.
pub open spec fn closed_view() -> StatusView {
    StatusView { code: StatusCode::Unavailable, message: "transport is closed"@ }
}

/// Builds a status from its parts.
pub fn fail(code: StatusCode, message: String) -> (status: Status)
    ensures
        status@ == (StatusView { code, message: message@ }),
{
    Status { code, message }
}

/// Builds the refusal of an argument.
pub fn invalid(detail: &str) -> (status: Status)
    ensures
        status@ == invalid_view(detail@),
{
    fail(StatusCode::InvalidArgument, detail.to_owned())
}

/// Builds the answer of a transport whose writer is gone.
pub fn closed() -> (status: Status)
    ensures
        status@ == closed_view(),
{
    fail(StatusCode::Unavailable, "transport is closed".to_owned())
}

/// What a DDS operation reports when it fails, as plain data.
///
/// The variants are those of [`DdsError`].
#[derive(Debug, PartialEq, Eq)]
pub enum DdsFailure {
    /// Generic failure with a detail.
    Error(String),
    /// The operation is not supported.
    Unsupported,
    /// A parameter has an illegal value.
    BadParameter,
    /// A precondition of the operation does not hold.
    PreconditionNotMet(String),
    /// The middleware ran out of resources.
    OutOfResources,
    /// The entity is not enabled.
    NotEnabled,
    /// A policy cannot be changed any more.
    ImmutablePolicy,
    /// Policies contradict each other.
    InconsistentPolicy,
    /// The entity was deleted before.
    AlreadyDeleted,
    /// The operation timed out.
    Timeout,
    /// There was nothing to read.
    NoData,
    /// The operation makes no sense on this entity.
    IllegalOperation,
}

/// Text by which the middleware describes a failure.
pub open spec fn failure_text(failure: DdsFailure) -> Seq<char> {
    match failure {
        DdsFailure::Error(detail) => "unspecified: "@ + detail@,
        DdsFailure::Unsupported => "unsupported operation"@,
        DdsFailure::BadParameter => "illegal parameter value"@,
        DdsFailure::PreconditionNotMet(detail) => "operation precondition not met: "@ + detail@,
        DdsFailure::OutOfResources => "insufficient resources to complete the operation"@,
        DdsFailure::NotEnabled => "operation not enabled"@,
        DdsFailure::ImmutablePolicy => "attempted to modify an immutable policy"@,
        DdsFailure::InconsistentPolicy => "specified a set of inconsistent policies"@,
        DdsFailure::AlreadyDeleted => "object of operation has been already deleted"@,
        DdsFailure::Timeout => "operation timed out"@,
        DdsFailure::NoData => "operation returned no data, but no error occurred"@,
        DdsFailure::IllegalOperation => "illegal operation"@,
    }
}

/// Category under which a DDS failure is reported.
pub open spec fn failure_code(failure: DdsFailure) -> StatusCode {
    match failure {
        DdsFailure::BadParameter => StatusCode::InvalidArgument,
        DdsFailure::InconsistentPolicy => StatusCode::InvalidArgument,
        DdsFailure::OutOfResources => StatusCode::ResourceExhausted,
        DdsFailure::Timeout => StatusCode::DeadlineExceeded,
        DdsFailure::NotEnabled => StatusCode::Unavailable,
        DdsFailure::AlreadyDeleted => StatusCode::Unavailable,
        _ => StatusCode::Internal,
    }
}

/// A DDS failure put into the context of the operation that met it.
pub open spec fn failure_in_context(context: Seq<char>, failure: DdsFailure) -> Seq<char> {
    context + ": "@ + failure_text(failure)
}

/// Status of an operation that a DDS failure ended.
pub open spec fn dds_status_view(context: Seq<char>, failure: DdsFailure) -> StatusView {
    StatusView { code: failure_code(failure), message: failure_in_context(context, failure) }
}

/// The `Display` text of [`DdsError`], from its plain copy.
///
/// Trusted: for each variant the middleware writes exactly the sentence listed
/// in [`failure_text`], followed by the carried detail where there is one.
#[verifier::external_body]
pub(crate) fn describe_failure(failure: &DdsFailure) -> (text: String)
    ensures
        text@ == failure_text(*failure),
{
    match failure {
        DdsFailure::Error(detail) => DdsError::Error(detail.clone()),
        DdsFailure::Unsupported => DdsError::Unsupported,
        DdsFailure::BadParameter => DdsError::BadParameter,
        DdsFailure::PreconditionNotMet(detail) => DdsError::PreconditionNotMet(detail.clone()),
        DdsFailure::OutOfResources => DdsError::OutOfResources,
        DdsFailure::NotEnabled => DdsError::NotEnabled,
        DdsFailure::ImmutablePolicy => DdsError::ImmutablePolicy,
        DdsFailure::InconsistentPolicy => DdsError::InconsistentPolicy,
        DdsFailure::AlreadyDeleted => DdsError::AlreadyDeleted,
        DdsFailure::Timeout => DdsError::Timeout,
        DdsFailure::NoData => DdsError::NoData,
        DdsFailure::IllegalOperation => DdsError::IllegalOperation,
    }.to_string()
}

/// Writes a DDS failure in the context of the operation that met it.
pub fn describe_in_context(context: &str, failure: &DdsFailure) -> (text: String)
    ensures
        text@ == failure_in_context(context@, *failure),
{
    join3(context, ": ", describe_failure(failure).as_str())
}

/// Turns a DDS failure into the status of the operation that met it.
pub fn dds_status(context: &str, failure: &DdsFailure) -> (status: Status)
    ensures
        status@ == dds_status_view(context@, *failure),
{
    let code = match failure {
        DdsFailure::BadParameter | DdsFailure::InconsistentPolicy => StatusCode::InvalidArgument,
        DdsFailure::OutOfResources => StatusCode::ResourceExhausted,
        DdsFailure::Timeout => StatusCode::DeadlineExceeded,
        DdsFailure::NotEnabled | DdsFailure::AlreadyDeleted => StatusCode::Unavailable,
        _ => StatusCode::Internal,
    };
    fail(code, describe_in_context(context, failure))
}

/// The view of a status shows its code and its message, and the view of an
/// outcome shows that status or the success.
pub proof fn law_statuses_are_seen_whole(status: Status)
    ensures
        status@.code == status.code,
        status@.message == status.message@,
        outcome_view(Ok(())) is Ok,
        outcome_view(Err(status)) == Err::<(), StatusView>(status@),
{
}

/// What the caller handed over wrongly is reported as an invalid argument, and
/// a transport without its writer as unavailable.
pub proof fn law_refusals_have_their_codes(detail: Seq<char>)
    ensures
        invalid_view(detail).code == StatusCode::InvalidArgument,
        invalid_view(detail).message == detail,
        closed_view().code == StatusCode::Unavailable,
        closed_view().message == "transport is closed"@,
{
}

/// The code of a DDS failure tells apart wrong arguments, used up resources,
/// passed deadlines and entities that are not operational; everything else is
/// internal. Its message names the context first and after it the failure, in
/// the words of the middleware.
pub proof fn law_dds_failures_are_told_apart(context: Seq<char>, failure: DdsFailure)
    ensures
        ({
            let status = dds_status_view(context, failure);
            &&& status.code == StatusCode::InvalidArgument <==> failure is BadParameter
                || failure is InconsistentPolicy
            &&& status.code == StatusCode::ResourceExhausted <==> failure is OutOfResources
            &&& status.code == StatusCode::DeadlineExceeded <==> failure is Timeout
            &&& status.code == StatusCode::Unavailable <==> failure is NotEnabled
                || failure is AlreadyDeleted
            &&& status.code != StatusCode::NotFound && status.code != StatusCode::AlreadyExists
            &&& status.message == context + ": "@ + failure_text(failure)
            &&& failure_in_context(context, failure) == context + ": "@ + failure_text(failure)
        }),
        failure matches DdsFailure::Error(detail) ==> failure_text(failure) == "unspecified: "@
            + detail@,
        failure matches DdsFailure::PreconditionNotMet(detail) ==> failure_text(failure)
            == "operation precondition not met: "@ + detail@,
        failure is Unsupported ==> failure_text(failure) == "unsupported operation"@,
        failure is BadParameter ==> failure_text(failure) == "illegal parameter value"@,
        failure is OutOfResources ==> failure_text(failure)
            == "insufficient resources to complete the operation"@,
        failure is NotEnabled ==> failure_text(failure) == "operation not enabled"@,
        failure is ImmutablePolicy ==> failure_text(failure)
            == "attempted to modify an immutable policy"@,
        failure is InconsistentPolicy ==> failure_text(failure)
            == "specified a set of inconsistent policies"@,
        failure is AlreadyDeleted ==> failure_text(failure)
            == "object of operation has been already deleted"@,
        failure is Timeout ==> failure_text(failure) == "operation timed out"@,
        failure is NoData ==> failure_text(failure)
            == "operation returned no data, but no error occurred"@,
        failure is IllegalOperation ==> failure_text(failure) == "illegal operation"@,
{
}

} // verus!
