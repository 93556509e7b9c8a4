//! How the end of an operation on storage is answered.

use vstd::prelude::*;

use crate::capability::{
    CancelError, CancelResponse, CancelResponseStatus, DecideError, DecideResponse,
    DecideResponseStatus, ExpireError, ExpireResponse, ExpireResponseStatus, ReadError,
    ReadResponse, ReadResponseStatus, ReadResponseSubject, RequestError, RequestResponse,
    RequestResponseStatus,
};
use crate::failure;
use crate::failure::{PluginError, PluginErrorModel, RuntimeFailure, RuntimeFailureModel};
use crate::flow;
use crate::flow::StorageResult;
use crate::statement::Reply;
use crate::storage;
use crate::storage::{
    ApprovalModel, ApprovalStatus, DomainFailure, OutcomeModel, RequestOutcome, StorageError,
    StorageErrorModel, StoredApproval,
};
use crate::text;
use crate::timestamp;

verus! {

// The parts of an answer.

/// The failure that reports an error of storage.
pub open spec fn storage_failure(error: StorageErrorModel) -> RuntimeFailureModel {
    RuntimeFailureModel::PluginFailure { detail: storage::storage_message(error) }
}

/// Reports an error of storage.
pub fn storage_runtime<E>(error: StorageError) -> (result: PluginError<E>)
    ensures
        result@ == PluginErrorModel::<E>::Runtime(storage_failure(error@)),
{
    PluginError::Runtime(RuntimeFailure::PluginFailure { detail: error.message() })
}

/// The failure, if any, of writing a revision.
pub open spec fn revision_failure(revision: int) -> Option<RuntimeFailureModel> {
    if revision < 1 {
        Some(failure::internal("stored revision is invalid"@))
    } else {
        None
    }
}

/// The failure, if any, of writing an instant.
pub open spec fn instant_failure(nanos: int) -> Option<RuntimeFailureModel> {
    if timestamp::unwritable(nanos) {
        Some(failure::internal("stored timestamp cannot be formatted"@))
    } else {
        None
    }
}

/// Writes a revision.
pub fn revision_string<E>(revision: i64) -> (result: Result<String, PluginError<E>>)
    ensures
        match result {
            Ok(written) => revision_failure(revision as int) is None && written@ == text::decimal(
                revision as nat,
            ),
            Err(error) => revision_failure(revision as int) matches Some(cause) && error@
                == PluginErrorModel::<E>::Runtime(cause),
        },
{
    if revision < 1 {
        Err(failure::invalid_request_runtime("stored revision is invalid"))
    } else {
        Ok(text::decimal_text(revision as u64))
    }
}

/// The Instance that a terminal row owes.
pub fn required_terminal<E>(value: Option<String>) -> (result: Result<String, PluginError<E>>)
    ensures
        match value {
            Some(content) => result == Ok::<String, PluginError<E>>(content),
            None => result matches Err(error) && error@ == PluginErrorModel::<E>::Runtime(
                failure::inconsistent_terminal(),
            ),
        },
{
    match value {
        Some(content) => Ok(content),
        None => Err(failure::invalid_terminal()),
    }
}

/// The status that answers a request.
pub fn request_status(status: ApprovalStatus) -> (result: RequestResponseStatus)
    ensures
        result == answered_status(status),
{
    match status {
        ApprovalStatus::Pending => RequestResponseStatus::Pending,
        ApprovalStatus::Approved => RequestResponseStatus::Approved,
        ApprovalStatus::Rejected => RequestResponseStatus::Rejected,
        ApprovalStatus::Cancelled => RequestResponseStatus::Cancelled,
        ApprovalStatus::Expired => RequestResponseStatus::Expired,
    }
}

/// The status that answers a request.
pub open spec fn answered_status(status: ApprovalStatus) -> RequestResponseStatus {
    match status {
        ApprovalStatus::Pending => RequestResponseStatus::Pending,
        ApprovalStatus::Approved => RequestResponseStatus::Approved,
        ApprovalStatus::Rejected => RequestResponseStatus::Rejected,
        ApprovalStatus::Cancelled => RequestResponseStatus::Cancelled,
        ApprovalStatus::Expired => RequestResponseStatus::Expired,
    }
}

/// The status that answers a read.
pub open spec fn read_status(status: ApprovalStatus) -> ReadResponseStatus {
    match status {
        ApprovalStatus::Pending => ReadResponseStatus::Pending,
        ApprovalStatus::Approved => ReadResponseStatus::Approved,
        ApprovalStatus::Rejected => ReadResponseStatus::Rejected,
        ApprovalStatus::Cancelled => ReadResponseStatus::Cancelled,
        ApprovalStatus::Expired => ReadResponseStatus::Expired,
    }
}

/// Whether a text is a revision, written out.
pub open spec fn writes_revision(written: Seq<char>, revision: int) -> bool {
    revision >= 1 && written == text::decimal(revision as nat)
}

/// Whether a text is an instant, written out so that it can be read back.
pub open spec fn writes_instant(written: Seq<char>, nanos: int) -> bool {
    &&& written == timestamp::rfc3339_text(nanos)
    &&& timestamp::rfc3339_instant(written) == Some(nanos)
}

/// The failure, if any, of answering with a terminal approval: the first thing
/// that is wrong with its status, revision, Instance and time.
pub open spec fn terminal_failure(
    approval: ApprovalModel,
    expected: bool,
) -> Option<RuntimeFailureModel> {
    if !expected {
        Some(failure::inconsistent_terminal())
    } else if revision_failure(approval.revision) is Some {
        revision_failure(approval.revision)
    } else if approval.terminal_caller_instance is None || approval.terminal_at is None {
        Some(failure::inconsistent_terminal())
    } else {
        instant_failure(approval.terminal_at->0)
    }
}

/// The failure, if any, of answering a read: the first of its revision and its
/// instants that cannot be written.
pub open spec fn read_failure(approval: ApprovalModel) -> Option<RuntimeFailureModel> {
    if revision_failure(approval.revision) is Some {
        revision_failure(approval.revision)
    } else if instant_failure(approval.requested_at) is Some {
        instant_failure(approval.requested_at)
    } else if instant_failure(approval.expires_at) is Some {
        instant_failure(approval.expires_at)
    } else {
        match approval.terminal_at {
            Some(at) => instant_failure(at),
            None => None,
        }
    }
}

// Answers.

/// Whether an answer tells of an approval that was decided.
pub open spec fn answers_decision(response: DecideResponse, approval: ApprovalModel) -> bool {
    &&& response.request_id@ == approval.request_id
    &&& (response.status is Approved) == (approval.status is Approved)
    &&& (response.status is Rejected) == (approval.status is Rejected)
    &&& writes_revision(response.revision@, approval.revision)
    &&& approval.terminal_caller_instance == Some(response.terminal_caller_instance@)
    &&& text::optional_text(response.terminal_actor) == approval.terminal_actor
    &&& text::optional_text(response.evidence_ref) == approval.evidence_ref
    &&& text::optional_text(response.reason) == approval.reason
    &&& approval.terminal_at matches Some(at) && writes_instant(response.terminal_at@, at)
}

/// Whether an answer tells of an approval that was cancelled.
pub open spec fn answers_cancellation(response: CancelResponse, approval: ApprovalModel) -> bool {
    &&& response.request_id@ == approval.request_id
    &&& approval.status is Cancelled
    &&& writes_revision(response.revision@, approval.revision)
    &&& approval.terminal_caller_instance == Some(response.terminal_caller_instance@)
    &&& text::optional_text(response.terminal_actor) == approval.terminal_actor
    &&& text::optional_text(response.evidence_ref) == approval.evidence_ref
    &&& text::optional_text(response.reason) == approval.reason
    &&& approval.terminal_at matches Some(at) && writes_instant(response.terminal_at@, at)
}

/// Whether an answer tells of an approval that has expired.
pub open spec fn answers_expiration(response: ExpireResponse, approval: ApprovalModel) -> bool {
    &&& response.request_id@ == approval.request_id
    &&& approval.status is Expired
    &&& writes_revision(response.revision@, approval.revision)
    &&& approval.terminal_caller_instance == Some(response.terminal_caller_instance@)
    &&& text::optional_text(response.terminal_actor) == approval.terminal_actor
    &&& text::optional_text(response.evidence_ref) == approval.evidence_ref
    &&& text::optional_text(response.reason) == approval.reason
    &&& approval.terminal_at matches Some(at) && writes_instant(response.terminal_at@, at)
}

/// Whether an answer tells all of an approval.
pub open spec fn answers_read(response: ReadResponse, approval: ApprovalModel) -> bool {
    &&& response.request_id@ == approval.request_id
    &&& response.idempotency_key@ == approval.idempotency_key
    &&& response.approval_kind@ == approval.approval_kind
    &&& response.subject.kind@ == approval.subject_kind
    &&& response.subject.id@ == approval.subject_id
    &&& response.requester_instance@ == approval.requester_instance
    &&& response.requested_by@ == approval.requested_by
    &&& response.status == read_status(approval.status)
    &&& writes_revision(response.revision@, approval.revision)
    &&& writes_instant(response.requested_at@, approval.requested_at)
    &&& writes_instant(response.expires_at@, approval.expires_at)
    &&& text::optional_text(response.terminal_caller_instance) == approval.terminal_caller_instance
    &&& text::optional_text(response.terminal_actor) == approval.terminal_actor
    &&& text::optional_text(response.evidence_ref) == approval.evidence_ref
    &&& text::optional_text(response.reason) == approval.reason
    &&& match approval.terminal_at {
        None => response.terminal_at is None,
        Some(at) => response.terminal_at matches Some(written) && writes_instant(written@, at),
    }
}

/// Answers a decision with the approval that it made.
pub fn decide_response(approval: StoredApproval) -> (result: Result<
    DecideResponse,
    PluginError<DecideError>,
>)
    ensures
        match terminal_failure(
            approval@,
            approval@.status is Approved || approval@.status is Rejected,
        ) {
            None => result matches Ok(response) && answers_decision(response, approval@),
            Some(cause) => result matches Err(error) && error@ == PluginErrorModel::<
                DecideError,
            >::Runtime(cause),
        },
{
    let status = match approval.status {
        ApprovalStatus::Approved => DecideResponseStatus::Approved,
        ApprovalStatus::Rejected => DecideResponseStatus::Rejected,
        _ => {
            return Err(failure::invalid_terminal());
        },
    };
    let revision = revision_string(approval.revision)?;
    let terminal_caller_instance = required_terminal(approval.terminal_caller_instance)?;
    let terminal_at = timestamp::format_required_timestamp(approval.terminal_at)?;
    Ok(
        DecideResponse {
            request_id: approval.request_id,
            status,
            revision,
            terminal_caller_instance,
            terminal_actor: approval.terminal_actor,
            evidence_ref: approval.evidence_ref,
            reason: approval.reason,
            terminal_at,
        },
    )
}

/// Answers a cancellation with the approval that it ended.
pub fn cancel_response(approval: StoredApproval) -> (result: Result<
    CancelResponse,
    PluginError<CancelError>,
>)
    ensures
        match terminal_failure(approval@, approval@.status is Cancelled) {
            None => result matches Ok(response) && answers_cancellation(response, approval@),
            Some(cause) => result matches Err(error) && error@ == PluginErrorModel::<
                CancelError,
            >::Runtime(cause),
        },
{
    if approval.status != ApprovalStatus::Cancelled {
        return Err(failure::invalid_terminal());
    }
    let revision = revision_string(approval.revision)?;
    let terminal_caller_instance = required_terminal(approval.terminal_caller_instance)?;
    let terminal_at = timestamp::format_required_timestamp(approval.terminal_at)?;
    Ok(
        CancelResponse {
            request_id: approval.request_id,
            status: CancelResponseStatus::Cancelled,
            revision,
            terminal_caller_instance,
            terminal_actor: approval.terminal_actor,
            evidence_ref: approval.evidence_ref,
            reason: approval.reason,
            terminal_at,
        },
    )
}

/// Answers an expiration with the approval that it ended.
pub fn expire_response(approval: StoredApproval) -> (result: Result<
    ExpireResponse,
    PluginError<ExpireError>,
>)
    ensures
        match terminal_failure(approval@, approval@.status is Expired) {
            None => result matches Ok(response) && answers_expiration(response, approval@),
            Some(cause) => result matches Err(error) && error@ == PluginErrorModel::<
                ExpireError,
            >::Runtime(cause),
        },
{
    if approval.status != ApprovalStatus::Expired {
        return Err(failure::invalid_terminal());
    }
    let revision = revision_string(approval.revision)?;
    let terminal_caller_instance = required_terminal(approval.terminal_caller_instance)?;
    let terminal_at = timestamp::format_required_timestamp(approval.terminal_at)?;
    Ok(
        ExpireResponse {
            request_id: approval.request_id,
            status: ExpireResponseStatus::Expired,
            revision,
            terminal_caller_instance,
            terminal_actor: approval.terminal_actor,
            evidence_ref: approval.evidence_ref,
            reason: approval.reason,
            terminal_at,
        },
    )
}

/// Answers a read with an approval.
pub fn read_response(approval: StoredApproval) -> (result: Result<
    ReadResponse,
    PluginError<ReadError>,
>)
    ensures
        match read_failure(approval@) {
            None => result matches Ok(response) && answers_read(response, approval@),
            Some(cause) => result matches Err(error) && error@ == PluginErrorModel::<
                ReadError,
            >::Runtime(cause),
        },
{
    let status = match approval.status {
        ApprovalStatus::Pending => ReadResponseStatus::Pending,
        ApprovalStatus::Approved => ReadResponseStatus::Approved,
        ApprovalStatus::Rejected => ReadResponseStatus::Rejected,
        ApprovalStatus::Cancelled => ReadResponseStatus::Cancelled,
        ApprovalStatus::Expired => ReadResponseStatus::Expired,
    };
    let revision = revision_string(approval.revision)?;
    let requested_at = timestamp::format_timestamp(approval.requested_at)?;
    let expires_at = timestamp::format_timestamp(approval.expires_at)?;
    let terminal_at = match approval.terminal_at {
        None => None,
        Some(at) => Some(timestamp::format_timestamp(at)?),
    };
    Ok(
        ReadResponse {
            request_id: approval.request_id,
            idempotency_key: approval.idempotency_key,
            approval_kind: approval.approval_kind,
            subject: ReadResponseSubject { kind: approval.subject_kind, id: approval.subject_id },
            requester_instance: approval.requester_instance,
            requested_by: approval.requested_by,
            status,
            revision,
            requested_at,
            expires_at,
            terminal_caller_instance: approval.terminal_caller_instance,
            terminal_actor: approval.terminal_actor,
            evidence_ref: approval.evidence_ref,
            reason: approval.reason,
            terminal_at,
        },
    )
}

// Refusals.

/// The refusal that answers a request.
pub open spec fn request_refusal(refusal: DomainFailure) -> RequestError {
    match refusal {
        DomainFailure::IdempotencyConflict => RequestError::IdempotencyConflict,
        _ => RequestError::InvalidRequest,
    }
}

/// The refusal that answers a decision.
pub open spec fn decide_refusal(refusal: DomainFailure) -> DecideError {
    match refusal {
        DomainFailure::RequestNotFound => DecideError::RequestNotFound,
        DomainFailure::AlreadyTerminal => DecideError::AlreadyTerminal,
        _ => DecideError::InvalidRequest,
    }
}

/// The refusal that answers a cancellation.
pub open spec fn cancel_refusal(refusal: DomainFailure) -> CancelError {
    match refusal {
        DomainFailure::RequestNotFound => CancelError::RequestNotFound,
        DomainFailure::AlreadyTerminal => CancelError::AlreadyTerminal,
        DomainFailure::NotRequester => CancelError::NotRequester,
        _ => CancelError::InvalidRequest,
    }
}

/// The refusal that answers an expiration.
pub open spec fn expire_refusal(refusal: DomainFailure) -> ExpireError {
    match refusal {
        DomainFailure::RequestNotFound => ExpireError::RequestNotFound,
        DomainFailure::AlreadyTerminal => ExpireError::AlreadyTerminal,
        DomainFailure::NotDue => ExpireError::NotDue,
        _ => ExpireError::InvalidRequest,
    }
}

/// The refusal that answers a request.
pub fn map_request_failure(failure: DomainFailure) -> (error: RequestError)
    ensures
        error == request_refusal(failure),
{
    match failure {
        DomainFailure::IdempotencyConflict => RequestError::IdempotencyConflict,
        _ => RequestError::InvalidRequest,
    }
}

/// The refusal that answers a decision.
pub fn map_decide_failure(failure: DomainFailure) -> (error: DecideError)
    ensures
        error == decide_refusal(failure),
{
    match failure {
        DomainFailure::RequestNotFound => DecideError::RequestNotFound,
        DomainFailure::AlreadyTerminal => DecideError::AlreadyTerminal,
        _ => DecideError::InvalidRequest,
    }
}

/// The refusal that answers a cancellation.
pub fn map_cancel_failure(failure: DomainFailure) -> (error: CancelError)
    ensures
        error == cancel_refusal(failure),
{
    match failure {
        DomainFailure::RequestNotFound => CancelError::RequestNotFound,
        DomainFailure::AlreadyTerminal => CancelError::AlreadyTerminal,
        DomainFailure::NotRequester => CancelError::NotRequester,
        _ => CancelError::InvalidRequest,
    }
}

/// The refusal that answers an expiration.
pub fn map_expire_failure(failure: DomainFailure) -> (error: ExpireError)
    ensures
        error == expire_refusal(failure),
{
    match failure {
        DomainFailure::RequestNotFound => ExpireError::RequestNotFound,
        DomainFailure::AlreadyTerminal => ExpireError::AlreadyTerminal,
        DomainFailure::NotDue => ExpireError::NotDue,
        _ => ExpireError::InvalidRequest,
    }
}

// Whole answers.

/// Whether an answer tells what came of a request.
pub open spec fn answers_request(response: RequestResponse, outcome: OutcomeModel) -> bool {
    &&& response.created == outcome.created
    &&& response.request_id@ == outcome.approval.request_id
    &&& response.status == answered_status(outcome.approval.status)
    &&& writes_revision(response.revision@, outcome.approval.revision)
}

/// Answers a request with what came of it.
pub fn answer_request(result: StorageResult<RequestOutcome>) -> (answer: Result<
    RequestResponse,
    PluginError<RequestError>,
>)
    ensures
        match flow::storage_result(result) {
            Err(error) => answer matches Err(cause) && cause@ == PluginErrorModel::<
                RequestError,
            >::Runtime(storage_failure(error)),
            Ok(Err(refusal)) => answer matches Err(cause) && cause@ == PluginErrorModel::Domain(
                request_refusal(refusal),
            ),
            Ok(Ok(outcome)) => match revision_failure(outcome.approval.revision) {
                None => answer matches Ok(response) && answers_request(response, outcome),
                Some(cause) => answer matches Err(error) && error@ == PluginErrorModel::<
                    RequestError,
                >::Runtime(cause),
            },
        },
{
    match result {
        Err(error) => Err(storage_runtime(error)),
        Ok(Err(refusal)) => Err(PluginError::Domain(map_request_failure(refusal))),
        Ok(Ok(outcome)) => {
            let revision = revision_string(outcome.approval.revision)?;
            Ok(
                RequestResponse {
                    created: outcome.created,
                    request_id: outcome.approval.request_id,
                    status: request_status(outcome.approval.status),
                    revision,
                },
            )
        },
    }
}

/// Answers a decision with what came of it.
pub fn answer_decide(result: StorageResult<StoredApproval>) -> (answer: Result<
    DecideResponse,
    PluginError<DecideError>,
>)
    ensures
        match flow::storage_result(result) {
            Err(error) => answer matches Err(cause) && cause@ == PluginErrorModel::<
                DecideError,
            >::Runtime(storage_failure(error)),
            Ok(Err(refusal)) => answer matches Err(cause) && cause@ == PluginErrorModel::Domain(
                decide_refusal(refusal),
            ),
            Ok(Ok(approval)) => match terminal_failure(
                approval,
                approval.status is Approved || approval.status is Rejected,
            ) {
                None => answer matches Ok(response) && answers_decision(response, approval),
                Some(cause) => answer matches Err(error) && error@ == PluginErrorModel::<
                    DecideError,
                >::Runtime(cause),
            },
        },
{
    match result {
        Err(error) => Err(storage_runtime(error)),
        Ok(Err(refusal)) => Err(PluginError::Domain(map_decide_failure(refusal))),
        Ok(Ok(approval)) => decide_response(approval),
    }
}

/// Answers a cancellation with what came of it.
pub fn answer_cancel(result: StorageResult<StoredApproval>) -> (answer: Result<
    CancelResponse,
    PluginError<CancelError>,
>)
    ensures
        match flow::storage_result(result) {
            Err(error) => answer matches Err(cause) && cause@ == PluginErrorModel::<
                CancelError,
            >::Runtime(storage_failure(error)),
            Ok(Err(refusal)) => answer matches Err(cause) && cause@ == PluginErrorModel::Domain(
                cancel_refusal(refusal),
            ),
            Ok(Ok(approval)) => match terminal_failure(approval, approval.status is Cancelled) {
                None => answer matches Ok(response) && answers_cancellation(response, approval),
                Some(cause) => answer matches Err(error) && error@ == PluginErrorModel::<
                    CancelError,
                >::Runtime(cause),
            },
        },
{
    match result {
        Err(error) => Err(storage_runtime(error)),
        Ok(Err(refusal)) => Err(PluginError::Domain(map_cancel_failure(refusal))),
        Ok(Ok(approval)) => cancel_response(approval),
    }
}

/// Answers an expiration with what came of it.
pub fn answer_expire(result: StorageResult<StoredApproval>) -> (answer: Result<
    ExpireResponse,
    PluginError<ExpireError>,
>)
    ensures
        match flow::storage_result(result) {
            Err(error) => answer matches Err(cause) && cause@ == PluginErrorModel::<
                ExpireError,
            >::Runtime(storage_failure(error)),
            Ok(Err(refusal)) => answer matches Err(cause) && cause@ == PluginErrorModel::Domain(
                expire_refusal(refusal),
            ),
            Ok(Ok(approval)) => match terminal_failure(approval, approval.status is Expired) {
                None => answer matches Ok(response) && answers_expiration(response, approval),
                Some(cause) => answer matches Err(error) && error@ == PluginErrorModel::<
                    ExpireError,
                >::Runtime(cause),
            },
        },
{
    match result {
        Err(error) => Err(storage_runtime(error)),
        Ok(Err(refusal)) => Err(PluginError::Domain(map_expire_failure(refusal))),
        Ok(Ok(approval)) => expire_response(approval),
    }
}

/// Answers a read with the reply of the database.
pub fn answer_read(reply: Reply) -> (answer: Result<ReadResponse, PluginError<ReadError>>)
    ensures
        match flow::read_result(reply@) {
            Err(error) => answer matches Err(cause) && cause@ == PluginErrorModel::<
                ReadError,
            >::Runtime(storage_failure(error)),
            Ok(None) => answer matches Err(cause) && cause@ == PluginErrorModel::Domain(
                ReadError::RequestNotFound,
            ),
            Ok(Some(approval)) => match read_failure(approval) {
                None => answer matches Ok(response) && answers_read(response, approval),
                Some(cause) => answer matches Err(error) && error@ == PluginErrorModel::<
                    ReadError,
                >::Runtime(cause),
            },
        },
{
    match flow::read_reply(reply) {
        Err(error) => Err(storage_runtime(error)),
        Ok(None) => Err(PluginError::Domain(ReadError::RequestNotFound)),
        Ok(Some(approval)) => read_response(approval),
    }
}

} // verus!
