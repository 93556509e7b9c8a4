//! Rows, statuses, statements, instants and the parts of an answer.

use business_approval::capability::{
    CancelError, DecideError, ExpireError, ReadError, RequestError, RequestResponseStatus,
};
use business_approval::failure::{invalid_terminal, PluginError, RuntimeFailure};
use business_approval::response::{
    cancel_response, decide_response, expire_response, map_cancel_failure, map_decide_failure,
    map_expire_failure, map_request_failure, read_response, request_status, required_terminal,
    revision_string, storage_runtime,
};
use business_approval::statement::{
    Statement, CHECK_DEADLINE, INSERT_REQUEST, LOCK_REQUEST, READ_REQUEST, RECORD_CANCELLATION,
    RECORD_DECISION, RECORD_EXPIRATION, RESOLVE_IDEMPOTENT,
};
use business_approval::storage::{
    decode_approval, same_intent, validate_evidence, value, ApprovalRow, ApprovalStatus,
    DomainFailure, RequestIntent, StorageError, StoredApproval,
};
use business_approval::timestamp::{
    format_required_timestamp, format_timestamp, normalize_timestamp, Timestamp, MAX_NANOS,
    MIN_NANOS, YEAR_ZERO_NANOS,
};
use time::OffsetDateTime;

fn at(nanos: i128) -> Timestamp {
    Timestamp::from_unix_nanos(nanos).unwrap()
}

fn pending() -> StoredApproval {
    StoredApproval {
        request_id: "apr_42".to_owned(),
        requester_instance: "expense-api".to_owned(),
        idempotency_key: "expense_42".to_owned(),
        requested_by: "usr_requester".to_owned(),
        approval_kind: "expense.review".to_owned(),
        subject_kind: "expense".to_owned(),
        subject_id: "exp_42".to_owned(),
        status: ApprovalStatus::Pending,
        revision: 1,
        requested_at: at(0),
        expires_at: at(1_000_000_000),
        terminal_caller_instance: None,
        terminal_actor: None,
        evidence_ref: None,
        reason: None,
        terminal_at: None,
    }
}

fn terminal(status: ApprovalStatus) -> StoredApproval {
    let decided = matches!(status, ApprovalStatus::Approved | ApprovalStatus::Rejected);
    let expired = status == ApprovalStatus::Expired;
    StoredApproval {
        status,
        revision: 2,
        terminal_caller_instance: Some("approval-console".to_owned()),
        terminal_actor: if expired { None } else { Some("usr_approver".to_owned()) },
        evidence_ref: if decided { Some("decision/42".to_owned()) } else { None },
        terminal_at: Some(at(2_000_000_000)),
        ..pending()
    }
}

fn row(approval: &StoredApproval) -> ApprovalRow {
    ApprovalRow {
        status: Some(approval.status.as_str().to_owned()),
        revision: Some(approval.revision),
        request_id: Some(approval.request_id.clone()),
        requester_instance: Some(approval.requester_instance.clone()),
        idempotency_key: Some(approval.idempotency_key.clone()),
        requested_by: Some(approval.requested_by.clone()),
        approval_kind: Some(approval.approval_kind.clone()),
        subject_kind: Some(approval.subject_kind.clone()),
        subject_id: Some(approval.subject_id.clone()),
        requested_at: Some(approval.requested_at),
        expires_at: Some(approval.expires_at),
        terminal_caller_instance: Some(approval.terminal_caller_instance.clone()),
        terminal_actor: Some(approval.terminal_actor.clone()),
        evidence_ref: Some(approval.evidence_ref.clone()),
        reason: Some(approval.reason.clone()),
        terminal_at: Some(approval.terminal_at),
    }
}

const STATUSES: [ApprovalStatus; 5] = [
    ApprovalStatus::Pending,
    ApprovalStatus::Approved,
    ApprovalStatus::Rejected,
    ApprovalStatus::Cancelled,
    ApprovalStatus::Expired,
];

fn internal(detail: &str) -> RuntimeFailure {
    RuntimeFailure::Internal { detail: format!("Business Approval: {detail}") }
}

#[test]
fn statuses_and_their_texts_determine_each_other() {
    let texts = ["pending", "approved", "rejected", "cancelled", "expired"];
    for (status, text) in STATUSES.into_iter().zip(texts) {
        assert_eq!(status.as_str(), text);
        assert_eq!(ApprovalStatus::parse(text), Ok(status));
    }
    for unknown in ["", "Pending", "pending ", "done"] {
        assert_eq!(
            ApprovalStatus::parse(unknown),
            Err(StorageError::InvalidStatus { status: unknown.to_owned() })
        );
    }
}

#[test]
fn consistent_approvals_are_read_back_from_their_rows() {
    assert_eq!(decode_approval(row(&pending())), Ok(pending()));
    for status in &STATUSES[1..] {
        let approval = terminal(*status);
        assert_eq!(validate_evidence(&approval), Ok(()));
        assert_eq!(decode_approval(row(&approval)), Ok(approval));
    }
}

#[test]
fn evidence_must_fit_the_status() {
    let broken: [fn(&mut StoredApproval); 6] = [
        |approval| approval.revision = 3,
        |approval| approval.terminal_caller_instance = None,
        |approval| approval.terminal_at = None,
        |approval| {
            approval.terminal_actor = match approval.terminal_actor {
                Some(_) => None,
                None => Some("usr".to_owned()),
            }
        },
        |approval| {
            approval.evidence_ref = match approval.evidence_ref {
                Some(_) => None,
                None => Some("decision/42".to_owned()),
            }
        },
        |approval| approval.status = ApprovalStatus::Pending,
    ];
    for status in &STATUSES[1..] {
        for change in broken {
            let mut approval = terminal(*status);
            change(&mut approval);
            assert_eq!(validate_evidence(&approval), Err(StorageError::InvalidEvidence));
            assert_eq!(decode_approval(row(&approval)), Err(StorageError::InvalidEvidence));
        }
    }
    let mut expired = terminal(ApprovalStatus::Expired);
    expired.reason = Some("late".to_owned());
    assert_eq!(validate_evidence(&expired), Err(StorageError::InvalidEvidence));
    let mut cancelled = terminal(ApprovalStatus::Cancelled);
    cancelled.reason = Some("late".to_owned());
    assert_eq!(validate_evidence(&cancelled), Ok(()));
    let mut waiting = pending();
    waiting.reason = Some("late".to_owned());
    assert_eq!(validate_evidence(&waiting), Err(StorageError::InvalidEvidence));
}

#[test]
fn the_first_column_that_cannot_be_decoded_is_named() {
    let columns: [(fn(&mut ApprovalRow), &'static str); 16] = [
        (|row| row.terminal_at = None, "decode terminal timestamp"),
        (|row| row.reason = None, "decode reason"),
        (|row| row.evidence_ref = None, "decode evidence reference"),
        (|row| row.terminal_actor = None, "decode terminal actor"),
        (|row| row.terminal_caller_instance = None, "decode terminal caller"),
        (|row| row.expires_at = None, "decode expiration timestamp"),
        (|row| row.requested_at = None, "decode request timestamp"),
        (|row| row.subject_id = None, "decode subject ID"),
        (|row| row.subject_kind = None, "decode subject kind"),
        (|row| row.approval_kind = None, "decode approval kind"),
        (|row| row.requested_by = None, "decode requester"),
        (|row| row.idempotency_key = None, "decode idempotency key"),
        (|row| row.requester_instance = None, "decode requester Instance"),
        (|row| row.request_id = None, "decode request ID"),
        (|row| row.revision = None, "decode revision"),
        (|row| row.status = None, "decode status"),
    ];
    let mut broken = row(&pending());
    for (lose, operation) in columns {
        lose(&mut broken);
        assert_eq!(
            decode_approval(broken.clone()),
            Err(StorageError::Database { operation })
        );
    }
    assert_eq!(value(Some(4u8), "decode"), Ok(4));
    assert_eq!(
        value::<u8>(None, "decode"),
        Err(StorageError::Database { operation: "decode" })
    );
}

#[test]
fn statuses_and_revisions_are_checked_before_other_columns() {
    let mut broken = row(&pending());
    broken.request_id = None;
    broken.revision = Some(0);
    assert_eq!(decode_approval(broken.clone()), Err(StorageError::InvalidRevision));
    broken.status = Some("done".to_owned());
    assert_eq!(
        decode_approval(broken),
        Err(StorageError::InvalidStatus { status: "done".to_owned() })
    );
}

#[test]
fn storage_errors_have_their_messages() {
    let messages = [
        (
            StorageError::Database { operation: "begin request" },
            "PostgreSQL operation `begin request` failed",
        ),
        (
            StorageError::InvalidStatus { status: "done".to_owned() },
            "stored Business Approval status `done` is invalid",
        ),
        (StorageError::InvalidRevision, "stored Business Approval revision is invalid"),
        (
            StorageError::InvalidEvidence,
            "stored Business Approval terminal evidence is inconsistent",
        ),
        (
            StorageError::InconsistentIdempotency,
            "idempotency conflict could not be resolved to an existing request",
        ),
    ];
    for (error, message) in messages {
        assert_eq!(error.message(), message);
        let runtime: PluginError<ReadError> = storage_runtime(error);
        assert_eq!(
            runtime,
            PluginError::Runtime(RuntimeFailure::PluginFailure { detail: message.to_owned() })
        );
    }
}

#[test]
fn an_intent_is_the_same_whenever_it_is_asked() {
    let approval = pending();
    let mut intent = RequestIntent {
        request_id: "apr_42".to_owned(),
        requester_instance: "expense-api".to_owned(),
        idempotency_key: "expense_42".to_owned(),
        requested_by: "usr_requester".to_owned(),
        approval_kind: "expense.review".to_owned(),
        subject_kind: "expense".to_owned(),
        subject_id: "exp_42".to_owned(),
        requested_at: at(5_000),
        expires_at: at(1_000_000_000),
    };
    assert!(same_intent(&approval, &intent));
    intent.expires_at = at(1_000_000_001);
    assert!(!same_intent(&approval, &intent));
}

#[test]
fn every_statement_has_its_text() {
    let intent = RequestIntent {
        request_id: "apr_42".to_owned(),
        requester_instance: "expense-api".to_owned(),
        idempotency_key: "expense_42".to_owned(),
        requested_by: "usr_requester".to_owned(),
        approval_kind: "expense.review".to_owned(),
        subject_kind: "expense".to_owned(),
        subject_id: "exp_42".to_owned(),
        requested_at: at(0),
        expires_at: at(1),
    };
    let statements = [
        (Statement::InsertRequest { intent: &intent }, INSERT_REQUEST, "INSERT INTO"),
        (
            Statement::ResolveIdempotent {
                requester_instance: "a",
                idempotency_key: "b",
                request_id: "c",
            },
            RESOLVE_IDEMPOTENT,
            "SELECT",
        ),
        (Statement::ReadRequest { request_id: "c", requester: None }, READ_REQUEST, "SELECT"),
        (Statement::LockRequest { request_id: "c" }, LOCK_REQUEST, "SELECT"),
        (Statement::CheckDeadline { request_id: "c" }, CHECK_DEADLINE, "SELECT expires_at"),
        (
            Statement::RecordDecision {
                request_id: "c",
                status: "approved",
                caller: "d",
                actor: "e",
                evidence_ref: "f",
                reason: None,
            },
            RECORD_DECISION,
            "UPDATE business_approval_requests SET status=$2",
        ),
        (
            Statement::RecordCancellation {
                request_id: "c",
                caller: "d",
                actor: "e",
                reason: None,
            },
            RECORD_CANCELLATION,
            "UPDATE business_approval_requests SET status='cancelled'",
        ),
        (
            Statement::RecordExpiration { request_id: "c", caller: "d" },
            RECORD_EXPIRATION,
            "UPDATE business_approval_requests SET status='expired'",
        ),
    ];
    for (statement, text, start) in statements {
        assert_eq!(statement.sql(), text);
        assert!(text.starts_with(start));
    }
}

#[test]
fn instants_are_kept_in_the_range_of_the_calendar() {
    assert_eq!(at(MIN_NANOS).unix_nanos(), MIN_NANOS);
    assert_eq!(at(MAX_NANOS).unix_nanos(), MAX_NANOS);
    assert_eq!(Timestamp::from_unix_nanos(MIN_NANOS - 1), None);
    assert_eq!(Timestamp::from_unix_nanos(MAX_NANOS + 1), None);
    assert_eq!(Timestamp::from_unix_nanos(i128::MIN), None);
    assert_eq!(Timestamp::from_unix_nanos(i128::MAX), None);
    assert!(at(5).same(&at(5)));
    assert!(!at(5).same(&at(6)));
}

#[test]
fn instants_are_rounded_down_to_microseconds() {
    let rounded = |nanos: i128| -> Result<i128, PluginError<ReadError>> {
        normalize_timestamp(nanos).map(|at| at.unix_nanos())
    };
    for (nanos, micros) in [
        (0, 0),
        (999, 0),
        (1_000, 1_000),
        (1_999, 1_000),
        (-1, -1_000),
        (-1_000, -1_000),
        (-1_001, -2_000),
        (MIN_NANOS, MIN_NANOS),
        (MAX_NANOS, MAX_NANOS - 999),
    ] {
        assert_eq!(rounded(nanos), Ok(micros));
        assert_eq!(rounded(micros), Ok(micros));
    }
    for nanos in [MIN_NANOS - 1, MAX_NANOS + 1, i128::MIN, i128::MAX] {
        assert_eq!(
            rounded(nanos),
            Err(PluginError::Runtime(internal("timestamp is outside PostgreSQL range")))
        );
    }
}

#[test]
fn instants_are_written_in_universal_time() {
    let written = |nanos: i128| -> Result<String, PluginError<ReadError>> {
        format_timestamp(at(nanos))
    };
    for (nanos, text) in [
        (0, "1970-01-01T00:00:00Z"),
        (1_893_456_000_000_000_000, "2030-01-01T00:00:00Z"),
        (1_893_456_000_500_000_000, "2030-01-01T00:00:00.5Z"),
        (1_893_456_000_000_001_000, "2030-01-01T00:00:00.000001Z"),
        (YEAR_ZERO_NANOS, "0000-01-01T00:00:00Z"),
        (MAX_NANOS, "9999-12-31T23:59:59.999999999Z"),
    ] {
        assert_eq!(written(nanos).as_deref(), Ok(text));
    }
    for nanos in [YEAR_ZERO_NANOS - 1, MIN_NANOS] {
        assert_eq!(
            written(nanos),
            Err(PluginError::Runtime(internal("stored timestamp cannot be formatted")))
        );
    }
}

#[test]
fn written_instants_are_read_back() {
    let format = time::format_description::well_known::Rfc3339;
    for nanos in [0, 1, -1, 999_999_999, 1_893_456_000_123_456_789, YEAR_ZERO_NANOS, MAX_NANOS] {
        let written: Result<String, PluginError<ReadError>> = format_timestamp(at(nanos));
        let read = OffsetDateTime::parse(&written.unwrap(), &format).unwrap();
        assert_eq!(read.unix_timestamp_nanos(), nanos);
    }
}

#[test]
fn terminal_parts_are_owed() {
    let missing: Result<String, PluginError<ReadError>> = format_required_timestamp(None);
    assert_eq!(missing, Err(invalid_terminal()));
    let present: Result<String, PluginError<ReadError>> = format_required_timestamp(Some(at(0)));
    assert_eq!(present, Ok("1970-01-01T00:00:00Z".to_owned()));
    let missing: Result<String, PluginError<ReadError>> = required_terminal(None);
    assert_eq!(
        missing,
        Err(PluginError::Runtime(internal("stored terminal evidence is inconsistent")))
    );
    let present: Result<String, PluginError<ReadError>> =
        required_terminal(Some("approval-console".to_owned()));
    assert_eq!(present, Ok("approval-console".to_owned()));
}

#[test]
fn revisions_are_written_in_decimal() {
    let written = |revision: i64| -> Result<String, PluginError<ReadError>> {
        revision_string(revision)
    };
    for revision in [1, 2, 10, i64::MAX] {
        assert_eq!(written(revision), Ok(revision.to_string()));
    }
    for revision in [0, -1, i64::MIN] {
        assert_eq!(
            written(revision),
            Err(PluginError::Runtime(internal("stored revision is invalid")))
        );
    }
}

#[test]
fn an_approval_in_another_status_is_no_answer() {
    for status in STATUSES {
        let approval = || {
            if status == ApprovalStatus::Pending {
                pending()
            } else {
                terminal(status)
            }
        };
        let decided = matches!(status, ApprovalStatus::Approved | ApprovalStatus::Rejected);
        assert_eq!(decide_response(approval()).is_ok(), decided);
        if !decided {
            assert_eq!(decide_response(approval()), Err(invalid_terminal()));
        }
        if status == ApprovalStatus::Cancelled {
            assert!(cancel_response(approval()).is_ok());
        } else {
            assert_eq!(cancel_response(approval()), Err(invalid_terminal()));
        }
        if status == ApprovalStatus::Expired {
            assert!(expire_response(approval()).is_ok());
        } else {
            assert_eq!(expire_response(approval()), Err(invalid_terminal()));
        }
        assert!(read_response(approval()).is_ok());
    }
}

#[test]
fn a_terminal_answer_owes_its_parts_in_order() {
    let mut approval = terminal(ApprovalStatus::Rejected);
    approval.terminal_at = Some(at(MIN_NANOS));
    assert_eq!(
        decide_response(approval.clone()),
        Err(PluginError::Runtime(internal("stored timestamp cannot be formatted")))
    );
    approval.terminal_at = None;
    assert_eq!(decide_response(approval.clone()), Err(invalid_terminal()));
    approval.terminal_at = Some(at(0));
    approval.terminal_caller_instance = None;
    assert_eq!(decide_response(approval.clone()), Err(invalid_terminal()));
    approval.revision = 0;
    assert_eq!(
        decide_response(approval),
        Err(PluginError::Runtime(internal("stored revision is invalid")))
    );
}

#[test]
fn a_read_fails_on_an_instant_that_cannot_be_written() {
    let unwritable = || PluginError::Runtime(internal("stored timestamp cannot be formatted"));
    let mut approval = pending();
    approval.requested_at = at(MIN_NANOS);
    assert_eq!(read_response(approval), Err(unwritable()));
    let mut approval = pending();
    approval.expires_at = at(YEAR_ZERO_NANOS - 1);
    assert_eq!(read_response(approval), Err(unwritable()));
    let mut approval = terminal(ApprovalStatus::Expired);
    approval.terminal_at = Some(at(YEAR_ZERO_NANOS - 1));
    assert_eq!(read_response(approval), Err(unwritable()));
    let mut approval = pending();
    approval.revision = 0;
    approval.requested_at = at(MIN_NANOS);
    assert_eq!(
        read_response(approval),
        Err(PluginError::Runtime(internal("stored revision is invalid")))
    );
}

#[test]
fn statuses_answer_a_request() {
    let answers = [
        RequestResponseStatus::Pending,
        RequestResponseStatus::Approved,
        RequestResponseStatus::Rejected,
        RequestResponseStatus::Cancelled,
        RequestResponseStatus::Expired,
    ];
    for (status, answer) in STATUSES.into_iter().zip(answers) {
        assert_eq!(request_status(status), answer);
    }
}

#[test]
fn refusals_are_mapped_by_operation() {
    let refusals = [
        DomainFailure::IdempotencyConflict,
        DomainFailure::RequestNotFound,
        DomainFailure::AlreadyTerminal,
        DomainFailure::NotRequester,
        DomainFailure::NotDue,
        DomainFailure::DeadlinePassed,
    ];
    assert_eq!(
        refusals.map(map_request_failure),
        [
            RequestError::IdempotencyConflict,
            RequestError::InvalidRequest,
            RequestError::InvalidRequest,
            RequestError::InvalidRequest,
            RequestError::InvalidRequest,
            RequestError::InvalidRequest,
        ]
    );
    assert_eq!(
        refusals.map(map_decide_failure),
        [
            DecideError::InvalidRequest,
            DecideError::RequestNotFound,
            DecideError::AlreadyTerminal,
            DecideError::InvalidRequest,
            DecideError::InvalidRequest,
            DecideError::InvalidRequest,
        ]
    );
    assert_eq!(
        refusals.map(map_cancel_failure),
        [
            CancelError::InvalidRequest,
            CancelError::RequestNotFound,
            CancelError::AlreadyTerminal,
            CancelError::NotRequester,
            CancelError::InvalidRequest,
            CancelError::InvalidRequest,
        ]
    );
    assert_eq!(
        refusals.map(map_expire_failure),
        [
            ExpireError::InvalidRequest,
            ExpireError::RequestNotFound,
            ExpireError::AlreadyTerminal,
            ExpireError::InvalidRequest,
            ExpireError::NotDue,
            ExpireError::InvalidRequest,
        ]
    );
}
