//! Who may do what, and what is well formed.

use business_approval::admission::{
    admit_cancel, admit_decide, admit_expire, admit_read, admit_request, authorized_caller,
    request_intent, Authority, ReadPlan,
};
use business_approval::capability::{
    CancelError, CancelRequest, DecideError, DecideRequest, DecideRequestDecision, ExpireError,
    ExpireRequest, ReadError, ReadRequest, RequestError, RequestRequest, RequestRequestSubject,
};
use business_approval::config::BusinessApprovalConfig;
use business_approval::failure::{PluginError, RuntimeFailure};
use business_approval::flow;
use business_approval::flow::{Change, RequestState, RequestStep};
use business_approval::lifecycle::PreparedSlot;
use business_approval::operation::{
    start_cancel, start_decide, start_expire, start_read, start_request,
};
use business_approval::response::answer_request;
use business_approval::statement::Reply;
use business_approval::storage::{ApprovalStatus, DomainFailure};

fn config() -> BusinessApprovalConfig {
    BusinessApprovalConfig::new(
        "business_approval",
        "business-approval/database-url",
        vec!["expense-api".to_owned()],
        vec!["approval-console".to_owned()],
        vec!["approval-expirer".to_owned()],
    )
    .unwrap()
}

/// An Instance that was never activated.
fn unprepared() -> PreparedSlot<u8> {
    PreparedSlot::new()
}

fn prepared() -> PreparedSlot<u8> {
    let mut slot = PreparedSlot::new();
    slot.activate(Ok(7)).unwrap();
    slot
}

fn now() -> i128 {
    // 2029-12-31T23:59:59.000000999Z
    1_893_455_999_000_000_999
}

fn request() -> RequestRequest {
    RequestRequest {
        request_id: "apr_42".to_owned(),
        idempotency_key: "expense_42".to_owned(),
        requested_by: "usr_requester".to_owned(),
        approval_kind: "expense.review".to_owned(),
        subject: RequestRequestSubject { kind: "expense".to_owned(), id: "exp_42".to_owned() },
        expires_at: "2030-01-01T00:00:00Z".to_owned(),
    }
}

fn decision() -> DecideRequest {
    DecideRequest {
        request_id: "apr_42".to_owned(),
        decision: DecideRequestDecision::Approved,
        decided_by: "usr_approver".to_owned(),
        evidence_ref: "decision/42".to_owned(),
        reason: None,
    }
}

fn cancellation() -> CancelRequest {
    CancelRequest {
        request_id: "apr_42".to_owned(),
        cancelled_by: "usr_requester".to_owned(),
        reason: None,
    }
}

fn expiration() -> ExpireRequest {
    ExpireRequest { request_id: "apr_42".to_owned() }
}

fn reading() -> ReadRequest {
    ReadRequest { request_id: "apr_42".to_owned() }
}

fn not_prepared() -> RuntimeFailure {
    RuntimeFailure::PluginFailure { detail: "Business Approval is not prepared".to_owned() }
}

#[test]
fn requester_authority_is_exact_and_checked_before_storage() {
    let result =
        start_request(&config(), &unprepared(), Some("expense-api-shadow"), now(), request())
            .map(|_| ());
    assert_eq!(result, Err(PluginError::Domain(RequestError::Forbidden)));
}

#[test]
fn decision_and_expiration_do_not_inherit_requester_authority() {
    let result =
        start_decide(&config(), &unprepared(), Some("expense-api"), decision()).map(|_| ());
    assert_eq!(result, Err(PluginError::Domain(DecideError::Forbidden)));

    let result =
        start_expire(&config(), &unprepared(), Some("approval-console"), expiration()).map(|_| ());
    assert_eq!(result, Err(PluginError::Domain(ExpireError::Forbidden)));
}

#[test]
fn read_is_limited_to_the_union_of_configured_callers() {
    let result =
        start_read(&config(), &unprepared(), Some("unrelated-observer"), reading()).map(|_| ());
    assert_eq!(result, Err(PluginError::Domain(ReadError::Forbidden)));
}

#[test]
fn only_deciders_and_expiration_executors_can_read_across_requesters() {
    let config = config();
    assert!(!config.can_read_any_request("expense-api"));
    assert!(config.can_read_any_request("approval-console"));
    assert!(config.can_read_any_request("approval-expirer"));
}

#[test]
fn a_caller_without_a_name_has_no_authority() {
    let config = config();
    for authority in [Authority::Request, Authority::Decide, Authority::Expire, Authority::Read] {
        assert_eq!(authorized_caller(&config, None, authority), None);
    }
    assert_eq!(
        admit_cancel(&config, None, cancellation()).map(|_| ()),
        Err(PluginError::Domain(CancelError::Forbidden))
    );
}

#[test]
fn each_authority_comes_from_its_own_list() {
    let config = config();
    let granted = |caller| {
        [Authority::Request, Authority::Decide, Authority::Expire, Authority::Read]
            .map(|authority| authorized_caller(&config, Some(caller), authority).is_some())
    };
    assert_eq!(granted("expense-api"), [true, false, false, true]);
    assert_eq!(granted("approval-console"), [false, true, false, true]);
    assert_eq!(granted("approval-expirer"), [false, false, true, true]);
    assert_eq!(granted("Expense-api"), [false, false, false, false]);
    assert_eq!(granted(""), [false, false, false, false]);
    assert!(config.can_request("expense-api"));
    assert!(config.can_decide("approval-console"));
    assert!(config.can_expire("approval-expirer"));
    assert!(config.can_read("expense-api"));
    assert!(!config.can_read("unrelated-observer"));
}

#[test]
fn an_admitted_request_is_rounded_to_microseconds() {
    let mut asked = request();
    asked.expires_at = "2030-01-01T01:00:00.0000019+01:00".to_owned();
    let intent = admit_request(&config(), Some("expense-api"), now(), asked).unwrap();
    assert_eq!(intent.request_id, "apr_42");
    assert_eq!(intent.requester_instance, "expense-api");
    assert_eq!(intent.idempotency_key, "expense_42");
    assert_eq!(intent.requested_by, "usr_requester");
    assert_eq!(intent.approval_kind, "expense.review");
    assert_eq!(intent.subject_kind, "expense");
    assert_eq!(intent.subject_id, "exp_42");
    assert_eq!(intent.requested_at.unix_nanos(), 1_893_455_999_000_000_000);
    assert_eq!(intent.expires_at.unix_nanos(), 1_893_456_000_000_001_000);
}

#[test]
fn a_request_repeated_later_differs_in_its_time_alone() {
    // One hour after the deadline.
    let later = 1_893_459_600_000_000_000;
    let first = admit_request(&config(), Some("expense-api"), now(), request()).unwrap();
    let mut second = admit_request(&config(), Some("expense-api"), later, request()).unwrap();
    assert_ne!(first, second);
    second.requested_at = first.requested_at;
    assert_eq!(first, second);
}

#[test]
fn the_deadline_of_a_new_request_must_lie_after_the_time_of_asking() {
    let mut asked = request();
    asked.expires_at = "2029-12-31T23:59:59.000000999Z".to_owned();
    let intent = admit_request(&config(), Some("expense-api"), now(), asked).unwrap();
    assert!(intent.overdue());
    let state = match flow::request().step(&intent, Reply::Begun) {
        RequestStep::Next(state) => state,
        RequestStep::Done(_) => panic!("the stored request is looked for"),
    };
    assert!(matches!(state, RequestState::Resolving));
    let result = match state.step(&intent, Reply::Rows(Vec::new())) {
        RequestStep::Done(result) => result,
        RequestStep::Next(_) => panic!("there is no stored request"),
    };
    assert_eq!(result, Ok(Err(DomainFailure::DeadlinePassed)));
    assert_eq!(
        answer_request(result),
        Err(PluginError::Domain(RequestError::InvalidRequest))
    );

    let mut asked = request();
    asked.expires_at = "2029-12-31T23:59:59.000001Z".to_owned();
    let intent = admit_request(&config(), Some("expense-api"), now(), asked).unwrap();
    assert!(!intent.overdue());
    assert!(matches!(
        flow::request().step(&intent, Reply::Begun),
        RequestStep::Next(RequestState::Inserting)
    ));
}

#[test]
fn a_time_of_asking_that_cannot_be_kept_is_out_of_range() {
    let mut asked = request();
    asked.expires_at = "tomorrow".to_owned();
    assert_eq!(
        admit_request(&config(), Some("expense-api"), i128::MAX, asked.clone()),
        Err(PluginError::Runtime(RuntimeFailure::Internal {
            detail: "Business Approval: timestamp is outside PostgreSQL range".to_owned(),
        }))
    );
    assert_eq!(
        admit_request(&config(), Some("unrelated-observer"), i128::MAX, asked),
        Err(PluginError::Domain(RequestError::Forbidden))
    );
}

#[test]
fn a_deadline_that_cannot_be_read_is_an_invalid_request() {
    for deadline in ["", "tomorrow", "2030-01-01", "2030-13-01T00:00:00Z", "2030-01-01T00:00:00"] {
        let mut asked = request();
        asked.expires_at = deadline.to_owned();
        assert_eq!(
            admit_request(&config(), Some("expense-api"), now(), asked),
            Err(PluginError::Domain(RequestError::InvalidRequest))
        );
    }
}

#[test]
fn a_deadline_beyond_the_last_year_is_out_of_range() {
    let mut asked = request();
    asked.request_id = "apr/42".to_owned();
    asked.expires_at = "9999-12-31T23:59:59-01:00".to_owned();
    assert_eq!(
        admit_request(&config(), Some("expense-api"), now(), asked),
        Err(PluginError::Runtime(RuntimeFailure::Internal {
            detail: "Business Approval: timestamp is outside PostgreSQL range".to_owned(),
        }))
    );
    let mut asked = request();
    asked.expires_at = "9999-12-31T23:59:59.999999999Z".to_owned();
    let intent = admit_request(&config(), Some("expense-api"), now(), asked).unwrap();
    assert_eq!(intent.expires_at.unix_nanos(), 253_402_300_799_999_999_000);
}

#[test]
fn the_intent_follows_the_deadline_that_was_read() {
    assert_eq!(
        request_intent(request(), "expense-api", now(), None),
        Err(PluginError::Domain(RequestError::InvalidRequest))
    );
    let intent =
        request_intent(request(), "travel-api", now(), Some(1_893_456_000_000_000_999)).unwrap();
    assert_eq!(intent.requester_instance, "travel-api");
    assert_eq!(intent.expires_at.unix_nanos(), 1_893_456_000_000_000_000);
}

#[test]
fn every_misspelled_name_of_a_request_is_invalid() {
    let changes: [fn(&mut RequestRequest); 6] = [
        |asked| asked.request_id = "apr/42".to_owned(),
        |asked| asked.idempotency_key = String::new(),
        |asked| asked.requested_by = "usr requester".to_owned(),
        |asked| asked.approval_kind = "Expense Review".to_owned(),
        |asked| asked.subject.kind = ".expense".to_owned(),
        |asked| asked.subject.id = "exp#42".to_owned(),
    ];
    for change in changes {
        let mut asked = request();
        change(&mut asked);
        assert_eq!(
            admit_request(&config(), Some("expense-api"), now(), asked),
            Err(PluginError::Domain(RequestError::InvalidRequest))
        );
    }
}

#[test]
fn every_misspelled_name_of_a_decision_is_invalid() {
    let changes: [fn(&mut DecideRequest); 4] = [
        |asked| asked.request_id = "apr/42".to_owned(),
        |asked| asked.decided_by = String::new(),
        |asked| asked.evidence_ref = "decision 42".to_owned(),
        |asked| asked.reason = Some("   ".to_owned()),
    ];
    for change in changes {
        let mut asked = decision();
        change(&mut asked);
        assert_eq!(
            admit_decide(&config(), Some("approval-console"), asked).map(|_| ()),
            Err(PluginError::Domain(DecideError::InvalidRequest))
        );
    }
}

#[test]
fn every_misspelled_name_of_a_cancellation_is_invalid() {
    let changes: [fn(&mut CancelRequest); 3] = [
        |asked| asked.request_id = "apr/42".to_owned(),
        |asked| asked.cancelled_by = "usr requester".to_owned(),
        |asked| asked.reason = Some("line\nbreak".to_owned()),
    ];
    for change in changes {
        let mut asked = cancellation();
        change(&mut asked);
        assert_eq!(
            admit_cancel(&config(), Some("expense-api"), asked).map(|_| ()),
            Err(PluginError::Domain(CancelError::InvalidRequest))
        );
    }
}

#[test]
fn misspelled_identifiers_are_neither_read_nor_expired() {
    assert_eq!(
        admit_read(
            &config(),
            Some("expense-api"),
            ReadRequest { request_id: "apr/42".to_owned() },
        ),
        Err(PluginError::Domain(ReadError::InvalidRequest))
    );
    assert_eq!(
        admit_expire(
            &config(),
            Some("approval-expirer"),
            ExpireRequest { request_id: "apr/42".to_owned() },
        )
        .map(|_| ()),
        Err(PluginError::Domain(ExpireError::InvalidRequest))
    );
}

#[test]
fn admitted_transitions_carry_their_caller_and_evidence() {
    let mut asked = decision();
    asked.decision = DecideRequestDecision::Rejected;
    asked.reason = Some("Over budget".to_owned());
    let transition = admit_decide(&config(), Some("approval-console"), asked).unwrap();
    assert_eq!(transition.request_id, "apr_42");
    assert_eq!(transition.caller, "approval-console");
    match transition.change {
        Change::Decide { decision, actor, evidence_ref, reason } => {
            assert_eq!(decision, ApprovalStatus::Rejected);
            assert_eq!(actor, "usr_approver");
            assert_eq!(evidence_ref, "decision/42");
            assert_eq!(reason.as_deref(), Some("Over budget"));
        }
        _ => panic!("a decision decides"),
    }
    let transition = admit_cancel(&config(), Some("expense-api"), cancellation()).unwrap();
    assert_eq!(transition.caller, "expense-api");
    assert!(matches!(transition.change, Change::Cancel { reason: None, .. }));
    let transition = admit_expire(&config(), Some("approval-expirer"), expiration()).unwrap();
    assert_eq!(transition.caller, "approval-expirer");
    assert!(matches!(transition.change, Change::Expire));
}

#[test]
fn a_requester_reads_its_own_requests_alone() {
    let plan = |caller| admit_read(&config(), Some(caller), reading()).unwrap();
    assert_eq!(
        plan("expense-api"),
        ReadPlan {
            request_id: "apr_42".to_owned(),
            requester: Some("expense-api".to_owned()),
        }
    );
    assert_eq!(
        plan("approval-console"),
        ReadPlan { request_id: "apr_42".to_owned(), requester: None }
    );
    assert_eq!(
        plan("approval-expirer"),
        ReadPlan { request_id: "apr_42".to_owned(), requester: None }
    );
}

#[test]
fn an_instance_without_a_database_starts_nothing() {
    let config = config();
    let slot = unprepared();
    assert_eq!(
        start_request(&config, &slot, Some("expense-api"), now(), request()).map(|_| ()),
        Err(PluginError::Runtime(not_prepared()))
    );
    assert_eq!(
        start_decide(&config, &slot, Some("approval-console"), decision()).map(|_| ()),
        Err(PluginError::Runtime(not_prepared()))
    );
    assert_eq!(
        start_cancel(&config, &slot, Some("expense-api"), cancellation()).map(|_| ()),
        Err(PluginError::Runtime(not_prepared()))
    );
    assert_eq!(
        start_read(&config, &slot, Some("expense-api"), reading()).map(|_| ()),
        Err(PluginError::Runtime(not_prepared()))
    );
    assert_eq!(
        start_expire(&config, &slot, Some("approval-expirer"), expiration()).map(|_| ()),
        Err(PluginError::Runtime(not_prepared()))
    );
}

#[test]
fn a_malformed_request_is_refused_before_the_database_is_looked_for() {
    let mut asked = decision();
    asked.request_id = "apr/42".to_owned();
    assert_eq!(
        start_decide(&config(), &unprepared(), Some("approval-console"), asked).map(|_| ()),
        Err(PluginError::Domain(DecideError::InvalidRequest))
    );
}

#[test]
fn an_admitted_operation_starts_with_the_database() {
    let config = config();
    let slot = prepared();
    let (database, intent) =
        start_request(&config, &slot, Some("expense-api"), now(), request()).unwrap();
    assert_eq!(*database, 7);
    assert_eq!(intent.request_id, "apr_42");
    let (database, plan) = start_read(&config, &slot, Some("expense-api"), reading()).unwrap();
    assert_eq!(*database, 7);
    assert_eq!(plan.requester.as_deref(), Some("expense-api"));
    assert!(start_decide(&config, &slot, Some("approval-console"), decision()).is_ok());
    assert!(start_cancel(&config, &slot, Some("expense-api"), cancellation()).is_ok());
    assert!(start_expire(&config, &slot, Some("approval-expirer"), expiration()).is_ok());
}
