//! The operations on a table that is kept in memory.

use business_approval::flow::{
    cancel, decide, expire, read, read_reply, request, Change, RequestState, RequestStep,
    StorageResult, Transition, TransitionState, TransitionStep,
};
use business_approval::response::{
    answer_cancel, answer_decide, answer_expire, answer_read, answer_request,
};
use business_approval::capability::{
    CancelError, CancelResponseStatus, DecideError, DecideResponseStatus, ExpireError,
    ExpireResponseStatus, ReadError, ReadResponseStatus, RequestError, RequestRequest,
    RequestRequestSubject, RequestResponse, RequestResponseStatus,
};
use business_approval::config::BusinessApprovalConfig;
use business_approval::lifecycle::PreparedSlot;
use business_approval::operation::start_request;
use business_approval::failure::{PluginError, RuntimeFailure};
use business_approval::statement::{Command, Reply, Statement};
use business_approval::storage::{
    ApprovalRow, ApprovalStatus, DomainFailure, RequestIntent, RequestOutcome, StorageError,
    StoredApproval,
};
use business_approval::timestamp::Timestamp;
use time::{Duration, OffsetDateTime};

/// A table in memory, with a clock of its own and a command that fails, if any.
struct Database {
    rows: Vec<ApprovalRow>,
    now: Timestamp,
    fails_at: Option<usize>,
    commits_anyway: bool,
    reversed: bool,
}

/// A transaction: the table as it will be, and how many commands it has had.
struct Work {
    rows: Vec<ApprovalRow>,
    commands: usize,
}

fn instant(at: OffsetDateTime) -> Timestamp {
    Timestamp::from_unix_nanos(at.unix_timestamp_nanos()).unwrap()
}

impl Database {
    fn new(now: OffsetDateTime) -> Database {
        Database {
            rows: Vec::new(),
            now: instant(now),
            fails_at: None,
            commits_anyway: false,
            reversed: false,
        }
    }

    fn find(rows: &[ApprovalRow], request_id: &str) -> Option<usize> {
        rows.iter().position(|row| row.request_id.as_deref() == Some(request_id))
    }

    fn record(
        &self,
        rows: &mut [ApprovalRow],
        request_id: &str,
        status: &str,
        caller: &str,
        actor: Option<&str>,
        evidence_ref: Option<&str>,
        reason: Option<&str>,
    ) -> Reply {
        let row = &mut rows[Database::find(rows, request_id).unwrap()];
        row.status = Some(status.to_owned());
        row.revision = row.revision.map(|revision| revision + 1);
        row.terminal_caller_instance = Some(Some(caller.to_owned()));
        row.terminal_actor = Some(actor.map(str::to_owned));
        row.evidence_ref = Some(evidence_ref.map(str::to_owned));
        row.reason = Some(reason.map(str::to_owned));
        row.terminal_at = Some(Some(self.now));
        Reply::Row(Some(row.clone()))
    }

    fn run(&self, rows: &mut Vec<ApprovalRow>, statement: &Statement<'_>) -> Reply {
        match *statement {
            Statement::InsertRequest { intent } => {
                if rows.iter().any(|row| {
                    row.request_id.as_ref() == Some(&intent.request_id)
                        || (row.requester_instance.as_ref() == Some(&intent.requester_instance)
                            && row.idempotency_key.as_ref() == Some(&intent.idempotency_key))
                }) {
                    return Reply::Row(None);
                }
                rows.push(pending_row(intent));
                Reply::Row(rows.last().cloned())
            }
            Statement::ResolveIdempotent { requester_instance, idempotency_key, request_id } => {
                let mut found: Vec<ApprovalRow> = rows
                    .iter()
                    .filter(|row| {
                        row.request_id.as_deref() == Some(request_id)
                            || (row.requester_instance.as_deref() == Some(requester_instance)
                                && row.idempotency_key.as_deref() == Some(idempotency_key))
                    })
                    .cloned()
                    .collect();
                if self.reversed {
                    found.reverse();
                }
                Reply::Rows(found)
            }
            Statement::ReadRequest { request_id, requester } => Reply::Row(
                Database::find(rows, request_id)
                    .map(|index| rows[index].clone())
                    .filter(|row| {
                        requester.is_none() || row.requester_instance.as_deref() == requester
                    }),
            ),
            Statement::LockRequest { request_id } => {
                Reply::Row(Database::find(rows, request_id).map(|index| rows[index].clone()))
            }
            Statement::CheckDeadline { request_id } => {
                let row = &rows[Database::find(rows, request_id).unwrap()];
                Reply::Truth(row.expires_at.unwrap().unix_nanos() <= self.now.unix_nanos())
            }
            Statement::RecordDecision {
                request_id,
                status,
                caller,
                actor,
                evidence_ref,
                reason,
            } => self.record(
                rows,
                request_id,
                status,
                caller,
                Some(actor),
                Some(evidence_ref),
                reason,
            ),
            Statement::RecordCancellation { request_id, caller, actor, reason } => {
                self.record(rows, request_id, "cancelled", caller, Some(actor), None, reason)
            }
            Statement::RecordExpiration { request_id, caller } => {
                self.record(rows, request_id, "expired", caller, None, None, None)
            }
        }
    }

    fn perform(&mut self, work: &mut Work, command: &Command<'_>) -> Reply {
        let index = work.commands;
        work.commands += 1;
        if self.fails_at == Some(index) {
            if self.commits_anyway && matches!(command, Command::Commit) {
                self.rows = work.rows.clone();
            }
            return Reply::Failed;
        }
        match command {
            Command::Begin => {
                work.rows = self.rows.clone();
                Reply::Begun
            }
            Command::Run(statement) => {
                let mut rows = std::mem::take(&mut work.rows);
                let reply = self.run(&mut rows, statement);
                work.rows = rows;
                reply
            }
            Command::Commit => {
                self.rows = work.rows.clone();
                Reply::Committed
            }
        }
    }

    fn request(&mut self, intent: &RequestIntent) -> StorageResult<RequestOutcome> {
        let mut work = Work { rows: Vec::new(), commands: 0 };
        let mut state = request();
        loop {
            let reply = self.perform(&mut work, &state.command(intent));
            match state.step(intent, reply) {
                RequestStep::Next(next) => state = next,
                RequestStep::Done(result) => return result,
            }
        }
    }

    fn transition(&mut self, transition: &Transition) -> StorageResult<StoredApproval> {
        let mut work = Work { rows: Vec::new(), commands: 0 };
        let mut state = transition.begin();
        loop {
            let reply = self.perform(&mut work, &state.command(transition));
            match state.step(transition, reply) {
                TransitionStep::Next(next) => state = next,
                TransitionStep::Done(result) => return result,
            }
        }
    }

    fn read(
        &mut self,
        request_id: &str,
        requester: Option<&str>,
    ) -> Result<Option<StoredApproval>, StorageError> {
        let mut rows = self.rows.clone();
        read_reply(self.run(&mut rows, &read(request_id, requester)))
    }
}

fn pending_row(intent: &RequestIntent) -> ApprovalRow {
    ApprovalRow {
        status: Some("pending".to_owned()),
        revision: Some(1),
        request_id: Some(intent.request_id.clone()),
        requester_instance: Some(intent.requester_instance.clone()),
        idempotency_key: Some(intent.idempotency_key.clone()),
        requested_by: Some(intent.requested_by.clone()),
        approval_kind: Some(intent.approval_kind.clone()),
        subject_kind: Some(intent.subject_kind.clone()),
        subject_id: Some(intent.subject_id.clone()),
        requested_at: Some(intent.requested_at),
        expires_at: Some(intent.expires_at),
        terminal_caller_instance: Some(None),
        terminal_actor: Some(None),
        evidence_ref: Some(None),
        reason: Some(None),
        terminal_at: Some(None),
    }
}

fn intent(
    request_id: &str,
    requester_instance: &str,
    idempotency_key: &str,
    requested_at: OffsetDateTime,
    expires_at: OffsetDateTime,
) -> RequestIntent {
    RequestIntent {
        request_id: request_id.to_owned(),
        requester_instance: requester_instance.to_owned(),
        idempotency_key: idempotency_key.to_owned(),
        requested_by: "usr_requester".to_owned(),
        approval_kind: "expense.review".to_owned(),
        subject_kind: "expense".to_owned(),
        subject_id: "exp_42".to_owned(),
        requested_at: instant(requested_at),
        expires_at: instant(expires_at),
    }
}

fn noon() -> OffsetDateTime {
    OffsetDateTime::from_unix_timestamp(1_900_000_000).unwrap()
}

fn sample() -> RequestIntent {
    intent("apr_42", "expense-api", "expense_42", noon(), noon() + Duration::hours(1))
}

fn approve() -> Transition {
    decide(
        "apr_42",
        ApprovalStatus::Approved,
        "approval-console",
        "usr_approver",
        "decision/42",
        Some("Within policy"),
    )
}

#[test]
fn durable_approval_preserves_idempotency_and_single_terminal_evidence() {
    let now = OffsetDateTime::now_utc().replace_nanosecond(0).unwrap();
    let mut database = Database::new(now);

    let approval_intent = intent(
        "apr_decision",
        "expense-api",
        "expense-42",
        now,
        now + Duration::hours(1),
    );
    let created = database.request(&approval_intent).unwrap().unwrap();
    assert!(created.created);
    assert_eq!(created.approval.status, ApprovalStatus::Pending);
    assert_eq!(created.approval.revision, 1);
    assert!(database.read("apr_decision", Some("expense-api")).unwrap().is_some());
    assert!(database.read("apr_decision", Some("another-requester")).unwrap().is_none());
    assert!(database.read("apr_decision", None).unwrap().is_some());

    let repeated = database.request(&approval_intent).unwrap().unwrap();
    assert!(!repeated.created);
    assert_eq!(repeated.approval.request_id, "apr_decision");
    let mut conflicting = approval_intent.clone();
    conflicting.subject_id = "exp_changed".to_owned();
    assert_eq!(
        database.request(&conflicting).unwrap(),
        Err(DomainFailure::IdempotencyConflict)
    );

    let decided = database
        .transition(&decide(
            "apr_decision",
            ApprovalStatus::Approved,
            "approval-console",
            "usr_approver",
            "decision/expense-42",
            Some("Within policy"),
        ))
        .unwrap()
        .unwrap();
    assert_eq!(decided.status, ApprovalStatus::Approved);
    assert_eq!(decided.revision, 2);
    assert_eq!(decided.terminal_caller_instance.as_deref(), Some("approval-console"));
    assert_eq!(decided.terminal_actor.as_deref(), Some("usr_approver"));
    assert_eq!(decided.evidence_ref.as_deref(), Some("decision/expense-42"));
    assert!(decided.terminal_at.is_some());
    assert_eq!(
        database
            .transition(&cancel("apr_decision", "expense-api", "usr_requester", None))
            .unwrap(),
        Err(DomainFailure::AlreadyTerminal)
    );
    let replay_after_terminal = database.request(&approval_intent).unwrap().unwrap();
    assert!(!replay_after_terminal.created);
    assert_eq!(replay_after_terminal.approval.status, ApprovalStatus::Approved);
    assert_eq!(replay_after_terminal.approval.revision, 2);

    let cancellable = intent(
        "apr_cancel",
        "expense-api",
        "expense-cancel",
        now,
        now + Duration::hours(1),
    );
    database.request(&cancellable).unwrap().unwrap();
    assert_eq!(
        database
            .transition(&cancel("apr_cancel", "another-requester", "usr_other", None))
            .unwrap(),
        Err(DomainFailure::NotRequester)
    );
    let cancelled = database
        .transition(&cancel(
            "apr_cancel",
            "expense-api",
            "usr_requester",
            Some("No longer needed"),
        ))
        .unwrap()
        .unwrap();
    assert_eq!(cancelled.status, ApprovalStatus::Cancelled);
    assert_eq!(cancelled.revision, 2);

    let future = intent(
        "apr_future",
        "expense-api",
        "expense-future",
        now,
        now + Duration::hours(1),
    );
    database.request(&future).unwrap().unwrap();
    assert_eq!(
        database.transition(&expire("apr_future", "approval-expirer")).unwrap(),
        Err(DomainFailure::NotDue)
    );

    let overdue = intent(
        "apr_overdue",
        "expense-api",
        "expense-overdue",
        now - Duration::hours(2),
        now - Duration::hours(1),
    );
    database.request(&overdue).unwrap().unwrap();
    let expired = database
        .transition(&expire("apr_overdue", "approval-expirer"))
        .unwrap()
        .unwrap();
    assert_eq!(expired.status, ApprovalStatus::Expired);
    assert_eq!(expired.revision, 2);
    assert_eq!(expired.terminal_caller_instance.as_deref(), Some("approval-expirer"));
    assert!(expired.terminal_actor.is_none());
}

#[test]
fn created_request_holds_what_was_asked_for() {
    let mut database = Database::new(noon());
    let asked = sample();
    let outcome = database.request(&asked).unwrap().unwrap();
    assert_eq!(
        outcome,
        RequestOutcome {
            created: true,
            approval: StoredApproval {
                request_id: "apr_42".to_owned(),
                requester_instance: "expense-api".to_owned(),
                idempotency_key: "expense_42".to_owned(),
                requested_by: "usr_requester".to_owned(),
                approval_kind: "expense.review".to_owned(),
                subject_kind: "expense".to_owned(),
                subject_id: "exp_42".to_owned(),
                status: ApprovalStatus::Pending,
                revision: 1,
                requested_at: asked.requested_at,
                expires_at: asked.expires_at,
                terminal_caller_instance: None,
                terminal_actor: None,
                evidence_ref: None,
                reason: None,
                terminal_at: None,
            },
        }
    );
}

#[test]
fn a_later_retry_returns_the_existing_approval() {
    let mut database = Database::new(noon());
    let first = database.request(&sample()).unwrap().unwrap();
    let mut retry = sample();
    retry.requested_at = instant(noon() + Duration::minutes(10));
    let second = database.request(&retry).unwrap().unwrap();
    assert!(!second.created);
    assert_eq!(second.approval, first.approval);
    assert_eq!(database.rows.len(), 1);
}

/// Asks for an approval as a caller does, from the admission to the answer.
fn ask(
    database: &mut Database,
    expires_at: &str,
    subject_id: &str,
) -> Result<RequestResponse, PluginError<RequestError>> {
    let config = BusinessApprovalConfig::new(
        "business_approval",
        "business-approval/database-url",
        vec!["expense-api".to_owned()],
        vec!["approval-console".to_owned()],
        vec!["approval-expirer".to_owned()],
    )
    .unwrap();
    let mut slot = PreparedSlot::new();
    slot.activate(Ok(())).unwrap();
    let asked = RequestRequest {
        request_id: "apr_42".to_owned(),
        idempotency_key: "expense_42".to_owned(),
        requested_by: "usr_requester".to_owned(),
        approval_kind: "expense.review".to_owned(),
        subject: RequestRequestSubject {
            kind: "expense".to_owned(),
            id: subject_id.to_owned(),
        },
        expires_at: expires_at.to_owned(),
    };
    let now = database.now.unix_nanos();
    let (_, intent) = start_request(&config, &slot, Some("expense-api"), now, asked)?;
    answer_request(database.request(&intent))
}

#[test]
fn a_retry_after_the_deadline_returns_the_existing_approval() {
    let deadline = "2030-03-17T18:46:40Z";
    let mut database = Database::new(noon());
    assert!(ask(&mut database, deadline, "exp_42").unwrap().created);

    database.now = instant(noon() + Duration::hours(1));
    let rows = database.rows.clone();
    let retry = ask(&mut database, deadline, "exp_42").unwrap();
    assert!(!retry.created);
    assert_eq!(retry.request_id, "apr_42");
    assert_eq!(retry.status, RequestResponseStatus::Pending);
    assert_eq!(retry.revision, "1");
    assert_eq!(database.rows, rows);

    database.transition(&expire("apr_42", "approval-expirer")).unwrap().unwrap();
    let rows = database.rows.clone();
    database.now = instant(noon() + Duration::days(30));
    let retry = ask(&mut database, deadline, "exp_42").unwrap();
    assert!(!retry.created);
    assert_eq!(retry.status, RequestResponseStatus::Expired);
    assert_eq!(retry.revision, "2");
    assert_eq!(database.rows, rows);
}

#[test]
fn after_the_deadline_nothing_but_a_retry_is_answered() {
    let deadline = "2030-03-17T18:46:40Z";
    let mut database = Database::new(noon() + Duration::hours(1));
    assert_eq!(
        ask(&mut database, deadline, "exp_42"),
        Err(PluginError::Domain(RequestError::InvalidRequest))
    );
    assert!(database.rows.is_empty());

    database.now = instant(noon());
    ask(&mut database, deadline, "exp_42").unwrap();
    let rows = database.rows.clone();
    assert_eq!(
        ask(&mut database, deadline, "exp_43"),
        Err(PluginError::Domain(RequestError::IdempotencyConflict))
    );
    database.now = instant(noon() + Duration::hours(1));
    assert_eq!(
        ask(&mut database, deadline, "exp_43"),
        Err(PluginError::Domain(RequestError::InvalidRequest))
    );
    assert_eq!(database.rows, rows);
}

#[test]
fn an_overdue_intent_between_two_requests_is_refused() {
    let mut database = Database::new(noon());
    database.request(&sample()).unwrap().unwrap();
    let mut other = sample();
    other.request_id = "apr_43".to_owned();
    other.idempotency_key = "expense_43".to_owned();
    database.request(&other).unwrap().unwrap();
    let mut between = sample();
    between.idempotency_key = "expense_43".to_owned();
    between.requested_at = between.expires_at;
    assert_eq!(database.request(&between).unwrap(), Err(DomainFailure::DeadlinePassed));
    assert_eq!(database.rows.len(), 2);
}

#[test]
fn a_failed_commit_is_reported_though_it_took_effect() {
    let mut database = Database::new(noon());
    database.commits_anyway = true;
    database.fails_at = Some(2);
    assert_eq!(
        database.request(&sample()),
        Err(StorageError::Database { operation: "commit request creation" })
    );
    assert_eq!(database.rows, vec![pending_row(&sample())]);
    database.fails_at = Some(3);
    assert_eq!(
        database.transition(&approve()),
        Err(StorageError::Database { operation: "commit decision" })
    );
    database.fails_at = None;
    let read = database.read("apr_42", None).unwrap().unwrap();
    assert_eq!(read.status, ApprovalStatus::Approved);
}

#[test]
fn every_changed_field_of_an_intent_is_a_conflict() {
    let mut database = Database::new(noon());
    database.request(&sample()).unwrap().unwrap();
    let rows = database.rows.clone();
    let changes: [fn(&mut RequestIntent); 8] = [
        |changed| changed.request_id = "apr_43".to_owned(),
        |changed| changed.requester_instance = "travel-api".to_owned(),
        |changed| changed.idempotency_key = "expense_43".to_owned(),
        |changed| changed.requested_by = "usr_other".to_owned(),
        |changed| changed.approval_kind = "travel.review".to_owned(),
        |changed| changed.subject_kind = "travel".to_owned(),
        |changed| changed.subject_id = "exp_43".to_owned(),
        |changed| changed.expires_at = instant(noon() + Duration::hours(2)),
    ];
    for change in changes {
        let mut changed = sample();
        change(&mut changed);
        assert_eq!(
            database.request(&changed).unwrap(),
            Err(DomainFailure::IdempotencyConflict)
        );
        assert_eq!(database.rows, rows);
    }
}

#[test]
fn an_intent_between_two_requests_is_a_conflict_in_either_order() {
    let mut database = Database::new(noon());
    database.request(&sample()).unwrap().unwrap();
    let mut other = sample();
    other.request_id = "apr_43".to_owned();
    other.idempotency_key = "expense_43".to_owned();
    database.request(&other).unwrap().unwrap();
    let mut between = sample();
    between.idempotency_key = "expense_43".to_owned();
    assert_eq!(
        database.request(&between).unwrap(),
        Err(DomainFailure::IdempotencyConflict)
    );
    database.reversed = true;
    assert_eq!(
        database.request(&between).unwrap(),
        Err(DomainFailure::IdempotencyConflict)
    );
    assert_eq!(database.rows.len(), 2);
}

#[test]
fn a_key_is_scoped_to_its_requester() {
    let mut database = Database::new(noon());
    database.request(&sample()).unwrap().unwrap();
    let mut other = sample();
    other.request_id = "apr_43".to_owned();
    other.requester_instance = "travel-api".to_owned();
    assert!(database.request(&other).unwrap().unwrap().created);
    assert_eq!(database.rows.len(), 2);
}

#[test]
fn a_transition_of_an_unknown_request_is_not_found() {
    let mut database = Database::new(noon());
    for transition in [
        approve(),
        cancel("apr_42", "expense-api", "usr_requester", None),
        expire("apr_42", "approval-expirer"),
    ] {
        assert_eq!(
            database.transition(&transition).unwrap(),
            Err(DomainFailure::RequestNotFound)
        );
    }
}

#[test]
fn only_the_first_terminal_step_takes_place() {
    let reject = decide(
        "apr_42",
        ApprovalStatus::Rejected,
        "approval-console",
        "usr_approver",
        "decision/43",
        None,
    );
    let steps = [
        approve(),
        reject,
        cancel("apr_42", "expense-api", "usr_requester", Some("No longer needed")),
        expire("apr_42", "approval-expirer"),
    ];
    for first in &steps {
        let mut database = Database::new(noon() + Duration::hours(3));
        database.request(&sample()).unwrap().unwrap();
        let ended = database.transition(first).unwrap().unwrap();
        assert_eq!(ended.revision, 2);
        assert_eq!(ended.terminal_at, Some(database.now));
        assert_eq!(database.read("apr_42", None).unwrap(), Some(ended.clone()));
        for second in &steps {
            assert_eq!(
                database.transition(second).unwrap(),
                Err(DomainFailure::AlreadyTerminal)
            );
            assert_eq!(database.read("apr_42", None).unwrap(), Some(ended.clone()));
        }
    }
}

#[test]
fn a_foreign_cancellation_of_a_terminal_request_is_not_the_requesters() {
    let mut database = Database::new(noon());
    database.request(&sample()).unwrap().unwrap();
    database.transition(&approve()).unwrap().unwrap();
    assert_eq!(
        database
            .transition(&cancel("apr_42", "travel-api", "usr_other", None))
            .unwrap(),
        Err(DomainFailure::NotRequester)
    );
}

#[test]
fn a_request_expires_at_its_deadline_and_not_before() {
    let deadline = noon() + Duration::hours(1);
    let mut database = Database::new(deadline - Duration::nanoseconds(1));
    database.request(&sample()).unwrap().unwrap();
    assert_eq!(
        database.transition(&expire("apr_42", "approval-expirer")).unwrap(),
        Err(DomainFailure::NotDue)
    );
    database.now = instant(deadline);
    let expired = database
        .transition(&expire("apr_42", "approval-expirer"))
        .unwrap()
        .unwrap();
    assert_eq!(expired.status, ApprovalStatus::Expired);
    assert_eq!(expired.evidence_ref, None);
    assert_eq!(expired.reason, None);
    assert_eq!(expired.terminal_at, Some(instant(deadline)));
}

#[test]
fn a_transition_leaves_other_requests_alone() {
    let mut database = Database::new(noon());
    database.request(&sample()).unwrap().unwrap();
    let mut other = sample();
    other.request_id = "apr_43".to_owned();
    other.idempotency_key = "expense_43".to_owned();
    let before = database.request(&other).unwrap().unwrap().approval;
    database.transition(&approve()).unwrap().unwrap();
    assert_eq!(database.read("apr_43", None).unwrap(), Some(before));
}

#[test]
fn every_failing_command_of_a_request_is_named_and_changes_nothing() {
    for (index, operation) in
        [(0, "begin request"), (1, "create approval request"), (2, "commit request creation")]
    {
        let mut database = Database::new(noon());
        database.fails_at = Some(index);
        assert_eq!(
            database.request(&sample()),
            Err(StorageError::Database { operation })
        );
        assert!(database.rows.is_empty());
    }
    for (index, operation) in
        [(2, "resolve idempotent request"), (3, "commit idempotent request")]
    {
        let mut database = Database::new(noon());
        database.request(&sample()).unwrap().unwrap();
        let rows = database.rows.clone();
        database.fails_at = Some(index);
        assert_eq!(
            database.request(&sample()),
            Err(StorageError::Database { operation })
        );
        assert_eq!(database.rows, rows);
    }
}

#[test]
fn every_failing_command_of_a_transition_is_named_and_changes_nothing() {
    let due = expire("apr_42", "approval-expirer");
    let withdrawn = cancel("apr_42", "expense-api", "usr_requester", None);
    let expected: [(Transition, Vec<&'static str>); 3] = [
        (
            approve(),
            vec!["begin decision", "lock approval request", "record decision", "commit decision"],
        ),
        (
            withdrawn,
            vec![
                "begin cancellation",
                "lock approval request",
                "cancel approval",
                "commit cancellation",
            ],
        ),
        (
            due,
            vec![
                "begin expiration",
                "lock approval request",
                "check expiration deadline",
                "expire approval",
                "commit expiration",
            ],
        ),
    ];
    for (transition, operations) in expected {
        for (index, operation) in operations.into_iter().enumerate() {
            let mut database = Database::new(noon() + Duration::hours(3));
            database.request(&sample()).unwrap().unwrap();
            let rows = database.rows.clone();
            database.fails_at = Some(index);
            assert_eq!(
                database.transition(&transition),
                Err(StorageError::Database { operation })
            );
            assert_eq!(database.rows, rows);
        }
    }
}

#[test]
fn a_reply_that_answers_something_else_is_a_failure() {
    let asked = sample();
    assert!(matches!(
        request().step(&asked, Reply::Committed),
        RequestStep::Done(Err(StorageError::Database { operation: "begin request" }))
    ));
    assert!(matches!(
        RequestState::Inserting.step(&asked, Reply::Rows(Vec::new())),
        RequestStep::Done(Err(StorageError::Database { operation: "create approval request" }))
    ));
    assert!(matches!(
        TransitionState::Recording.step(&approve(), Reply::Row(None)),
        TransitionStep::Done(Err(StorageError::Database { operation: "record decision" }))
    ));
    assert_eq!(
        read_reply(Reply::Failed),
        Err(StorageError::Database { operation: "read approval request" })
    );
}

#[test]
fn a_conflict_without_a_row_is_inconsistent() {
    assert!(matches!(
        RequestState::Resolving.step(&sample(), Reply::Rows(Vec::new())),
        RequestStep::Done(Err(StorageError::InconsistentIdempotency))
    ));
}

#[test]
fn a_broken_row_stops_every_operation() {
    let mut row = pending_row(&sample());
    row.revision = Some(2);
    assert!(matches!(
        RequestState::Inserting.step(&sample(), Reply::Row(Some(row.clone()))),
        RequestStep::Done(Err(StorageError::InvalidEvidence))
    ));
    assert!(matches!(
        RequestState::Resolving.step(&sample(), Reply::Rows(vec![row.clone()])),
        RequestStep::Done(Err(StorageError::InvalidEvidence))
    ));
    assert!(matches!(
        TransitionState::Locking.step(&approve(), Reply::Row(Some(row.clone()))),
        TransitionStep::Done(Err(StorageError::InvalidEvidence))
    ));
    assert!(matches!(
        TransitionState::Recording.step(&approve(), Reply::Row(Some(row.clone()))),
        TransitionStep::Done(Err(StorageError::InvalidEvidence))
    ));
    assert_eq!(read_reply(Reply::Row(Some(row))), Err(StorageError::InvalidEvidence));
}

#[test]
fn transitions_are_built_from_their_parts() {
    let transition = approve();
    assert_eq!(transition.request_id, "apr_42");
    assert_eq!(transition.caller, "approval-console");
    assert!(matches!(
        transition.change,
        Change::Decide { decision: ApprovalStatus::Approved, reason: Some(_), .. }
    ));
    assert!(matches!(
        transition.record(),
        Statement::RecordDecision { status: "approved", evidence_ref: "decision/42", .. }
    ));
}

#[test]
fn requests_are_answered_with_what_came_of_them() {
    let mut database = Database::new(noon());
    let answer = answer_request(database.request(&sample())).unwrap();
    assert!(answer.created);
    assert_eq!(answer.request_id, "apr_42");
    assert_eq!(answer.status, RequestResponseStatus::Pending);
    assert_eq!(answer.revision, "1");

    let mut changed = sample();
    changed.subject_id = "exp_43".to_owned();
    assert_eq!(
        answer_request(database.request(&changed)),
        Err(PluginError::Domain(RequestError::IdempotencyConflict))
    );

    database.transition(&approve()).unwrap().unwrap();
    let replay = answer_request(database.request(&sample())).unwrap();
    assert!(!replay.created);
    assert_eq!(replay.status, RequestResponseStatus::Approved);
    assert_eq!(replay.revision, "2");

    database.fails_at = Some(0);
    assert_eq!(
        answer_request(database.request(&sample())),
        Err(PluginError::Runtime(RuntimeFailure::PluginFailure {
            detail: "PostgreSQL operation `begin request` failed".to_owned(),
        }))
    );
}

#[test]
fn decisions_are_answered_with_their_evidence() {
    let mut database = Database::new(noon());
    assert_eq!(
        answer_decide(database.transition(&approve())),
        Err(PluginError::Domain(DecideError::RequestNotFound))
    );
    database.request(&sample()).unwrap().unwrap();
    let answer = answer_decide(database.transition(&approve())).unwrap();
    assert_eq!(answer.request_id, "apr_42");
    assert_eq!(answer.status, DecideResponseStatus::Approved);
    assert_eq!(answer.revision, "2");
    assert_eq!(answer.terminal_caller_instance, "approval-console");
    assert_eq!(answer.terminal_actor.as_deref(), Some("usr_approver"));
    assert_eq!(answer.evidence_ref.as_deref(), Some("decision/42"));
    assert_eq!(answer.reason.as_deref(), Some("Within policy"));
    assert_eq!(answer.terminal_at, "2030-03-17T17:46:40Z");
    assert_eq!(
        answer_decide(database.transition(&approve())),
        Err(PluginError::Domain(DecideError::AlreadyTerminal))
    );
}

#[test]
fn cancellations_are_answered_with_their_evidence() {
    let mut database = Database::new(noon());
    let own = cancel("apr_42", "expense-api", "usr_requester", Some("No longer needed"));
    assert_eq!(
        answer_cancel(database.transition(&own)),
        Err(PluginError::Domain(CancelError::RequestNotFound))
    );
    database.request(&sample()).unwrap().unwrap();
    assert_eq!(
        answer_cancel(
            database.transition(&cancel("apr_42", "travel-api", "usr_other", None))
        ),
        Err(PluginError::Domain(CancelError::NotRequester))
    );
    let answer = answer_cancel(database.transition(&own)).unwrap();
    assert_eq!(answer.status, CancelResponseStatus::Cancelled);
    assert_eq!(answer.revision, "2");
    assert_eq!(answer.terminal_caller_instance, "expense-api");
    assert_eq!(answer.terminal_actor.as_deref(), Some("usr_requester"));
    assert_eq!(answer.evidence_ref, None);
    assert_eq!(answer.reason.as_deref(), Some("No longer needed"));
    assert_eq!(
        answer_cancel(database.transition(&own)),
        Err(PluginError::Domain(CancelError::AlreadyTerminal))
    );
}

#[test]
fn expirations_are_answered_with_their_evidence() {
    let mut database = Database::new(noon());
    let due = expire("apr_42", "approval-expirer");
    assert_eq!(
        answer_expire(database.transition(&due)),
        Err(PluginError::Domain(ExpireError::RequestNotFound))
    );
    database.request(&sample()).unwrap().unwrap();
    assert_eq!(
        answer_expire(database.transition(&due)),
        Err(PluginError::Domain(ExpireError::NotDue))
    );
    database.now = instant(noon() + Duration::hours(2));
    let answer = answer_expire(database.transition(&due)).unwrap();
    assert_eq!(answer.status, ExpireResponseStatus::Expired);
    assert_eq!(answer.terminal_caller_instance, "approval-expirer");
    assert_eq!(answer.terminal_actor, None);
    assert_eq!(answer.terminal_at, "2030-03-17T19:46:40Z");
    assert_eq!(
        answer_expire(database.transition(&due)),
        Err(PluginError::Domain(ExpireError::AlreadyTerminal))
    );
}

#[test]
fn reads_are_answered_with_the_whole_approval() {
    let mut database = Database::new(noon());
    let mut rows = Vec::new();
    assert_eq!(
        answer_read(database.run(&mut rows, &read("apr_42", None))),
        Err(PluginError::Domain(ReadError::RequestNotFound))
    );
    database.request(&sample()).unwrap().unwrap();
    let mut rows = database.rows.clone();
    let answer = answer_read(database.run(&mut rows, &read("apr_42", None))).unwrap();
    assert_eq!(answer.request_id, "apr_42");
    assert_eq!(answer.idempotency_key, "expense_42");
    assert_eq!(answer.approval_kind, "expense.review");
    assert_eq!(answer.subject.kind, "expense");
    assert_eq!(answer.subject.id, "exp_42");
    assert_eq!(answer.requester_instance, "expense-api");
    assert_eq!(answer.requested_by, "usr_requester");
    assert_eq!(answer.status, ReadResponseStatus::Pending);
    assert_eq!(answer.revision, "1");
    assert_eq!(answer.requested_at, "2030-03-17T17:46:40Z");
    assert_eq!(answer.expires_at, "2030-03-17T18:46:40Z");
    assert_eq!(answer.terminal_at, None);

    database.transition(&approve()).unwrap().unwrap();
    let mut rows = database.rows.clone();
    let answer =
        answer_read(database.run(&mut rows, &read("apr_42", Some("expense-api")))).unwrap();
    assert_eq!(answer.status, ReadResponseStatus::Approved);
    assert_eq!(answer.revision, "2");
    assert_eq!(answer.terminal_at.as_deref(), Some("2030-03-17T17:46:40Z"));
    assert_eq!(
        answer_read(database.run(&mut rows, &read("apr_42", Some("travel-api")))),
        Err(PluginError::Domain(ReadError::RequestNotFound))
    );
    assert_eq!(
        answer_read(Reply::Failed),
        Err(PluginError::Runtime(RuntimeFailure::PluginFailure {
            detail: "PostgreSQL operation `read approval request` failed".to_owned(),
        }))
    );
}
