//! What is exchanged with the database: which statement is run with which values, what
//! a reply stands for, and what becomes of it.

use vstd::prelude::*;

use crate::failure::{PluginError, RuntimeFailure};
use crate::flow;
use crate::flow::{
    Change, ChangeModel, RequestState, RequestStateModel, RequestStep, StorageResult, Transition,
    TransitionState, TransitionStateModel, TransitionStep,
};
use crate::outcomes;
use crate::response;
use crate::statement::{
    Command, CommandModel, Reply, ReplyModel, Statement, StatementModel,
};
use crate::storage::{
    ApprovalRow, ApprovalStatus, DomainFailure, RequestIntent, StorageError, StorageErrorModel,
    StoredApproval,
};
use crate::values;

verus! {

// Statements.

/// Every statement is run under its own text.
pub proof fn law_statements_have_their_texts(statement: Statement<'_>, sql: &'static str)
    requires
        call_ensures(Statement::sql, (&statement,), sql),
    ensures
        sql@ == match statement {
            Statement::InsertRequest { .. } => "INSERT INTO business_approval_requests(request_id,requester_instance,idempotency_key,requested_by,approval_kind,subject_kind,subject_id,status,revision,requested_at,expires_at) VALUES($1,$2,$3,$4,$5,$6,$7,'pending',1,$8,$9) ON CONFLICT DO NOTHING RETURNING request_id,requester_instance,idempotency_key,requested_by,approval_kind,subject_kind,subject_id,status,revision,requested_at,expires_at,terminal_caller_instance,terminal_actor,evidence_ref,reason,terminal_at"@,
            Statement::ResolveIdempotent { .. } => "SELECT request_id,requester_instance,idempotency_key,requested_by,approval_kind,subject_kind,subject_id,status,revision,requested_at,expires_at,terminal_caller_instance,terminal_actor,evidence_ref,reason,terminal_at FROM business_approval_requests WHERE (requester_instance=$1 AND idempotency_key=$2) OR request_id=$3 FOR UPDATE"@,
            Statement::ReadRequest { .. } => "SELECT request_id,requester_instance,idempotency_key,requested_by,approval_kind,subject_kind,subject_id,status,revision,requested_at,expires_at,terminal_caller_instance,terminal_actor,evidence_ref,reason,terminal_at FROM business_approval_requests WHERE request_id=$1 AND ($2::text IS NULL OR requester_instance=$2)"@,
            Statement::LockRequest { .. } => "SELECT request_id,requester_instance,idempotency_key,requested_by,approval_kind,subject_kind,subject_id,status,revision,requested_at,expires_at,terminal_caller_instance,terminal_actor,evidence_ref,reason,terminal_at FROM business_approval_requests WHERE request_id=$1 FOR UPDATE"@,
            Statement::CheckDeadline { .. } => "SELECT expires_at <= transaction_timestamp() FROM business_approval_requests WHERE request_id=$1"@,
            Statement::RecordDecision { .. } => "UPDATE business_approval_requests SET status=$2,revision=revision+1,terminal_caller_instance=$3,terminal_actor=$4,evidence_ref=$5,reason=$6,terminal_at=transaction_timestamp() WHERE request_id=$1 RETURNING request_id,requester_instance,idempotency_key,requested_by,approval_kind,subject_kind,subject_id,status,revision,requested_at,expires_at,terminal_caller_instance,terminal_actor,evidence_ref,reason,terminal_at"@,
            Statement::RecordCancellation { .. } => "UPDATE business_approval_requests SET status='cancelled',revision=revision+1,terminal_caller_instance=$2,terminal_actor=$3,evidence_ref=NULL,reason=$4,terminal_at=transaction_timestamp() WHERE request_id=$1 RETURNING request_id,requester_instance,idempotency_key,requested_by,approval_kind,subject_kind,subject_id,status,revision,requested_at,expires_at,terminal_caller_instance,terminal_actor,evidence_ref,reason,terminal_at"@,
            Statement::RecordExpiration { .. } => "UPDATE business_approval_requests SET status='expired',revision=revision+1,terminal_caller_instance=$2,terminal_actor=NULL,evidence_ref=NULL,reason=NULL,terminal_at=transaction_timestamp() WHERE request_id=$1 RETURNING request_id,requester_instance,idempotency_key,requested_by,approval_kind,subject_kind,subject_id,status,revision,requested_at,expires_at,terminal_caller_instance,terminal_actor,evidence_ref,reason,terminal_at"@,
        },
{
}

/// Whether a borrowed optional text is that of an owned one.
pub open spec fn borrows(value: Option<&str>, owned: Option<String>) -> bool {
    match (value, owned) {
        (None, None) => true,
        (Some(text), Some(content)) => text@ == content@,
        _ => false,
    }
}

/// The statement that records a step is bound to the request, the Instance and the
/// evidence of that step, and to the word for the decision.
pub proof fn law_record_is_bound_to_its_step(transition: &Transition, statement: Statement<'_>)
    requires
        call_ensures(Transition::record, (transition,), statement),
    ensures
        match transition.change {
            Change::Decide { decision, actor, evidence_ref, reason } => {
                &&& statement matches Statement::RecordDecision {
                    request_id,
                    status,
                    caller,
                    actor: bound_actor,
                    evidence_ref: bound_evidence,
                    reason: bound_reason,
                }
                &&& request_id@ == transition.request_id@
                &&& status@ == values::word(decision)
                &&& caller@ == transition.caller@
                &&& bound_actor@ == actor@
                &&& bound_evidence@ == evidence_ref@
                &&& borrows(bound_reason, reason)
            },
            Change::Cancel { actor, reason } => {
                &&& statement matches Statement::RecordCancellation {
                    request_id,
                    caller,
                    actor: bound_actor,
                    reason: bound_reason,
                }
                &&& request_id@ == transition.request_id@
                &&& caller@ == transition.caller@
                &&& bound_actor@ == actor@
                &&& borrows(bound_reason, reason)
            },
            Change::Expire => {
                &&& statement matches Statement::RecordExpiration { request_id, caller }
                &&& request_id@ == transition.request_id@
                &&& caller@ == transition.caller@
            },
        },
{
}

/// A read is bound to the request and to the requester that it is limited to.
pub proof fn law_read_is_bound_to_its_request(
    request_id: &str,
    requester: Option<&str>,
    statement: Statement<'_>,
)
    requires
        call_ensures(flow::read, (request_id, requester), statement),
    ensures
        statement matches Statement::ReadRequest { request_id: bound, requester: limit } && bound@
            == request_id@ && match (limit, requester) {
            (None, None) => true,
            (Some(one), Some(other)) => one@ == other@,
            _ => false,
        },
{
}

/// A request begins a transaction, inserts or looks for the rows of its own intent,
/// and commits.
pub proof fn law_request_runs_its_own_statements(
    state: &RequestState,
    intent: &RequestIntent,
    command: Command<'_>,
)
    requires
        call_ensures(RequestState::command, (state, intent), command),
    ensures
        match *state {
            RequestState::Beginning => command is Begin,
            RequestState::Inserting => {
                &&& command matches Command::Run(Statement::InsertRequest { intent: bound })
                &&& bound.request_id@ == intent.request_id@
                &&& bound.requester_instance@ == intent.requester_instance@
                &&& bound.idempotency_key@ == intent.idempotency_key@
                &&& bound.requested_by@ == intent.requested_by@
                &&& bound.approval_kind@ == intent.approval_kind@
                &&& bound.subject_kind@ == intent.subject_kind@
                &&& bound.subject_id@ == intent.subject_id@
                &&& bound.requested_at@ == intent.requested_at@
                &&& bound.expires_at@ == intent.expires_at@
            },
            RequestState::Resolving => {
                &&& command matches Command::Run(
                    Statement::ResolveIdempotent { requester_instance, idempotency_key, request_id },
                )
                &&& requester_instance@ == intent.requester_instance@
                &&& idempotency_key@ == intent.idempotency_key@
                &&& request_id@ == intent.request_id@
            },
            RequestState::Committing { .. } => command is Commit,
        },
{
}

/// A transition begins a transaction, locks its own request, checks its deadline,
/// records its step, and commits.
pub proof fn law_transition_runs_its_own_statements(
    state: &TransitionState,
    transition: &Transition,
    command: Command<'_>,
)
    requires
        call_ensures(TransitionState::command, (state, transition), command),
    ensures
        match *state {
            TransitionState::Beginning => command is Begin,
            TransitionState::Locking => {
                command matches Command::Run(Statement::LockRequest { request_id }) && request_id@
                    == transition.request_id@
            },
            TransitionState::CheckingDeadline => {
                command matches Command::Run(Statement::CheckDeadline { request_id }) && request_id@
                    == transition.request_id@
            },
            TransitionState::Recording => command matches Command::Run(statement) && (
            match transition.change {
                Change::Decide { .. } => statement is RecordDecision,
                Change::Cancel { .. } => statement is RecordCancellation,
                Change::Expire => statement is RecordExpiration,
            }),
            TransitionState::Committing { .. } => command is Commit,
        },
{
}

// Steps.

/// A request whose deadline lies ahead is inserted, and one whose deadline has passed
/// is looked for. A failing command ends it as a failure of the database, and a
/// committed outcome is its answer.
pub proof fn law_request_goes_on_by_its_replies(
    state: RequestState,
    intent: &RequestIntent,
    reply: Reply,
    step: RequestStep,
)
    requires
        call_ensures(RequestState::step, (state, intent, reply), step),
    ensures
        reply is Failed ==> (step matches RequestStep::Done(Err(StorageError::Database { .. }))),
        state is Beginning && reply is Begun ==> (step matches RequestStep::Next(next) && (
        if intent.requested_at@ < intent.expires_at@ {
            next is Inserting
        } else {
            next is Resolving
        })),
        state is Inserting && reply == Reply::Row(None) ==> (step matches RequestStep::Next(next)
            && next is Resolving),
        reply matches Reply::Rows(rows) ==> state is Resolving && rows.len() > 1 ==> (
        step matches RequestStep::Done(Ok(Err(refusal))) && (
        if intent.requested_at@ < intent.expires_at@ {
            refusal is IdempotencyConflict
        } else {
            refusal is DeadlinePassed
        })),
        state matches RequestState::Committing { outcome } ==> reply is Committed ==> (
        step matches RequestStep::Done(Ok(Ok(answered))) && answered.created == outcome.created
            && answered.approval@ == outcome.approval@),
{
}

/// A transition of a request that is not there ends as such, one before the deadline
/// is not due, and one after it is recorded. A failing command ends it as a failure of
/// the database, and a committed approval is its answer.
pub proof fn law_transition_goes_on_by_its_replies(
    state: TransitionState,
    transition: &Transition,
    reply: Reply,
    step: TransitionStep,
)
    requires
        call_ensures(TransitionState::step, (state, transition, reply), step),
    ensures
        reply is Failed ==> (step matches TransitionStep::Done(
            Err(StorageError::Database { .. }),
        )),
        state is Beginning && reply is Begun ==> (step matches TransitionStep::Next(next)
            && next is Locking),
        state is Locking && reply == Reply::Row(None) ==> (step matches TransitionStep::Done(
            Ok(Err(refusal)),
        ) && refusal is RequestNotFound),
        state is CheckingDeadline && reply == Reply::Truth(true) ==> (
        step matches TransitionStep::Next(next) && next is Recording),
        state is CheckingDeadline && reply == Reply::Truth(false) ==> (
        step matches TransitionStep::Done(Ok(Err(refusal))) && refusal is NotDue),
        state matches TransitionState::Committing { approval } ==> reply is Committed ==> (
        step matches TransitionStep::Done(Ok(Ok(answered))) && answered@ == approval@),
{
}

/// A transition may be taken from a pending request alone, and a cancellation by its
/// requester alone.
pub proof fn law_transition_is_refused_for_its_reason(
    transition: &Transition,
    current: &StoredApproval,
    refusal: Option<DomainFailure>,
)
    requires
        call_ensures(Transition::refused, (transition, current), refusal),
    ensures
        ({
            let foreign = transition.change is Cancel && current.requester_instance@
                != transition.caller@;
            &&& refusal is None <==> !foreign && current.status is Pending
            &&& refusal matches Some(reason) ==> if foreign {
                reason is NotRequester
            } else {
                reason is AlreadyTerminal
            }
        }),
{
}

/// A decision, a cancellation and an expiration are made of what they are given.
pub proof fn law_transitions_are_made_of_their_parts(
    request_id: &str,
    decision: ApprovalStatus,
    caller: &str,
    actor: &str,
    evidence_ref: &str,
    reason: Option<&str>,
    decided: Transition,
    cancelled: Transition,
    expired: Transition,
)
    requires
        call_ensures(
            flow::decide,
            (request_id, decision, caller, actor, evidence_ref, reason),
            decided,
        ),
        call_ensures(flow::cancel, (request_id, caller, actor, reason), cancelled),
        call_ensures(flow::expire, (request_id, caller), expired),
    ensures
        decided.request_id@ == request_id@ && cancelled.request_id@ == request_id@
            && expired.request_id@ == request_id@,
        decided.caller@ == caller@ && cancelled.caller@ == caller@ && expired.caller@ == caller@,
        ({
            &&& decided.change matches Change::Decide {
                decision: made,
                actor: by,
                evidence_ref: evidence,
                reason: why,
            }
            &&& made == decision
            &&& by@ == actor@
            &&& evidence@ == evidence_ref@
            &&& borrows(reason, why)
        }),
        ({
            &&& cancelled.change matches Change::Cancel { actor: by, reason: why }
            &&& by@ == actor@
            &&& borrows(reason, why)
        }),
        expired.change is Expire,
{
}

/// A read ends with nothing where no row came, with the approval in the row where one
/// did, and fails otherwise.
pub proof fn law_read_ends_by_its_reply(
    reply: Reply,
    result: Result<Option<StoredApproval>, StorageError>,
)
    requires
        call_ensures(flow::read_reply, (reply,), result),
    ensures
        match reply {
            Reply::Row(None) => result == Ok::<_, StorageError>(None::<StoredApproval>),
            Reply::Row(Some(row)) => {
                &&& !(result matches Ok(None))
                &&& result matches Ok(Some(approval)) ==> values::is_read_from(approval, row)
                    && values::evidenced(approval)
            },
            _ => result matches Err(error) && values::is_failed(error, "read approval request"@),
        },
{
    if let Ok(Some(approval)) = result {
        crate::storage::law_status_text_is_read_back(approval.status);
    }
}

// Values.

/// The value of an intent has each of its parts.
pub proof fn law_intent_stands_for_its_parts(intent: RequestIntent)
    ensures
        intent@.request_id == intent.request_id@,
        intent@.requester_instance == intent.requester_instance@,
        intent@.idempotency_key == intent.idempotency_key@,
        intent@.requested_by == intent.requested_by@,
        intent@.approval_kind == intent.approval_kind@,
        intent@.subject_kind == intent.subject_kind@,
        intent@.subject_id == intent.subject_id@,
        intent@.requested_at == intent.requested_at@,
        intent@.expires_at == intent.expires_at@,
{
}

/// The value of an approval has each of its parts.
pub proof fn law_approval_stands_for_its_parts(approval: StoredApproval)
    ensures
        approval@.request_id == approval.request_id@,
        approval@.requester_instance == approval.requester_instance@,
        approval@.idempotency_key == approval.idempotency_key@,
        approval@.requested_by == approval.requested_by@,
        approval@.approval_kind == approval.approval_kind@,
        approval@.subject_kind == approval.subject_kind@,
        approval@.subject_id == approval.subject_id@,
        approval@.status == approval.status,
        approval@.revision == approval.revision,
        approval@.requested_at == approval.requested_at@,
        approval@.expires_at == approval.expires_at@,
        outcomes::is_kept(approval.terminal_caller_instance, approval@.terminal_caller_instance),
        outcomes::is_kept(approval.terminal_actor, approval@.terminal_actor),
        outcomes::is_kept(approval.evidence_ref, approval@.evidence_ref),
        outcomes::is_kept(approval.reason, approval@.reason),
        match (approval.terminal_at, approval@.terminal_at) {
            (None, None) => true,
            (Some(at), Some(kept)) => at@ == kept,
            _ => false,
        },
{
}

/// The value of a transition has each of its parts.
pub proof fn law_transition_stands_for_its_parts(transition: Transition)
    ensures
        transition@.request_id == transition.request_id@,
        transition@.caller == transition.caller@,
        match (transition.change, transition@.change) {
            (
                Change::Decide { decision, actor, evidence_ref, reason },
                ChangeModel::Decide { decision: way, actor: by, evidence_ref: why, reason: told },
            ) => decision == way && actor@ == by && evidence_ref@ == why && outcomes::is_kept(
                reason,
                told,
            ),
            (Change::Cancel { actor, reason }, ChangeModel::Cancel { actor: by, reason: told }) => {
                actor@ == by && outcomes::is_kept(reason, told)
            },
            (Change::Expire, ChangeModel::Expire) => true,
            _ => false,
        },
{
}

/// Whether a borrowed optional text is one of a value.
pub open spec fn is_bound(value: Option<&str>, bound: Option<Seq<char>>) -> bool {
    match (value, bound) {
        (None, None) => true,
        (Some(text), Some(content)) => text@ == content,
        _ => false,
    }
}

/// The value of a statement is of the same kind and has each of its parts.
pub proof fn law_statement_stands_for_its_parts(statement: Statement<'_>)
    ensures
        match (statement, statement@) {
            (
                Statement::InsertRequest { intent },
                StatementModel::InsertRequest { intent: value },
            ) => intent@ == value,
            (
                Statement::ResolveIdempotent { requester_instance, idempotency_key, request_id },
                StatementModel::ResolveIdempotent {
                    requester_instance: requester,
                    idempotency_key: key,
                    request_id: id,
                },
            ) => requester_instance@ == requester && idempotency_key@ == key && request_id@ == id,
            (
                Statement::ReadRequest { request_id, requester },
                StatementModel::ReadRequest { request_id: id, requester: limit },
            ) => request_id@ == id && is_bound(requester, limit),
            (
                Statement::LockRequest { request_id },
                StatementModel::LockRequest { request_id: id },
            ) => request_id@ == id,
            (
                Statement::CheckDeadline { request_id },
                StatementModel::CheckDeadline { request_id: id },
            ) => request_id@ == id,
            (
                Statement::RecordDecision {
                    request_id,
                    status,
                    caller,
                    actor,
                    evidence_ref,
                    reason,
                },
                StatementModel::RecordDecision {
                    request_id: id,
                    status: way,
                    caller: instance,
                    actor: by,
                    evidence_ref: evidence,
                    reason: why,
                },
            ) => request_id@ == id && status@ == way && caller@ == instance && actor@ == by
                && evidence_ref@ == evidence && is_bound(reason, why),
            (
                Statement::RecordCancellation { request_id, caller, actor, reason },
                StatementModel::RecordCancellation {
                    request_id: id,
                    caller: instance,
                    actor: by,
                    reason: why,
                },
            ) => request_id@ == id && caller@ == instance && actor@ == by && is_bound(reason, why),
            (
                Statement::RecordExpiration { request_id, caller },
                StatementModel::RecordExpiration { request_id: id, caller: instance },
            ) => request_id@ == id && caller@ == instance,
            _ => false,
        },
{
}

/// The value of a row has each of its columns.
pub proof fn law_row_stands_for_its_columns(row: ApprovalRow)
    ensures
        outcomes::is_kept(row.status, row@.status),
        match (row.revision, row@.revision) {
            (None, None) => true,
            (Some(revision), Some(value)) => revision == value,
            _ => false,
        },
        outcomes::is_kept(row.request_id, row@.request_id),
        outcomes::is_kept(row.requester_instance, row@.requester_instance),
        outcomes::is_kept(row.idempotency_key, row@.idempotency_key),
        outcomes::is_kept(row.requested_by, row@.requested_by),
        outcomes::is_kept(row.approval_kind, row@.approval_kind),
        outcomes::is_kept(row.subject_kind, row@.subject_kind),
        outcomes::is_kept(row.subject_id, row@.subject_id),
        match (row.requested_at, row@.requested_at) {
            (None, None) => true,
            (Some(at), Some(value)) => at@ == value,
            _ => false,
        },
        match (row.expires_at, row@.expires_at) {
            (None, None) => true,
            (Some(at), Some(value)) => at@ == value,
            _ => false,
        },
        is_column(row.terminal_caller_instance, row@.terminal_caller_instance),
        is_column(row.terminal_actor, row@.terminal_actor),
        is_column(row.evidence_ref, row@.evidence_ref),
        is_column(row.reason, row@.reason),
        match (row.terminal_at, row@.terminal_at) {
            (None, None) => true,
            (Some(None), Some(None)) => true,
            (Some(Some(at)), Some(Some(value))) => at@ == value,
            _ => false,
        },
{
}

/// Whether a column that may be null has a value.
pub open spec fn is_column(
    column: Option<Option<String>>,
    value: Option<Option<Seq<char>>>,
) -> bool {
    match (column, value) {
        (None, None) => true,
        (Some(content), Some(kept)) => outcomes::is_kept(content, kept),
        _ => false,
    }
}

/// The value of a reply is of the same kind and has what came.
pub proof fn law_reply_stands_for_what_came(reply: Reply)
    ensures
        match (reply, reply@) {
            (Reply::Begun, ReplyModel::Begun) => true,
            (Reply::Row(None), ReplyModel::Row(None)) => true,
            (Reply::Row(Some(row)), ReplyModel::Row(Some(value))) => row@ == value,
            (Reply::Rows(rows), ReplyModel::Rows(kept)) => {
                &&& rows.len() == kept.len()
                &&& forall|i: int| 0 <= i < kept.len() ==> #[trigger] kept[i] == rows[i]@
            },
            (Reply::Truth(truth), ReplyModel::Truth(value)) => truth == value,
            (Reply::Committed, ReplyModel::Committed) => true,
            (Reply::Failed, ReplyModel::Failed) => true,
            _ => false,
        },
{
}

/// The value of a command is of the same kind and runs the same statement.
pub proof fn law_command_stands_for_itself(command: Command<'_>)
    ensures
        match (command, command@) {
            (Command::Begin, CommandModel::Begin) => true,
            (Command::Run(statement), CommandModel::Run(value)) => statement@ == value,
            (Command::Commit, CommandModel::Commit) => true,
            _ => false,
        },
{
}

/// The value of the end of an operation is an answer, a refusal or a failure where the
/// end is.
pub proof fn law_ends_stand_for_themselves<T: View>(ended: StorageResult<T>)
    ensures
        match (ended, flow::storage_result(ended)) {
            (Ok(Ok(answer)), Ok(Ok(value))) => answer@ == value,
            (Ok(Err(refusal)), Ok(Err(value))) => refusal == value,
            (Err(error), Err(value)) => error@ == value,
            _ => false,
        },
{
}

/// The value of an error is of the same kind, and has its operation or its status.
pub proof fn law_storage_error_stands_for_itself(error: StorageError)
    ensures
        match (error, error@) {
            (
                StorageError::Database { operation },
                StorageErrorModel::Database { operation: value },
            ) => operation@ == value,
            (
                StorageError::InvalidStatus { status },
                StorageErrorModel::InvalidStatus { status: value },
            ) => status@ == value,
            (StorageError::InvalidRevision, StorageErrorModel::InvalidRevision) => true,
            (StorageError::InvalidEvidence, StorageErrorModel::InvalidEvidence) => true,
            (
                StorageError::InconsistentIdempotency,
                StorageErrorModel::InconsistentIdempotency,
            ) => true,
            _ => false,
        },
{
}

/// The value of a state of a request is of the same kind, with the same outcome.
pub proof fn law_request_state_stands_for_itself(state: RequestState)
    ensures
        match (state, state@) {
            (RequestState::Beginning, RequestStateModel::Beginning) => true,
            (RequestState::Inserting, RequestStateModel::Inserting) => true,
            (RequestState::Resolving, RequestStateModel::Resolving) => true,
            (
                RequestState::Committing { outcome },
                RequestStateModel::Committing { outcome: value },
            ) => outcome.created == value.created && outcome.approval@ == value.approval,
            _ => false,
        },
{
}

/// The value of a state of a transition is of the same kind, with the same approval.
pub proof fn law_transition_state_stands_for_itself(state: TransitionState)
    ensures
        match (state, state@) {
            (TransitionState::Beginning, TransitionStateModel::Beginning) => true,
            (TransitionState::Locking, TransitionStateModel::Locking) => true,
            (TransitionState::CheckingDeadline, TransitionStateModel::CheckingDeadline) => true,
            (TransitionState::Recording, TransitionStateModel::Recording) => true,
            (
                TransitionState::Committing { approval },
                TransitionStateModel::Committing { approval: value },
            ) => approval@ == value,
            _ => false,
        },
{
}

// Failures.

/// An error of storage is reported in words that say what it is, and with the
/// operation or the status that it is about.
pub proof fn law_storage_errors_are_reported_in_words<E>(
    error: StorageError,
    reported: PluginError<E>,
)
    requires
        call_ensures(response::storage_runtime::<E>, (error,), reported),
    ensures
        reported matches PluginError::Runtime(RuntimeFailure::PluginFailure { detail }) && detail@
            == match error {
            StorageError::Database { operation } => {
                "PostgreSQL operation `"@ + operation@ + "` failed"@
            },
            StorageError::InvalidStatus { status } => {
                "stored Business Approval status `"@ + status@ + "` is invalid"@
            },
            StorageError::InvalidRevision => "stored Business Approval revision is invalid"@,
            StorageError::InvalidEvidence => {
                "stored Business Approval terminal evidence is inconsistent"@
            },
            StorageError::InconsistentIdempotency => {
                "idempotency conflict could not be resolved to an existing request"@
            },
        },
{
}

/// The command of a request that is at fault is named for what it does.
pub proof fn law_request_commands_are_named(state: &RequestState, name: &'static str)
    requires
        call_ensures(RequestState::operation, (state,), name),
    ensures
        name@ == match *state {
            RequestState::Beginning => "begin request"@,
            RequestState::Inserting => "create approval request"@,
            RequestState::Resolving => "resolve idempotent request"@,
            RequestState::Committing { outcome } => if outcome.created {
                "commit request creation"@
            } else {
                "commit idempotent request"@
            },
        },
{
}

/// The command of a transition that is at fault is named for what it does.
pub proof fn law_transition_commands_are_named(
    state: &TransitionState,
    change: &Change,
    name: &'static str,
)
    requires
        call_ensures(TransitionState::operation, (state, change), name),
    ensures
        name@ == match (*state, *change) {
            (TransitionState::Beginning, Change::Decide { .. }) => "begin decision"@,
            (TransitionState::Beginning, Change::Cancel { .. }) => "begin cancellation"@,
            (TransitionState::Beginning, Change::Expire) => "begin expiration"@,
            (TransitionState::Locking, _) => "lock approval request"@,
            (TransitionState::CheckingDeadline, _) => "check expiration deadline"@,
            (TransitionState::Recording, Change::Decide { .. }) => "record decision"@,
            (TransitionState::Recording, Change::Cancel { .. }) => "cancel approval"@,
            (TransitionState::Recording, Change::Expire) => "expire approval"@,
            (TransitionState::Committing { .. }, Change::Decide { .. }) => "commit decision"@,
            (TransitionState::Committing { .. }, Change::Cancel { .. }) => "commit cancellation"@,
            (TransitionState::Committing { .. }, Change::Expire) => "commit expiration"@,
        },
{
}

} // verus!
