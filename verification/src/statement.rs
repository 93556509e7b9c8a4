//! The statements that the database is asked to run, and what it may answer.

use vstd::prelude::*;

use crate::storage::{ApprovalRow, IntentModel, RequestIntent, RowModel};
use crate::text;

verus! {

/// Inserts a pending request at revision one, unless a unique key is taken.
pub const INSERT_REQUEST: &'static str = "INSERT INTO business_approval_requests(request_id,requester_instance,idempotency_key,requested_by,approval_kind,subject_kind,subject_id,status,revision,requested_at,expires_at) VALUES($1,$2,$3,$4,$5,$6,$7,'pending',1,$8,$9) ON CONFLICT DO NOTHING RETURNING request_id,requester_instance,idempotency_key,requested_by,approval_kind,subject_kind,subject_id,status,revision,requested_at,expires_at,terminal_caller_instance,terminal_actor,evidence_ref,reason,terminal_at";

/// Locks the rows that hold a requester's key or a request identifier.
pub const RESOLVE_IDEMPOTENT: &'static str = "SELECT request_id,requester_instance,idempotency_key,requested_by,approval_kind,subject_kind,subject_id,status,revision,requested_at,expires_at,terminal_caller_instance,terminal_actor,evidence_ref,reason,terminal_at FROM business_approval_requests WHERE (requester_instance=$1 AND idempotency_key=$2) OR request_id=$3 FOR UPDATE";

/// Reads a request, of any requester or of a given one.
pub const READ_REQUEST: &'static str = "SELECT request_id,requester_instance,idempotency_key,requested_by,approval_kind,subject_kind,subject_id,status,revision,requested_at,expires_at,terminal_caller_instance,terminal_actor,evidence_ref,reason,terminal_at FROM business_approval_requests WHERE request_id=$1 AND ($2::text IS NULL OR requester_instance=$2)";

/// Locks a request.
pub const LOCK_REQUEST: &'static str = "SELECT request_id,requester_instance,idempotency_key,requested_by,approval_kind,subject_kind,subject_id,status,revision,requested_at,expires_at,terminal_caller_instance,terminal_actor,evidence_ref,reason,terminal_at FROM business_approval_requests WHERE request_id=$1 FOR UPDATE";

/// Tells whether the deadline of a request has passed.
pub const CHECK_DEADLINE: &'static str = "SELECT expires_at <= transaction_timestamp() FROM business_approval_requests WHERE request_id=$1";

/// Records a decision.
pub const RECORD_DECISION: &'static str = "UPDATE business_approval_requests SET status=$2,revision=revision+1,terminal_caller_instance=$3,terminal_actor=$4,evidence_ref=$5,reason=$6,terminal_at=transaction_timestamp() WHERE request_id=$1 RETURNING request_id,requester_instance,idempotency_key,requested_by,approval_kind,subject_kind,subject_id,status,revision,requested_at,expires_at,terminal_caller_instance,terminal_actor,evidence_ref,reason,terminal_at";

/// Records a cancellation.
pub const RECORD_CANCELLATION: &'static str = "UPDATE business_approval_requests SET status='cancelled',revision=revision+1,terminal_caller_instance=$2,terminal_actor=$3,evidence_ref=NULL,reason=$4,terminal_at=transaction_timestamp() WHERE request_id=$1 RETURNING request_id,requester_instance,idempotency_key,requested_by,approval_kind,subject_kind,subject_id,status,revision,requested_at,expires_at,terminal_caller_instance,terminal_actor,evidence_ref,reason,terminal_at";

/// Records an expiration.
pub const RECORD_EXPIRATION: &'static str = "UPDATE business_approval_requests SET status='expired',revision=revision+1,terminal_caller_instance=$2,terminal_actor=NULL,evidence_ref=NULL,reason=NULL,terminal_at=transaction_timestamp() WHERE request_id=$1 RETURNING request_id,requester_instance,idempotency_key,requested_by,approval_kind,subject_kind,subject_id,status,revision,requested_at,expires_at,terminal_caller_instance,terminal_actor,evidence_ref,reason,terminal_at";

/// One statement and the values bound to it, in the order of its parameters.
#[derive(Clone, Copy, Debug)]
pub enum Statement<'a> {
    /// [`INSERT_REQUEST`], which answers with the row that it inserted, if any.
    InsertRequest { intent: &'a RequestIntent },
    /// [`RESOLVE_IDEMPOTENT`], which answers with every row that it found.
    ResolveIdempotent {
        requester_instance: &'a str,
        idempotency_key: &'a str,
        request_id: &'a str,
    },
    /// [`READ_REQUEST`], which answers with the row, if any.
    ReadRequest { request_id: &'a str, requester: Option<&'a str> },
    /// [`LOCK_REQUEST`], which answers with the row, if any.
    LockRequest { request_id: &'a str },
    /// [`CHECK_DEADLINE`], which answers with a truth value.
    CheckDeadline { request_id: &'a str },
    /// [`RECORD_DECISION`], which answers with the new row.
    RecordDecision {
        request_id: &'a str,
        status: &'a str,
        caller: &'a str,
        actor: &'a str,
        evidence_ref: &'a str,
        reason: Option<&'a str>,
    },
    /// [`RECORD_CANCELLATION`], which answers with the new row.
    RecordCancellation {
        request_id: &'a str,
        caller: &'a str,
        actor: &'a str,
        reason: Option<&'a str>,
    },
    /// [`RECORD_EXPIRATION`], which answers with the new row.
    RecordExpiration { request_id: &'a str, caller: &'a str },
}

/// The value of a [`Statement`].
pub enum StatementModel {
    InsertRequest { intent: IntentModel },
    ResolveIdempotent {
        requester_instance: Seq<char>,
        idempotency_key: Seq<char>,
        request_id: Seq<char>,
    },
    ReadRequest { request_id: Seq<char>, requester: Option<Seq<char>> },
    LockRequest { request_id: Seq<char> },
    CheckDeadline { request_id: Seq<char> },
    RecordDecision {
        request_id: Seq<char>,
        status: Seq<char>,
        caller: Seq<char>,
        actor: Seq<char>,
        evidence_ref: Seq<char>,
        reason: Option<Seq<char>>,
    },
    RecordCancellation {
        request_id: Seq<char>,
        caller: Seq<char>,
        actor: Seq<char>,
        reason: Option<Seq<char>>,
    },
    RecordExpiration { request_id: Seq<char>, caller: Seq<char> },
}

impl<'a> View for Statement<'a> {
    type V = StatementModel;

    open spec fn view(&self) -> StatementModel {
        match *self {
            Statement::InsertRequest { intent } => {
                StatementModel::InsertRequest { intent: intent@ }
            },
            Statement::ResolveIdempotent { requester_instance, idempotency_key, request_id } => {
                StatementModel::ResolveIdempotent {
                    requester_instance: requester_instance@,
                    idempotency_key: idempotency_key@,
                    request_id: request_id@,
                }
            },
            Statement::ReadRequest { request_id, requester } => {
                StatementModel::ReadRequest {
                    request_id: request_id@,
                    requester: text::optional_str(requester),
                }
            },
            Statement::LockRequest { request_id } => {
                StatementModel::LockRequest { request_id: request_id@ }
            },
            Statement::CheckDeadline { request_id } => {
                StatementModel::CheckDeadline { request_id: request_id@ }
            },
            Statement::RecordDecision {
                request_id,
                status,
                caller,
                actor,
                evidence_ref,
                reason,
            } => {
                StatementModel::RecordDecision {
                    request_id: request_id@,
                    status: status@,
                    caller: caller@,
                    actor: actor@,
                    evidence_ref: evidence_ref@,
                    reason: text::optional_str(reason),
                }
            },
            Statement::RecordCancellation { request_id, caller, actor, reason } => {
                StatementModel::RecordCancellation {
                    request_id: request_id@,
                    caller: caller@,
                    actor: actor@,
                    reason: text::optional_str(reason),
                }
            },
            Statement::RecordExpiration { request_id, caller } => {
                StatementModel::RecordExpiration { request_id: request_id@, caller: caller@ }
            },
        }
    }
}

impl<'a> Statement<'a> {
    /// The text of the statement.
    pub fn sql(&self) -> (sql: &'static str)
        ensures
            sql@ == match self@ {
                StatementModel::InsertRequest { .. } => INSERT_REQUEST@,
                StatementModel::ResolveIdempotent { .. } => RESOLVE_IDEMPOTENT@,
                StatementModel::ReadRequest { .. } => READ_REQUEST@,
                StatementModel::LockRequest { .. } => LOCK_REQUEST@,
                StatementModel::CheckDeadline { .. } => CHECK_DEADLINE@,
                StatementModel::RecordDecision { .. } => RECORD_DECISION@,
                StatementModel::RecordCancellation { .. } => RECORD_CANCELLATION@,
                StatementModel::RecordExpiration { .. } => RECORD_EXPIRATION@,
            },
    {
        match self {
            Statement::InsertRequest { .. } => INSERT_REQUEST,
            Statement::ResolveIdempotent { .. } => RESOLVE_IDEMPOTENT,
            Statement::ReadRequest { .. } => READ_REQUEST,
            Statement::LockRequest { .. } => LOCK_REQUEST,
            Statement::CheckDeadline { .. } => CHECK_DEADLINE,
            Statement::RecordDecision { .. } => RECORD_DECISION,
            Statement::RecordCancellation { .. } => RECORD_CANCELLATION,
            Statement::RecordExpiration { .. } => RECORD_EXPIRATION,
        }
    }
}

/// What is to be done next with the database.
#[derive(Clone, Copy, Debug)]
pub enum Command<'a> {
    /// Begin a transaction.
    Begin,
    /// Run a statement in the transaction.
    Run(Statement<'a>),
    /// Commit the transaction.
    Commit,
}

/// The value of a [`Command`].
pub enum CommandModel {
    Begin,
    Run(StatementModel),
    Commit,
}

impl<'a> View for Command<'a> {
    type V = CommandModel;

    open spec fn view(&self) -> CommandModel {
        match *self {
            Command::Begin => CommandModel::Begin,
            Command::Run(statement) => CommandModel::Run(statement@),
            Command::Commit => CommandModel::Commit,
        }
    }
}

/// What came of a command.
#[derive(Clone, Debug)]
pub enum Reply {
    /// The transaction has begun.
    Begun,
    /// The statement found one row or none.
    Row(Option<ApprovalRow>),
    /// The statement found these rows.
    Rows(Vec<ApprovalRow>),
    /// The statement answered with a truth value.
    Truth(bool),
    /// The transaction is committed.
    Committed,
    /// The command failed.
    Failed,
}

/// The value of a [`Reply`].
pub enum ReplyModel {
    Begun,
    Row(Option<RowModel>),
    Rows(Seq<RowModel>),
    Truth(bool),
    Committed,
    Failed,
}

/// The value of a row that may be missing.
pub open spec fn optional_row(row: Option<ApprovalRow>) -> Option<RowModel> {
    match row {
        Some(found) => Some(found@),
        None => None,
    }
}

/// The values of several rows.
pub open spec fn row_values(rows: Seq<ApprovalRow>) -> Seq<RowModel> {
    rows.map_values(|row: ApprovalRow| row@)
}

impl View for Reply {
    type V = ReplyModel;

    open spec fn view(&self) -> ReplyModel {
        match *self {
            Reply::Begun => ReplyModel::Begun,
            Reply::Row(row) => ReplyModel::Row(optional_row(row)),
            Reply::Rows(rows) => ReplyModel::Rows(row_values(rows@)),
            Reply::Truth(truth) => ReplyModel::Truth(truth),
            Reply::Committed => ReplyModel::Committed,
            Reply::Failed => ReplyModel::Failed,
        }
    }
}

} // verus!
