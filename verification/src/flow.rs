//! The operations on the database, step by step.
//!
//! Every operation is a state from which the next command follows, and which the
//! reply to that command carries on. A reply that does not answer the command is
//! a failure of the command. A transaction that ends without a commit is rolled
//! back.

use vstd::prelude::*;

use crate::statement::{Command, CommandModel, Reply, ReplyModel, Statement, StatementModel};
use crate::storage;
use crate::storage::{
    ApprovalModel, ApprovalRow, ApprovalStatus, DomainFailure, IntentModel, OutcomeModel,
    RequestIntent, RequestOutcome, StorageError, StorageErrorModel, StoredApproval,
};
use crate::text;

verus! {

/// What an operation on storage ends with: its answer, a refusal, or a failure.
pub type StorageResult<T> = Result<Result<T, DomainFailure>, StorageError>;

/// The value of a [`StorageResult`].
pub type StorageResultModel<T> = Result<Result<T, DomainFailure>, StorageErrorModel>;

/// The value of what an operation on storage ends with.
pub open spec fn storage_result<T: View>(result: StorageResult<T>) -> StorageResultModel<T::V> {
    match result {
        Ok(Ok(answer)) => Ok(Ok(answer@)),
        Ok(Err(refusal)) => Ok(Err(refusal)),
        Err(error) => Err(error@),
    }
}

// Requests.

/// Where the creation or resolution of a request stands.
#[derive(Clone, Debug)]
pub enum RequestState {
    /// A transaction is to begin.
    Beginning,
    /// The request is to be inserted.
    Inserting,
    /// The rows that stood in the way are to be found.
    Resolving,
    /// The outcome is to be committed.
    Committing { outcome: RequestOutcome },
}

/// The value of a [`RequestState`].
pub enum RequestStateModel {
    Beginning,
    Inserting,
    Resolving,
    Committing { outcome: OutcomeModel },
}

impl View for RequestState {
    type V = RequestStateModel;

    open spec fn view(&self) -> RequestStateModel {
        match *self {
            RequestState::Beginning => RequestStateModel::Beginning,
            RequestState::Inserting => RequestStateModel::Inserting,
            RequestState::Resolving => RequestStateModel::Resolving,
            RequestState::Committing { outcome } => {
                RequestStateModel::Committing { outcome: outcome@ }
            },
        }
    }
}

/// What a reply makes of a request.
#[derive(Debug)]
pub enum RequestStep {
    /// The operation goes on.
    Next(RequestState),
    /// The operation is over.
    Done(StorageResult<RequestOutcome>),
}

/// The value of a [`RequestStep`].
pub enum RequestStepModel {
    Next(RequestStateModel),
    Done(StorageResultModel<OutcomeModel>),
}

impl View for RequestStep {
    type V = RequestStepModel;

    open spec fn view(&self) -> RequestStepModel {
        match *self {
            RequestStep::Next(state) => RequestStepModel::Next(state@),
            RequestStep::Done(result) => RequestStepModel::Done(storage_result(result)),
        }
    }
}

/// The refusal of an intent that is not that of a request which is there already.
pub open spec fn unresolved(intent: IntentModel) -> DomainFailure {
    if intent.overdue() {
        DomainFailure::DeadlinePassed
    } else {
        DomainFailure::IdempotencyConflict
    }
}

impl RequestStateModel {
    /// The command that the state waits for.
    pub open spec fn command(self, intent: IntentModel) -> CommandModel {
        match self {
            RequestStateModel::Beginning => CommandModel::Begin,
            RequestStateModel::Inserting => {
                CommandModel::Run(StatementModel::InsertRequest { intent })
            },
            RequestStateModel::Resolving => {
                CommandModel::Run(
                    StatementModel::ResolveIdempotent {
                        requester_instance: intent.requester_instance,
                        idempotency_key: intent.idempotency_key,
                        request_id: intent.request_id,
                    },
                )
            },
            RequestStateModel::Committing { .. } => CommandModel::Commit,
        }
    }

    /// The name of the operation that the state waits for.
    pub open spec fn operation(self) -> Seq<char> {
        match self {
            RequestStateModel::Beginning => "begin request"@,
            RequestStateModel::Inserting => "create approval request"@,
            RequestStateModel::Resolving => "resolve idempotent request"@,
            RequestStateModel::Committing { outcome } => if outcome.created {
                "commit request creation"@
            } else {
                "commit idempotent request"@
            },
        }
    }

    /// The end of a request whose command failed.
    pub open spec fn failed(self) -> RequestStepModel {
        RequestStepModel::Done(Err(StorageErrorModel::Database { operation: self.operation() }))
    }

    /// What a reply makes of the request.
    ///
    /// An inserted row is committed as a creation. Without one, the single row
    /// that holds the key or the identifier is committed as the answer, where it
    /// is what the intent asks for; anything else is a conflict. After the deadline
    /// nothing is inserted: the row that the intent asks for is the answer still,
    /// and without it the deadline has passed.
    pub open spec fn step(self, intent: IntentModel, reply: ReplyModel) -> RequestStepModel {
        match (self, reply) {
            (RequestStateModel::Beginning, ReplyModel::Begun) => if intent.overdue() {
                RequestStepModel::Next(RequestStateModel::Resolving)
            } else {
                RequestStepModel::Next(RequestStateModel::Inserting)
            },
            (RequestStateModel::Inserting, ReplyModel::Row(None)) => {
                RequestStepModel::Next(RequestStateModel::Resolving)
            },
            (RequestStateModel::Inserting, ReplyModel::Row(Some(row))) => match row.defect() {
                Some(error) => RequestStepModel::Done(Err(error)),
                None => RequestStepModel::Next(
                    RequestStateModel::Committing {
                        outcome: OutcomeModel { created: true, approval: row.approval() },
                    },
                ),
            },
            (RequestStateModel::Resolving, ReplyModel::Rows(rows)) => if rows.len() == 0
                && !intent.overdue() {
                RequestStepModel::Done(Err(StorageErrorModel::InconsistentIdempotency))
            } else if rows.len() != 1 {
                RequestStepModel::Done(Ok(Err(unresolved(intent))))
            } else {
                match rows[0].defect() {
                    Some(error) => RequestStepModel::Done(Err(error)),
                    None => if rows[0].approval().asked_by(intent) {
                        RequestStepModel::Next(
                            RequestStateModel::Committing {
                                outcome: OutcomeModel {
                                    created: false,
                                    approval: rows[0].approval(),
                                },
                            },
                        )
                    } else {
                        RequestStepModel::Done(Ok(Err(unresolved(intent))))
                    },
                }
            },
            (RequestStateModel::Committing { outcome }, ReplyModel::Committed) => {
                RequestStepModel::Done(Ok(Ok(outcome)))
            },
            _ => self.failed(),
        }
    }
}

/// Starts the creation or resolution of a request.
pub fn request() -> (state: RequestState)
    ensures
        state@ == RequestStateModel::Beginning,
{
    RequestState::Beginning
}

impl RequestState {
    /// The command that the state waits for.
    pub fn command<'a>(&self, intent: &'a RequestIntent) -> (command: Command<'a>)
        ensures
            command@ == self@.command(intent@),
    {
        match self {
            RequestState::Beginning => Command::Begin,
            RequestState::Inserting => Command::Run(Statement::InsertRequest { intent }),
            RequestState::Resolving => {
                Command::Run(
                    Statement::ResolveIdempotent {
                        requester_instance: intent.requester_instance.as_str(),
                        idempotency_key: intent.idempotency_key.as_str(),
                        request_id: intent.request_id.as_str(),
                    },
                )
            },
            RequestState::Committing { .. } => Command::Commit,
        }
    }

    /// The name of the operation that the state waits for.
    pub fn operation(&self) -> (operation: &'static str)
        ensures
            operation@ == self@.operation(),
    {
        match self {
            RequestState::Beginning => "begin request",
            RequestState::Inserting => "create approval request",
            RequestState::Resolving => "resolve idempotent request",
            RequestState::Committing { outcome } => if outcome.created {
                "commit request creation"
            } else {
                "commit idempotent request"
            },
        }
    }

    /// Carries the request on with the reply to its command.
    pub fn step(self, intent: &RequestIntent, reply: Reply) -> (step: RequestStep)
        ensures
            step@ == self@.step(intent@, reply@),
    {
        let operation = self.operation();
        match (self, reply) {
            (RequestState::Beginning, Reply::Begun) => if intent.overdue() {
                RequestStep::Next(RequestState::Resolving)
            } else {
                RequestStep::Next(RequestState::Inserting)
            },
            (RequestState::Inserting, Reply::Row(None)) => {
                RequestStep::Next(RequestState::Resolving)
            },
            (RequestState::Inserting, Reply::Row(Some(row))) => {
                match storage::decode_approval(row) {
                    Ok(approval) => {
                        let outcome = RequestOutcome { created: true, approval };
                        RequestStep::Next(RequestState::Committing { outcome })
                    },
                    Err(error) => RequestStep::Done(Err(error)),
                }
            },
            (RequestState::Resolving, Reply::Rows(rows)) => resolve(rows, intent),
            (RequestState::Committing { outcome }, Reply::Committed) => {
                RequestStep::Done(Ok(Ok(outcome)))
            },
            _ => RequestStep::Done(Err(StorageError::Database { operation })),
        }
    }
}

fn resolve(rows: Vec<ApprovalRow>, intent: &RequestIntent) -> (step: RequestStep)
    ensures
        step@ == RequestStateModel::Resolving.step(
            intent@,
            ReplyModel::Rows(crate::statement::row_values(rows@)),
        ),
{
    let refusal = if intent.overdue() {
        DomainFailure::DeadlinePassed
    } else {
        DomainFailure::IdempotencyConflict
    };
    if rows.len() > 1 {
        return RequestStep::Done(Ok(Err(refusal)));
    }
    let mut rows = rows;
    match rows.pop() {
        None => if intent.overdue() {
            RequestStep::Done(Ok(Err(refusal)))
        } else {
            RequestStep::Done(Err(StorageError::InconsistentIdempotency))
        },
        Some(row) => match storage::decode_approval(row) {
            Ok(approval) => if storage::same_intent(&approval, intent) {
                let outcome = RequestOutcome { created: false, approval };
                RequestStep::Next(RequestState::Committing { outcome })
            } else {
                RequestStep::Done(Ok(Err(refusal)))
            },
            Err(error) => RequestStep::Done(Err(error)),
        },
    }
}

// Terminal transitions.

/// The terminal step that a request is to take.
#[derive(Clone, Debug)]
pub enum Change {
    /// A decision, with its evidence.
    Decide {
        decision: ApprovalStatus,
        actor: String,
        evidence_ref: String,
        reason: Option<String>,
    },
    /// A cancellation by the requester.
    Cancel { actor: String, reason: Option<String> },
    /// An expiration after the deadline.
    Expire,
}

/// The value of a [`Change`].
pub enum ChangeModel {
    Decide {
        decision: ApprovalStatus,
        actor: Seq<char>,
        evidence_ref: Seq<char>,
        reason: Option<Seq<char>>,
    },
    Cancel { actor: Seq<char>, reason: Option<Seq<char>> },
    Expire,
}

impl View for Change {
    type V = ChangeModel;

    open spec fn view(&self) -> ChangeModel {
        match *self {
            Change::Decide { decision, actor, evidence_ref, reason } => {
                ChangeModel::Decide {
                    decision,
                    actor: actor@,
                    evidence_ref: evidence_ref@,
                    reason: text::optional_text(reason),
                }
            },
            Change::Cancel { actor, reason } => {
                ChangeModel::Cancel { actor: actor@, reason: text::optional_text(reason) }
            },
            Change::Expire => ChangeModel::Expire,
        }
    }
}

/// A terminal transition: of which request, on behalf of which Instance, and
/// which step.
#[derive(Clone, Debug)]
pub struct Transition {
    pub request_id: String,
    pub caller: String,
    pub change: Change,
}

/// The value of a [`Transition`].
pub struct TransitionModel {
    pub request_id: Seq<char>,
    pub caller: Seq<char>,
    pub change: ChangeModel,
}

impl View for Transition {
    type V = TransitionModel;

    open spec fn view(&self) -> TransitionModel {
        TransitionModel {
            request_id: self.request_id@,
            caller: self.caller@,
            change: self.change@,
        }
    }
}

/// Where a terminal transition stands.
#[derive(Clone, Debug)]
pub enum TransitionState {
    /// A transaction is to begin.
    Beginning,
    /// The request is to be locked.
    Locking,
    /// The deadline is to be checked.
    CheckingDeadline,
    /// The terminal evidence is to be recorded.
    Recording,
    /// The terminal step is to be committed.
    Committing { approval: StoredApproval },
}

/// The value of a [`TransitionState`].
pub enum TransitionStateModel {
    Beginning,
    Locking,
    CheckingDeadline,
    Recording,
    Committing { approval: ApprovalModel },
}

impl View for TransitionState {
    type V = TransitionStateModel;

    open spec fn view(&self) -> TransitionStateModel {
        match *self {
            TransitionState::Beginning => TransitionStateModel::Beginning,
            TransitionState::Locking => TransitionStateModel::Locking,
            TransitionState::CheckingDeadline => TransitionStateModel::CheckingDeadline,
            TransitionState::Recording => TransitionStateModel::Recording,
            TransitionState::Committing { approval } => {
                TransitionStateModel::Committing { approval: approval@ }
            },
        }
    }
}

/// What a reply makes of a terminal transition.
#[derive(Debug)]
pub enum TransitionStep {
    /// The operation goes on.
    Next(TransitionState),
    /// The operation is over.
    Done(StorageResult<StoredApproval>),
}

/// The value of a [`TransitionStep`].
pub enum TransitionStepModel {
    Next(TransitionStateModel),
    Done(StorageResultModel<ApprovalModel>),
}

impl View for TransitionStep {
    type V = TransitionStepModel;

    open spec fn view(&self) -> TransitionStepModel {
        match *self {
            TransitionStep::Next(state) => TransitionStepModel::Next(state@),
            TransitionStep::Done(result) => TransitionStepModel::Done(storage_result(result)),
        }
    }
}

impl TransitionModel {
    /// Whether a decision is to approve or to reject.
    pub open spec fn decides(self) -> bool {
        self.change matches ChangeModel::Decide { decision, .. } ==> (decision is Approved
            || decision is Rejected)
    }

    /// Why the transition may not be taken from a locked request, if so: it is not
    /// the canceller's own, or it is terminal already.
    pub open spec fn refusal(self, current: ApprovalModel) -> Option<DomainFailure> {
        if self.change is Cancel && current.requester_instance != self.caller {
            Some(DomainFailure::NotRequester)
        } else if !(current.status is Pending) {
            Some(DomainFailure::AlreadyTerminal)
        } else {
            None
        }
    }

    /// The statement that records the terminal step and its evidence.
    pub open spec fn record(self) -> StatementModel {
        match self.change {
            ChangeModel::Decide { decision, actor, evidence_ref, reason } => {
                StatementModel::RecordDecision {
                    request_id: self.request_id,
                    status: storage::status_text(decision),
                    caller: self.caller,
                    actor,
                    evidence_ref,
                    reason,
                }
            },
            ChangeModel::Cancel { actor, reason } => {
                StatementModel::RecordCancellation {
                    request_id: self.request_id,
                    caller: self.caller,
                    actor,
                    reason,
                }
            },
            ChangeModel::Expire => {
                StatementModel::RecordExpiration {
                    request_id: self.request_id,
                    caller: self.caller,
                }
            },
        }
    }
}

impl TransitionStateModel {
    /// The command that the state waits for.
    pub open spec fn command(self, transition: TransitionModel) -> CommandModel {
        match self {
            TransitionStateModel::Beginning => CommandModel::Begin,
            TransitionStateModel::Locking => {
                CommandModel::Run(
                    StatementModel::LockRequest { request_id: transition.request_id },
                )
            },
            TransitionStateModel::CheckingDeadline => {
                CommandModel::Run(
                    StatementModel::CheckDeadline { request_id: transition.request_id },
                )
            },
            TransitionStateModel::Recording => CommandModel::Run(transition.record()),
            TransitionStateModel::Committing { .. } => CommandModel::Commit,
        }
    }

    /// The name of the operation that the state waits for.
    pub open spec fn operation(self, change: ChangeModel) -> Seq<char> {
        match self {
            TransitionStateModel::Beginning => match change {
                ChangeModel::Decide { .. } => "begin decision"@,
                ChangeModel::Cancel { .. } => "begin cancellation"@,
                ChangeModel::Expire => "begin expiration"@,
            },
            TransitionStateModel::Locking => "lock approval request"@,
            TransitionStateModel::CheckingDeadline => "check expiration deadline"@,
            TransitionStateModel::Recording => match change {
                ChangeModel::Decide { .. } => "record decision"@,
                ChangeModel::Cancel { .. } => "cancel approval"@,
                ChangeModel::Expire => "expire approval"@,
            },
            TransitionStateModel::Committing { .. } => match change {
                ChangeModel::Decide { .. } => "commit decision"@,
                ChangeModel::Cancel { .. } => "commit cancellation"@,
                ChangeModel::Expire => "commit expiration"@,
            },
        }
    }

    /// The end of a transition whose command failed.
    pub open spec fn failed(self, change: ChangeModel) -> TransitionStepModel {
        TransitionStepModel::Done(
            Err(StorageErrorModel::Database { operation: self.operation(change) }),
        )
    }

    /// What a reply makes of the transition.
    ///
    /// The request is locked first. It must exist, and the transition must be open
    /// to it; an expiration also waits for the deadline. Then the evidence is
    /// recorded, and the recorded row is committed.
    pub open spec fn step(
        self,
        transition: TransitionModel,
        reply: ReplyModel,
    ) -> TransitionStepModel {
        match (self, reply) {
            (TransitionStateModel::Beginning, ReplyModel::Begun) => {
                TransitionStepModel::Next(TransitionStateModel::Locking)
            },
            (TransitionStateModel::Locking, ReplyModel::Row(None)) => {
                TransitionStepModel::Done(Ok(Err(DomainFailure::RequestNotFound)))
            },
            (TransitionStateModel::Locking, ReplyModel::Row(Some(row))) => match row.defect() {
                Some(error) => TransitionStepModel::Done(Err(error)),
                None => match transition.refusal(row.approval()) {
                    Some(refusal) => TransitionStepModel::Done(Ok(Err(refusal))),
                    None => if transition.change is Expire {
                        TransitionStepModel::Next(TransitionStateModel::CheckingDeadline)
                    } else {
                        TransitionStepModel::Next(TransitionStateModel::Recording)
                    },
                },
            },
            (TransitionStateModel::CheckingDeadline, ReplyModel::Truth(due)) => if due {
                TransitionStepModel::Next(TransitionStateModel::Recording)
            } else {
                TransitionStepModel::Done(Ok(Err(DomainFailure::NotDue)))
            },
            (TransitionStateModel::Recording, ReplyModel::Row(Some(row))) => match row.defect() {
                Some(error) => TransitionStepModel::Done(Err(error)),
                None => TransitionStepModel::Next(
                    TransitionStateModel::Committing { approval: row.approval() },
                ),
            },
            (TransitionStateModel::Committing { approval }, ReplyModel::Committed) => {
                TransitionStepModel::Done(Ok(Ok(approval)))
            },
            _ => self.failed(transition.change),
        }
    }
}

/// A decision about a request: to approve or to reject it.
pub fn decide(
    request_id: &str,
    decision: ApprovalStatus,
    caller: &str,
    actor: &str,
    evidence_ref: &str,
    reason: Option<&str>,
) -> (transition: Transition)
    requires
        decision is Approved || decision is Rejected,
    ensures
        transition@ == (TransitionModel {
            request_id: request_id@,
            caller: caller@,
            change: ChangeModel::Decide {
                decision,
                actor: actor@,
                evidence_ref: evidence_ref@,
                reason: text::optional_str(reason),
            },
        }),
        transition@.decides(),
{
    Transition {
        request_id: request_id.to_owned(),
        caller: caller.to_owned(),
        change: Change::Decide {
            decision,
            actor: actor.to_owned(),
            evidence_ref: evidence_ref.to_owned(),
            reason: text::own_optional(reason),
        },
    }
}

/// A cancellation of a request.
pub fn cancel(request_id: &str, caller: &str, actor: &str, reason: Option<&str>) -> (transition:
    Transition)
    ensures
        transition@ == (TransitionModel {
            request_id: request_id@,
            caller: caller@,
            change: ChangeModel::Cancel { actor: actor@, reason: text::optional_str(reason) },
        }),
        transition@.decides(),
{
    Transition {
        request_id: request_id.to_owned(),
        caller: caller.to_owned(),
        change: Change::Cancel { actor: actor.to_owned(), reason: text::own_optional(reason) },
    }
}

/// An expiration of a request.
pub fn expire(request_id: &str, caller: &str) -> (transition: Transition)
    ensures
        transition@ == (TransitionModel {
            request_id: request_id@,
            caller: caller@,
            change: ChangeModel::Expire,
        }),
        transition@.decides(),
{
    Transition {
        request_id: request_id.to_owned(),
        caller: caller.to_owned(),
        change: Change::Expire,
    }
}

impl Transition {
    /// Starts the transition.
    pub fn begin(&self) -> (state: TransitionState)
        ensures
            state@ == TransitionStateModel::Beginning,
    {
        TransitionState::Beginning
    }

    /// Why the transition may not be taken from a locked request, if so.
    pub fn refused(&self, current: &StoredApproval) -> (refusal: Option<DomainFailure>)
        ensures
            refusal == self@.refusal(current@),
    {
        if let Change::Cancel { .. } = &self.change {
            if current.requester_instance != self.caller {
                return Some(DomainFailure::NotRequester);
            }
        }
        if current.status != ApprovalStatus::Pending {
            return Some(DomainFailure::AlreadyTerminal);
        }
        None
    }

    /// The statement that records the terminal step and its evidence.
    pub fn record(&self) -> (statement: Statement<'_>)
        ensures
            statement@ == self@.record(),
    {
        match &self.change {
            Change::Decide { decision, actor, evidence_ref, reason } => {
                Statement::RecordDecision {
                    request_id: self.request_id.as_str(),
                    status: decision.as_str(),
                    caller: self.caller.as_str(),
                    actor: actor.as_str(),
                    evidence_ref: evidence_ref.as_str(),
                    reason: text::borrow_optional(reason),
                }
            },
            Change::Cancel { actor, reason } => {
                Statement::RecordCancellation {
                    request_id: self.request_id.as_str(),
                    caller: self.caller.as_str(),
                    actor: actor.as_str(),
                    reason: text::borrow_optional(reason),
                }
            },
            Change::Expire => {
                Statement::RecordExpiration {
                    request_id: self.request_id.as_str(),
                    caller: self.caller.as_str(),
                }
            },
        }
    }
}

impl TransitionState {
    /// The command that the state waits for.
    pub fn command<'a>(&self, transition: &'a Transition) -> (command: Command<'a>)
        ensures
            command@ == self@.command(transition@),
    {
        match self {
            TransitionState::Beginning => Command::Begin,
            TransitionState::Locking => {
                Command::Run(
                    Statement::LockRequest { request_id: transition.request_id.as_str() },
                )
            },
            TransitionState::CheckingDeadline => {
                Command::Run(
                    Statement::CheckDeadline { request_id: transition.request_id.as_str() },
                )
            },
            TransitionState::Recording => Command::Run(transition.record()),
            TransitionState::Committing { .. } => Command::Commit,
        }
    }

    /// The name of the operation that the state waits for.
    pub fn operation(&self, change: &Change) -> (operation: &'static str)
        ensures
            operation@ == self@.operation(change@),
    {
        match self {
            TransitionState::Beginning => match change {
                Change::Decide { .. } => "begin decision",
                Change::Cancel { .. } => "begin cancellation",
                Change::Expire => "begin expiration",
            },
            TransitionState::Locking => "lock approval request",
            TransitionState::CheckingDeadline => "check expiration deadline",
            TransitionState::Recording => match change {
                Change::Decide { .. } => "record decision",
                Change::Cancel { .. } => "cancel approval",
                Change::Expire => "expire approval",
            },
            TransitionState::Committing { .. } => match change {
                Change::Decide { .. } => "commit decision",
                Change::Cancel { .. } => "commit cancellation",
                Change::Expire => "commit expiration",
            },
        }
    }

    /// Carries the transition on with the reply to its command.
    pub fn step(self, transition: &Transition, reply: Reply) -> (step: TransitionStep)
        ensures
            step@ == self@.step(transition@, reply@),
    {
        let operation = self.operation(&transition.change);
        match (self, reply) {
            (TransitionState::Beginning, Reply::Begun) => {
                TransitionStep::Next(TransitionState::Locking)
            },
            (TransitionState::Locking, Reply::Row(None)) => {
                TransitionStep::Done(Ok(Err(DomainFailure::RequestNotFound)))
            },
            (TransitionState::Locking, Reply::Row(Some(row))) => {
                match storage::decode_approval(row) {
                    Err(error) => TransitionStep::Done(Err(error)),
                    Ok(current) => match transition.refused(&current) {
                        Some(refusal) => TransitionStep::Done(Ok(Err(refusal))),
                        None => match &transition.change {
                            Change::Expire => {
                                TransitionStep::Next(TransitionState::CheckingDeadline)
                            },
                            _ => TransitionStep::Next(TransitionState::Recording),
                        },
                    },
                }
            },
            (TransitionState::CheckingDeadline, Reply::Truth(due)) => {
                if due {
                    TransitionStep::Next(TransitionState::Recording)
                } else {
                    TransitionStep::Done(Ok(Err(DomainFailure::NotDue)))
                }
            },
            (TransitionState::Recording, Reply::Row(Some(row))) => {
                match storage::decode_approval(row) {
                    Err(error) => TransitionStep::Done(Err(error)),
                    Ok(approval) => TransitionStep::Next(TransitionState::Committing { approval }),
                }
            },
            (TransitionState::Committing { approval }, Reply::Committed) => {
                TransitionStep::Done(Ok(Ok(approval)))
            },
            _ => TransitionStep::Done(Err(StorageError::Database { operation })),
        }
    }
}

// Reads.

/// The statement that reads a request, of any requester or of a given one.
pub fn read<'a>(request_id: &'a str, requester: Option<&'a str>) -> (statement: Statement<'a>)
    ensures
        statement@ == (StatementModel::ReadRequest {
            request_id: request_id@,
            requester: text::optional_str(requester),
        }),
{
    Statement::ReadRequest { request_id, requester }
}

/// The end of a read, by the reply to its statement.
pub open spec fn read_result(reply: ReplyModel) -> Result<
    Option<ApprovalModel>,
    StorageErrorModel,
> {
    match reply {
        ReplyModel::Row(None) => Ok(None),
        ReplyModel::Row(Some(row)) => match row.defect() {
            Some(error) => Err(error),
            None => Ok(Some(row.approval())),
        },
        _ => Err(StorageErrorModel::Database { operation: "read approval request"@ }),
    }
}

/// Ends a read with the reply to its statement.
pub fn read_reply(reply: Reply) -> (result: Result<Option<StoredApproval>, StorageError>)
    ensures
        match result {
            Ok(None) => read_result(reply@) == Ok::<_, StorageErrorModel>(None::<ApprovalModel>),
            Ok(Some(approval)) => read_result(reply@) == Ok::<_, StorageErrorModel>(
                Some(approval@),
            ),
            Err(error) => read_result(reply@) == Err::<Option<ApprovalModel>, _>(error@),
        },
{
    match reply {
        Reply::Row(None) => Ok(None),
        Reply::Row(Some(row)) => match storage::decode_approval(row) {
            Ok(approval) => Ok(Some(approval)),
            Err(error) => Err(error),
        },
        _ => Err(StorageError::Database { operation: "read approval request" }),
    }
}

} // verus!
