//! What the operations make of the table of requests.
//!
//! The statements are given their meaning on a table, and the operations are run
//! on it: reply by reply, with every reply that the table can give. What comes of
//! a run is then a plain function of the table, on which the promises of the
//! library are proved.
//!
//! A run has the table to itself from its first statement to its commit. That is
//! what the lock on the row of the request is for. The instant of a run is the one
//! at which its transaction began.

use vstd::prelude::*;

use crate::flow::{
    ChangeModel, RequestStateModel, RequestStepModel, StorageResultModel, TransitionModel,
    TransitionStateModel, TransitionStepModel,
};
use crate::statement::{CommandModel, ReplyModel, StatementModel};
use crate::storage;
use crate::storage::{
    ApprovalModel, ApprovalStatus, DomainFailure, IntentModel, OutcomeModel, RowModel,
    StorageErrorModel,
};

verus! {

/// The table: every request under its identifier.
pub type Table = Map<Seq<char>, ApprovalModel>;

/// Whether a table is one that the database can hold: no two requests share an
/// identifier, or a requester and its idempotency key, and every request has the
/// terminal evidence that its status calls for.
pub open spec fn sound(table: Table) -> bool {
    &&& forall|id: Seq<char>| #[trigger]
        table.contains_key(id) ==> table[id].request_id == id && table[id].consistent()
    &&& forall|a: Seq<char>, b: Seq<char>|
        table.contains_key(a) && table.contains_key(b) && same_key(
            #[trigger] table[a],
            #[trigger] table[b],
        ) ==> a == b
}

/// Whether two requests are of one requester and under one idempotency key.
pub open spec fn same_key(left: ApprovalModel, right: ApprovalModel) -> bool {
    left.requester_instance == right.requester_instance && left.idempotency_key
        == right.idempotency_key
}

/// The row that an approval is kept in.
pub open spec fn row_of(approval: ApprovalModel) -> RowModel {
    RowModel {
        status: Some(storage::status_text(approval.status)),
        revision: Some(approval.revision),
        request_id: Some(approval.request_id),
        requester_instance: Some(approval.requester_instance),
        idempotency_key: Some(approval.idempotency_key),
        requested_by: Some(approval.requested_by),
        approval_kind: Some(approval.approval_kind),
        subject_kind: Some(approval.subject_kind),
        subject_id: Some(approval.subject_id),
        requested_at: Some(approval.requested_at),
        expires_at: Some(approval.expires_at),
        terminal_caller_instance: Some(approval.terminal_caller_instance),
        terminal_actor: Some(approval.terminal_actor),
        evidence_ref: Some(approval.evidence_ref),
        reason: Some(approval.reason),
        terminal_at: Some(approval.terminal_at),
    }
}

/// A consistent approval is read back from the row that it is kept in, and an
/// inconsistent one is not read at all.
pub proof fn law_row_is_read_back(approval: ApprovalModel)
    ensures
        row_of(approval).defect() is None <==> approval.consistent(),
        row_of(approval).approval() == approval,
{
    storage::law_status_text_is_read_back(approval.status);
}

/// The request that an intent creates: pending, at revision one, and without
/// terminal evidence.
pub open spec fn pending(intent: IntentModel) -> ApprovalModel {
    ApprovalModel {
        request_id: intent.request_id,
        requester_instance: intent.requester_instance,
        idempotency_key: intent.idempotency_key,
        requested_by: intent.requested_by,
        approval_kind: intent.approval_kind,
        subject_kind: intent.subject_kind,
        subject_id: intent.subject_id,
        status: ApprovalStatus::Pending,
        revision: 1,
        requested_at: intent.requested_at,
        expires_at: intent.expires_at,
        terminal_caller_instance: None,
        terminal_actor: None,
        evidence_ref: None,
        reason: None,
        terminal_at: None,
    }
}

/// Whether a request holds the identifier of an intent, or the requester's key.
pub open spec fn in_the_way(
    found: ApprovalModel,
    requester_instance: Seq<char>,
    idempotency_key: Seq<char>,
    request_id: Seq<char>,
) -> bool {
    ||| found.requester_instance == requester_instance && found.idempotency_key == idempotency_key
    ||| found.request_id == request_id
}

/// Whether a unique key that an intent needs is taken.
pub open spec fn taken(table: Table, intent: IntentModel) -> bool {
    exists|id: Seq<char>| #[trigger]
        table.contains_key(id) && in_the_way(
            table[id],
            intent.requester_instance,
            intent.idempotency_key,
            intent.request_id,
        )
}

/// A request after an update that records a terminal step at an instant.
pub open spec fn recorded(
    current: ApprovalModel,
    status: ApprovalStatus,
    caller: Seq<char>,
    actor: Option<Seq<char>>,
    evidence_ref: Option<Seq<char>>,
    reason: Option<Seq<char>>,
    now: int,
) -> ApprovalModel {
    ApprovalModel {
        status,
        revision: current.revision + 1,
        terminal_caller_instance: Some(caller),
        terminal_actor: actor,
        evidence_ref,
        reason,
        terminal_at: Some(now),
        ..current
    }
}

/// The request that an update writes, if the statement is one.
pub open spec fn written(table: Table, now: int, statement: StatementModel) -> Option<
    ApprovalModel,
> {
    match statement {
        StatementModel::RecordDecision {
            request_id,
            status,
            caller,
            actor,
            evidence_ref,
            reason,
        } => if table.contains_key(request_id) {
            Some(
                recorded(
                    table[request_id],
                    storage::status_of(status)->0,
                    caller,
                    Some(actor),
                    Some(evidence_ref),
                    reason,
                    now,
                ),
            )
        } else {
            None
        },
        StatementModel::RecordCancellation { request_id, caller, actor, reason } => {
            if table.contains_key(request_id) {
                Some(
                    recorded(
                        table[request_id],
                        ApprovalStatus::Cancelled,
                        caller,
                        Some(actor),
                        None,
                        reason,
                        now,
                    ),
                )
            } else {
                None
            }
        },
        StatementModel::RecordExpiration { request_id, caller } => if table.contains_key(
            request_id,
        ) {
            Some(
                recorded(table[request_id], ApprovalStatus::Expired, caller, None, None, None, now),
            )
        } else {
            None
        },
        StatementModel::InsertRequest { intent } => if taken(table, intent) {
            None
        } else {
            Some(pending(intent))
        },
        _ => None,
    }
}

/// The table after a statement that runs at an instant.
pub open spec fn after(table: Table, now: int, statement: StatementModel) -> Table {
    match written(table, now, statement) {
        Some(approval) => table.insert(approval.request_id, approval),
        None => table,
    }
}

/// The row of a request, if there is one.
pub open spec fn row_if(found: Option<ApprovalModel>) -> Option<RowModel> {
    match found {
        Some(approval) => Some(row_of(approval)),
        None => None,
    }
}

/// The request under an identifier, if there is one.
pub open spec fn lookup(table: Table, request_id: Seq<char>) -> Option<ApprovalModel> {
    if table.contains_key(request_id) {
        Some(table[request_id])
    } else {
        None
    }
}

/// The request under an identifier, if there is one, and it is of a requester,
/// where one is given.
pub open spec fn lookup_of(
    table: Table,
    request_id: Seq<char>,
    requester: Option<Seq<char>>,
) -> Option<ApprovalModel> {
    match lookup(table, request_id) {
        Some(approval) => if requester is None || requester == Some(approval.requester_instance) {
            Some(approval)
        } else {
            None
        },
        None => None,
    }
}

/// Whether rows are those of the requests that are in the way, each once and in
/// any order.
pub open spec fn rows_in_the_way(
    table: Table,
    requester_instance: Seq<char>,
    idempotency_key: Seq<char>,
    request_id: Seq<char>,
    rows: Seq<RowModel>,
) -> bool {
    &&& rows.no_duplicates()
    &&& forall|i: int|
        0 <= i < rows.len() ==> exists|id: Seq<char>| #[trigger]
            table.contains_key(id) && in_the_way(
                table[id],
                requester_instance,
                idempotency_key,
                request_id,
            ) && #[trigger] rows[i] == row_of(table[id])
    &&& forall|id: Seq<char>| #[trigger]
        table.contains_key(id) && in_the_way(
            table[id],
            requester_instance,
            idempotency_key,
            request_id,
        ) ==> rows.contains(row_of(table[id]))
}

/// Whether a reply is one that a statement, run on a table at an instant, can have.
pub open spec fn replies(
    table: Table,
    now: int,
    statement: StatementModel,
    reply: ReplyModel,
) -> bool {
    match statement {
        StatementModel::ResolveIdempotent { requester_instance, idempotency_key, request_id } => {
            reply matches ReplyModel::Rows(rows) && rows_in_the_way(
                table,
                requester_instance,
                idempotency_key,
                request_id,
                rows,
            )
        },
        StatementModel::ReadRequest { request_id, requester } => {
            reply == ReplyModel::Row(row_if(lookup_of(table, request_id, requester)))
        },
        StatementModel::LockRequest { request_id } => {
            reply == ReplyModel::Row(row_if(lookup(table, request_id)))
        },
        StatementModel::CheckDeadline { request_id } => {
            table.contains_key(request_id) && reply == ReplyModel::Truth(
                table[request_id].expires_at <= now,
            )
        },
        _ => reply == ReplyModel::Row(row_if(written(table, now, statement))),
    }
}

/// Whether a reply is one that a command can have. Every command may also fail.
pub open spec fn answers(
    table: Table,
    now: int,
    command: CommandModel,
    reply: ReplyModel,
) -> bool {
    match command {
        CommandModel::Begin => reply is Begun || reply is Failed,
        CommandModel::Run(statement) => replies(table, now, statement, reply) || reply is Failed,
        CommandModel::Commit => reply is Committed || reply is Failed,
    }
}

/// Whether no command failed.
pub open spec fn undisturbed(given: Seq<ReplyModel>) -> bool {
    forall|i: int| 0 <= i < given.len() ==> !((#[trigger] given[i]) is Failed)
}

/// The table outside the transaction after a command and its reply. A command that
/// failed has no effect; of a commit that failed, `took` tells whether it took
/// effect all the same.
pub open spec fn kept_after(
    kept: Table,
    working: Table,
    command: CommandModel,
    reply: ReplyModel,
    took: bool,
) -> Table {
    if command is Commit && (reply is Committed || took) {
        working
    } else {
        kept
    }
}

/// The table inside the transaction after a command and its reply.
pub open spec fn working_after(
    table: Table,
    now: int,
    command: CommandModel,
    reply: ReplyModel,
) -> Table {
    match command {
        CommandModel::Run(statement) => if reply is Failed {
            table
        } else {
            after(table, now, statement)
        },
        _ => table,
    }
}

/// The table and the result with which a request ends that is carried on from a
/// state with given replies, at an instant; nothing where the replies are not
/// those of the database, or end early.
///
/// `kept` is the table outside the transaction, and `working` the one inside it.
/// `took` tells whether a commit that failed took effect all the same.
pub open spec fn run_request(
    state: RequestStateModel,
    intent: IntentModel,
    now: int,
    kept: Table,
    working: Table,
    given: Seq<ReplyModel>,
    took: bool,
) -> Option<(Table, StorageResultModel<OutcomeModel>)>
    decreases given.len(),
{
    let command = state.command(intent);
    if given.len() == 0 || !answers(working, now, command, given[0]) {
        None
    } else {
        let next_working = working_after(working, now, command, given[0]);
        let next_kept = kept_after(kept, working, command, given[0], took);
        match state.step(intent, given[0]) {
            RequestStepModel::Next(next) => run_request(
                next,
                intent,
                now,
                next_kept,
                next_working,
                given.drop_first(),
                took,
            ),
            RequestStepModel::Done(result) => Some((next_kept, result)),
        }
    }
}

/// The table and the result with which a terminal transition ends that is carried
/// on from a state with given replies, at an instant; nothing where the replies
/// are not those of the database, or end early.
///
/// `kept` is the table outside the transaction, and `working` the one inside it.
/// `took` tells whether a commit that failed took effect all the same.
pub open spec fn run_transition(
    state: TransitionStateModel,
    transition: TransitionModel,
    now: int,
    kept: Table,
    working: Table,
    given: Seq<ReplyModel>,
    took: bool,
) -> Option<(Table, StorageResultModel<ApprovalModel>)>
    decreases given.len(),
{
    let command = state.command(transition);
    if given.len() == 0 || !answers(working, now, command, given[0]) {
        None
    } else {
        let next_working = working_after(working, now, command, given[0]);
        let next_kept = kept_after(kept, working, command, given[0], took);
        match state.step(transition, given[0]) {
            TransitionStepModel::Next(next) => run_transition(
                next,
                transition,
                now,
                next_kept,
                next_working,
                given.drop_first(),
                took,
            ),
            TransitionStepModel::Done(result) => Some((next_kept, result)),
        }
    }
}

// What comes of a run.

/// What comes of a request that no failure stops.
///
/// The request that an intent asks for is answered as it stands, whenever that is.
/// Otherwise an intent after its deadline is refused, a free one creates its
/// request, and anything else is a conflict. A refusal changes nothing.
pub open spec fn request_effect(table: Table, intent: IntentModel) -> (
    Table,
    Result<OutcomeModel, DomainFailure>,
) {
    if table.contains_key(intent.request_id) && table[intent.request_id].asked_by(intent) {
        (table, Ok(OutcomeModel { created: false, approval: table[intent.request_id] }))
    } else if intent.overdue() {
        (table, Err(DomainFailure::DeadlinePassed))
    } else if !taken(table, intent) {
        (
            table.insert(intent.request_id, pending(intent)),
            Ok(OutcomeModel { created: true, approval: pending(intent) }),
        )
    } else {
        (table, Err(DomainFailure::IdempotencyConflict))
    }
}

/// The request after a terminal step.
pub open spec fn ended(
    current: ApprovalModel,
    transition: TransitionModel,
    now: int,
) -> ApprovalModel {
    match transition.change {
        ChangeModel::Decide { decision, actor, evidence_ref, reason } => recorded(
            current,
            decision,
            transition.caller,
            Some(actor),
            Some(evidence_ref),
            reason,
            now,
        ),
        ChangeModel::Cancel { actor, reason } => recorded(
            current,
            ApprovalStatus::Cancelled,
            transition.caller,
            Some(actor),
            None,
            reason,
            now,
        ),
        ChangeModel::Expire => recorded(
            current,
            ApprovalStatus::Expired,
            transition.caller,
            None,
            None,
            None,
            now,
        ),
    }
}

/// What comes of a terminal transition, at an instant, that no failure stops.
pub open spec fn transition_effect(table: Table, transition: TransitionModel, now: int) -> (
    Table,
    Result<ApprovalModel, DomainFailure>,
) {
    match lookup(table, transition.request_id) {
        None => (table, Err(DomainFailure::RequestNotFound)),
        Some(current) => match transition.refusal(current) {
            Some(refusal) => (table, Err(refusal)),
            None => if transition.change is Expire && current.expires_at > now {
                (table, Err(DomainFailure::NotDue))
            } else {
                (
                    table.insert(transition.request_id, ended(current, transition, now)),
                    Ok(ended(current, transition, now)),
                )
            },
        },
    }
}

/// The end of a commit: its answer, or the failure under its name.
proof fn lemma_commit_request(
    outcome: OutcomeModel,
    intent: IntentModel,
    now: int,
    kept: Table,
    working: Table,
    given: Seq<ReplyModel>,
    took: bool,
)
    ensures
        ({
            let state = RequestStateModel::Committing { outcome };
            run_request(state, intent, now, kept, working, given, took) matches Some(end) ==> {
                if given[0] is Committed {
                    end == (
                        working,
                        Ok::<_, StorageErrorModel>(Ok::<_, DomainFailure>(outcome)),
                    )
                } else {
                    given[0] is Failed && end == (
                        if took {
                            working
                        } else {
                            kept
                        },
                        Err::<Result<OutcomeModel, DomainFailure>, _>(
                            StorageErrorModel::Database { operation: state.operation() },
                        ),
                    )
                }
            }
        }),
{
}

/// A row that an intent asks for leaves no other row in its way.
proof fn lemma_sole_row(table: Table, intent: IntentModel, rows: Seq<RowModel>)
    requires
        sound(table),
        rows_in_the_way(
            table,
            intent.requester_instance,
            intent.idempotency_key,
            intent.request_id,
            rows,
        ),
    ensures
        table.contains_key(intent.request_id) && table[intent.request_id].asked_by(intent) ==> rows
            == seq![row_of(table[intent.request_id])],
        rows.len() == 0 <==> !taken(table, intent),
        rows.len() == 1 ==> {
            let found = rows[0].approval();
            &&& rows[0].defect() is None
            &&& table.contains_key(found.request_id)
            &&& table[found.request_id] == found
        },
{
    assert forall|i: int| 0 <= i < rows.len() implies exists|id: Seq<char>| #[trigger]
        table.contains_key(id) && in_the_way(
            table[id],
            intent.requester_instance,
            intent.idempotency_key,
            intent.request_id,
        ) && #[trigger] rows[i] == row_of(table[id]) by {}
    if rows.len() == 1 {
        let id = choose|id: Seq<char>| #[trigger]
            table.contains_key(id) && in_the_way(
                table[id],
                intent.requester_instance,
                intent.idempotency_key,
                intent.request_id,
            ) && rows[0] == row_of(table[id]);
        law_row_is_read_back(table[id]);
    }
    if taken(table, intent) {
        let id = choose|id: Seq<char>| #[trigger]
            table.contains_key(id) && in_the_way(
                table[id],
                intent.requester_instance,
                intent.idempotency_key,
                intent.request_id,
            );
        assert(rows.contains(row_of(table[id])));
    }
    if rows.len() > 0 {
        assert(exists|id: Seq<char>| #[trigger]
            table.contains_key(id) && in_the_way(
                table[id],
                intent.requester_instance,
                intent.idempotency_key,
                intent.request_id,
            ) && rows[0] == row_of(table[id]));
    }
    if table.contains_key(intent.request_id) && table[intent.request_id].asked_by(intent) {
        let own = row_of(table[intent.request_id]);
        assert(rows.contains(own));
        assert forall|i: int| 0 <= i < rows.len() implies #[trigger] rows[i] == own by {
            let id = choose|id: Seq<char>| #[trigger]
                table.contains_key(id) && in_the_way(
                    table[id],
                    intent.requester_instance,
                    intent.idempotency_key,
                    intent.request_id,
                ) && rows[i] == row_of(table[id]);
            if table[id].request_id != intent.request_id {
                assert(same_key(table[id], table[intent.request_id]));
            }
        }
        if rows.len() > 1 {
            assert(rows[0] == rows[1]);
        }
        assert(rows =~= seq![own]);
    }
}

/// How a request ends whose rows that are in the way are to be found.
proof fn lemma_resolve_request(
    table: Table,
    intent: IntentModel,
    now: int,
    given: Seq<ReplyModel>,
    took: bool,
)
    requires
        sound(table),
        intent.overdue() || taken(table, intent),
    ensures
        run_request(
            RequestStateModel::Resolving,
            intent,
            now,
            table,
            table,
            given,
            took,
        ) matches Some(end) ==> {
            &&& ends_request(table, intent, end, took)
            &&& undisturbed(given) ==> end == (
                request_effect(table, intent).0,
                Ok::<_, StorageErrorModel>(request_effect(table, intent).1),
            )
        },
{
    reveal_with_fuel(run_request, 2);
    if given.len() > 0 && given[0] is Rows {
        let rows = given[0]->Rows_0;
        let last = given.drop_first();
        assert(last.len() > 0 ==> last[0] == given[1]);
        if rows_in_the_way(
            table,
            intent.requester_instance,
            intent.idempotency_key,
            intent.request_id,
            rows,
        ) {
            lemma_sole_row(table, intent, rows);
            if rows.len() == 1 {
                let outcome = OutcomeModel { created: false, approval: rows[0].approval() };
                lemma_commit_request(outcome, intent, now, table, table, last, took);
            }
        }
    }
}

/// Whether a request ends as its effect says, or with a failure of the database: one
/// before the commit, which changes nothing, or one of the commit, which takes
/// effect or does not.
pub open spec fn ends_request(
    table: Table,
    intent: IntentModel,
    end: (Table, StorageResultModel<OutcomeModel>),
    took: bool,
) -> bool {
    let (effect_table, effect) = request_effect(table, intent);
    ||| end == (effect_table, Ok::<_, StorageErrorModel>(effect))
    ||| {
        &&& end.0 == table
        &&& end.1 matches Err(StorageErrorModel::Database { operation })
        &&& {
            ||| operation == RequestStateModel::Beginning.operation()
            ||| operation == RequestStateModel::Inserting.operation()
            ||| operation == RequestStateModel::Resolving.operation()
        }
    }
    ||| {
        &&& effect matches Ok(outcome)
        &&& end.1 == Err::<Result<OutcomeModel, DomainFailure>, _>(
            StorageErrorModel::Database {
                operation: RequestStateModel::Committing { outcome }.operation(),
            },
        )
        &&& end.0 == if took {
            effect_table
        } else {
            table
        }
    }
}

/// However the database replies, a request ends as its effect says, or with a
/// failure of the database under the name of the command that failed. Where no
/// command failed, it ends as its effect says.
pub proof fn law_request_ends_in_its_effect(
    table: Table,
    intent: IntentModel,
    now: int,
    given: Seq<ReplyModel>,
    took: bool,
)
    requires
        sound(table),
    ensures
        run_request(
            RequestStateModel::Beginning,
            intent,
            now,
            table,
            table,
            given,
            took,
        ) matches Some(end) ==> {
            &&& ends_request(table, intent, end, took)
            &&& undisturbed(given) ==> end == (
                request_effect(table, intent).0,
                Ok::<_, StorageErrorModel>(request_effect(table, intent).1),
            )
        },
{
    reveal_with_fuel(run_request, 3);
    let rest = given.drop_first();
    let last = rest.drop_first();
    assert(given.len() > 1 ==> rest[0] == given[1]);
    assert(given.len() > 2 ==> last[0] == given[2]);
    if given.len() > 1 && undisturbed(given) {
        assert forall|i: int| 0 <= i < rest.len() implies !((#[trigger] rest[i]) is Failed) by {
            assert(rest[i] == given[i + 1]);
        }
        assert forall|i: int| 0 <= i < last.len() implies !((#[trigger] last[i]) is Failed) by {
            assert(last[i] == given[i + 2]);
        }
    }
    if given.len() > 0 && given[0] is Begun {
        if intent.overdue() {
            lemma_resolve_request(table, intent, now, rest, took);
        } else if taken(table, intent) {
            lemma_resolve_request(table, intent, now, last, took);
        } else {
            if table.contains_key(intent.request_id) {
                assert(table[intent.request_id].request_id == intent.request_id);
                assert(taken(table, intent));
            }
            law_row_is_read_back(pending(intent));
            lemma_commit_request(
                OutcomeModel { created: true, approval: pending(intent) },
                intent,
                now,
                table,
                table.insert(intent.request_id, pending(intent)),
                last,
                took,
            );
        }
    }
}

proof fn lemma_failed_commit_of_a_request(
    state: RequestStateModel,
    intent: IntentModel,
    now: int,
    kept: Table,
    working: Table,
    before: Seq<ReplyModel>,
    took: bool,
    committed: Table,
    outcome: OutcomeModel,
)
    requires
        forall|i: int| 0 <= i < before.len() ==> !((#[trigger] before[i]) is Committed),
        run_request(
            state,
            intent,
            now,
            kept,
            working,
            before.push(ReplyModel::Committed),
            took,
        ) == Some((committed, Ok::<_, StorageErrorModel>(Ok::<_, DomainFailure>(outcome)))),
    ensures
        run_request(
            state,
            intent,
            now,
            kept,
            working,
            before.push(ReplyModel::Failed),
            took,
        ) == Some(
            (
                if took {
                    committed
                } else {
                    kept
                },
                Err::<Result<OutcomeModel, DomainFailure>, _>(
                    StorageErrorModel::Database {
                        operation: RequestStateModel::Committing { outcome }.operation(),
                    },
                ),
            ),
        ),
    decreases before.len(),
{
    let good = before.push(ReplyModel::Committed);
    let bad = before.push(ReplyModel::Failed);
    if before.len() > 0 {
        assert(good[0] == before[0] && bad[0] == before[0]);
        let rest = before.drop_first();
        assert(good.drop_first() =~= rest.push(ReplyModel::Committed));
        assert(bad.drop_first() =~= rest.push(ReplyModel::Failed));
        if let RequestStepModel::Next(next) = state.step(intent, before[0]) {
            lemma_failed_commit_of_a_request(
                next,
                intent,
                now,
                kept,
                working_after(working, now, state.command(intent), before[0]),
                rest,
                took,
                committed,
                outcome,
            );
        }
    }
}

/// A request whose commit fails is reported so, by the name of the commit, whether
/// the commit took effect or not: the table is as the effect says, or as it was.
pub proof fn law_failed_commit_of_a_request_is_reported(
    table: Table,
    intent: IntentModel,
    now: int,
    before: Seq<ReplyModel>,
    took: bool,
    outcome: OutcomeModel,
)
    requires
        sound(table),
        forall|i: int| 0 <= i < before.len() ==> !((#[trigger] before[i]) is Committed),
        run_request(
            RequestStateModel::Beginning,
            intent,
            now,
            table,
            table,
            before.push(ReplyModel::Committed),
            took,
        ) matches Some(end) && end.1 == Ok::<_, StorageErrorModel>(
            Ok::<_, DomainFailure>(outcome),
        ),
    ensures
        run_request(
            RequestStateModel::Beginning,
            intent,
            now,
            table,
            table,
            before.push(ReplyModel::Failed),
            took,
        ) == Some(
            (
                if took {
                    request_effect(table, intent).0
                } else {
                    table
                },
                Err::<Result<OutcomeModel, DomainFailure>, _>(
                    StorageErrorModel::Database {
                        operation: if outcome.created {
                            "commit request creation"@
                        } else {
                            "commit idempotent request"@
                        },
                    },
                ),
            ),
        ),
{
    let good = before.push(ReplyModel::Committed);
    law_request_ends_in_its_effect(table, intent, now, good, took);
    lemma_failed_commit_of_a_request(
        RequestStateModel::Beginning,
        intent,
        now,
        table,
        table,
        before,
        took,
        request_effect(table, intent).0,
        outcome,
    );
}

/// The end of a commit: its answer, or the failure under its name.
proof fn lemma_commit_transition(
    approval: ApprovalModel,
    transition: TransitionModel,
    now: int,
    kept: Table,
    working: Table,
    given: Seq<ReplyModel>,
    took: bool,
)
    ensures
        ({
            let state = TransitionStateModel::Committing { approval };
            run_transition(state, transition, now, kept, working, given, took) matches Some(end)
                ==> {
                if given[0] is Committed {
                    end == (
                        working,
                        Ok::<_, StorageErrorModel>(Ok::<_, DomainFailure>(approval)),
                    )
                } else {
                    given[0] is Failed && end == (
                        if took {
                            working
                        } else {
                            kept
                        },
                        Err::<Result<ApprovalModel, DomainFailure>, _>(
                            StorageErrorModel::Database {
                                operation: state.operation(transition.change),
                            },
                        ),
                    )
                }
            }
        }),
{
}

/// A terminal step leaves a consistent request behind.
proof fn lemma_ended_is_consistent(current: ApprovalModel, transition: TransitionModel, now: int)
    requires
        current.consistent(),
        current.status is Pending,
        transition.decides(),
    ensures
        ended(current, transition, now).consistent(),
{
}

/// Whether a transition ends as its effect says, or with a failure of the database:
/// one before the commit, which changes nothing, or one of the commit, which takes
/// effect or does not.
pub open spec fn ends_transition(
    table: Table,
    transition: TransitionModel,
    now: int,
    end: (Table, StorageResultModel<ApprovalModel>),
    took: bool,
) -> bool {
    let (effect_table, effect) = transition_effect(table, transition, now);
    let change = transition.change;
    ||| end == (effect_table, Ok::<_, StorageErrorModel>(effect))
    ||| {
        &&& end.0 == table
        &&& end.1 matches Err(StorageErrorModel::Database { operation })
        &&& {
            ||| operation == TransitionStateModel::Beginning.operation(change)
            ||| operation == TransitionStateModel::Locking.operation(change)
            ||| operation == TransitionStateModel::CheckingDeadline.operation(change)
            ||| operation == TransitionStateModel::Recording.operation(change)
        }
    }
    ||| {
        &&& effect matches Ok(approval)
        &&& end.1 == Err::<Result<ApprovalModel, DomainFailure>, _>(
            StorageErrorModel::Database {
                operation: TransitionStateModel::Committing { approval }.operation(change),
            },
        )
        &&& end.0 == if took {
            effect_table
        } else {
            table
        }
    }
}

/// How a transition ends whose evidence is to be recorded.
proof fn lemma_record_transition(
    transition: TransitionModel,
    now: int,
    table: Table,
    given: Seq<ReplyModel>,
    took: bool,
)
    requires
        sound(table),
        transition.decides(),
        transition_effect(table, transition, now).1 is Ok,
    ensures
        run_transition(
            TransitionStateModel::Recording,
            transition,
            now,
            table,
            table,
            given,
            took,
        ) matches Some(end) ==> {
            &&& ends_transition(table, transition, now, end, took)
            &&& undisturbed(given) ==> end == (
                transition_effect(table, transition, now).0,
                Ok::<_, StorageErrorModel>(transition_effect(table, transition, now).1),
            )
        },
{
    reveal_with_fuel(run_transition, 2);
    let current = table[transition.request_id];
    let approval = ended(current, transition, now);
    if let ChangeModel::Decide { decision, .. } = transition.change {
        storage::law_status_text_is_read_back(decision);
    }
    assert(written(table, now, transition.record()) == Some(approval));
    lemma_ended_is_consistent(current, transition, now);
    law_row_is_read_back(approval);
    let last = given.drop_first();
    assert(given.len() > 1 ==> last[0] == given[1]);
    lemma_commit_transition(
        approval,
        transition,
        now,
        table,
        table.insert(transition.request_id, approval),
        last,
        took,
    );
}

/// However the database replies, a terminal transition ends as its effect says, or
/// with a failure of the database under the name of the command that failed. Where
/// no command failed, it ends as its effect says.
pub proof fn law_transition_ends_in_its_effect(
    table: Table,
    transition: TransitionModel,
    now: int,
    given: Seq<ReplyModel>,
    took: bool,
)
    requires
        sound(table),
        transition.decides(),
    ensures
        run_transition(
            TransitionStateModel::Beginning,
            transition,
            now,
            table,
            table,
            given,
            took,
        ) matches Some(end) ==> {
            &&& ends_transition(table, transition, now, end, took)
            &&& undisturbed(given) ==> end == (
                transition_effect(table, transition, now).0,
                Ok::<_, StorageErrorModel>(transition_effect(table, transition, now).1),
            )
        },
{
    reveal_with_fuel(run_transition, 4);
    let locked = given.drop_first();
    let rest = locked.drop_first();
    let last = rest.drop_first();
    assert(given.len() > 1 ==> locked[0] == given[1]);
    assert(given.len() > 2 ==> rest[0] == given[2]);
    if given.len() > 2 && undisturbed(given) {
        assert forall|i: int| 0 <= i < rest.len() implies !((#[trigger] rest[i]) is Failed) by {
            assert(rest[i] == given[i + 2]);
        }
        assert forall|i: int| 0 <= i < last.len() implies !((#[trigger] last[i]) is Failed) by {
            assert(last[i] == given[i + 3]);
        }
    }
    if table.contains_key(transition.request_id) {
        law_row_is_read_back(table[transition.request_id]);
        if transition_effect(table, transition, now).1 is Ok {
            lemma_record_transition(transition, now, table, rest, took);
            lemma_record_transition(transition, now, table, last, took);
        }
    }
}

proof fn lemma_failed_commit_of_a_transition(
    state: TransitionStateModel,
    transition: TransitionModel,
    now: int,
    kept: Table,
    working: Table,
    before: Seq<ReplyModel>,
    took: bool,
    committed: Table,
    approval: ApprovalModel,
)
    requires
        forall|i: int| 0 <= i < before.len() ==> !((#[trigger] before[i]) is Committed),
        run_transition(
            state,
            transition,
            now,
            kept,
            working,
            before.push(ReplyModel::Committed),
            took,
        ) == Some((committed, Ok::<_, StorageErrorModel>(Ok::<_, DomainFailure>(approval)))),
    ensures
        run_transition(
            state,
            transition,
            now,
            kept,
            working,
            before.push(ReplyModel::Failed),
            took,
        ) == Some(
            (
                if took {
                    committed
                } else {
                    kept
                },
                Err::<Result<ApprovalModel, DomainFailure>, _>(
                    StorageErrorModel::Database {
                        operation: TransitionStateModel::Committing { approval }.operation(
                            transition.change,
                        ),
                    },
                ),
            ),
        ),
    decreases before.len(),
{
    let good = before.push(ReplyModel::Committed);
    let bad = before.push(ReplyModel::Failed);
    if before.len() > 0 {
        assert(good[0] == before[0] && bad[0] == before[0]);
        let rest = before.drop_first();
        assert(good.drop_first() =~= rest.push(ReplyModel::Committed));
        assert(bad.drop_first() =~= rest.push(ReplyModel::Failed));
        if let TransitionStepModel::Next(next) = state.step(transition, before[0]) {
            lemma_failed_commit_of_a_transition(
                next,
                transition,
                now,
                kept,
                working_after(working, now, state.command(transition), before[0]),
                rest,
                took,
                committed,
                approval,
            );
        }
    }
}

/// A terminal transition whose commit fails is reported so, by the name of the
/// commit, whether the commit took effect or not: the table is as the effect says,
/// or as it was.
pub proof fn law_failed_commit_of_a_transition_is_reported(
    table: Table,
    transition: TransitionModel,
    now: int,
    before: Seq<ReplyModel>,
    took: bool,
    approval: ApprovalModel,
)
    requires
        sound(table),
        transition.decides(),
        forall|i: int| 0 <= i < before.len() ==> !((#[trigger] before[i]) is Committed),
        run_transition(
            TransitionStateModel::Beginning,
            transition,
            now,
            table,
            table,
            before.push(ReplyModel::Committed),
            took,
        ) matches Some(end) && end.1 == Ok::<_, StorageErrorModel>(
            Ok::<_, DomainFailure>(approval),
        ),
    ensures
        run_transition(
            TransitionStateModel::Beginning,
            transition,
            now,
            table,
            table,
            before.push(ReplyModel::Failed),
            took,
        ) == Some(
            (
                if took {
                    transition_effect(table, transition, now).0
                } else {
                    table
                },
                Err::<Result<ApprovalModel, DomainFailure>, _>(
                    StorageErrorModel::Database {
                        operation: match transition.change {
                            ChangeModel::Decide { .. } => "commit decision"@,
                            ChangeModel::Cancel { .. } => "commit cancellation"@,
                            ChangeModel::Expire => "commit expiration"@,
                        },
                    },
                ),
            ),
        ),
{
    let good = before.push(ReplyModel::Committed);
    law_transition_ends_in_its_effect(table, transition, now, good, took);
    lemma_failed_commit_of_a_transition(
        TransitionStateModel::Beginning,
        transition,
        now,
        table,
        table,
        before,
        took,
        transition_effect(table, transition, now).0,
        approval,
    );
}

} // verus!
