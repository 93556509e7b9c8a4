//! The promises of the library, over what its operations make of the table.

use vstd::prelude::*;

use crate::admission;
use crate::admission::{Authority, ReadPlanModel};
use crate::capability::{
    CancelError, CancelRequest, DecideError, DecideRequest, ExpireError, ExpireRequest, ReadError,
    ReadRequest, ReadResponse, RequestError, RequestRequest,
};
use crate::config::ConfigModel;
use crate::failure::PluginErrorModel;
use crate::flow;
use crate::flow::{
    ChangeModel, RequestStateModel, RequestStepModel, StorageResultModel, TransitionModel,
    TransitionStateModel, TransitionStepModel,
};
use crate::identifiers;
use crate::operation;
use crate::response;
use crate::statement::{ReplyModel, StatementModel};
use crate::storage::{
    ApprovalModel, ApprovalStatus, DomainFailure, IntentModel, OutcomeModel, RowModel,
    StorageErrorModel,
};
use crate::table;
use crate::table::Table;
use crate::timestamp;

verus! {

// Soundness.

/// The empty table is sound.
pub proof fn law_empty_table_is_sound()
    ensures
        table::sound(Map::empty()),
{
}

/// A request keeps the table sound.
pub proof fn law_request_keeps_the_table_sound(table: Table, intent: IntentModel)
    requires
        table::sound(table),
    ensures
        table::sound(table::request_effect(table, intent).0),
{
    let (after, result) = table::request_effect(table, intent);
    if after != table {
        assert forall|a: Seq<char>, b: Seq<char>|
            after.contains_key(a) && after.contains_key(b) && table::same_key(
                #[trigger] after[a],
                #[trigger] after[b],
            ) implies a == b by {
            if a != b && (a == intent.request_id || b == intent.request_id) {
                let other = if a == intent.request_id {
                    b
                } else {
                    a
                };
                assert(table.contains_key(other));
                assert(table::taken(table, intent));
            }
        }
    }
}

/// A terminal transition keeps the table sound.
pub proof fn law_transition_keeps_the_table_sound(
    table: Table,
    transition: TransitionModel,
    now: int,
)
    requires
        table::sound(table),
        transition.decides(),
    ensures
        table::sound(table::transition_effect(table, transition, now).0),
{
    let (after, result) = table::transition_effect(table, transition, now);
    if let Ok(approval) = result {
        assert(approval.consistent());
        assert forall|a: Seq<char>, b: Seq<char>|
            after.contains_key(a) && after.contains_key(b) && table::same_key(
                #[trigger] after[a],
                #[trigger] after[b],
            ) implies a == b by {
            assert(table::same_key(table[a], table[b]));
        }
    }
}

// Requests.

/// A created request is pending, at revision one and without terminal evidence; it
/// is what was asked for, and its deadline lies after the time of asking.
pub proof fn law_created_request_is_pending(table: Table, intent: IntentModel)
    ensures
        table::request_effect(table, intent).1 matches Ok(outcome) ==> outcome.created ==> {
            &&& outcome.approval.status is Pending
            &&& outcome.approval.revision == 1
            &&& outcome.approval.terminal_caller_instance is None
            &&& outcome.approval.terminal_actor is None
            &&& outcome.approval.evidence_ref is None
            &&& outcome.approval.reason is None
            &&& outcome.approval.terminal_at is None
            &&& outcome.approval.asked_by(intent)
            &&& outcome.approval.requested_at == intent.requested_at
            &&& outcome.approval.requested_at < outcome.approval.expires_at
        },
{
}

/// A request changes no request that is there already, and adds none but its own.
pub proof fn law_request_changes_no_other(table: Table, intent: IntentModel, id: Seq<char>)
    requires
        table::sound(table),
    ensures
        table.contains_key(id) ==> table::lookup(table::request_effect(table, intent).0, id)
            == Some(table[id]),
        !table.contains_key(id) && id != intent.request_id ==> !table::request_effect(
            table,
            intent,
        ).0.contains_key(id),
{
    if table.contains_key(intent.request_id) {
        assert(table[intent.request_id].request_id == intent.request_id);
        assert(table::taken(table, intent));
    }
}

/// After its deadline an intent creates nothing and changes nothing. It is answered
/// where the request that it asks for is there, and refused otherwise.
pub proof fn law_overdue_intent_creates_nothing(table: Table, intent: IntentModel)
    requires
        intent.overdue(),
    ensures
        ({
            let stored = table.contains_key(intent.request_id)
                && table[intent.request_id].asked_by(intent);
            table::request_effect(table, intent) == (
                table,
                if stored {
                    Ok::<OutcomeModel, DomainFailure>(
                        OutcomeModel { created: false, approval: table[intent.request_id] },
                    )
                } else {
                    Err(DomainFailure::DeadlinePassed)
                },
            )
        }),
{
}

/// A request that was answered is answered again, however much later, with the
/// approval as it then stands; nothing is created by the retry, and nothing changes.
pub proof fn law_identical_retry_returns_the_existing_approval(
    table: Table,
    first: IntentModel,
    retry: IntentModel,
)
    requires
        table::sound(table),
        table::request_effect(table, first).1 is Ok,
        retry == (IntentModel { requested_at: retry.requested_at, ..first }),
    ensures
        ({
            let (after, answer) = table::request_effect(table, first);
            table::request_effect(after, retry) == (
                after,
                Ok::<OutcomeModel, DomainFailure>(
                    OutcomeModel { created: false, approval: answer->Ok_0.approval },
                ),
            )
        }),
{
}

/// A terminal transition leaves the answer to a retry the same but for what the
/// transition recorded.
pub proof fn law_retry_after_a_transition_returns_the_terminal_approval(
    table: Table,
    intent: IntentModel,
    transition: TransitionModel,
    now: int,
)
    requires
        table::sound(table),
        table.contains_key(intent.request_id),
        table[intent.request_id].asked_by(intent),
    ensures
        ({
            let after = table::transition_effect(table, transition, now).0;
            table::request_effect(after, intent) == (
                after,
                Ok::<OutcomeModel, DomainFailure>(
                    OutcomeModel { created: false, approval: after[intent.request_id] },
                ),
            )
        }),
{
}

/// An intent that differs from the request that holds its identifier, or its
/// requester's key, changes nothing. It is a conflict, unless its own deadline has
/// passed.
pub proof fn law_changed_intent_fails_closed(table: Table, intent: IntentModel, held: Seq<char>)
    requires
        table::sound(table),
        table.contains_key(held),
        table::in_the_way(
            table[held],
            intent.requester_instance,
            intent.idempotency_key,
            intent.request_id,
        ),
        !table[held].asked_by(intent),
    ensures
        table::request_effect(table, intent) == (
            table,
            Err::<OutcomeModel, _>(
                if intent.overdue() {
                    DomainFailure::DeadlinePassed
                } else {
                    DomainFailure::IdempotencyConflict
                },
            ),
        ),
{
    assert(table::taken(table, intent));
    if table.contains_key(intent.request_id) && table[intent.request_id].asked_by(intent) {
        assert(table::same_key(table[held], table[intent.request_id]));
    }
}

/// A key is taken for one requester alone: under an identifier of its own, another
/// requester can use it before its deadline.
pub proof fn law_idempotency_is_scoped_to_the_requester(table: Table, intent: IntentModel)
    requires
        table::sound(table),
        !intent.overdue(),
        !table.contains_key(intent.request_id),
        forall|id: Seq<char>| #[trigger]
            table.contains_key(id) && table[id].idempotency_key == intent.idempotency_key
                ==> table[id].requester_instance != intent.requester_instance,
    ensures
        table::request_effect(table, intent) == (
            table.insert(intent.request_id, table::pending(intent)),
            Ok::<_, DomainFailure>(
                OutcomeModel { created: true, approval: table::pending(intent) },
            ),
        ),
{
}

// Terminal transitions.

/// The first terminal step of a request moves it from pending to its terminal
/// status at revision two, with the evidence of the step, and leaves all else of it
/// as it was.
pub proof fn law_terminal_step_records_its_evidence(
    table: Table,
    transition: TransitionModel,
    now: int,
)
    requires
        table::sound(table),
        transition.decides(),
        table::transition_effect(table, transition, now).1 is Ok,
    ensures
        ({
            let (after, result) = table::transition_effect(table, transition, now);
            let ended = result->Ok_0;
            let current = table[transition.request_id];
            &&& table.contains_key(transition.request_id)
            &&& after == table.insert(transition.request_id, ended)
            &&& current.status is Pending
            &&& current.revision == 1
            &&& !(ended.status is Pending)
            &&& ended.revision == 2
            &&& ended.terminal_caller_instance == Some(transition.caller)
            &&& ended.terminal_at == Some(now)
            &&& match transition.change {
                ChangeModel::Decide { decision, actor, evidence_ref, reason } => {
                    &&& ended.status == decision
                    &&& ended.terminal_actor == Some(actor)
                    &&& ended.evidence_ref == Some(evidence_ref)
                    &&& ended.reason == reason
                },
                ChangeModel::Cancel { actor, reason } => {
                    &&& ended.status is Cancelled
                    &&& current.requester_instance == transition.caller
                    &&& ended.terminal_actor == Some(actor)
                    &&& ended.evidence_ref is None
                    &&& ended.reason == reason
                },
                ChangeModel::Expire => {
                    &&& ended.status is Expired
                    &&& current.expires_at <= now
                    &&& ended.terminal_actor is None
                    &&& ended.evidence_ref is None
                    &&& ended.reason is None
                },
            }
            &&& current == (ApprovalModel {
                status: ApprovalStatus::Pending,
                revision: 1,
                terminal_caller_instance: None,
                terminal_actor: None,
                evidence_ref: None,
                reason: None,
                terminal_at: None,
                ..ended
            })
        }),
{
}

/// A transition that is refused changes nothing.
pub proof fn law_refused_transition_changes_nothing(
    table: Table,
    transition: TransitionModel,
    now: int,
)
    ensures
        table::transition_effect(table, transition, now).1 is Err ==> table::transition_effect(
            table,
            transition,
            now,
        ).0 == table,
{
}

/// A terminal request takes no further step, whatever is attempted and however late:
/// it is already terminal. A cancellation by another than its requester is refused
/// for that alone.
pub proof fn law_terminal_request_stays_as_it_is(
    table: Table,
    transition: TransitionModel,
    now: int,
)
    requires
        table.contains_key(transition.request_id),
        !(table[transition.request_id].status is Pending),
    ensures
        table::transition_effect(table, transition, now) == (
            table,
            Err::<ApprovalModel, _>(
                if transition.change is Cancel && table[transition.request_id].requester_instance
                    != transition.caller {
                    DomainFailure::NotRequester
                } else {
                    DomainFailure::AlreadyTerminal
                },
            ),
        ),
{
}

/// Of two transitions of one request at most one takes place: after the first that
/// succeeds, the second finds the request terminal, and the first one's evidence
/// stays.
pub proof fn law_only_one_terminal_step_takes_place(
    table: Table,
    first: TransitionModel,
    first_now: int,
    second: TransitionModel,
    second_now: int,
)
    requires
        table::sound(table),
        first.decides(),
        first.request_id == second.request_id,
        table::transition_effect(table, first, first_now).1 is Ok,
        second.change is Cancel ==> table[second.request_id].requester_instance == second.caller,
    ensures
        ({
            let after = table::transition_effect(table, first, first_now).0;
            table::transition_effect(after, second, second_now) == (
                after,
                Err::<ApprovalModel, _>(DomainFailure::AlreadyTerminal),
            )
        }),
{
}

/// A transition touches no other request.
pub proof fn law_transition_changes_no_other(
    table: Table,
    transition: TransitionModel,
    now: int,
    id: Seq<char>,
)
    requires
        id != transition.request_id,
    ensures
        table::lookup(table::transition_effect(table, transition, now).0, id) == table::lookup(
            table,
            id,
        ),
{
}

/// A transition of a request that is not there is refused as such.
pub proof fn law_unknown_request_is_not_found(
    table: Table,
    transition: TransitionModel,
    now: int,
)
    requires
        !table.contains_key(transition.request_id),
    ensures
        table::transition_effect(table, transition, now) == (
            table,
            Err::<ApprovalModel, _>(DomainFailure::RequestNotFound),
        ),
{
}

/// A pending request is decided whoever decides it.
pub proof fn law_pending_request_is_decided(table: Table, transition: TransitionModel, now: int)
    requires
        table::lookup(table, transition.request_id) matches Some(current)
            && current.status is Pending,
        transition.change is Decide,
    ensures
        table::transition_effect(table, transition, now).1 is Ok,
{
}

/// A pending request is cancelled by its requester and by nobody else.
pub proof fn law_only_the_requester_cancels(table: Table, transition: TransitionModel, now: int)
    requires
        table::lookup(table, transition.request_id) matches Some(current)
            && current.status is Pending,
        transition.change is Cancel,
    ensures
        ({
            let (after, result) = table::transition_effect(table, transition, now);
            if transition.caller == table[transition.request_id].requester_instance {
                result is Ok
            } else {
                after == table && result == Err::<ApprovalModel, _>(DomainFailure::NotRequester)
            }
        }),
{
}

/// A pending request expires from its deadline on and not before.
pub proof fn law_only_a_due_request_expires(table: Table, transition: TransitionModel, now: int)
    requires
        table::lookup(table, transition.request_id) matches Some(current)
            && current.status is Pending,
        transition.change is Expire,
    ensures
        ({
            let (after, result) = table::transition_effect(table, transition, now);
            if table[transition.request_id].expires_at <= now {
                result is Ok
            } else {
                after == table && result == Err::<ApprovalModel, _>(DomainFailure::NotDue)
            }
        }),
{
}

// Reads.

/// A read finds the request as the table has it, and nothing where a requester is
/// given that is not its own.
pub proof fn law_read_finds_the_request(
    table: Table,
    now: int,
    request_id: Seq<char>,
    requester: Option<Seq<char>>,
    reply: ReplyModel,
)
    requires
        table::sound(table),
        table::replies(
            table,
            now,
            StatementModel::ReadRequest { request_id, requester },
            reply,
        ),
    ensures
        flow::read_result(reply) == Ok::<_, StorageErrorModel>(
            table::lookup_of(table, request_id, requester),
        ),
{
    if table.contains_key(request_id) {
        table::law_row_is_read_back(table[request_id]);
    }
}

/// One requester's read never finds another requester's request.
pub proof fn law_requester_reads_only_its_own(
    table: Table,
    request_id: Seq<char>,
    requester: Seq<char>,
)
    ensures
        table::lookup_of(table, request_id, Some(requester)) matches Some(approval)
            ==> approval.requester_instance == requester,
{
}

/// What a request was answered with is what a read finds then, by its requester or
/// by one who may read any request.
pub proof fn law_request_is_read_back(
    table: Table,
    intent: IntentModel,
    requester: Option<Seq<char>>,
)
    requires
        table::request_effect(table, intent).1 is Ok,
        requester is None || requester == Some(intent.requester_instance),
    ensures
        ({
            let (after, answer) = table::request_effect(table, intent);
            table::lookup_of(after, intent.request_id, requester) == Some(answer->Ok_0.approval)
        }),
{
}

/// What a transition was answered with is what a read finds then, by the requester
/// or by one who may read any request.
pub proof fn law_transition_is_read_back(
    table: Table,
    transition: TransitionModel,
    now: int,
    requester: Option<Seq<char>>,
)
    requires
        table::transition_effect(table, transition, now).1 is Ok,
        requester is None || requester == Some(table[transition.request_id].requester_instance),
    ensures
        ({
            let (after, result) = table::transition_effect(table, transition, now);
            table::lookup_of(after, transition.request_id, requester) == Some(result->Ok_0)
        }),
{
}

// Runs.

/// A request always can end as its effect says: there are replies of the database,
/// none of them a failure, that lead there.
pub proof fn law_request_effect_is_reached(
    table: Table,
    intent: IntentModel,
    now: int,
    took: bool,
)
    requires
        table::sound(table),
    ensures
        exists|given: Seq<ReplyModel>|
            table::undisturbed(given) && #[trigger] table::run_request(
                RequestStateModel::Beginning,
                intent,
                now,
                table,
                table,
                given,
                took,
            ) == Some(
                (
                    table::request_effect(table, intent).0,
                    Ok::<_, StorageErrorModel>(table::request_effect(table, intent).1),
                ),
            ),
{
    reveal_with_fuel(table::run_request, 5);
    let row = table::row_if(
        table::written(table, now, StatementModel::InsertRequest { intent }),
    );
    let rows = rows_that_are_in_the_way(table, intent);
    let given = if intent.overdue() {
        seq![ReplyModel::Begun, ReplyModel::Rows(rows), ReplyModel::Committed]
    } else if table::taken(table, intent) {
        seq![
            ReplyModel::Begun,
            ReplyModel::Row(row),
            ReplyModel::Rows(rows),
            ReplyModel::Committed,
        ]
    } else {
        seq![ReplyModel::Begun, ReplyModel::Row(row), ReplyModel::Committed]
    };
    lemma_rows_that_are_in_the_way(table, intent);
    table::law_row_is_read_back(table::pending(intent));
    table::law_request_ends_in_its_effect(table, intent, now, given, took);
    let first = given.drop_first();
    let second = first.drop_first();
    assert(first[0] == given[1] && second[0] == given[2]);
    if given.len() > 3 {
        assert(second.drop_first()[0] == given[3]);
    }
    if rows.len() == 1 && (intent.overdue() || table::taken(table, intent)) {
        let id = choose|id: Seq<char>| #[trigger]
            table.contains_key(id) && table::in_the_way(
                table[id],
                intent.requester_instance,
                intent.idempotency_key,
                intent.request_id,
            ) && rows[0] == table::row_of(table[id]);
        table::law_row_is_read_back(table[id]);
    }
    assert(table::run_request(
        RequestStateModel::Beginning,
        intent,
        now,
        table,
        table,
        given,
        took,
    ) is Some);
}

spec fn keyed(table: Table, intent: IntentModel, id: Seq<char>) -> bool {
    &&& table.contains_key(id)
    &&& table[id].requester_instance == intent.requester_instance
    &&& table[id].idempotency_key == intent.idempotency_key
}

spec fn rows_that_are_in_the_way(table: Table, intent: IntentModel) -> Seq<RowModel> {
    let key_holder = choose|id: Seq<char>| keyed(table, intent, id);
    let by_id = table.contains_key(intent.request_id);
    let by_key = keyed(table, intent, key_holder) && key_holder != intent.request_id;
    if by_id && by_key {
        seq![table::row_of(table[intent.request_id]), table::row_of(table[key_holder])]
    } else if by_id {
        seq![table::row_of(table[intent.request_id])]
    } else if by_key {
        seq![table::row_of(table[key_holder])]
    } else {
        seq![]
    }
}

proof fn lemma_rows_that_are_in_the_way(table: Table, intent: IntentModel)
    requires
        table::sound(table),
    ensures
        table::rows_in_the_way(
            table,
            intent.requester_instance,
            intent.idempotency_key,
            intent.request_id,
            rows_that_are_in_the_way(table, intent),
        ),
{
    let rows = rows_that_are_in_the_way(table, intent);
    let key_holder = choose|id: Seq<char>| keyed(table, intent, id);
    let by_id = table.contains_key(intent.request_id);
    let way = |id: Seq<char>|
        table.contains_key(id) && table::in_the_way(
            table[id],
            intent.requester_instance,
            intent.idempotency_key,
            intent.request_id,
        );
    assert forall|id: Seq<char>| #[trigger] table.contains_key(id) && way(id) implies (id
        == intent.request_id || (id == key_holder && keyed(table, intent, key_holder))) by {
        if table[id].request_id != intent.request_id {
            assert(keyed(table, intent, id));
            assert(table::same_key(table[id], table[key_holder]));
        }
    }
    assert forall|id: Seq<char>| #[trigger]
        table.contains_key(id) && table::in_the_way(
            table[id],
            intent.requester_instance,
            intent.idempotency_key,
            intent.request_id,
        ) implies rows.contains(table::row_of(table[id])) by {
        assert(way(id));
        if id == intent.request_id {
            assert(rows[0] == table::row_of(table[id]));
        } else {
            assert(rows[rows.len() - 1] == table::row_of(table[id]));
        }
    }
    assert forall|i: int| 0 <= i < rows.len() implies exists|id: Seq<char>| #[trigger]
        table.contains_key(id) && table::in_the_way(
            table[id],
            intent.requester_instance,
            intent.idempotency_key,
            intent.request_id,
        ) && #[trigger] rows[i] == table::row_of(table[id]) by {
        if by_id && i == 0 {
            assert(table.contains_key(intent.request_id));
        } else {
            assert(table.contains_key(key_holder));
        }
    }
}

/// A transition always can end as its effect says: there are replies of the
/// database, none of them a failure, that lead there.
pub proof fn law_transition_effect_is_reached(
    table: Table,
    transition: TransitionModel,
    now: int,
    took: bool,
)
    requires
        table::sound(table),
        transition.decides(),
    ensures
        exists|given: Seq<ReplyModel>|
            table::undisturbed(given) && #[trigger] table::run_transition(
                TransitionStateModel::Beginning,
                transition,
                now,
                table,
                table,
                given,
                took,
            ) == Some(
                (
                    table::transition_effect(table, transition, now).0,
                    Ok::<_, StorageErrorModel>(
                        table::transition_effect(table, transition, now).1,
                    ),
                ),
            ),
{
    reveal_with_fuel(table::run_transition, 6);
    let locked = ReplyModel::Row(table::row_if(table::lookup(table, transition.request_id)));
    let recorded = ReplyModel::Row(
        table::row_if(table::written(table, now, transition.record())),
    );
    let due = ReplyModel::Truth(table[transition.request_id].expires_at <= now);
    let given = if transition.change is Expire {
        seq![ReplyModel::Begun, locked, due, recorded, ReplyModel::Committed]
    } else {
        seq![ReplyModel::Begun, locked, recorded, ReplyModel::Committed]
    };
    let first = given.drop_first();
    let second = first.drop_first();
    let third = second.drop_first();
    assert(first[0] == given[1] && second[0] == given[2] && third[0] == given[3]);
    if transition.change is Expire {
        assert(third.drop_first()[0] == given[4]);
    }
    if table.contains_key(transition.request_id) {
        let current = table[transition.request_id];
        table::law_row_is_read_back(current);
        if let ChangeModel::Decide { decision, .. } = transition.change {
            crate::storage::law_status_text_is_read_back(decision);
        }
        table::law_row_is_read_back(table::ended(current, transition, now));
    }
    table::law_transition_ends_in_its_effect(table, transition, now, given, took);
    assert(table::run_transition(
        TransitionStateModel::Beginning,
        transition,
        now,
        table,
        table,
        given,
        took,
    ) is Some);
}

/// The end of a request that is carried on from a state with given replies,
/// whatever database they come from; nothing where they end early.
pub open spec fn drive_request(
    state: RequestStateModel,
    intent: IntentModel,
    given: Seq<ReplyModel>,
) -> Option<StorageResultModel<OutcomeModel>>
    decreases given.len(),
{
    if given.len() == 0 {
        None
    } else {
        match state.step(intent, given[0]) {
            RequestStepModel::Next(next) => drive_request(next, intent, given.drop_first()),
            RequestStepModel::Done(result) => Some(result),
        }
    }
}

/// The end of a transition that is carried on from a state with given replies,
/// whatever database they come from; nothing where they end early.
pub open spec fn drive_transition(
    state: TransitionStateModel,
    transition: TransitionModel,
    given: Seq<ReplyModel>,
) -> Option<StorageResultModel<ApprovalModel>>
    decreases given.len(),
{
    if given.len() == 0 {
        None
    } else {
        match state.step(transition, given[0]) {
            TransitionStepModel::Next(next) => drive_transition(
                next,
                transition,
                given.drop_first(),
            ),
            TransitionStepModel::Done(result) => Some(result),
        }
    }
}

/// A request is answered only after a commit, and only with a row that the
/// transaction inserted or with the one row that it found and that was asked for.
pub proof fn law_answered_request_was_committed(
    intent: IntentModel,
    given: Seq<ReplyModel>,
    outcome: OutcomeModel,
)
    requires
        drive_request(RequestStateModel::Beginning, intent, given) == Some(
            Ok::<_, StorageErrorModel>(Ok::<_, DomainFailure>(outcome)),
        ),
    ensures
        given.len() >= 3,
        given[0] is Begun,
        outcome.created ==> {
            &&& given[1] matches ReplyModel::Row(Some(inserted))
            &&& inserted.defect() is None
            &&& inserted.approval() == outcome.approval
            &&& given[2] is Committed
        },
        !outcome.created ==> {
            let resolved: int = if intent.overdue() {
                1
            } else {
                2
            };
            &&& given.len() >= resolved + 2
            &&& !intent.overdue() ==> given[1] == ReplyModel::Row(None::<RowModel>)
            &&& given[resolved] matches ReplyModel::Rows(found)
            &&& found.len() == 1
            &&& found[0].defect() is None
            &&& found[0].approval() == outcome.approval
            &&& outcome.approval.asked_by(intent)
            &&& given[resolved + 1] is Committed
        },
        outcome.created ==> !intent.overdue(),
{
    reveal_with_fuel(drive_request, 5);
    let first = given.drop_first();
    let second = first.drop_first();
    let third = second.drop_first();
    assert(first.len() > 0 ==> first[0] == given[1]);
    assert(second.len() > 0 ==> second[0] == given[2]);
    assert(third.len() > 0 ==> third[0] == given[3]);
}

/// A terminal step is answered only after one transaction has locked the pending
/// request, found it open to the step, recorded the evidence and committed; the
/// answer is the recorded row.
pub proof fn law_answered_transition_was_committed(
    transition: TransitionModel,
    given: Seq<ReplyModel>,
    approval: ApprovalModel,
)
    requires
        drive_transition(TransitionStateModel::Beginning, transition, given) == Some(
            Ok::<_, StorageErrorModel>(Ok::<_, DomainFailure>(approval)),
        ),
    ensures
        ({
            let record: int = if transition.change is Expire {
                3
            } else {
                2
            };
            &&& given.len() >= record + 2
            &&& given[0] is Begun
            &&& given[1] matches ReplyModel::Row(Some(locked))
            &&& locked.defect() is None
            &&& locked.approval().status is Pending
            &&& transition.change is Cancel ==> locked.approval().requester_instance
                == transition.caller
            &&& transition.change is Expire ==> given[2] == ReplyModel::Truth(true)
            &&& given[record] matches ReplyModel::Row(Some(recorded))
            &&& recorded.defect() is None
            &&& recorded.approval() == approval
            &&& given[record + 1] is Committed
        }),
{
    reveal_with_fuel(drive_transition, 6);
    let first = given.drop_first();
    let second = first.drop_first();
    let third = second.drop_first();
    let fourth = third.drop_first();
    assert(first.len() > 0 ==> first[0] == given[1]);
    assert(second.len() > 0 ==> second[0] == given[2]);
    assert(third.len() > 0 ==> third[0] == given[3]);
    assert(fourth.len() > 0 ==> fourth[0] == given[4]);
}

// Histories.

/// One operation that changes the table.
pub enum Operation {
    Request(IntentModel),
    Transition(TransitionModel),
}

/// The table after an operation at an instant.
pub open spec fn after_operation(table: Table, operation: Operation, now: int) -> Table {
    match operation {
        Operation::Request(intent) => table::request_effect(table, intent).0,
        Operation::Transition(transition) => table::transition_effect(table, transition, now).0,
    }
}

/// The table after operations, each at its instant, one after the other.
pub open spec fn after_all(table: Table, operations: Seq<(Operation, int)>) -> Table
    decreases operations.len(),
{
    if operations.len() == 0 {
        table
    } else {
        let (operation, now) = operations[0];
        after_all(after_operation(table, operation, now), operations.drop_first())
    }
}

/// Whether every decision among operations is to approve or to reject.
pub open spec fn all_decide(operations: Seq<(Operation, int)>) -> bool {
    forall|i: int|
        0 <= i < operations.len() ==> ((#[trigger] operations[i]).0 matches Operation::Transition(
            transition,
        ) ==> transition.decides())
}

proof fn lemma_rest_decides(operations: Seq<(Operation, int)>)
    requires
        operations.len() > 0,
        all_decide(operations),
    ensures
        all_decide(operations.drop_first()),
{
    let rest = operations.drop_first();
    assert forall|i: int| 0 <= i < rest.len() implies ((
    #[trigger] rest[i]).0 matches Operation::Transition(transition) ==> transition.decides()) by {
        assert(rest[i] == operations[i + 1]);
    }
}

/// Whatever is asked of a sound table, and in whatever order, it stays sound: at
/// every time each request is pending at revision one without evidence, or terminal
/// at revision two with the evidence of its one terminal step.
pub proof fn law_every_history_is_sound(table: Table, operations: Seq<(Operation, int)>)
    requires
        table::sound(table),
        all_decide(operations),
    ensures
        table::sound(after_all(table, operations)),
    decreases operations.len(),
{
    if operations.len() > 0 {
        let (operation, now) = operations[0];
        match operation {
            Operation::Request(intent) => {
                law_request_keeps_the_table_sound(table, intent);
            },
            Operation::Transition(transition) => {
                assert(operations[0].0 == Operation::Transition(transition));
                law_transition_keeps_the_table_sound(table, transition, now);
            },
        }
        let rest = operations.drop_first();
        lemma_rest_decides(operations);
        law_every_history_is_sound(after_operation(table, operation, now), rest);
    }
}

/// A terminal request is never touched again: whatever is asked afterwards, it and
/// its evidence stay as they are.
pub proof fn law_terminal_evidence_is_never_lost(
    table: Table,
    operations: Seq<(Operation, int)>,
    id: Seq<char>,
)
    requires
        table::sound(table),
        all_decide(operations),
        table.contains_key(id),
        !(table[id].status is Pending),
    ensures
        table::lookup(after_all(table, operations), id) == Some(table[id]),
    decreases operations.len(),
{
    if operations.len() > 0 {
        let (operation, now) = operations[0];
        let next = after_operation(table, operation, now);
        match operation {
            Operation::Request(intent) => {
                law_request_keeps_the_table_sound(table, intent);
                law_request_changes_no_other(table, intent, id);
            },
            Operation::Transition(transition) => {
                assert(operations[0].0 == Operation::Transition(transition));
                law_transition_keeps_the_table_sound(table, transition, now);
                if transition.request_id == id {
                    law_terminal_request_stays_as_it_is(table, transition, now);
                } else {
                    law_transition_changes_no_other(table, transition, now, id);
                }
            },
        }
        assert(table::lookup(next, id) == Some(table[id]));
        let rest = operations.drop_first();
        lemma_rest_decides(operations);
        law_terminal_evidence_is_never_lost(next, rest, id);
    }
}

/// What was asked for stays: whatever happens afterwards, a request keeps its
/// identity, its subject, its requester and its deadline, and its revision never
/// goes down.
pub proof fn law_request_is_never_rewritten(
    table: Table,
    operations: Seq<(Operation, int)>,
    id: Seq<char>,
)
    requires
        table::sound(table),
        all_decide(operations),
        table.contains_key(id),
    ensures
        table::lookup(after_all(table, operations), id) matches Some(later) && table[id] == (
        ApprovalModel {
            status: table[id].status,
            revision: table[id].revision,
            terminal_caller_instance: table[id].terminal_caller_instance,
            terminal_actor: table[id].terminal_actor,
            evidence_ref: table[id].evidence_ref,
            reason: table[id].reason,
            terminal_at: table[id].terminal_at,
            ..later
        }) && table[id].revision <= later.revision,
    decreases operations.len(),
{
    if operations.len() > 0 {
        let (operation, now) = operations[0];
        let next = after_operation(table, operation, now);
        match operation {
            Operation::Request(intent) => {
                law_request_keeps_the_table_sound(table, intent);
                law_request_changes_no_other(table, intent, id);
                assert(table::lookup(next, id) == Some(table[id]));
            },
            Operation::Transition(transition) => {
                assert(operations[0].0 == Operation::Transition(transition));
                law_transition_keeps_the_table_sound(table, transition, now);
            },
        }
        let rest = operations.drop_first();
        lemma_rest_decides(operations);
        law_request_is_never_rewritten(next, rest, id);
    }
}

/// Whatever has happened since a request was made, a retry of it is answered with
/// the approval as it stands by then; the retry creates and changes nothing.
pub proof fn law_retry_returns_the_approval_as_it_stands(
    table: Table,
    operations: Seq<(Operation, int)>,
    intent: IntentModel,
)
    requires
        table::sound(table),
        all_decide(operations),
        table.contains_key(intent.request_id),
        table[intent.request_id].asked_by(intent),
    ensures
        ({
            let later = after_all(table, operations);
            &&& later.contains_key(intent.request_id)
            &&& table::request_effect(later, intent) == (
                later,
                Ok::<OutcomeModel, DomainFailure>(
                    OutcomeModel { created: false, approval: later[intent.request_id] },
                ),
            )
        }),
{
    law_request_is_never_rewritten(table, operations, intent.request_id);
}

// Authority.

/// Authority comes from the configured lists alone. A caller that is not named has
/// none, and being on one list gives no authority of another.
pub proof fn law_authority_is_exact(config: ConfigModel, caller: Option<Seq<char>>)
    ensures
        Authority::Request.holder(config, caller) is Some <==> (caller matches Some(name)
            && config.requester_instances.contains(name)),
        Authority::Decide.holder(config, caller) is Some <==> (caller matches Some(name)
            && config.decider_instances.contains(name)),
        Authority::Expire.holder(config, caller) is Some <==> (caller matches Some(name)
            && config.expiration_executor_instances.contains(name)),
        Authority::Read.holder(config, caller) is Some <==> (caller matches Some(name) && (
        config.requester_instances.contains(name) || config.decider_instances.contains(name)
            || config.expiration_executor_instances.contains(name))),
        forall|authority: Authority| #[trigger]
            authority.holder(config, caller) is Some ==> authority.holder(config, caller) == caller,
{
}

/// A caller without authority is refused before anything else is looked at: neither
/// the request nor the database counts.
pub proof fn law_authority_is_checked_first<T>(
    config: ConfigModel,
    caller: Option<Seq<char>>,
    held: Option<T>,
    now: int,
    request: RequestRequest,
    decision: DecideRequest,
    cancellation: CancelRequest,
    expiration: ExpireRequest,
    read: ReadRequest,
)
    ensures
        Authority::Request.holder(config, caller) is None ==> {
            &&& operation::started(
                admission::request_admission(config, caller, now, request),
                held,
            ) == Err::<(T, IntentModel), _>(PluginErrorModel::Domain(RequestError::Forbidden))
            &&& operation::started(
                admission::cancel_admission(config, caller, cancellation),
                held,
            ) == Err::<(T, TransitionModel), _>(PluginErrorModel::Domain(CancelError::Forbidden))
        },
        Authority::Decide.holder(config, caller) is None ==> operation::started(
            admission::decide_admission(config, caller, decision),
            held,
        ) == Err::<(T, TransitionModel), _>(PluginErrorModel::Domain(DecideError::Forbidden)),
        Authority::Expire.holder(config, caller) is None ==> operation::started(
            admission::expire_admission(config, caller, expiration),
            held,
        ) == Err::<(T, TransitionModel), _>(PluginErrorModel::Domain(ExpireError::Forbidden)),
        Authority::Read.holder(config, caller) is None ==> operation::started(
            admission::read_admission(config, caller, read),
            held,
        ) == Err::<(T, ReadPlanModel), _>(PluginErrorModel::Domain(ReadError::Forbidden)),
{
}

/// A transition that was admitted is taken in the name of its caller, which holds
/// the authority for it.
pub proof fn law_admitted_transition_is_authorized(
    config: ConfigModel,
    caller: Option<Seq<char>>,
    decision: DecideRequest,
    cancellation: CancelRequest,
    expiration: ExpireRequest,
)
    ensures
        admission::decide_admission(config, caller, decision) matches Ok(transition) ==> {
            &&& transition.decides()
            &&& caller == Some(transition.caller)
            &&& config.decider_instances.contains(transition.caller)
        },
        admission::cancel_admission(config, caller, cancellation) matches Ok(transition) ==> {
            &&& transition.decides()
            &&& caller == Some(transition.caller)
            &&& config.requester_instances.contains(transition.caller)
        },
        admission::expire_admission(config, caller, expiration) matches Ok(transition) ==> {
            &&& transition.decides()
            &&& caller == Some(transition.caller)
            &&& config.expiration_executor_instances.contains(transition.caller)
        },
{
}

/// A reader that is neither a decider nor an expiration executor finds its own
/// requests alone; one that is finds those of every requester.
pub proof fn law_reader_sees_what_it_may(
    config: ConfigModel,
    table: Table,
    reader: Seq<char>,
    request_id: Seq<char>,
)
    ensures
        ({
            let found = table::lookup_of(
                table,
                request_id,
                admission::reader_limit(config, reader),
            );
            let there = table::lookup(table, request_id);
            if config.decider_instances.contains(reader)
                || config.expiration_executor_instances.contains(reader) {
                found == there
            } else if there matches Some(approval) && approval.requester_instance == reader {
                found == there
            } else {
                found is None
            }
        }),
{
}

// Admission.

/// An admitted request is asked for by its caller under well-formed names, and its
/// instants are whole microseconds that can be kept.
pub proof fn law_admitted_request_is_well_formed(
    request: RequestRequest,
    requester: Seq<char>,
    now: int,
    expires: Option<int>,
)
    ensures
        admission::request_verdict(request, requester, now, expires) matches Ok(intent) ==> {
            &&& intent.requester_instance == requester
            &&& identifiers::request_id(intent.request_id)
            &&& identifiers::idempotency_key(intent.idempotency_key)
            &&& identifiers::reference(intent.requested_by)
            &&& identifiers::kind(intent.approval_kind)
            &&& identifiers::kind(intent.subject_kind)
            &&& identifiers::reference(intent.subject_id)
            &&& timestamp::representable(intent.requested_at)
            &&& timestamp::representable(intent.expires_at)
            &&& intent.requested_at == timestamp::whole_micros(intent.requested_at)
            &&& intent.expires_at == timestamp::whole_micros(intent.expires_at)
        },
{
    law_rounding_is_idempotent(now);
    if let Some(nanos) = expires {
        law_rounding_is_idempotent(nanos);
    }
}

/// A request that was answered and that its caller repeats word for word is answered
/// with the approval as it stands by then, whatever has happened since, and though
/// its deadline has passed; the retry creates and changes nothing.
pub proof fn law_repeated_request_is_answered_alike(
    table: Table,
    config: ConfigModel,
    caller: Option<Seq<char>>,
    request: RequestRequest,
    first_now: int,
    operations: Seq<(Operation, int)>,
    second_now: int,
)
    requires
        table::sound(table),
        timestamp::representable(second_now),
        admission::request_admission(config, caller, first_now, request) is Ok,
        table::request_effect(
            table,
            admission::request_admission(config, caller, first_now, request)->Ok_0,
        ).1 is Ok,
        all_decide(operations),
    ensures
        ({
            let first = admission::request_admission(config, caller, first_now, request)->Ok_0;
            let answered = table::request_effect(table, first);
            let later = after_all(answered.0, operations);
            let id = request.request_id@;
            &&& later.contains_key(id)
            &&& later[id].asked_by(first)
            &&& operations.len() == 0 ==> later[id] == answered.1->Ok_0.approval
            &&& admission::request_admission(config, caller, second_now, request) matches Ok(
                second,
            )
            &&& table::request_effect(later, second) == (
                later,
                Ok::<OutcomeModel, DomainFailure>(
                    OutcomeModel { created: false, approval: later[id] },
                ),
            )
        }),
{
    let first = admission::request_admission(config, caller, first_now, request)->Ok_0;
    let after = table::request_effect(table, first).0;
    law_request_keeps_the_table_sound(table, first);
    law_rounding_keeps_order_and_range(second_now, second_now);
    law_request_is_never_rewritten(after, operations, first.request_id);
}

// Instants.

/// Rounding an instant goes back by less than a microsecond, to a whole one.
pub proof fn law_rounding_stays_within_a_microsecond(nanos: int)
    ensures
        timestamp::whole_micros(nanos) <= nanos < timestamp::whole_micros(nanos)
            + timestamp::NANOS_PER_MICRO,
        timestamp::whole_micros(nanos) % (timestamp::NANOS_PER_MICRO as int) == 0,
{
}

/// A rounded instant is not rounded any further.
pub proof fn law_rounding_is_idempotent(nanos: int)
    ensures
        timestamp::whole_micros(timestamp::whole_micros(nanos)) == timestamp::whole_micros(nanos),
{
}

/// Rounding keeps the order of instants, and every instant that can be kept can be
/// kept rounded.
pub proof fn law_rounding_keeps_order_and_range(earlier: int, later: int)
    requires
        earlier <= later,
    ensures
        timestamp::whole_micros(earlier) <= timestamp::whole_micros(later),
        timestamp::representable(earlier) ==> timestamp::representable(
            timestamp::whole_micros(earlier),
        ),
{
}

/// The deadline that a read shows is the one that was asked for, to the microsecond.
pub proof fn law_deadline_is_read_back(
    table: Table,
    request: RequestRequest,
    requester: Seq<char>,
    now: int,
    deadline: int,
    response: ReadResponse,
)
    requires
        admission::request_verdict(request, requester, now, Some(deadline)) is Ok,
        ({
            let intent = admission::request_verdict(
                request,
                requester,
                now,
                Some(deadline),
            )->Ok_0;
            let (after, answer) = table::request_effect(table, intent);
            &&& answer is Ok
            &&& response::answers_read(response, after[intent.request_id])
        }),
    ensures
        timestamp::rfc3339_instant(response.expires_at@) == Some(timestamp::whole_micros(deadline)),
{
}

// Answers.

/// What became of a request on a sound table can always be told to the requester.
pub proof fn law_request_is_always_answered(table: Table, intent: IntentModel)
    requires
        table::sound(table),
    ensures
        table::request_effect(table, intent).1 matches Ok(outcome)
            ==> response::revision_failure(outcome.approval.revision) is None,
{
}

/// A terminal step can always be told to its caller, unless it was taken before the
/// year zero, which cannot be written.
pub proof fn law_terminal_step_is_always_answered(
    table: Table,
    transition: TransitionModel,
    now: int,
)
    requires
        table::sound(table),
        transition.decides(),
        !timestamp::unwritable(now),
    ensures
        table::transition_effect(table, transition, now).1 matches Ok(approval) ==> {
            let expected = match transition.change {
                ChangeModel::Decide { .. } => {
                    approval.status is Approved || approval.status is Rejected
                },
                ChangeModel::Cancel { .. } => approval.status is Cancelled,
                ChangeModel::Expire => approval.status is Expired,
            };
            response::terminal_failure(approval, expected) is None
        },
{
}

/// A request that was made, and ended, no earlier than the year zero can always be
/// read.
pub proof fn law_found_request_is_always_answered(approval: ApprovalModel)
    requires
        approval.consistent(),
        !timestamp::unwritable(approval.requested_at),
        approval.requested_at <= approval.expires_at,
        approval.terminal_at matches Some(at) ==> !timestamp::unwritable(at),
    ensures
        response::read_failure(approval) is None,
{
}

} // verus!
