//! What each operation does, from what a caller sends to what the caller gets, and
//! what the table holds then.

use vstd::prelude::*;

use crate::admission;
use crate::admission::{Authority, ReadPlan};
use crate::capability::{
    CancelError, CancelRequest, CancelResponse, DecideError, DecideRequest, DecideResponse,
    ExpireError, ExpireRequest, ExpireResponse, ReadError, ReadRequest, ReadResponse,
    ReadResponseStatus, RequestError, RequestRequest, RequestResponse, RequestResponseStatus,
};
use crate::config::BusinessApprovalConfig;
use crate::failure::{PluginError, RuntimeFailure};
use crate::flow;
use crate::flow::{
    Change, RequestStateModel, StorageResult, Transition, TransitionStateModel,
};
use crate::identifiers;
use crate::lifecycle;
use crate::lifecycle::{ActivationError, PreparedSlot, SecretsFailure};
use crate::operation;
use crate::operator::{
    BusinessApprovalOperator, BusinessApprovalOperatorError, OperatorWork,
};
use crate::response;
use crate::schema;
use crate::statement::{Reply, ReplyModel, Statement};
use crate::storage::{
    ApprovalModel, ApprovalStatus, IntentModel, RequestIntent, RequestOutcome, StoredApproval,
};
use crate::table;
use crate::table::Table;
use crate::text;
use crate::timestamp;
use crate::values;

verus! {

// What is admitted.

/// Whether a caller is named and on a list.
pub open spec fn on_list(names: Seq<String>, caller: Option<&str>) -> bool {
    caller matches Some(name) && values::listed(names, name@)
}

proof fn lemma_on_list(names: Seq<String>, caller: Option<&str>)
    ensures
        caller matches Some(name) ==> (text::texts(names).contains(name@) <==> on_list(
            names,
            caller,
        )),
{
    if let Some(name) = caller {
        values::lemma_listed(names, name@);
    }
}

/// Whether an instant lies in the years that can be kept.
pub open spec fn keepable(nanos: int) -> bool {
    -377_705_116_800_000_000_000 <= nanos <= 253_402_300_799_999_999_999
}

/// Whether two optional texts are the same.
pub open spec fn same_optional(left: Option<String>, right: Option<String>) -> bool {
    match (left, right) {
        (None, None) => true,
        (Some(one), Some(other)) => one@ == other@,
        _ => false,
    }
}

/// Whether an optional text is one of the table's.
pub open spec fn is_kept(value: Option<String>, kept: Option<Seq<char>>) -> bool {
    match (value, kept) {
        (None, None) => true,
        (Some(text), Some(content)) => text@ == content,
        _ => false,
    }
}

/// Whether a reason that is given is a valid one.
pub open spec fn reasonable(reason: Option<String>) -> bool {
    reason matches Some(given) ==> identifiers::reason(given@)
}

/// A caller holds an authority where it is named and on a list that gives it, and is
/// then the one that holds it.
pub proof fn law_only_a_listed_caller_is_authorized(
    config: &BusinessApprovalConfig,
    caller: Option<&str>,
    authority: Authority,
    holder: Option<&str>,
)
    requires
        call_ensures(admission::authorized_caller, (config, caller, authority), holder),
    ensures
        holder is Some <==> match authority {
            Authority::Request => on_list(config.requester_instances@, caller),
            Authority::Decide => on_list(config.decider_instances@, caller),
            Authority::Expire => on_list(config.expiration_executor_instances@, caller),
            Authority::Read => on_list(config.requester_instances@, caller) || on_list(
                config.decider_instances@,
                caller,
            ) || on_list(config.expiration_executor_instances@, caller),
        },
        holder matches Some(held) ==> caller matches Some(name) && held@ == name@,
{
    lemma_on_list(config.requester_instances@, caller);
    lemma_on_list(config.decider_instances@, caller);
    lemma_on_list(config.expiration_executor_instances@, caller);
}

/// A request is admitted where its caller is a listed requester, the time and the
/// deadline can be kept, and its names are well formed. It is then asked for by that
/// caller, and every part of it is what was sent; the instants are those that were
/// sent, less what exceeds a microsecond.
pub proof fn law_request_is_admitted_as_sent(
    config: &BusinessApprovalConfig,
    caller: Option<&str>,
    now: i128,
    request: RequestRequest,
    result: Result<RequestIntent, PluginError<RequestError>>,
)
    requires
        call_ensures(admission::admit_request, (config, caller, now, request), result),
    ensures
        ({
            let authorized = on_list(config.requester_instances@, caller);
            let deadline = timestamp::rfc3339_instant(request.expires_at@);
            let timed = keepable(now as int) && deadline is Some && keepable(deadline->0);
            let named = identifiers::request_id(request.request_id@)
                && identifiers::idempotency_key(request.idempotency_key@)
                && identifiers::reference(request.requested_by@) && identifiers::kind(
                request.approval_kind@,
            ) && identifiers::kind(request.subject.kind@) && identifiers::reference(
                request.subject.id@,
            );
            &&& result is Ok <==> authorized && timed && named
            &&& result matches Err(error) ==> match error {
                PluginError::Domain(refusal) => if authorized {
                    &&& refusal is InvalidRequest
                    &&& keepable(now as int)
                    &&& deadline is None || keepable(deadline->0) && !named
                } else {
                    refusal is Forbidden
                },
                PluginError::Runtime(failure) => {
                    &&& authorized
                    &&& failure matches RuntimeFailure::Internal { detail }
                    &&& detail@ == "Business Approval: "@
                        + "timestamp is outside PostgreSQL range"@
                    &&& !keepable(now as int) || deadline is Some && !keepable(deadline->0)
                },
            }
            &&& result matches Ok(intent) ==> {
                &&& caller matches Some(name) && intent.requester_instance@ == name@
                &&& intent.request_id@ == request.request_id@
                &&& intent.idempotency_key@ == request.idempotency_key@
                &&& intent.requested_by@ == request.requested_by@
                &&& intent.approval_kind@ == request.approval_kind@
                &&& intent.subject_kind@ == request.subject.kind@
                &&& intent.subject_id@ == request.subject.id@
                &&& intent.requested_at@ == now - now % 1000
                &&& intent.expires_at@ == deadline->0 - deadline->0 % 1000
            }
        }),
{
    lemma_on_list(config.requester_instances@, caller);
}

/// The intent of a request follows the deadline that it is given, as any other part.
pub proof fn law_intent_is_made_of_what_was_sent(
    request: RequestRequest,
    requester: &str,
    now: i128,
    expires: Option<i128>,
    result: Result<RequestIntent, PluginError<RequestError>>,
)
    requires
        call_ensures(admission::request_intent, (request, requester, now, expires), result),
    ensures
        expires is None ==> result is Err,
        result matches Ok(intent) ==> {
            &&& intent.requester_instance@ == requester@
            &&& intent.request_id@ == request.request_id@
            &&& intent.idempotency_key@ == request.idempotency_key@
            &&& intent.requested_by@ == request.requested_by@
            &&& intent.approval_kind@ == request.approval_kind@
            &&& intent.subject_kind@ == request.subject.kind@
            &&& intent.subject_id@ == request.subject.id@
            &&& intent.requested_at@ == now - now % 1000
            &&& expires matches Some(nanos) && intent.expires_at@ == nanos - nanos % 1000
        },
{
}

/// A decision is admitted where its caller is a listed decider and its names are well
/// formed. It is then of the request that was named, by that caller, goes the way
/// that was asked for, and carries the actor, the evidence and the reason that were
/// sent.
pub proof fn law_decision_is_admitted_as_sent(
    config: &BusinessApprovalConfig,
    caller: Option<&str>,
    request: DecideRequest,
    result: Result<Transition, PluginError<DecideError>>,
)
    requires
        call_ensures(admission::admit_decide, (config, caller, request), result),
    ensures
        ({
            let authorized = on_list(config.decider_instances@, caller);
            let named = identifiers::request_id(request.request_id@) && identifiers::reference(
                request.decided_by@,
            ) && identifiers::reference(request.evidence_ref@) && reasonable(request.reason);
            &&& result is Ok <==> authorized && named
            &&& result matches Err(error) ==> error == PluginError::Domain(
                if authorized {
                    DecideError::InvalidRequest
                } else {
                    DecideError::Forbidden
                },
            )
            &&& result matches Ok(transition) ==> {
                &&& caller matches Some(name) && transition.caller@ == name@
                &&& transition.request_id@ == request.request_id@
                &&& transition.change matches Change::Decide {
                    decision,
                    actor,
                    evidence_ref,
                    reason,
                }
                &&& decision is Approved <==> request.decision is Approved
                &&& decision is Rejected <==> request.decision is Rejected
                &&& actor@ == request.decided_by@
                &&& evidence_ref@ == request.evidence_ref@
                &&& same_optional(reason, request.reason)
            }
        }),
{
    lemma_on_list(config.decider_instances@, caller);
}

/// A cancellation is admitted where its caller is a listed requester and its names
/// are well formed. It is then of the request that was named, by that caller, and
/// carries the actor and the reason that were sent.
pub proof fn law_cancellation_is_admitted_as_sent(
    config: &BusinessApprovalConfig,
    caller: Option<&str>,
    request: CancelRequest,
    result: Result<Transition, PluginError<CancelError>>,
)
    requires
        call_ensures(admission::admit_cancel, (config, caller, request), result),
    ensures
        ({
            let authorized = on_list(config.requester_instances@, caller);
            let named = identifiers::request_id(request.request_id@) && identifiers::reference(
                request.cancelled_by@,
            ) && reasonable(request.reason);
            &&& result is Ok <==> authorized && named
            &&& result matches Err(error) ==> error == PluginError::Domain(
                if authorized {
                    CancelError::InvalidRequest
                } else {
                    CancelError::Forbidden
                },
            )
            &&& result matches Ok(transition) ==> {
                &&& caller matches Some(name) && transition.caller@ == name@
                &&& transition.request_id@ == request.request_id@
                &&& transition.change matches Change::Cancel { actor, reason }
                &&& actor@ == request.cancelled_by@
                &&& same_optional(reason, request.reason)
            }
        }),
{
    lemma_on_list(config.requester_instances@, caller);
}

/// An expiration is admitted where its caller is a listed expiration executor and the
/// identifier is well formed. It is then of the request that was named, by that
/// caller.
pub proof fn law_expiration_is_admitted_as_sent(
    config: &BusinessApprovalConfig,
    caller: Option<&str>,
    request: ExpireRequest,
    result: Result<Transition, PluginError<ExpireError>>,
)
    requires
        call_ensures(admission::admit_expire, (config, caller, request), result),
    ensures
        ({
            let authorized = on_list(config.expiration_executor_instances@, caller);
            let named = identifiers::request_id(request.request_id@);
            &&& result is Ok <==> authorized && named
            &&& result matches Err(error) ==> error == PluginError::Domain(
                if authorized {
                    ExpireError::InvalidRequest
                } else {
                    ExpireError::Forbidden
                },
            )
            &&& result matches Ok(transition) ==> {
                &&& caller matches Some(name) && transition.caller@ == name@
                &&& transition.request_id@ == request.request_id@
                &&& transition.change is Expire
            }
        }),
{
    lemma_on_list(config.expiration_executor_instances@, caller);
}

/// A read is admitted where its caller is on any list and the identifier is well
/// formed. It is then of the request that was named, and of every requester for a
/// decider and an expiration executor, and of the caller alone otherwise.
pub proof fn law_read_is_admitted_as_sent(
    config: &BusinessApprovalConfig,
    caller: Option<&str>,
    request: ReadRequest,
    result: Result<ReadPlan, PluginError<ReadError>>,
)
    requires
        call_ensures(admission::admit_read, (config, caller, request), result),
    ensures
        ({
            let everyone = on_list(config.decider_instances@, caller) || on_list(
                config.expiration_executor_instances@,
                caller,
            );
            let authorized = everyone || on_list(config.requester_instances@, caller);
            let named = identifiers::request_id(request.request_id@);
            &&& result is Ok <==> authorized && named
            &&& result matches Err(error) ==> error == PluginError::Domain(
                if authorized {
                    ReadError::InvalidRequest
                } else {
                    ReadError::Forbidden
                },
            )
            &&& result matches Ok(plan) ==> {
                &&& plan.request_id@ == request.request_id@
                &&& if everyone {
                    plan.requester is None
                } else {
                    plan.requester matches Some(own) && caller matches Some(name) && own@ == name@
                }
            }
        }),
{
    lemma_on_list(config.requester_instances@, caller);
    lemma_on_list(config.decider_instances@, caller);
    lemma_on_list(config.expiration_executor_instances@, caller);
}

// What is started.

/// Whether a failure is that of an Instance without a database.
pub open spec fn is_unprepared(failure: RuntimeFailure) -> bool {
    failure matches RuntimeFailure::PluginFailure { detail } && detail@
        == "Business Approval is not prepared"@
}

/// A request starts with what is admitted and with the database that the Instance holds.
/// It is refused as it is in admission, and fails without a database only then.
pub proof fn law_request_starts_with_the_database<T>(
    config: &BusinessApprovalConfig,
    slot: &PreparedSlot<T>,
    caller: Option<&str>,
    now: i128,
    request: RequestRequest,
    admitted: Result<RequestIntent, PluginError<RequestError>>,
    result: Result<(&T, RequestIntent), PluginError<RequestError>>,
)
    requires
        call_ensures(admission::admit_request, (config, caller, now, request), admitted),
        call_ensures(operation::start_request::<T>, (config, slot, caller, now, request), result),
    ensures
        match (admitted, slot.held) {
            (Err(refused), _) => result matches Err(error) && error@ == refused@,
            (Ok(_), None) => result matches Err(PluginError::Runtime(failure)) && is_unprepared(
                failure,
            ),
            (Ok(value), Some(database)) => {
                &&& result matches Ok((found, started))
                &&& *found == database
                &&& started@ == value@
            },
        },
{
}

/// A decision starts with what is admitted and with the database that the Instance holds.
/// It is refused as it is in admission, and fails without a database only then.
pub proof fn law_decide_starts_with_the_database<T>(
    config: &BusinessApprovalConfig,
    slot: &PreparedSlot<T>,
    caller: Option<&str>,
    request: DecideRequest,
    admitted: Result<Transition, PluginError<DecideError>>,
    result: Result<(&T, Transition), PluginError<DecideError>>,
)
    requires
        call_ensures(admission::admit_decide, (config, caller, request), admitted),
        call_ensures(operation::start_decide::<T>, (config, slot, caller, request), result),
    ensures
        match (admitted, slot.held) {
            (Err(refused), _) => result matches Err(error) && error@ == refused@,
            (Ok(_), None) => result matches Err(PluginError::Runtime(failure)) && is_unprepared(
                failure,
            ),
            (Ok(value), Some(database)) => {
                &&& result matches Ok((found, started))
                &&& *found == database
                &&& started@ == value@
            },
        },
{
}

/// A cancellation starts with what is admitted and with the database that the Instance holds.
/// It is refused as it is in admission, and fails without a database only then.
pub proof fn law_cancel_starts_with_the_database<T>(
    config: &BusinessApprovalConfig,
    slot: &PreparedSlot<T>,
    caller: Option<&str>,
    request: CancelRequest,
    admitted: Result<Transition, PluginError<CancelError>>,
    result: Result<(&T, Transition), PluginError<CancelError>>,
)
    requires
        call_ensures(admission::admit_cancel, (config, caller, request), admitted),
        call_ensures(operation::start_cancel::<T>, (config, slot, caller, request), result),
    ensures
        match (admitted, slot.held) {
            (Err(refused), _) => result matches Err(error) && error@ == refused@,
            (Ok(_), None) => result matches Err(PluginError::Runtime(failure)) && is_unprepared(
                failure,
            ),
            (Ok(value), Some(database)) => {
                &&& result matches Ok((found, started))
                &&& *found == database
                &&& started@ == value@
            },
        },
{
}

/// A read starts with what is admitted and with the database that the Instance holds.
/// It is refused as it is in admission, and fails without a database only then.
pub proof fn law_read_starts_with_the_database<T>(
    config: &BusinessApprovalConfig,
    slot: &PreparedSlot<T>,
    caller: Option<&str>,
    request: ReadRequest,
    admitted: Result<ReadPlan, PluginError<ReadError>>,
    result: Result<(&T, ReadPlan), PluginError<ReadError>>,
)
    requires
        call_ensures(admission::admit_read, (config, caller, request), admitted),
        call_ensures(operation::start_read::<T>, (config, slot, caller, request), result),
    ensures
        match (admitted, slot.held) {
            (Err(refused), _) => result matches Err(error) && error@ == refused@,
            (Ok(_), None) => result matches Err(PluginError::Runtime(failure)) && is_unprepared(
                failure,
            ),
            (Ok(value), Some(database)) => {
                &&& result matches Ok((found, started))
                &&& *found == database
                &&& started@ == value@
            },
        },
{
}

/// An expiration starts with what is admitted and with the database that the Instance holds.
/// It is refused as it is in admission, and fails without a database only then.
pub proof fn law_expire_starts_with_the_database<T>(
    config: &BusinessApprovalConfig,
    slot: &PreparedSlot<T>,
    caller: Option<&str>,
    request: ExpireRequest,
    admitted: Result<Transition, PluginError<ExpireError>>,
    result: Result<(&T, Transition), PluginError<ExpireError>>,
)
    requires
        call_ensures(admission::admit_expire, (config, caller, request), admitted),
        call_ensures(operation::start_expire::<T>, (config, slot, caller, request), result),
    ensures
        match (admitted, slot.held) {
            (Err(refused), _) => result matches Err(error) && error@ == refused@,
            (Ok(_), None) => result matches Err(PluginError::Runtime(failure)) && is_unprepared(
                failure,
            ),
            (Ok(value), Some(database)) => {
                &&& result matches Ok((found, started))
                &&& *found == database
                &&& started@ == value@
            },
        },
{
}

/// An activation goes on with the secret that was resolved, where the schema may be
/// owned. A refused secret is reported by its reference, a refused schema by its
/// name, and any other failure is passed on.
pub proof fn law_activation_needs_the_secret_and_the_schema<S, K>(
    config: &BusinessApprovalConfig,
    answer: Result<S, SecretsFailure<K>>,
    result: Result<S, ActivationError<K>>,
)
    requires
        call_ensures(lifecycle::plan_activation::<S, K>, (config, answer), result),
    ensures
        match answer {
            Err(SecretsFailure::Runtime(cause)) => {
                result matches Err(ActivationError::Provider(passed)) && passed == cause
            },
            Err(SecretsFailure::Domain) => {
                &&& result matches Err(ActivationError::Failure(failure))
                &&& failure matches RuntimeFailure::PluginFailure { detail }
                &&& detail@ == "database URL secret `"@ + config.database_url_secret@
                    + "` was rejected"@
            },
            Ok(secret) => if schema::owned_schema_name(config.schema@) {
                result matches Ok(resolved) && resolved == secret
            } else {
                &&& result matches Err(ActivationError::Failure(failure))
                &&& failure matches RuntimeFailure::InvalidResolvedPlan { detail }
                &&& detail@ == "invalid owned schema name `"@ + config.schema@ + "`"@
            },
        },
{
}

/// An operation finds the database that the Instance holds, and fails without one.
pub proof fn law_held_database_is_found<T>(
    slot: PreparedSlot<T>,
    result: Result<&T, RuntimeFailure>,
)
    requires
        call_ensures(PreparedSlot::<T>::prepared, (&slot,), result),
    ensures
        match slot.held {
            Some(database) => result matches Ok(found) && *found == database,
            None => result matches Err(failure) && is_unprepared(failure),
        },
{
}

/// The operator refuses a schema that may not be owned before it connects, and goes on
/// with the work that was asked for otherwise.
pub proof fn law_operator_refuses_a_schema_before_it_connects<K>(
    name: &str,
    setup: Result<OperatorWork, BusinessApprovalOperatorError<K>>,
    upgrade: Result<OperatorWork, BusinessApprovalOperatorError<K>>,
)
    requires
        call_ensures(BusinessApprovalOperator::setup::<K>, (name,), setup),
        call_ensures(BusinessApprovalOperator::upgrade::<K>, (name,), upgrade),
    ensures
        if schema::owned_schema_name(name@) {
            setup == Ok::<_, BusinessApprovalOperatorError<K>>(OperatorWork::Setup) && upgrade
                == Ok::<_, BusinessApprovalOperatorError<K>>(OperatorWork::Upgrade)
        } else {
            &&& setup matches Err(BusinessApprovalOperatorError::Plan(refused))
            &&& refused.schema@ == name@
            &&& upgrade matches Err(BusinessApprovalOperatorError::Plan(refused))
            &&& refused.schema@ == name@
        },
{
}

// What is answered.

/// Whether the status in the answer to a request is that of the approval.
pub open spec fn same_request_status(told: RequestResponseStatus, status: ApprovalStatus) -> bool {
    &&& told is Pending <==> status is Pending
    &&& told is Approved <==> status is Approved
    &&& told is Rejected <==> status is Rejected
    &&& told is Cancelled <==> status is Cancelled
    &&& told is Expired <==> status is Expired
}

/// Whether the status in the answer to a read is that of the approval.
pub open spec fn same_read_status(told: ReadResponseStatus, status: ApprovalStatus) -> bool {
    &&& told is Pending <==> status is Pending
    &&& told is Approved <==> status is Approved
    &&& told is Rejected <==> status is Rejected
    &&& told is Cancelled <==> status is Cancelled
    &&& told is Expired <==> status is Expired
}

/// The status that answers a request is that of the approval, variant by variant.
pub proof fn law_requests_are_told_the_status(status: ApprovalStatus, told: RequestResponseStatus)
    requires
        call_ensures(response::request_status, (status,), told),
    ensures
        same_request_status(told, status),
{
}

/// Whether an instant can be written.
pub open spec fn writable(nanos: int) -> bool {
    nanos >= -62_167_219_200_000_000_000
}

/// Whether a terminal approval can be told: it has a revision, and names the Instance
/// and the writable time of its end.
pub open spec fn tellable(approval: StoredApproval) -> bool {
    &&& approval.revision >= 1
    &&& approval.terminal_caller_instance is Some
    &&& approval.terminal_at matches Some(at) && writable(at@)
}

proof fn lemma_numeral(revision: int)
    ensures
        revision >= 1 ==> values::numeral(text::decimal(revision as nat)) == revision,
{
    if revision >= 1 {
        values::lemma_decimal(revision as nat);
    }
}

/// What is wrong with a terminal approval that cannot be told: the first of its
/// status, its revision, its Instance and its time.
pub open spec fn terminal_fault(approval: StoredApproval, expected: bool) -> Seq<char> {
    if expected && approval.revision < 1 {
        "stored revision is invalid"@
    } else if !expected || approval.terminal_caller_instance is None || approval.terminal_at
        is None {
        "stored terminal evidence is inconsistent"@
    } else {
        "stored timestamp cannot be formatted"@
    }
}

/// Whether an answer tells of an approval that was decided.
pub open spec fn tells_decide(told: DecideResponse, approval: StoredApproval) -> bool {
    &&& told.request_id@ == approval.request_id@
    &&& told.status is Approved <==> approval.status is Approved
    &&& told.status is Rejected <==> approval.status is Rejected
    &&& values::numeral(told.revision@) == approval.revision
    &&& approval.terminal_caller_instance matches Some(caller) && told.terminal_caller_instance@
        == caller@
    &&& same_optional(told.terminal_actor, approval.terminal_actor)
    &&& same_optional(told.evidence_ref, approval.evidence_ref)
    &&& same_optional(told.reason, approval.reason)
    &&& approval.terminal_at matches Some(at) && timestamp::rfc3339_instant(told.terminal_at@)
        == Some(at@)
}

/// An approval is told as decided where it is and can be told, with all of its
/// evidence.
pub proof fn law_approval_is_told_as_decide(
    approval: StoredApproval,
    result: Result<DecideResponse, PluginError<DecideError>>,
)
    requires
        call_ensures(response::decide_response, (approval,), result),
    ensures
        result is Ok <==> (approval.status is Approved || approval.status is Rejected) && tellable(approval),
        result matches Ok(told) ==> tells_decide(told, approval),
        result matches Err(error) ==> values::is_internal(
            error,
            terminal_fault(approval, approval.status is Approved || approval.status is Rejected),
        ),
{
    lemma_numeral(approval.revision as int);
}

/// Whether an answer tells of an approval that was cancelled.
pub open spec fn tells_cancel(told: CancelResponse, approval: StoredApproval) -> bool {
    &&& told.request_id@ == approval.request_id@
    &&& told.status is Cancelled && approval.status is Cancelled
    &&& values::numeral(told.revision@) == approval.revision
    &&& approval.terminal_caller_instance matches Some(caller) && told.terminal_caller_instance@
        == caller@
    &&& same_optional(told.terminal_actor, approval.terminal_actor)
    &&& same_optional(told.evidence_ref, approval.evidence_ref)
    &&& same_optional(told.reason, approval.reason)
    &&& approval.terminal_at matches Some(at) && timestamp::rfc3339_instant(told.terminal_at@)
        == Some(at@)
}

/// An approval is told as cancelled where it is and can be told, with all of its
/// evidence.
pub proof fn law_approval_is_told_as_cancel(
    approval: StoredApproval,
    result: Result<CancelResponse, PluginError<CancelError>>,
)
    requires
        call_ensures(response::cancel_response, (approval,), result),
    ensures
        result is Ok <==> (approval.status is Cancelled) && tellable(approval),
        result matches Ok(told) ==> tells_cancel(told, approval),
        result matches Err(error) ==> values::is_internal(
            error,
            terminal_fault(approval, approval.status is Cancelled),
        ),
{
    lemma_numeral(approval.revision as int);
}

/// Whether an answer tells of an approval that was expired.
pub open spec fn tells_expire(told: ExpireResponse, approval: StoredApproval) -> bool {
    &&& told.request_id@ == approval.request_id@
    &&& told.status is Expired && approval.status is Expired
    &&& values::numeral(told.revision@) == approval.revision
    &&& approval.terminal_caller_instance matches Some(caller) && told.terminal_caller_instance@
        == caller@
    &&& same_optional(told.terminal_actor, approval.terminal_actor)
    &&& same_optional(told.evidence_ref, approval.evidence_ref)
    &&& same_optional(told.reason, approval.reason)
    &&& approval.terminal_at matches Some(at) && timestamp::rfc3339_instant(told.terminal_at@)
        == Some(at@)
}

/// An approval is told as expired where it is and can be told, with all of its
/// evidence.
pub proof fn law_approval_is_told_as_expire(
    approval: StoredApproval,
    result: Result<ExpireResponse, PluginError<ExpireError>>,
)
    requires
        call_ensures(response::expire_response, (approval,), result),
    ensures
        result is Ok <==> (approval.status is Expired) && tellable(approval),
        result matches Ok(told) ==> tells_expire(told, approval),
        result matches Err(error) ==> values::is_internal(
            error,
            terminal_fault(approval, approval.status is Expired),
        ),
{
    lemma_numeral(approval.revision as int);
}

/// Whether an answer to a read tells all of an approval.
pub open spec fn tells_read(told: ReadResponse, approval: StoredApproval) -> bool {
    &&& told.request_id@ == approval.request_id@
    &&& told.idempotency_key@ == approval.idempotency_key@
    &&& told.approval_kind@ == approval.approval_kind@
    &&& told.subject.kind@ == approval.subject_kind@
    &&& told.subject.id@ == approval.subject_id@
    &&& told.requester_instance@ == approval.requester_instance@
    &&& told.requested_by@ == approval.requested_by@
    &&& same_read_status(told.status, approval.status)
    &&& values::numeral(told.revision@) == approval.revision
    &&& timestamp::rfc3339_instant(told.requested_at@) == Some(approval.requested_at@)
    &&& timestamp::rfc3339_instant(told.expires_at@) == Some(approval.expires_at@)
    &&& same_optional(told.terminal_caller_instance, approval.terminal_caller_instance)
    &&& same_optional(told.terminal_actor, approval.terminal_actor)
    &&& same_optional(told.evidence_ref, approval.evidence_ref)
    &&& same_optional(told.reason, approval.reason)
    &&& match (told.terminal_at, approval.terminal_at) {
        (None, None) => true,
        (Some(written), Some(at)) => timestamp::rfc3339_instant(written@) == Some(at@),
        _ => false,
    }
}

/// An approval is read where its revision and its instants can be written. The answer
/// has all of it, and its status variant by variant.
pub proof fn law_approval_is_read_as_it_stands(
    approval: StoredApproval,
    result: Result<ReadResponse, PluginError<ReadError>>,
)
    requires
        call_ensures(response::read_response, (approval,), result),
    ensures
        result is Ok <==> {
            &&& approval.revision >= 1
            &&& writable(approval.requested_at@)
            &&& writable(approval.expires_at@)
            &&& approval.terminal_at matches Some(at) ==> writable(at@)
        },
        result matches Ok(told) ==> tells_read(told, approval),
        result matches Err(error) ==> values::is_internal(
            error,
            if approval.revision < 1 {
                "stored revision is invalid"@
            } else {
                "stored timestamp cannot be formatted"@
            },
        ),
{
    lemma_numeral(approval.revision as int);
}

/// A request is answered with its approval; a conflict is told as one, and any other
/// refusal as an invalid request.
pub proof fn law_request_is_answered_with_what_came_of_it(
    ended: StorageResult<RequestOutcome>,
    answer: Result<RequestResponse, PluginError<RequestError>>,
)
    requires
        call_ensures(response::answer_request, (ended,), answer),
    ensures
        match ended {
            Err(_) => answer matches Err(PluginError::Runtime(failure)) && failure is PluginFailure,
            Ok(Err(refusal)) => answer matches Err(PluginError::Domain(told)) && told == (
            if refusal is IdempotencyConflict {
                RequestError::IdempotencyConflict
            } else {
                RequestError::InvalidRequest
            }),
            Ok(Ok(outcome)) => {
                &&& answer is Ok <==> outcome.approval.revision >= 1
                &&& answer matches Ok(told) ==> {
                    &&& told.created == outcome.created
                    &&& told.request_id@ == outcome.approval.request_id@
                    &&& same_request_status(told.status, outcome.approval.status)
                    &&& values::numeral(told.revision@) == outcome.approval.revision
                }
            },
        },
{
    if let Ok(Ok(outcome)) = ended {
        lemma_numeral(outcome.approval.revision as int);
    }
}

/// A decision is answered with the approval that it made, and a refusal is told as what it
/// is.
pub proof fn law_decide_is_answered_with_what_came_of_it(
    ended: StorageResult<StoredApproval>,
    answer: Result<DecideResponse, PluginError<DecideError>>,
)
    requires
        call_ensures(response::answer_decide, (ended,), answer),
    ensures
        match ended {
            Err(_) => answer matches Err(PluginError::Runtime(failure)) && failure is PluginFailure,
            Ok(Err(refusal)) => {
                &&& answer matches Err(PluginError::Domain(told))
                &&& told is RequestNotFound <==> refusal is RequestNotFound
                &&& told is AlreadyTerminal <==> refusal is AlreadyTerminal
                &&& !(told is Forbidden)
            },
            Ok(Ok(approval)) => {
                &&& answer is Ok <==> (approval.status is Approved || approval.status is Rejected) && tellable(approval)
                &&& answer matches Ok(told) ==> tells_decide(told, approval)
            },
        },
{
    if let Ok(Ok(approval)) = ended {
        lemma_numeral(approval.revision as int);
    }
}

/// A cancellation is answered with the approval that it made, and a refusal is told as what it
/// is.
pub proof fn law_cancel_is_answered_with_what_came_of_it(
    ended: StorageResult<StoredApproval>,
    answer: Result<CancelResponse, PluginError<CancelError>>,
)
    requires
        call_ensures(response::answer_cancel, (ended,), answer),
    ensures
        match ended {
            Err(_) => answer matches Err(PluginError::Runtime(failure)) && failure is PluginFailure,
            Ok(Err(refusal)) => {
                &&& answer matches Err(PluginError::Domain(told))
                &&& told is RequestNotFound <==> refusal is RequestNotFound
                &&& told is AlreadyTerminal <==> refusal is AlreadyTerminal
                &&& told is NotRequester <==> refusal is NotRequester
                &&& !(told is Forbidden)
            },
            Ok(Ok(approval)) => {
                &&& answer is Ok <==> (approval.status is Cancelled) && tellable(approval)
                &&& answer matches Ok(told) ==> tells_cancel(told, approval)
            },
        },
{
    if let Ok(Ok(approval)) = ended {
        lemma_numeral(approval.revision as int);
    }
}

/// An expiration is answered with the approval that it made, and a refusal is told as what it
/// is.
pub proof fn law_expire_is_answered_with_what_came_of_it(
    ended: StorageResult<StoredApproval>,
    answer: Result<ExpireResponse, PluginError<ExpireError>>,
)
    requires
        call_ensures(response::answer_expire, (ended,), answer),
    ensures
        match ended {
            Err(_) => answer matches Err(PluginError::Runtime(failure)) && failure is PluginFailure,
            Ok(Err(refusal)) => {
                &&& answer matches Err(PluginError::Domain(told))
                &&& told is RequestNotFound <==> refusal is RequestNotFound
                &&& told is AlreadyTerminal <==> refusal is AlreadyTerminal
                &&& told is NotDue <==> refusal is NotDue
                &&& !(told is Forbidden)
            },
            Ok(Ok(approval)) => {
                &&& answer is Ok <==> (approval.status is Expired) && tellable(approval)
                &&& answer matches Ok(told) ==> tells_expire(told, approval)
            },
        },
{
    if let Ok(Ok(approval)) = ended {
        lemma_numeral(approval.revision as int);
    }
}

// From the caller to the table and back.

/// Whether neither an identifier nor a requester's key is taken.
pub open spec fn free(
    kept: Table,
    request_id: Seq<char>,
    requester: Seq<char>,
    key: Seq<char>,
) -> bool {
    forall|id: Seq<char>| #[trigger]
        kept.contains_key(id) ==> id != request_id && !(kept[id].requester_instance == requester
            && kept[id].idempotency_key == key)
}

/// Where neither the identifier nor the requester's key is taken, an intent whose
/// deadline lies after the time of asking, by however much, creates its request: it
/// is pending at revision one, is what was asked for, and has no evidence yet.
pub proof fn law_free_intent_creates_its_request(kept: Table, intent: IntentModel)
    requires
        table::sound(kept),
        intent.requested_at < intent.expires_at,
        free(kept, intent.request_id, intent.requester_instance, intent.idempotency_key),
    ensures
        ({
            let (after, result) = table::request_effect(kept, intent);
            &&& result matches Ok(outcome)
            &&& outcome.created
            &&& after == kept.insert(intent.request_id, outcome.approval)
            &&& outcome.approval == (ApprovalModel {
                request_id: intent.request_id,
                requester_instance: intent.requester_instance,
                idempotency_key: intent.idempotency_key,
                requested_by: intent.requested_by,
                approval_kind: intent.approval_kind,
                subject_kind: intent.subject_kind,
                subject_id: intent.subject_id,
                status: ApprovalStatus::Pending,
                revision: 1,
                requested_at: intent.requested_at,
                expires_at: intent.expires_at,
                terminal_caller_instance: None,
                terminal_actor: None,
                evidence_ref: None,
                reason: None,
                terminal_at: None,
            })
        }),
{
}

/// Whether a kept request is the one that a caller sends, with a deadline read from
/// it.
pub open spec fn is_sent(
    found: ApprovalModel,
    request: RequestRequest,
    requester: Seq<char>,
    deadline: int,
) -> bool {
    &&& found.request_id == request.request_id@
    &&& found.requester_instance == requester
    &&& found.idempotency_key == request.idempotency_key@
    &&& found.requested_by == request.requested_by@
    &&& found.approval_kind == request.approval_kind@
    &&& found.subject_kind == request.subject.kind@
    &&& found.subject_id == request.subject.id@
    &&& found.expires_at == deadline - deadline % 1000
}

/// What a request does that was admitted and that no failing command stopped.
///
/// Where the very request is kept already, it is answered as it stands, whenever that
/// is, and nothing changes. Otherwise a request whose deadline has passed is invalid.
/// Before its deadline it is created as pending at revision one where it is free, and
/// a conflict where it is not.
pub proof fn law_request_creates_or_returns_the_approval(
    kept: Table,
    config: &BusinessApprovalConfig,
    caller: &str,
    now: i128,
    request: RequestRequest,
    intent: RequestIntent,
    clock: int,
    given: Seq<ReplyModel>,
    took: bool,
    after: Table,
    ended: StorageResult<RequestOutcome>,
    answer: Result<RequestResponse, PluginError<RequestError>>,
)
    requires
        table::sound(kept),
        call_ensures(
            admission::admit_request,
            (config, Some(caller), now, request),
            Ok::<_, PluginError<RequestError>>(intent),
        ),
        table::undisturbed(given),
        table::run_request(
            RequestStateModel::Beginning,
            intent@,
            clock,
            kept,
            kept,
            given,
            took,
        ) == Some((after, flow::storage_result(ended))),
        call_ensures(response::answer_request, (ended,), answer),
    ensures
        ({
            let id = request.request_id@;
            let deadline = timestamp::rfc3339_instant(request.expires_at@)->0;
            let ahead = now as int / 1000 < deadline / 1000;
            if kept.contains_key(id) && is_sent(kept[id], request, caller@, deadline) {
                &&& after == kept
                &&& answer matches Ok(told)
                &&& !told.created
                &&& told.request_id@ == id
                &&& same_request_status(told.status, kept[id].status)
                &&& values::numeral(told.revision@) == kept[id].revision
            } else if !ahead {
                &&& after == kept
                &&& answer == Err::<RequestResponse, _>(
                    PluginError::Domain(RequestError::InvalidRequest),
                )
            } else if free(kept, id, caller@, request.idempotency_key@) {
                &&& after == kept.insert(id, after[id])
                &&& is_sent(after[id], request, caller@, deadline)
                &&& after[id].status is Pending
                &&& after[id].revision == 1
                &&& after[id].requested_at == now - now % 1000
                &&& after[id].terminal_caller_instance is None
                &&& after[id].terminal_actor is None
                &&& after[id].evidence_ref is None
                &&& after[id].reason is None
                &&& after[id].terminal_at is None
                &&& answer matches Ok(told)
                &&& told.created
                &&& told.request_id@ == id
                &&& told.status is Pending
                &&& told.revision@ == "1"@
            } else {
                &&& after == kept
                &&& answer == Err::<RequestResponse, _>(
                    PluginError::Domain(RequestError::IdempotencyConflict),
                )
            }
        }),
{
    let id = request.request_id@;
    table::law_request_ends_in_its_effect(kept, intent@, clock, given, took);
    values::lemma_first_revisions();
    lemma_numeral(1);
    lemma_numeral(2);
    if kept.contains_key(id) {
        assert(kept[id].request_id == id);
    }
    if !free(kept, id, caller@, request.idempotency_key@) {
        let other = choose|other: Seq<char>| #[trigger]
            kept.contains_key(other) && !(other != id && !(kept[other].requester_instance
                == caller@ && kept[other].idempotency_key == request.idempotency_key@));
        assert(kept[other].request_id == other);
        assert(table::taken(kept, intent@));
    }
}

/// Whether a request is as it was but for its status and the evidence of its end.
pub open spec fn ended_from(later: ApprovalModel, earlier: ApprovalModel) -> bool {
    &&& later.request_id == earlier.request_id
    &&& later.requester_instance == earlier.requester_instance
    &&& later.idempotency_key == earlier.idempotency_key
    &&& later.requested_by == earlier.requested_by
    &&& later.approval_kind == earlier.approval_kind
    &&& later.subject_kind == earlier.subject_kind
    &&& later.subject_id == earlier.subject_id
    &&& later.requested_at == earlier.requested_at
    &&& later.expires_at == earlier.expires_at
    &&& later.revision == 2
}

/// What a decision does that was admitted and that no failing command stopped: it ends
/// the pending request that was named, as approved where approval was asked for and as
/// rejected where rejection was, with the caller, the actor, the evidence, the reason
/// and the time, and tells all of it.
pub proof fn law_decision_ends_the_request_as_asked(
    kept: Table,
    config: &BusinessApprovalConfig,
    caller: &str,
    request: DecideRequest,
    transition: Transition,
    clock: int,
    given: Seq<ReplyModel>,
    took: bool,
    after: Table,
    ended: StorageResult<StoredApproval>,
    answer: Result<DecideResponse, PluginError<DecideError>>,
)
    requires
        table::sound(kept),
        writable(clock),
        call_ensures(
            admission::admit_decide,
            (config, Some(caller), request),
            Ok::<_, PluginError<DecideError>>(transition),
        ),
        table::undisturbed(given),
        table::run_transition(
            TransitionStateModel::Beginning,
            transition@,
            clock,
            kept,
            kept,
            given,
            took,
        ) == Some((after, flow::storage_result(ended))),
        call_ensures(response::answer_decide, (ended,), answer),
    ensures
        ({
            let id = request.request_id@;
            if !kept.contains_key(id) {
                &&& after == kept
                &&& answer == Err::<DecideResponse, _>(PluginError::Domain(DecideError::RequestNotFound))
            } else if !(kept[id].status is Pending) {
                &&& after == kept
                &&& answer == Err::<DecideResponse, _>(PluginError::Domain(DecideError::AlreadyTerminal))
            } else {
                &&& after == kept.insert(id, after[id])
                &&& ended_from(after[id], kept[id])
                &&& after[id].terminal_caller_instance == Some(caller@)
                &&& after[id].terminal_at == Some(clock)
                &&& after[id].status is Approved <==> request.decision is Approved
                &&& after[id].status is Rejected <==> request.decision is Rejected
                &&& after[id].terminal_actor == Some(request.decided_by@)
                &&& after[id].evidence_ref == Some(request.evidence_ref@)
                &&& is_kept(request.reason, after[id].reason)
                &&& answer matches Ok(told)
                &&& told.request_id@ == id
                &&& told.revision@ == "2"@
                &&& told.terminal_caller_instance@ == caller@
                &&& timestamp::rfc3339_instant(told.terminal_at@) == Some(clock)
                &&& told.status is Approved <==> request.decision is Approved
                &&& told.status is Rejected <==> request.decision is Rejected
                &&& told.terminal_actor matches Some(actor) && actor@ == request.decided_by@
                &&& told.evidence_ref matches Some(evidence) && evidence@ == request.evidence_ref@
                &&& same_optional(told.reason, request.reason)
            }
        }),
{
    table::law_transition_ends_in_its_effect(kept, transition@, clock, given, took);
    values::lemma_first_revisions();
}

/// What a cancellation does that was admitted and that no failing command stopped: it
/// ends the pending request that was named, where it is the caller's own, with the
/// caller, the actor, the reason and the time, and tells all of it. Another's request
/// stays as it is.
pub proof fn law_cancellation_ends_the_requesters_own(
    kept: Table,
    config: &BusinessApprovalConfig,
    caller: &str,
    request: CancelRequest,
    transition: Transition,
    clock: int,
    given: Seq<ReplyModel>,
    took: bool,
    after: Table,
    ended: StorageResult<StoredApproval>,
    answer: Result<CancelResponse, PluginError<CancelError>>,
)
    requires
        table::sound(kept),
        writable(clock),
        call_ensures(
            admission::admit_cancel,
            (config, Some(caller), request),
            Ok::<_, PluginError<CancelError>>(transition),
        ),
        table::undisturbed(given),
        table::run_transition(
            TransitionStateModel::Beginning,
            transition@,
            clock,
            kept,
            kept,
            given,
            took,
        ) == Some((after, flow::storage_result(ended))),
        call_ensures(response::answer_cancel, (ended,), answer),
    ensures
        ({
            let id = request.request_id@;
            if !kept.contains_key(id) {
                &&& after == kept
                &&& answer == Err::<CancelResponse, _>(PluginError::Domain(CancelError::RequestNotFound))
            } else if kept[id].requester_instance != caller@ {
                &&& after == kept
                &&& answer == Err::<CancelResponse, _>(
                    PluginError::Domain(CancelError::NotRequester),
                )
            } else if !(kept[id].status is Pending) {
                &&& after == kept
                &&& answer == Err::<CancelResponse, _>(PluginError::Domain(CancelError::AlreadyTerminal))
            } else {
                &&& after == kept.insert(id, after[id])
                &&& ended_from(after[id], kept[id])
                &&& after[id].terminal_caller_instance == Some(caller@)
                &&& after[id].terminal_at == Some(clock)
                &&& after[id].status is Cancelled
                &&& after[id].terminal_actor == Some(request.cancelled_by@)
                &&& after[id].evidence_ref is None
                &&& is_kept(request.reason, after[id].reason)
                &&& answer matches Ok(told)
                &&& told.request_id@ == id
                &&& told.revision@ == "2"@
                &&& told.terminal_caller_instance@ == caller@
                &&& timestamp::rfc3339_instant(told.terminal_at@) == Some(clock)
                &&& told.status is Cancelled
                &&& told.terminal_actor matches Some(actor) && actor@ == request.cancelled_by@
                &&& told.evidence_ref is None
                &&& same_optional(told.reason, request.reason)
            }
        }),
{
    table::law_transition_ends_in_its_effect(kept, transition@, clock, given, took);
    values::lemma_first_revisions();
}

/// What an expiration does that was admitted and that no failing command stopped: it
/// ends the pending request that was named from its deadline on, with the caller and
/// the time, and tells all of it. Before the deadline the request stays as it is.
pub proof fn law_expiration_ends_a_due_request(
    kept: Table,
    config: &BusinessApprovalConfig,
    caller: &str,
    request: ExpireRequest,
    transition: Transition,
    clock: int,
    given: Seq<ReplyModel>,
    took: bool,
    after: Table,
    ended: StorageResult<StoredApproval>,
    answer: Result<ExpireResponse, PluginError<ExpireError>>,
)
    requires
        table::sound(kept),
        writable(clock),
        call_ensures(
            admission::admit_expire,
            (config, Some(caller), request),
            Ok::<_, PluginError<ExpireError>>(transition),
        ),
        table::undisturbed(given),
        table::run_transition(
            TransitionStateModel::Beginning,
            transition@,
            clock,
            kept,
            kept,
            given,
            took,
        ) == Some((after, flow::storage_result(ended))),
        call_ensures(response::answer_expire, (ended,), answer),
    ensures
        ({
            let id = request.request_id@;
            if !kept.contains_key(id) {
                &&& after == kept
                &&& answer == Err::<ExpireResponse, _>(PluginError::Domain(ExpireError::RequestNotFound))
            } else if !(kept[id].status is Pending) {
                &&& after == kept
                &&& answer == Err::<ExpireResponse, _>(PluginError::Domain(ExpireError::AlreadyTerminal))
            } else if clock < kept[id].expires_at {
                &&& after == kept
                &&& answer == Err::<ExpireResponse, _>(PluginError::Domain(ExpireError::NotDue))
            } else {
                &&& after == kept.insert(id, after[id])
                &&& ended_from(after[id], kept[id])
                &&& after[id].terminal_caller_instance == Some(caller@)
                &&& after[id].terminal_at == Some(clock)
                &&& after[id].status is Expired
                &&& after[id].terminal_actor is None
                &&& after[id].evidence_ref is None
                &&& after[id].reason is None
                &&& answer matches Ok(told)
                &&& told.request_id@ == id
                &&& told.revision@ == "2"@
                &&& told.terminal_caller_instance@ == caller@
                &&& timestamp::rfc3339_instant(told.terminal_at@) == Some(clock)
                &&& told.status is Expired
                &&& told.terminal_actor is None
                &&& told.evidence_ref is None
                &&& told.reason is None
            }
        }),
{
    table::law_transition_ends_in_its_effect(kept, transition@, clock, given, took);
    values::lemma_first_revisions();
}

/// What a read does that was admitted: it tells all of the request that was named, as
/// it stands, to its requester, to a decider and to an expiration executor. For
/// anyone else, and where there is none, there is no such request.
pub proof fn law_read_tells_the_request_as_it_stands(
    kept: Table,
    config: &BusinessApprovalConfig,
    caller: &str,
    request: ReadRequest,
    plan: ReadPlan,
    request_id: &str,
    requester: Option<&str>,
    statement: Statement<'_>,
    clock: int,
    reply: Reply,
    answer: Result<ReadResponse, PluginError<ReadError>>,
)
    requires
        table::sound(kept),
        call_ensures(
            admission::admit_read,
            (config, Some(caller), request),
            Ok::<_, PluginError<ReadError>>(plan),
        ),
        request_id@ == plan.request_id@,
        match (requester, plan.requester) {
            (None, None) => true,
            (Some(one), Some(other)) => one@ == other@,
            _ => false,
        },
        call_ensures(flow::read, (request_id, requester), statement),
        table::replies(kept, clock, statement@, reply@),
        call_ensures(response::answer_read, (reply,), answer),
    ensures
        ({
            let id = request.request_id@;
            let everyone = values::listed(config.decider_instances@, caller@) || values::listed(
                config.expiration_executor_instances@,
                caller@,
            );
            if kept.contains_key(id) && (everyone || kept[id].requester_instance == caller@) {
                let row = kept[id];
                &&& answer is Ok <==> {
                    &&& writable(row.requested_at)
                    &&& writable(row.expires_at)
                    &&& row.terminal_at matches Some(at) ==> writable(at)
                }
                &&& answer matches Ok(told) ==> {
                    &&& told.request_id@ == id
                    &&& told.idempotency_key@ == row.idempotency_key
                    &&& told.approval_kind@ == row.approval_kind
                    &&& told.subject.kind@ == row.subject_kind
                    &&& told.subject.id@ == row.subject_id
                    &&& told.requester_instance@ == row.requester_instance
                    &&& told.requested_by@ == row.requested_by
                    &&& same_read_status(told.status, row.status)
                    &&& told.revision@ == if row.status is Pending {
                        "1"@
                    } else {
                        "2"@
                    }
                    &&& timestamp::rfc3339_instant(told.requested_at@) == Some(row.requested_at)
                    &&& timestamp::rfc3339_instant(told.expires_at@) == Some(row.expires_at)
                    &&& is_kept(told.terminal_caller_instance, row.terminal_caller_instance)
                    &&& is_kept(told.terminal_actor, row.terminal_actor)
                    &&& is_kept(told.evidence_ref, row.evidence_ref)
                    &&& is_kept(told.reason, row.reason)
                    &&& match (told.terminal_at, row.terminal_at) {
                        (None, None) => true,
                        (Some(written), Some(at)) => timestamp::rfc3339_instant(written@) == Some(
                            at,
                        ),
                        _ => false,
                    }
                }
            } else {
                answer == Err::<ReadResponse, _>(PluginError::Domain(ReadError::RequestNotFound))
            }
        }),
{
    lemma_on_list(config.requester_instances@, Some(caller));
    lemma_on_list(config.decider_instances@, Some(caller));
    lemma_on_list(config.expiration_executor_instances@, Some(caller));
    values::lemma_first_revisions();
    if kept.contains_key(request.request_id@) {
        table::law_row_is_read_back(kept[request.request_id@]);
    }
}

} // verus!
