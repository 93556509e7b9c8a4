//! What has to hold before an operation reaches the database.

use vstd::prelude::*;

use crate::capability::{
    CancelError, CancelRequest, DecideError, DecideRequest, DecideRequestDecision, ExpireError,
    ExpireRequest, ReadError, ReadRequest, RequestError, RequestRequest,
};
use crate::config::{BusinessApprovalConfig, ConfigModel};
use crate::failure;
use crate::failure::{PluginError, PluginErrorModel};
use crate::flow;
use crate::flow::{ChangeModel, Transition, TransitionModel};
use crate::identifiers;
use crate::storage::{ApprovalStatus, IntentModel, RequestIntent};
use crate::text;
use crate::timestamp;
use crate::timestamp::Timestamp;

verus! {

/// The authority that an operation asks of its caller.
#[derive(Clone, Copy, Debug, PartialEq, Eq, Structural)]
pub enum Authority {
    Request,
    Decide,
    Expire,
    Read,
}

impl Authority {
    /// Whether the configuration grants the authority to an Instance.
    pub open spec fn granted(self, config: ConfigModel, caller: Seq<char>) -> bool {
        match self {
            Authority::Request => config.may_request(caller),
            Authority::Decide => config.may_decide(caller),
            Authority::Expire => config.may_expire(caller),
            Authority::Read => config.may_read(caller),
        }
    }

    /// The caller with the authority, if it is one: a caller that is not named has
    /// none.
    pub open spec fn holder(self, config: ConfigModel, caller: Option<Seq<char>>) -> Option<
        Seq<char>,
    > {
        match caller {
            Some(name) => if self.granted(config, name) {
                Some(name)
            } else {
                None
            },
            None => None,
        }
    }
}

/// The caller, where the configuration grants it an authority.
pub fn authorized_caller<'a>(
    config: &BusinessApprovalConfig,
    caller: Option<&'a str>,
    authority: Authority,
) -> (holder: Option<&'a str>)
    ensures
        text::optional_str(holder) == authority.holder(config@, text::optional_str(caller)),
{
    match caller {
        None => None,
        Some(name) => {
            let granted = match authority {
                Authority::Request => config.can_request(name),
                Authority::Decide => config.can_decide(name),
                Authority::Expire => config.can_expire(name),
                Authority::Read => config.can_read(name),
            };
            if granted {
                Some(name)
            } else {
                None
            }
        },
    }
}

// Requests.

/// Whether the names in a request are spelled as they must be.
pub open spec fn request_named(request: RequestRequest) -> bool {
    &&& identifiers::request_id(request.request_id@)
    &&& identifiers::idempotency_key(request.idempotency_key@)
    &&& identifiers::reference(request.requested_by@)
    &&& identifiers::kind(request.approval_kind@)
    &&& identifiers::kind(request.subject.kind@)
    &&& identifiers::reference(request.subject.id@)
}

/// The intent of a request that a requester made at one instant, to expire at
/// another.
pub open spec fn intent_of(
    request: RequestRequest,
    requester: Seq<char>,
    requested_at: int,
    expires_at: int,
) -> IntentModel {
    IntentModel {
        request_id: request.request_id@,
        requester_instance: requester,
        idempotency_key: request.idempotency_key@,
        requested_by: request.requested_by@,
        approval_kind: request.approval_kind@,
        subject_kind: request.subject.kind@,
        subject_id: request.subject.id@,
        requested_at,
        expires_at,
    }
}

/// What becomes of a request by a requester, made at one instant, to expire at
/// another, where that one could be read. The instants must be ones that can be
/// kept, and the names spelled as they must be. Which of the two comes first does
/// not count here: the retry of a request may come after its deadline.
pub open spec fn request_verdict(
    request: RequestRequest,
    requester: Seq<char>,
    now: int,
    expires: Option<int>,
) -> Result<IntentModel, PluginErrorModel<RequestError>> {
    let requested_at = timestamp::whole_micros(now);
    let out_of_range = PluginErrorModel::Runtime(
        failure::internal("timestamp is outside PostgreSQL range"@),
    );
    if !timestamp::representable(requested_at) {
        Err(out_of_range)
    } else {
        match expires {
            None => Err(PluginErrorModel::Domain(RequestError::InvalidRequest)),
            Some(nanos) => {
                let expires_at = timestamp::whole_micros(nanos);
                if !timestamp::representable(expires_at) {
                    Err(out_of_range)
                } else if !request_named(request) {
                    Err(PluginErrorModel::Domain(RequestError::InvalidRequest))
                } else {
                    Ok(intent_of(request, requester, requested_at, expires_at))
                }
            },
        }
    }
}

/// Makes the intent of a request by a requester. `now` is the time of the request,
/// and `expires` what its deadline was read as, if anything, both in nanoseconds
/// of Unix time.
pub fn request_intent(
    request: RequestRequest,
    requester: &str,
    now: i128,
    expires: Option<i128>,
) -> (result: Result<RequestIntent, PluginError<RequestError>>)
    ensures
        ({
            let verdict = request_verdict(
                request,
                requester@,
                now as int,
                match expires {
                    Some(nanos) => Some(nanos as int),
                    None => None,
                },
            );
            match result {
                Ok(intent) => verdict == Ok::<_, PluginErrorModel<RequestError>>(intent@),
                Err(error) => verdict == Err::<IntentModel, _>(error@),
            }
        }),
{
    let requested_at: Timestamp = timestamp::normalize_timestamp(now)?;
    let expires_at: Timestamp = match expires {
        None => {
            return Err(PluginError::Domain(RequestError::InvalidRequest));
        },
        Some(nanos) => timestamp::normalize_timestamp(nanos)?,
    };
    if !identifiers::valid_request_id(request.request_id.as_str())
        || !identifiers::valid_idempotency_key(request.idempotency_key.as_str())
        || !identifiers::valid_reference(request.requested_by.as_str())
        || !identifiers::valid_kind(request.approval_kind.as_str()) || !identifiers::valid_kind(
        request.subject.kind.as_str(),
    ) || !identifiers::valid_reference(request.subject.id.as_str()) {
        return Err(PluginError::Domain(RequestError::InvalidRequest));
    }
    Ok(
        RequestIntent {
            request_id: request.request_id,
            requester_instance: requester.to_owned(),
            idempotency_key: request.idempotency_key,
            requested_by: request.requested_by,
            approval_kind: request.approval_kind,
            subject_kind: request.subject.kind,
            subject_id: request.subject.id,
            requested_at,
            expires_at,
        },
    )
}

/// What becomes of a request of a caller at an instant: the caller must be a
/// requester, and the request well formed.
pub open spec fn request_admission(
    config: ConfigModel,
    caller: Option<Seq<char>>,
    now: int,
    request: RequestRequest,
) -> Result<IntentModel, PluginErrorModel<RequestError>> {
    match Authority::Request.holder(config, caller) {
        None => Err(PluginErrorModel::Domain(RequestError::Forbidden)),
        Some(requester) => request_verdict(
            request,
            requester,
            now,
            timestamp::rfc3339_instant(request.expires_at@),
        ),
    }
}

/// Admits a request.
pub fn admit_request(
    config: &BusinessApprovalConfig,
    caller: Option<&str>,
    now: i128,
    request: RequestRequest,
) -> (result: Result<RequestIntent, PluginError<RequestError>>)
    ensures
        ({
            let verdict = request_admission(
                config@,
                text::optional_str(caller),
                now as int,
                request,
            );
            match result {
                Ok(intent) => verdict == Ok::<_, PluginErrorModel<RequestError>>(intent@),
                Err(error) => verdict == Err::<IntentModel, _>(error@),
            }
        }),
{
    let requester = match authorized_caller(config, caller, Authority::Request) {
        None => {
            return Err(PluginError::Domain(RequestError::Forbidden));
        },
        Some(name) => name,
    };
    let expires: Option<i128> = match timestamp::parse_rfc3339(request.expires_at.as_str()) {
        Ok(nanos) => Some(nanos),
        Err(_) => None,
    };
    request_intent(request, requester, now, expires)
}

// Decisions.

/// Whether the names in a decision are spelled as they must be.
pub open spec fn decision_named(request: DecideRequest) -> bool {
    &&& identifiers::request_id(request.request_id@)
    &&& identifiers::reference(request.decided_by@)
    &&& identifiers::reference(request.evidence_ref@)
    &&& identifiers::optional_reason(text::optional_text(request.reason))
}

/// The status that a decision gives.
pub open spec fn decided_status(decision: DecideRequestDecision) -> ApprovalStatus {
    match decision {
        DecideRequestDecision::Approved => ApprovalStatus::Approved,
        DecideRequestDecision::Rejected => ApprovalStatus::Rejected,
    }
}

/// What becomes of a decision of a caller: it must be a decider,
/// and the decision well formed.
pub open spec fn decide_admission(
    config: ConfigModel,
    caller: Option<Seq<char>>,
    request: DecideRequest,
) -> Result<TransitionModel, PluginErrorModel<DecideError>> {
    match Authority::Decide.holder(config, caller) {
        None => Err(PluginErrorModel::Domain(DecideError::Forbidden)),
        Some(decider) => if !decision_named(request) {
            Err(PluginErrorModel::Domain(DecideError::InvalidRequest))
        } else {
            Ok(
                TransitionModel {
                    request_id: request.request_id@,
                    caller: decider,
                    change: ChangeModel::Decide {
                        decision: decided_status(request.decision),
                        actor: request.decided_by@,
                        evidence_ref: request.evidence_ref@,
                        reason: text::optional_text(request.reason),
                    },
                },
            )
        },
    }
}

/// Admits a decision.
pub fn admit_decide(
    config: &BusinessApprovalConfig,
    caller: Option<&str>,
    request: DecideRequest,
) -> (result: Result<Transition, PluginError<DecideError>>)
    ensures
        ({
            let verdict = decide_admission(config@, text::optional_str(caller), request);
            match result {
                Ok(transition) => verdict == Ok::<_, PluginErrorModel<DecideError>>(transition@),
                Err(error) => verdict == Err::<TransitionModel, _>(error@),
            }
        }),
{
    let decider = match authorized_caller(config, caller, Authority::Decide) {
        None => {
            return Err(PluginError::Domain(DecideError::Forbidden));
        },
        Some(name) => name,
    };
    let reason = text::borrow_optional(&request.reason);
    if !identifiers::valid_request_id(request.request_id.as_str())
        || !identifiers::valid_reference(request.decided_by.as_str())
        || !identifiers::valid_reference(request.evidence_ref.as_str())
        || !identifiers::valid_reason(reason) {
        return Err(PluginError::Domain(DecideError::InvalidRequest));
    }
    let decision = match request.decision {
        DecideRequestDecision::Approved => ApprovalStatus::Approved,
        DecideRequestDecision::Rejected => ApprovalStatus::Rejected,
    };
    Ok(
        flow::decide(
            request.request_id.as_str(),
            decision,
            decider,
            request.decided_by.as_str(),
            request.evidence_ref.as_str(),
            reason,
        ),
    )
}

// Cancellations.

/// Whether the names in a cancellation are spelled as they must be.
pub open spec fn cancellation_named(request: CancelRequest) -> bool {
    &&& identifiers::request_id(request.request_id@)
    &&& identifiers::reference(request.cancelled_by@)
    &&& identifiers::optional_reason(text::optional_text(request.reason))
}

/// What becomes of a cancellation of a caller: it must be a
/// requester, and the cancellation well formed.
pub open spec fn cancel_admission(
    config: ConfigModel,
    caller: Option<Seq<char>>,
    request: CancelRequest,
) -> Result<TransitionModel, PluginErrorModel<CancelError>> {
    match Authority::Request.holder(config, caller) {
        None => Err(PluginErrorModel::Domain(CancelError::Forbidden)),
        Some(requester) => if !cancellation_named(request) {
            Err(PluginErrorModel::Domain(CancelError::InvalidRequest))
        } else {
            Ok(
                TransitionModel {
                    request_id: request.request_id@,
                    caller: requester,
                    change: ChangeModel::Cancel {
                        actor: request.cancelled_by@,
                        reason: text::optional_text(request.reason),
                    },
                },
            )
        },
    }
}

/// Admits a cancellation.
pub fn admit_cancel(
    config: &BusinessApprovalConfig,
    caller: Option<&str>,
    request: CancelRequest,
) -> (result: Result<Transition, PluginError<CancelError>>)
    ensures
        ({
            let verdict = cancel_admission(config@, text::optional_str(caller), request);
            match result {
                Ok(transition) => verdict == Ok::<_, PluginErrorModel<CancelError>>(transition@),
                Err(error) => verdict == Err::<TransitionModel, _>(error@),
            }
        }),
{
    let requester = match authorized_caller(config, caller, Authority::Request) {
        None => {
            return Err(PluginError::Domain(CancelError::Forbidden));
        },
        Some(name) => name,
    };
    let reason = text::borrow_optional(&request.reason);
    if !identifiers::valid_request_id(request.request_id.as_str())
        || !identifiers::valid_reference(request.cancelled_by.as_str())
        || !identifiers::valid_reason(reason) {
        return Err(PluginError::Domain(CancelError::InvalidRequest));
    }
    Ok(
        flow::cancel(
            request.request_id.as_str(),
            requester,
            request.cancelled_by.as_str(),
            reason,
        ),
    )
}

// Expirations.

/// What becomes of an expiration of a caller: it must be an
/// expiration executor, and the request identifier well formed.
pub open spec fn expire_admission(
    config: ConfigModel,
    caller: Option<Seq<char>>,
    request: ExpireRequest,
) -> Result<TransitionModel, PluginErrorModel<ExpireError>> {
    match Authority::Expire.holder(config, caller) {
        None => Err(PluginErrorModel::Domain(ExpireError::Forbidden)),
        Some(executor) => if !identifiers::request_id(request.request_id@) {
            Err(PluginErrorModel::Domain(ExpireError::InvalidRequest))
        } else {
            Ok(
                TransitionModel {
                    request_id: request.request_id@,
                    caller: executor,
                    change: ChangeModel::Expire,
                },
            )
        },
    }
}

/// Admits an expiration.
pub fn admit_expire(
    config: &BusinessApprovalConfig,
    caller: Option<&str>,
    request: ExpireRequest,
) -> (result: Result<Transition, PluginError<ExpireError>>)
    ensures
        ({
            let verdict = expire_admission(config@, text::optional_str(caller), request);
            match result {
                Ok(transition) => verdict == Ok::<_, PluginErrorModel<ExpireError>>(transition@),
                Err(error) => verdict == Err::<TransitionModel, _>(error@),
            }
        }),
{
    let executor = match authorized_caller(config, caller, Authority::Expire) {
        None => {
            return Err(PluginError::Domain(ExpireError::Forbidden));
        },
        Some(name) => name,
    };
    if !identifiers::valid_request_id(request.request_id.as_str()) {
        return Err(PluginError::Domain(ExpireError::InvalidRequest));
    }
    Ok(flow::expire(request.request_id.as_str(), executor))
}

// Reads.

/// A read that was admitted: of which request, and of which requester alone.
#[derive(Clone, Debug, PartialEq, Eq)]
pub struct ReadPlan {
    pub request_id: String,
    pub requester: Option<String>,
}

/// The value of a [`ReadPlan`].
pub struct ReadPlanModel {
    pub request_id: Seq<char>,
    pub requester: Option<Seq<char>>,
}

impl View for ReadPlan {
    type V = ReadPlanModel;

    open spec fn view(&self) -> ReadPlanModel {
        ReadPlanModel {
            request_id: self.request_id@,
            requester: text::optional_text(self.requester),
        }
    }
}

/// The requester to whose requests a reader is limited: itself, unless it may read
/// the requests of every requester.
pub open spec fn reader_limit(config: ConfigModel, reader: Seq<char>) -> Option<Seq<char>> {
    if config.may_read_any(reader) {
        None
    } else {
        Some(reader)
    }
}

/// What becomes of a read of a caller: it must be one of the configured Instances,
/// and the request identifier well formed.
pub open spec fn read_admission(
    config: ConfigModel,
    caller: Option<Seq<char>>,
    request: ReadRequest,
) -> Result<ReadPlanModel, PluginErrorModel<ReadError>> {
    match Authority::Read.holder(config, caller) {
        None => Err(PluginErrorModel::Domain(ReadError::Forbidden)),
        Some(reader) => if !identifiers::request_id(request.request_id@) {
            Err(PluginErrorModel::Domain(ReadError::InvalidRequest))
        } else {
            Ok(
                ReadPlanModel {
                    request_id: request.request_id@,
                    requester: reader_limit(config, reader),
                },
            )
        },
    }
}

/// Admits a read.
pub fn admit_read(
    config: &BusinessApprovalConfig,
    caller: Option<&str>,
    request: ReadRequest,
) -> (result: Result<ReadPlan, PluginError<ReadError>>)
    ensures
        ({
            let verdict = read_admission(config@, text::optional_str(caller), request);
            match result {
                Ok(plan) => verdict == Ok::<_, PluginErrorModel<ReadError>>(plan@),
                Err(error) => verdict == Err::<ReadPlanModel, _>(error@),
            }
        }),
{
    let reader = match authorized_caller(config, caller, Authority::Read) {
        None => {
            return Err(PluginError::Domain(ReadError::Forbidden));
        },
        Some(name) => name,
    };
    if !identifiers::valid_request_id(request.request_id.as_str()) {
        return Err(PluginError::Domain(ReadError::InvalidRequest));
    }
    let requester = if config.can_read_any_request(reader) {
        None
    } else {
        Some(reader.to_owned())
    };
    Ok(ReadPlan { request_id: request.request_id, requester })
}

} // verus!
