//! The start of each operation: who may, what is well formed, and with which
//! database.

use vstd::prelude::*;

use crate::admission;
use crate::admission::{ReadPlan, ReadPlanModel};
use crate::capability::{
    CancelError, CancelRequest, DecideError, DecideRequest, ExpireError, ExpireRequest, ReadError,
    ReadRequest, RequestError, RequestRequest,
};
use crate::config::BusinessApprovalConfig;
use crate::failure::{PluginError, PluginErrorModel};
use crate::flow::{Transition, TransitionModel};
use crate::lifecycle;
use crate::lifecycle::PreparedSlot;
use crate::storage::{IntentModel, RequestIntent};
use crate::text;

verus! {

/// What an operation starts with: the database and what was admitted. A refusal
/// comes before the failure of an Instance that holds no database.
pub open spec fn started<T, M, E>(
    admitted: Result<M, PluginErrorModel<E>>,
    held: Option<T>,
) -> Result<(T, M), PluginErrorModel<E>> {
    match admitted {
        Err(error) => Err(error),
        Ok(value) => match held {
            Some(database) => Ok((database, value)),
            None => Err(PluginErrorModel::Runtime(lifecycle::unprepared())),
        },
    }
}

/// Starts a request: it is admitted first, and only then is the database looked for.
pub fn start_request<'a, T>(
    config: &BusinessApprovalConfig,
    slot: &'a PreparedSlot<T>,
    caller: Option<&str>,
    now: i128,
    request: RequestRequest,
) -> (result: Result<(&'a T, RequestIntent), PluginError<RequestError>>)
    ensures
        ({
            let verdict = started(
                admission::request_admission(
                    config@,
                    text::optional_str(caller),
                    now as int,
                    request,
                ),
                slot.held,
            );
            match result {
                Ok((database, admitted)) => verdict == Ok::<_, PluginErrorModel<RequestError>>(
                    (*database, admitted@),
                ),
                Err(error) => verdict == Err::<(T, IntentModel), _>(error@),
            }
        }),
{
    let admitted = admission::admit_request(config, caller, now, request)?;
    match slot.prepared() {
        Ok(database) => Ok((database, admitted)),
        Err(failure) => Err(PluginError::Runtime(failure)),
    }
}

/// Starts a decision: it is admitted first, and only then is the database looked for.
pub fn start_decide<'a, T>(
    config: &BusinessApprovalConfig,
    slot: &'a PreparedSlot<T>,
    caller: Option<&str>,
    request: DecideRequest,
) -> (result: Result<(&'a T, Transition), PluginError<DecideError>>)
    ensures
        ({
            let verdict = started(
                admission::decide_admission(config@, text::optional_str(caller), request),
                slot.held,
            );
            match result {
                Ok((database, admitted)) => verdict == Ok::<_, PluginErrorModel<DecideError>>(
                    (*database, admitted@),
                ),
                Err(error) => verdict == Err::<(T, TransitionModel), _>(error@),
            }
        }),
{
    let admitted = admission::admit_decide(config, caller, request)?;
    match slot.prepared() {
        Ok(database) => Ok((database, admitted)),
        Err(failure) => Err(PluginError::Runtime(failure)),
    }
}

/// Starts a cancellation: it is admitted first, and only then is the database looked for.
pub fn start_cancel<'a, T>(
    config: &BusinessApprovalConfig,
    slot: &'a PreparedSlot<T>,
    caller: Option<&str>,
    request: CancelRequest,
) -> (result: Result<(&'a T, Transition), PluginError<CancelError>>)
    ensures
        ({
            let verdict = started(
                admission::cancel_admission(config@, text::optional_str(caller), request),
                slot.held,
            );
            match result {
                Ok((database, admitted)) => verdict == Ok::<_, PluginErrorModel<CancelError>>(
                    (*database, admitted@),
                ),
                Err(error) => verdict == Err::<(T, TransitionModel), _>(error@),
            }
        }),
{
    let admitted = admission::admit_cancel(config, caller, request)?;
    match slot.prepared() {
        Ok(database) => Ok((database, admitted)),
        Err(failure) => Err(PluginError::Runtime(failure)),
    }
}

/// Starts a read: it is admitted first, and only then is the database looked for.
pub fn start_read<'a, T>(
    config: &BusinessApprovalConfig,
    slot: &'a PreparedSlot<T>,
    caller: Option<&str>,
    request: ReadRequest,
) -> (result: Result<(&'a T, ReadPlan), PluginError<ReadError>>)
    ensures
        ({
            let verdict = started(
                admission::read_admission(config@, text::optional_str(caller), request),
                slot.held,
            );
            match result {
                Ok((database, admitted)) => verdict == Ok::<_, PluginErrorModel<ReadError>>(
                    (*database, admitted@),
                ),
                Err(error) => verdict == Err::<(T, ReadPlanModel), _>(error@),
            }
        }),
{
    let admitted = admission::admit_read(config, caller, request)?;
    match slot.prepared() {
        Ok(database) => Ok((database, admitted)),
        Err(failure) => Err(PluginError::Runtime(failure)),
    }
}

/// Starts an expiration: it is admitted first, and only then is the database looked for.
pub fn start_expire<'a, T>(
    config: &BusinessApprovalConfig,
    slot: &'a PreparedSlot<T>,
    caller: Option<&str>,
    request: ExpireRequest,
) -> (result: Result<(&'a T, Transition), PluginError<ExpireError>>)
    ensures
        ({
            let verdict = started(
                admission::expire_admission(config@, text::optional_str(caller), request),
                slot.held,
            );
            match result {
                Ok((database, admitted)) => verdict == Ok::<_, PluginErrorModel<ExpireError>>(
                    (*database, admitted@),
                ),
                Err(error) => verdict == Err::<(T, TransitionModel), _>(error@),
            }
        }),
{
    let admitted = admission::admit_expire(config, caller, request)?;
    match slot.prepared() {
        Ok(database) => Ok((database, admitted)),
        Err(failure) => Err(PluginError::Runtime(failure)),
    }
}

} // verus!
