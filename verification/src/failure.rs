//! How an operation fails: by a rule of the capability, or at run time.

use vstd::prelude::*;
use vstd::string::StringExecFns;

verus! {

/// A failure outside the rules of the capability.
#[derive(Clone, Debug, PartialEq, Eq)]
pub enum RuntimeFailure {
    /// The configuration or the schema plan is invalid.
    InvalidResolvedPlan { detail: String },
    /// Stored or computed values contradict what they must satisfy.
    Internal { detail: String },
    /// The plugin or its database failed.
    PluginFailure { detail: String },
}

/// The value of a [`RuntimeFailure`].
pub enum RuntimeFailureModel {
    InvalidResolvedPlan { detail: Seq<char> },
    Internal { detail: Seq<char> },
    PluginFailure { detail: Seq<char> },
}

impl View for RuntimeFailure {
    type V = RuntimeFailureModel;

    open spec fn view(&self) -> RuntimeFailureModel {
        match *self {
            RuntimeFailure::InvalidResolvedPlan { detail } => {
                RuntimeFailureModel::InvalidResolvedPlan { detail: detail@ }
            },
            RuntimeFailure::Internal { detail } => {
                RuntimeFailureModel::Internal { detail: detail@ }
            },
            RuntimeFailure::PluginFailure { detail } => {
                RuntimeFailureModel::PluginFailure { detail: detail@ }
            },
        }
    }
}

/// A failure of one operation.
#[derive(Clone, Debug, PartialEq, Eq)]
pub enum PluginError<E> {
    /// A refusal that the capability defines.
    Domain(E),
    /// A failure outside the rules of the capability.
    Runtime(RuntimeFailure),
}

/// The value of a [`PluginError`].
pub enum PluginErrorModel<E> {
    Domain(E),
    Runtime(RuntimeFailureModel),
}

impl<E> View for PluginError<E> {
    type V = PluginErrorModel<E>;

    open spec fn view(&self) -> PluginErrorModel<E> {
        match *self {
            PluginError::Domain(error) => PluginErrorModel::Domain(error),
            PluginError::Runtime(failure) => PluginErrorModel::Runtime(failure@),
        }
    }
}

/// The failure that reports a contradiction.
pub open spec fn internal(detail: Seq<char>) -> RuntimeFailureModel {
    RuntimeFailureModel::Internal { detail: "Business Approval: "@ + detail }
}

/// The failure that reports a terminal row without the evidence it owes.
pub open spec fn inconsistent_terminal() -> RuntimeFailureModel {
    internal("stored terminal evidence is inconsistent"@)
}

/// Reports a contradiction.
pub fn invalid_request_runtime<E>(detail: &str) -> (error: PluginError<E>)
    ensures
        error@ == PluginErrorModel::<E>::Runtime(internal(detail@)),
{
    let mut message = "Business Approval: ".to_owned();
    message.append(detail);
    PluginError::Runtime(RuntimeFailure::Internal { detail: message })
}

/// Reports a terminal row without the evidence it owes.
pub fn invalid_terminal<E>() -> (error: PluginError<E>)
    ensures
        error@ == PluginErrorModel::<E>::Runtime(inconsistent_terminal()),
{
    invalid_request_runtime("stored terminal evidence is inconsistent")
}

} // verus!
