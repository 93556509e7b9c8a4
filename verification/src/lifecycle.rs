//! How an Instance comes to hold a verified database, and how it gives it up.

use vstd::prelude::*;

use crate::config::BusinessApprovalConfig;
use crate::failure::{RuntimeFailure, RuntimeFailureModel};
use crate::schema;
use crate::text;

verus! {

/// The failure of an operation on an Instance that holds no database.
pub open spec fn unprepared() -> RuntimeFailureModel {
    RuntimeFailureModel::PluginFailure { detail: "Business Approval is not prepared"@ }
}

/// Reports that the Instance holds no database.
pub fn not_prepared() -> (failure: RuntimeFailure)
    ensures
        failure@ == unprepared(),
{
    RuntimeFailure::PluginFailure { detail: "Business Approval is not prepared".to_owned() }
}

/// The place of the database that an Instance holds between its activation and its
/// deactivation.
#[derive(Clone, Debug)]
pub struct PreparedSlot<T> {
    pub held: Option<T>,
}

impl<T> PreparedSlot<T> {
    /// An Instance that was never activated.
    pub fn new() -> (slot: PreparedSlot<T>)
        ensures
            slot.held is None,
    {
        PreparedSlot { held: None }
    }

    /// The database, which an operation cannot do without.
    pub fn prepared(&self) -> (result: Result<&T, RuntimeFailure>)
        ensures
            match self.held {
                Some(database) => result matches Ok(found) && *found == database,
                None => result matches Err(failure) && failure@ == unprepared(),
            },
    {
        match &self.held {
            Some(database) => Ok(database),
            None => Err(not_prepared()),
        }
    }

    /// Ends an activation with what came of preparing the database. A failure
    /// leaves the Instance as it was.
    pub fn activate(&mut self, prepared: Result<T, String>) -> (result: Result<(), RuntimeFailure>)
        ensures
            match prepared {
                Ok(database) => result is Ok && final(self).held == Some(database),
                Err(detail) => {
                    &&& result matches Err(failure)
                    &&& failure@ == (RuntimeFailureModel::PluginFailure { detail: detail@ })
                    &&& final(self).held == old(self).held
                },
            },
    {
        match prepared {
            Ok(database) => {
                self.held = Some(database);
                Ok(())
            },
            Err(detail) => Err(RuntimeFailure::PluginFailure { detail }),
        }
    }

    /// Gives up the database, if there is one, so that it can be closed.
    pub fn deactivate(&mut self) -> (held: Option<T>)
        ensures
            held == old(self).held,
            final(self).held is None,
    {
        self.held.take()
    }
}

/// Why a secret was not resolved.
#[derive(Clone, Debug)]
pub enum SecretsFailure<K> {
    /// The provider refused the reference.
    Domain,
    /// The provider could not be asked, or did not answer.
    Runtime(K),
}

/// Why an activation ended early.
#[derive(Clone, Debug)]
pub enum ActivationError<K> {
    /// A failure of the Instance.
    Failure(RuntimeFailure),
    /// A failure that the provider of secrets met.
    Provider(K),
}

/// The failure of a secret that its provider refused.
pub open spec fn rejected_secret(reference: Seq<char>) -> RuntimeFailureModel {
    RuntimeFailureModel::PluginFailure {
        detail: "database URL secret `"@ + reference + "` was rejected"@,
    }
}

/// Takes the answer of the provider of secrets. A refusal is reported by the
/// reference alone; any other failure is passed on.
pub fn resolve_secret<S, K>(reference: &str, answer: Result<S, SecretsFailure<K>>) -> (result:
    Result<S, ActivationError<K>>)
    ensures
        match answer {
            Ok(secret) => result == Ok::<S, ActivationError<K>>(secret),
            Err(SecretsFailure::Domain) => {
                &&& result matches Err(ActivationError::Failure(failure))
                &&& failure@ == rejected_secret(reference@)
            },
            Err(SecretsFailure::Runtime(cause)) => result == Err::<S, ActivationError<K>>(
                ActivationError::Provider(cause),
            ),
        },
{
    match answer {
        Ok(secret) => Ok(secret),
        Err(SecretsFailure::Domain) => {
            let detail = text::joined("database URL secret `", reference, "` was rejected");
            Err(ActivationError::Failure(RuntimeFailure::PluginFailure { detail }))
        },
        Err(SecretsFailure::Runtime(cause)) => Err(ActivationError::Provider(cause)),
    }
}

/// The failure of a schema that an Instance may not own.
pub open spec fn rejected_schema(name: Seq<char>) -> RuntimeFailureModel {
    RuntimeFailureModel::InvalidResolvedPlan { detail: schema::invalid_schema_message(name) }
}

/// Goes on with an activation once the provider of secrets has answered. The
/// result is the secret with which the owned schema is to be prepared.
pub fn plan_activation<S, K>(
    config: &BusinessApprovalConfig,
    answer: Result<S, SecretsFailure<K>>,
) -> (result: Result<S, ActivationError<K>>)
    ensures
        match answer {
            Ok(secret) => if schema::owned_schema_name(config@.schema) {
                result == Ok::<S, ActivationError<K>>(secret)
            } else {
                &&& result matches Err(ActivationError::Failure(failure))
                &&& failure@ == rejected_schema(config@.schema)
            },
            Err(SecretsFailure::Domain) => {
                &&& result matches Err(ActivationError::Failure(failure))
                &&& failure@ == rejected_secret(config@.database_url_secret)
            },
            Err(SecretsFailure::Runtime(cause)) => result == Err::<S, ActivationError<K>>(
                ActivationError::Provider(cause),
            ),
        },
{
    let secret = resolve_secret(config.database_url_secret.as_str(), answer)?;
    match schema::schema_plan(config.schema.as_str()) {
        Ok(_) => Ok(secret),
        Err(error) => {
            let detail = error.message();
            Err(ActivationError::Failure(RuntimeFailure::InvalidResolvedPlan { detail }))
        },
    }
}

} // verus!
