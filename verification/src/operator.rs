//! The explicit administration of the owned schema.

use vstd::prelude::*;

use crate::schema;
use crate::schema::InvalidSchemaName;

verus! {

/// Administers the owned schema. Nothing else creates or upgrades it.
#[derive(Clone, Copy, Debug, Default)]
pub struct BusinessApprovalOperator;

/// What an operator does to the schema once it is connected.
#[derive(Clone, Copy, Debug, PartialEq, Eq, Structural)]
pub enum OperatorWork {
    /// Create a missing schema and install the complete plan.
    Setup,
    /// Apply the pending migrations to an existing schema.
    Upgrade,
}

/// A failure of the operator: of the plan, or of the database, with its cause.
#[derive(Clone, Debug)]
pub enum BusinessApprovalOperatorError<K> {
    Plan(InvalidSchemaName),
    Postgres(K),
}

fn planned<K>(schema: &str, work: OperatorWork) -> (result: Result<
    OperatorWork,
    BusinessApprovalOperatorError<K>,
>)
    ensures
        match result {
            Ok(planned) => schema::owned_schema_name(schema@) && planned == work,
            Err(BusinessApprovalOperatorError::Plan(error)) => {
                !schema::owned_schema_name(schema@) && error.schema@ == schema@
            },
            Err(BusinessApprovalOperatorError::Postgres(_)) => false,
        },
{
    match schema::schema_plan(schema) {
        Ok(_) => Ok(work),
        Err(error) => Err(BusinessApprovalOperatorError::Plan(error)),
    }
}

impl BusinessApprovalOperator {
    /// Plans to create a missing schema. A schema that may not be owned is refused
    /// before any connection is made.
    pub fn setup<K>(schema: &str) -> (result: Result<
        OperatorWork,
        BusinessApprovalOperatorError<K>,
    >)
        ensures
            match result {
                Ok(work) => schema::owned_schema_name(schema@) && work is Setup,
                Err(BusinessApprovalOperatorError::Plan(error)) => {
                    !schema::owned_schema_name(schema@) && error.schema@ == schema@
                },
                Err(BusinessApprovalOperatorError::Postgres(_)) => false,
            },
    {
        planned(schema, OperatorWork::Setup)
    }

    /// Plans to upgrade an existing schema. A schema that may not be owned is
    /// refused before any connection is made.
    pub fn upgrade<K>(schema: &str) -> (result: Result<
        OperatorWork,
        BusinessApprovalOperatorError<K>,
    >)
        ensures
            match result {
                Ok(work) => schema::owned_schema_name(schema@) && work is Upgrade,
                Err(BusinessApprovalOperatorError::Plan(error)) => {
                    !schema::owned_schema_name(schema@) && error.schema@ == schema@
                },
                Err(BusinessApprovalOperatorError::Postgres(_)) => false,
            },
    {
        planned(schema, OperatorWork::Upgrade)
    }

    /// Takes what came of connecting, or of the work itself.
    pub fn completed<T, K>(reply: Result<T, K>) -> (result: Result<
        T,
        BusinessApprovalOperatorError<K>,
    >)
        ensures
            match reply {
                Ok(outcome) => result == Ok::<T, BusinessApprovalOperatorError<K>>(outcome),
                Err(cause) => result == Err::<T, BusinessApprovalOperatorError<K>>(
                    BusinessApprovalOperatorError::Postgres(cause),
                ),
            },
    {
        match reply {
            Ok(outcome) => Ok(outcome),
            Err(cause) => Err(BusinessApprovalOperatorError::Postgres(cause)),
        }
    }
}

} // verus!
