//! The database schema that an Instance owns.

use vstd::prelude::*;

use lenso_postgres_kit::{PlanError, SchemaPlan};

use crate::text;

verus! {

/// The longest schema name, in bytes.
pub const MAX_SCHEMA_BYTES: usize = 63;

/// Whether a text names a schema that an Instance may own: it begins with an ASCII
/// lowercase letter, goes on with such letters, digits and underscores, and is not
/// one of the names that the database keeps for itself.
pub open spec fn owned_schema_name(value: Seq<char>) -> bool {
    &&& 0 < value.len() <= MAX_SCHEMA_BYTES
    &&& 'a' <= value[0] <= 'z'
    &&& forall|i: int|
        0 <= i < value.len() ==> (text::ascii_lower_or_digit(#[trigger] value[i]) || value[i]
            == '_')
    &&& value != "public"@
    &&& value != "information_schema"@
    &&& !"pg_"@.is_prefix_of(value)
}

/// Asks `lenso_postgres_kit::SchemaPlan::new` about a schema name.
///
/// The plan looks at the name before it looks at the migrations, and refuses the
/// name exactly where it is not one that an Instance may own.
#[verifier::external_body]
fn plan_refuses_name(schema: &str) -> (refused: bool)
    ensures
        refused == !owned_schema_name(schema@),
{
    matches!(SchemaPlan::new(schema, &[]), Err(PlanError::InvalidSchemaName { .. }))
}

/// A schema name that an Instance may not own.
#[derive(Clone, Debug, PartialEq, Eq)]
pub struct InvalidSchemaName {
    pub schema: String,
}

/// The message about a schema name that an Instance may not own.
pub open spec fn invalid_schema_message(schema: Seq<char>) -> Seq<char> {
    "invalid owned schema name `"@ + schema + "`"@
}

impl InvalidSchemaName {
    /// The message of the error.
    pub fn message(&self) -> (message: String)
        ensures
            message@ == invalid_schema_message(self.schema@),
    {
        text::joined("invalid owned schema name `", self.schema.as_str(), "`")
    }
}

/// Checks that a schema is one that an Instance may own.
pub fn schema_plan(schema: &str) -> (result: Result<(), InvalidSchemaName>)
    ensures
        match result {
            Ok(_) => owned_schema_name(schema@),
            Err(error) => !owned_schema_name(schema@) && error.schema@ == schema@,
        },
{
    if plan_refuses_name(schema) {
        Err(InvalidSchemaName { schema: schema.to_owned() })
    } else {
        Ok(())
    }
}

} // verus!
