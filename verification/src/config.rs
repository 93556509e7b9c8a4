//! The immutable configuration of one Instance, and the authority it grants.

use vstd::prelude::*;
use vstd::string::StringExecFns;

use crate::failure::{RuntimeFailure, RuntimeFailureModel};
use crate::identifiers;
use crate::schema;
use crate::text;

verus! {

/// The most callers in one allowlist.
pub const MAX_CALLERS: usize = 64;

/// The configuration of one Instance.
#[derive(Clone, Debug, PartialEq, Eq)]
pub struct BusinessApprovalConfig {
    /// The database schema that the Instance owns.
    pub schema: String,
    /// The reference under which the database URL is kept secret.
    pub database_url_secret: String,
    /// The Instances that may request and cancel.
    pub requester_instances: Vec<String>,
    /// The Instances that may decide.
    pub decider_instances: Vec<String>,
    /// The Instances that may expire.
    pub expiration_executor_instances: Vec<String>,
}

/// The value of a [`BusinessApprovalConfig`].
pub struct ConfigModel {
    pub schema: Seq<char>,
    pub database_url_secret: Seq<char>,
    pub requester_instances: Seq<Seq<char>>,
    pub decider_instances: Seq<Seq<char>>,
    pub expiration_executor_instances: Seq<Seq<char>>,
}

impl View for BusinessApprovalConfig {
    type V = ConfigModel;

    open spec fn view(&self) -> ConfigModel {
        ConfigModel {
            schema: self.schema@,
            database_url_secret: self.database_url_secret@,
            requester_instances: text::texts(self.requester_instances@),
            decider_instances: text::texts(self.decider_instances@),
            expiration_executor_instances: text::texts(self.expiration_executor_instances@),
        }
    }
}

/// An invalid allowlist of exact callers.
#[derive(Clone, Copy, Debug, PartialEq, Eq, Structural)]
pub enum CallerListError {
    EmptyOrTooLarge,
    InvalidInstance,
    DuplicateInstance,
}

/// An invalid configuration.
#[derive(Clone, Copy, Debug, PartialEq, Eq, Structural)]
pub enum BusinessApprovalConfigError {
    InvalidSchema,
    InvalidSecretReference,
    InvalidRequesters(CallerListError),
    InvalidDeciders(CallerListError),
    InvalidExpirationExecutors(CallerListError),
}

/// What is wrong with an allowlist, if anything: its size first, then the syntax
/// of its Instance keys, then that one occurs twice.
pub open spec fn callers_error(callers: Seq<Seq<char>>) -> Option<CallerListError> {
    if callers.len() == 0 || callers.len() > MAX_CALLERS {
        Some(CallerListError::EmptyOrTooLarge)
    } else if exists|i: int|
        0 <= i < callers.len() && !identifiers::instance(#[trigger] callers[i]) {
        Some(CallerListError::InvalidInstance)
    } else if !callers.no_duplicates() {
        Some(CallerListError::DuplicateInstance)
    } else {
        None
    }
}

impl ConfigModel {
    /// What is wrong with the configuration, if anything, in the order of its
    /// fields.
    pub open spec fn error(self) -> Option<BusinessApprovalConfigError> {
        if !schema::owned_schema_name(self.schema) {
            Some(BusinessApprovalConfigError::InvalidSchema)
        } else if !identifiers::secret_reference(self.database_url_secret) {
            Some(BusinessApprovalConfigError::InvalidSecretReference)
        } else if callers_error(self.requester_instances) is Some {
            Some(
                BusinessApprovalConfigError::InvalidRequesters(
                    callers_error(self.requester_instances)->0,
                ),
            )
        } else if callers_error(self.decider_instances) is Some {
            Some(
                BusinessApprovalConfigError::InvalidDeciders(
                    callers_error(self.decider_instances)->0,
                ),
            )
        } else if callers_error(self.expiration_executor_instances) is Some {
            Some(
                BusinessApprovalConfigError::InvalidExpirationExecutors(
                    callers_error(self.expiration_executor_instances)->0,
                ),
            )
        } else {
            None
        }
    }

    /// Whether an Instance may request and cancel.
    pub open spec fn may_request(self, caller: Seq<char>) -> bool {
        self.requester_instances.contains(caller)
    }

    /// Whether an Instance may decide.
    pub open spec fn may_decide(self, caller: Seq<char>) -> bool {
        self.decider_instances.contains(caller)
    }

    /// Whether an Instance may expire.
    pub open spec fn may_expire(self, caller: Seq<char>) -> bool {
        self.expiration_executor_instances.contains(caller)
    }

    /// Whether an Instance may read the requests of every requester.
    pub open spec fn may_read_any(self, caller: Seq<char>) -> bool {
        self.may_decide(caller) || self.may_expire(caller)
    }

    /// Whether an Instance may read.
    pub open spec fn may_read(self, caller: Seq<char>) -> bool {
        self.may_request(caller) || self.may_read_any(caller)
    }
}

/// Whether an Instance is one of an allowlist, to the letter.
pub fn contains_exact(callers: &[String], caller: &str) -> (result: bool)
    ensures
        result == text::texts(callers@).contains(caller@),
{
    let ghost listed = text::texts(callers@);
    let mut i: usize = 0;
    while i < callers.len()
        invariant
            i <= callers.len(),
            listed == text::texts(callers@),
            forall|k: int| 0 <= k < i ==> #[trigger] listed[k] != caller@,
        decreases callers.len() - i,
    {
        if text::same_text(callers[i].as_str(), caller) {
            assert(listed[i as int] == caller@);
            return true;
        }
        i += 1;
    }
    false
}

fn has_duplicate(callers: &[String]) -> (result: bool)
    ensures
        result == !text::texts(callers@).no_duplicates(),
{
    let ghost listed = text::texts(callers@);
    let mut i: usize = 0;
    while i < callers.len()
        invariant
            i <= callers.len(),
            listed == text::texts(callers@),
            listed.len() == callers@.len(),
            forall|k: int, l: int| 0 <= k < l < i ==> #[trigger] listed[k] != #[trigger] listed[l],
        decreases callers.len() - i,
    {
        let mut j: usize = 0;
        while j < i
            invariant
                j <= i < callers.len(),
                listed == text::texts(callers@),
                listed.len() == callers@.len(),
                forall|k: int| 0 <= k < j ==> #[trigger] listed[k] != listed[i as int],
            decreases i - j,
        {
            if callers[i] == callers[j] {
                assert(listed[i as int] == listed[j as int]);
                return true;
            }
            j += 1;
        }
        i += 1;
    }
    false
}

/// Checks an allowlist of exact callers.
pub fn validate_callers(callers: &[String]) -> (result: Result<(), CallerListError>)
    ensures
        match result {
            Ok(_) => callers_error(text::texts(callers@)) is None,
            Err(error) => callers_error(text::texts(callers@)) == Some(error),
        },
{
    let ghost listed = text::texts(callers@);
    if callers.len() == 0 || callers.len() > MAX_CALLERS {
        return Err(CallerListError::EmptyOrTooLarge);
    }
    let mut i: usize = 0;
    while i < callers.len()
        invariant
            i <= callers.len(),
            0 < callers.len() <= MAX_CALLERS,
            listed == text::texts(callers@),
            listed.len() == callers@.len(),
            forall|k: int| 0 <= k < i ==> identifiers::instance(#[trigger] listed[k]),
        decreases callers.len() - i,
    {
        if !identifiers::valid_instance(callers[i].as_str()) {
            assert(!identifiers::instance(listed[i as int]));
            return Err(CallerListError::InvalidInstance);
        }
        i += 1;
    }
    if has_duplicate(callers) {
        return Err(CallerListError::DuplicateInstance);
    }
    Ok(())
}

impl BusinessApprovalConfig {
    /// Creates and checks the configuration of one Instance.
    pub fn new(
        schema: &str,
        database_url_secret: &str,
        requester_instances: Vec<String>,
        decider_instances: Vec<String>,
        expiration_executor_instances: Vec<String>,
    ) -> (result: Result<BusinessApprovalConfig, BusinessApprovalConfigError>)
        ensures
            ({
                let model = ConfigModel {
                    schema: schema@,
                    database_url_secret: database_url_secret@,
                    requester_instances: text::texts(requester_instances@),
                    decider_instances: text::texts(decider_instances@),
                    expiration_executor_instances: text::texts(expiration_executor_instances@),
                };
                match result {
                    Ok(config) => model.error() is None && config@ == model,
                    Err(error) => model.error() == Some(error),
                }
            }),
    {
        let config = BusinessApprovalConfig {
            schema: schema.to_owned(),
            database_url_secret: database_url_secret.to_owned(),
            requester_instances,
            decider_instances,
            expiration_executor_instances,
        };
        match config.validate() {
            Ok(_) => Ok(config),
            Err(error) => Err(error),
        }
    }

    /// Checks the configuration.
    pub fn validate(&self) -> (result: Result<(), BusinessApprovalConfigError>)
        ensures
            match result {
                Ok(_) => self@.error() is None,
                Err(error) => self@.error() == Some(error),
            },
    {
        if schema::schema_plan(self.schema.as_str()).is_err() {
            return Err(BusinessApprovalConfigError::InvalidSchema);
        }
        if !identifiers::valid_secret_reference(self.database_url_secret.as_str()) {
            return Err(BusinessApprovalConfigError::InvalidSecretReference);
        }
        if let Err(error) = validate_callers(self.requester_instances.as_slice()) {
            return Err(BusinessApprovalConfigError::InvalidRequesters(error));
        }
        if let Err(error) = validate_callers(self.decider_instances.as_slice()) {
            return Err(BusinessApprovalConfigError::InvalidDeciders(error));
        }
        if let Err(error) = validate_callers(self.expiration_executor_instances.as_slice()) {
            return Err(BusinessApprovalConfigError::InvalidExpirationExecutors(error));
        }
        Ok(())
    }

    /// Whether an Instance may request and cancel.
    pub fn can_request(&self, caller: &str) -> (result: bool)
        ensures
            result == self@.may_request(caller@),
    {
        contains_exact(self.requester_instances.as_slice(), caller)
    }

    /// Whether an Instance may decide.
    pub fn can_decide(&self, caller: &str) -> (result: bool)
        ensures
            result == self@.may_decide(caller@),
    {
        contains_exact(self.decider_instances.as_slice(), caller)
    }

    /// Whether an Instance may expire.
    pub fn can_expire(&self, caller: &str) -> (result: bool)
        ensures
            result == self@.may_expire(caller@),
    {
        contains_exact(self.expiration_executor_instances.as_slice(), caller)
    }

    /// Whether an Instance may read.
    pub fn can_read(&self, caller: &str) -> (result: bool)
        ensures
            result == self@.may_read(caller@),
    {
        self.can_request(caller) || self.can_decide(caller) || self.can_expire(caller)
    }

    /// Whether an Instance may read the requests of every requester.
    pub fn can_read_any_request(&self, caller: &str) -> (result: bool)
        ensures
            result == self@.may_read_any(caller@),
    {
        self.can_decide(caller) || self.can_expire(caller)
    }
}

/// The message of an invalid allowlist.
pub open spec fn caller_list_message(error: CallerListError) -> Seq<char> {
    match error {
        CallerListError::EmptyOrTooLarge => {
            "the list must contain between 1 and 64 Instance keys"@
        },
        CallerListError::InvalidInstance => "an Instance key is invalid"@,
        CallerListError::DuplicateInstance => "Instance keys must not be duplicated"@,
    }
}

impl CallerListError {
    /// The message of the error.
    pub fn message(&self) -> (message: String)
        ensures
            message@ == caller_list_message(*self),
    {
        match self {
            CallerListError::EmptyOrTooLarge => {
                "the list must contain between 1 and 64 Instance keys".to_owned()
            },
            CallerListError::InvalidInstance => "an Instance key is invalid".to_owned(),
            CallerListError::DuplicateInstance => "Instance keys must not be duplicated".to_owned(),
        }
    }
}

/// The message of an invalid configuration.
pub open spec fn config_message(error: BusinessApprovalConfigError) -> Seq<char> {
    match error {
        BusinessApprovalConfigError::InvalidSchema => "invalid owned PostgreSQL schema"@,
        BusinessApprovalConfigError::InvalidSecretReference => {
            "invalid database URL secret reference"@
        },
        BusinessApprovalConfigError::InvalidRequesters(list) => {
            "invalid requester_instances: "@ + caller_list_message(list)
        },
        BusinessApprovalConfigError::InvalidDeciders(list) => {
            "invalid decider_instances: "@ + caller_list_message(list)
        },
        BusinessApprovalConfigError::InvalidExpirationExecutors(list) => {
            "invalid expiration_executor_instances: "@ + caller_list_message(list)
        },
    }
}

impl BusinessApprovalConfigError {
    /// The message of the error.
    pub fn message(&self) -> (message: String)
        ensures
            message@ == config_message(*self),
    {
        match self {
            BusinessApprovalConfigError::InvalidSchema => {
                "invalid owned PostgreSQL schema".to_owned()
            },
            BusinessApprovalConfigError::InvalidSecretReference => {
                "invalid database URL secret reference".to_owned()
            },
            BusinessApprovalConfigError::InvalidRequesters(list) => {
                "invalid requester_instances: ".to_owned().concat(list.message().as_str())
            },
            BusinessApprovalConfigError::InvalidDeciders(list) => {
                "invalid decider_instances: ".to_owned().concat(list.message().as_str())
            },
            BusinessApprovalConfigError::InvalidExpirationExecutors(list) => {
                "invalid expiration_executor_instances: ".to_owned().concat(
                    list.message().as_str(),
                )
            },
        }
    }
}

/// The failure that reports an invalid configuration.
pub open spec fn invalid_configuration(error: BusinessApprovalConfigError) -> RuntimeFailureModel {
    RuntimeFailureModel::InvalidResolvedPlan {
        detail: "Business Approval configuration is invalid: "@ + config_message(error),
    }
}

/// Checks a configuration before an Instance is built from it.
pub fn validate_config(config: &BusinessApprovalConfig) -> (result: Result<(), RuntimeFailure>)
    ensures
        match result {
            Ok(_) => config@.error() is None,
            Err(failure) => config@.error() matches Some(error) && failure@
                == invalid_configuration(error),
        },
{
    match config.validate() {
        Ok(_) => Ok(()),
        Err(error) => {
            let mut detail = "Business Approval configuration is invalid: ".to_owned();
            detail.append(error.message().as_str());
            Err(RuntimeFailure::InvalidResolvedPlan { detail })
        },
    }
}

} // verus!
