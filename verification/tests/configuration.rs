//! The configuration, the owned schema, and the life of an Instance.

use business_approval::config::{
    contains_exact, validate_callers, validate_config, BusinessApprovalConfig,
    BusinessApprovalConfigError, CallerListError, MAX_CALLERS,
};
use business_approval::failure::RuntimeFailure;
use business_approval::lifecycle::{
    not_prepared, plan_activation, resolve_secret, ActivationError, PreparedSlot, SecretsFailure,
};
use business_approval::operator::{
    BusinessApprovalOperator, BusinessApprovalOperatorError, OperatorWork,
};
use business_approval::schema::{schema_plan, InvalidSchemaName};
use lenso_postgres_kit::SchemaPlan;

fn config() -> BusinessApprovalConfig {
    BusinessApprovalConfig::new(
        "business_approval",
        "business-approval/database-url",
        vec!["expense-api".to_owned()],
        vec!["approval-console".to_owned()],
        vec!["approval-expirer".to_owned()],
    )
    .unwrap()
}

fn callers(names: &[&str]) -> Vec<String> {
    names.iter().map(|name| (*name).to_owned()).collect()
}

#[test]
fn config_rejects_missing_or_duplicate_exact_callers() {
    let mut invalid = config();
    invalid.requester_instances.clear();
    assert_eq!(
        invalid.validate(),
        Err(BusinessApprovalConfigError::InvalidRequesters(
            CallerListError::EmptyOrTooLarge
        ))
    );
    let mut invalid = config();
    invalid
        .decider_instances
        .push("approval-console".to_owned());
    assert_eq!(
        invalid.validate(),
        Err(BusinessApprovalConfigError::InvalidDeciders(
            CallerListError::DuplicateInstance
        ))
    );
}

#[test]
fn a_configuration_keeps_what_it_was_made_of() {
    let made = config();
    assert_eq!(made.schema, "business_approval");
    assert_eq!(made.database_url_secret, "business-approval/database-url");
    assert_eq!(made.requester_instances, callers(&["expense-api"]));
    assert_eq!(made.decider_instances, callers(&["approval-console"]));
    assert_eq!(made.expiration_executor_instances, callers(&["approval-expirer"]));
    assert_eq!(made.validate(), Ok(()));
    assert_eq!(validate_config(&made), Ok(()));
}

#[test]
fn the_first_invalid_field_is_reported() {
    let lists = || (callers(&["a"]), callers(&["b"]), callers(&["c"]));
    let (requesters, deciders, executors) = lists();
    assert_eq!(
        BusinessApprovalConfig::new("public", "/", requesters, deciders, executors),
        Err(BusinessApprovalConfigError::InvalidSchema)
    );
    let (_, deciders, executors) = lists();
    assert_eq!(
        BusinessApprovalConfig::new("approvals", "a/../b", Vec::new(), deciders, executors),
        Err(BusinessApprovalConfigError::InvalidSecretReference)
    );
    let (_, _, executors) = lists();
    assert_eq!(
        BusinessApprovalConfig::new("approvals", "a/b", callers(&["a b"]), Vec::new(), executors),
        Err(BusinessApprovalConfigError::InvalidRequesters(CallerListError::InvalidInstance))
    );
    let (requesters, _, _) = lists();
    assert_eq!(
        BusinessApprovalConfig::new(
            "approvals",
            "a/b",
            requesters,
            callers(&["b", "b"]),
            Vec::new(),
        ),
        Err(BusinessApprovalConfigError::InvalidDeciders(CallerListError::DuplicateInstance))
    );
    let (requesters, deciders, _) = lists();
    assert_eq!(
        BusinessApprovalConfig::new("approvals", "a/b", requesters, deciders, Vec::new()),
        Err(BusinessApprovalConfigError::InvalidExpirationExecutors(
            CallerListError::EmptyOrTooLarge
        ))
    );
}

#[test]
fn a_list_holds_at_most_sixty_four_callers() {
    let many: Vec<String> = (0..MAX_CALLERS).map(|index| format!("caller-{index}")).collect();
    assert_eq!(validate_callers(&many), Ok(()));
    let mut too_many = many.clone();
    too_many.push("caller-64".to_owned());
    assert_eq!(validate_callers(&too_many), Err(CallerListError::EmptyOrTooLarge));
    let mut last = many;
    last[63] = "caller-0".to_owned();
    assert_eq!(validate_callers(&last), Err(CallerListError::DuplicateInstance));
}

#[test]
fn an_invalid_caller_is_reported_before_a_duplicate() {
    assert_eq!(
        validate_callers(&callers(&["a", "a", "b/c"])),
        Err(CallerListError::InvalidInstance)
    );
    assert_eq!(
        validate_callers(&callers(&["a", "b", "a"])),
        Err(CallerListError::DuplicateInstance)
    );
}

#[test]
fn callers_are_matched_to_the_letter() {
    let listed = callers(&["expense-api", "travel-api"]);
    assert!(contains_exact(&listed, "travel-api"));
    assert!(!contains_exact(&listed, "Travel-api"));
    assert!(!contains_exact(&listed, "travel-ap"));
    assert!(!contains_exact(&listed, "travel-api "));
    assert!(!contains_exact(&[], "travel-api"));
}

#[test]
fn configuration_errors_have_their_messages() {
    let messages = [
        (BusinessApprovalConfigError::InvalidSchema, "invalid owned PostgreSQL schema"),
        (
            BusinessApprovalConfigError::InvalidSecretReference,
            "invalid database URL secret reference",
        ),
        (
            BusinessApprovalConfigError::InvalidRequesters(CallerListError::EmptyOrTooLarge),
            "invalid requester_instances: the list must contain between 1 and 64 Instance keys",
        ),
        (
            BusinessApprovalConfigError::InvalidDeciders(CallerListError::InvalidInstance),
            "invalid decider_instances: an Instance key is invalid",
        ),
        (
            BusinessApprovalConfigError::InvalidExpirationExecutors(
                CallerListError::DuplicateInstance,
            ),
            "invalid expiration_executor_instances: Instance keys must not be duplicated",
        ),
    ];
    for (error, message) in messages {
        assert_eq!(error.message(), message);
    }
    let mut invalid = config();
    invalid.database_url_secret.clear();
    assert_eq!(
        validate_config(&invalid),
        Err(RuntimeFailure::InvalidResolvedPlan {
            detail: "Business Approval configuration is invalid: invalid database URL secret \
                     reference"
                .to_owned(),
        })
    );
}

#[test]
fn schemas_that_may_be_owned_are_those_of_a_plan() {
    let longest = "a".repeat(63);
    let too_long = "a".repeat(64);
    let names = [
        ("business_approval", true),
        ("a", true),
        ("a1_", true),
        ("pg", true),
        ("pga", true),
        ("publicly", true),
        (longest.as_str(), true),
        (too_long.as_str(), false),
        ("", false),
        ("1a", false),
        ("_a", false),
        ("A", false),
        ("a-b", false),
        ("a b", false),
        ("\u{e4}", false),
        ("public", false),
        ("information_schema", false),
        ("pg_catalog", false),
        ("pg_", false),
    ];
    for (name, owned) in names {
        assert_eq!(schema_plan(name).is_ok(), owned, "{name}");
    }
}

#[test]
fn a_refused_schema_is_reported_in_the_words_of_the_plan() {
    let error = schema_plan("pg_catalog").unwrap_err();
    assert_eq!(error, InvalidSchemaName { schema: "pg_catalog".to_owned() });
    assert_eq!(error.message(), "invalid owned schema name `pg_catalog`");
    assert_eq!(
        error.message(),
        SchemaPlan::new("pg_catalog", &[]).unwrap_err().to_string()
    );
}

#[test]
fn an_operator_refuses_a_schema_before_it_connects() {
    let setup: Result<_, BusinessApprovalOperatorError<u8>> =
        BusinessApprovalOperator::setup("business_approval");
    assert!(matches!(setup, Ok(OperatorWork::Setup)));
    let upgrade: Result<_, BusinessApprovalOperatorError<u8>> =
        BusinessApprovalOperator::upgrade("business_approval");
    assert!(matches!(upgrade, Ok(OperatorWork::Upgrade)));
    let refused: Result<_, BusinessApprovalOperatorError<u8>> =
        BusinessApprovalOperator::setup("public");
    match refused {
        Err(BusinessApprovalOperatorError::Plan(error)) => assert_eq!(error.schema, "public"),
        _ => panic!("the schema may not be owned"),
    }
    let refused: Result<_, BusinessApprovalOperatorError<u8>> =
        BusinessApprovalOperator::upgrade("Public");
    assert!(matches!(refused, Err(BusinessApprovalOperatorError::Plan(_))));
}

#[test]
fn an_operator_passes_a_failure_of_the_database_on() {
    let done: Result<u8, BusinessApprovalOperatorError<&str>> =
        BusinessApprovalOperator::completed(Ok(3));
    assert!(matches!(done, Ok(3)));
    let failed: Result<u8, BusinessApprovalOperatorError<&str>> =
        BusinessApprovalOperator::completed(Err("no route"));
    assert!(matches!(failed, Err(BusinessApprovalOperatorError::Postgres("no route"))));
}

#[test]
fn a_database_is_held_from_activation_to_deactivation() {
    let mut slot: PreparedSlot<&str> = PreparedSlot::new();
    assert_eq!(slot.prepared(), Err(not_prepared()));
    assert_eq!(
        slot.activate(Err("no route".to_owned())),
        Err(RuntimeFailure::PluginFailure { detail: "no route".to_owned() })
    );
    assert_eq!(slot.prepared(), Err(not_prepared()));
    assert_eq!(slot.activate(Ok("first")), Ok(()));
    assert_eq!(slot.prepared(), Ok(&"first"));
    assert!(slot.activate(Err("no route".to_owned())).is_err());
    assert_eq!(slot.prepared(), Ok(&"first"));
    assert_eq!(slot.activate(Ok("second")), Ok(()));
    assert_eq!(slot.deactivate(), Some("second"));
    assert_eq!(slot.deactivate(), None);
    assert_eq!(slot.prepared(), Err(not_prepared()));
}

#[test]
fn a_refused_secret_is_reported_by_its_reference() {
    let found: Result<_, ActivationError<u8>> = resolve_secret("a/b", Ok("url"));
    assert!(matches!(found, Ok("url")));
    let refused: Result<&str, ActivationError<u8>> =
        resolve_secret("a/b", Err(SecretsFailure::Domain));
    match refused {
        Err(ActivationError::Failure(failure)) => assert_eq!(
            failure,
            RuntimeFailure::PluginFailure {
                detail: "database URL secret `a/b` was rejected".to_owned(),
            }
        ),
        _ => panic!("the secret was refused"),
    }
    let failed: Result<&str, ActivationError<u8>> =
        resolve_secret("a/b", Err(SecretsFailure::Runtime(9)));
    assert!(matches!(failed, Err(ActivationError::Provider(9))));
}

#[test]
fn an_activation_needs_the_secret_and_then_the_schema() {
    let made = config();
    let planned: Result<_, ActivationError<u8>> = plan_activation(&made, Ok("url"));
    assert!(matches!(planned, Ok("url")));
    let mut invalid = config();
    invalid.schema = "public".to_owned();
    let refused: Result<&str, ActivationError<u8>> = plan_activation(&invalid, Ok("url"));
    match refused {
        Err(ActivationError::Failure(failure)) => assert_eq!(
            failure,
            RuntimeFailure::InvalidResolvedPlan {
                detail: "invalid owned schema name `public`".to_owned(),
            }
        ),
        _ => panic!("the schema may not be owned"),
    }
    let refused: Result<&str, ActivationError<u8>> =
        plan_activation(&invalid, Err(SecretsFailure::Domain));
    match refused {
        Err(ActivationError::Failure(failure)) => assert_eq!(
            failure,
            RuntimeFailure::PluginFailure {
                detail: "database URL secret `business-approval/database-url` was rejected"
                    .to_owned(),
            }
        ),
        _ => panic!("the secret was refused"),
    }
    let failed: Result<&str, ActivationError<u8>> =
        plan_activation(&made, Err(SecretsFailure::Runtime(9)));
    assert!(matches!(failed, Err(ActivationError::Provider(9))));
}
