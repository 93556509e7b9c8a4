//! What holds of the values that operations are made of: names, instants, numerals,
//! rows and statuses. Each law is about a call and says what comes of it.

use vstd::prelude::*;

use crate::config;
use crate::config::{
    BusinessApprovalConfig, BusinessApprovalConfigError, CallerListError,
};
use crate::failure;
use crate::failure::{PluginError, RuntimeFailure};
use crate::identifiers;
use crate::response;
use crate::schema;
use crate::schema::InvalidSchemaName;
use crate::storage;
use crate::storage::{
    ApprovalRow, ApprovalStatus, RequestIntent, StorageError, StoredApproval,
};
use crate::text;
use crate::timestamp;
use crate::timestamp::Timestamp;

verus! {

// Names.

/// An ASCII letter or digit, or one of `.`, `_`, `-` and `:`.
pub open spec fn plain(c: char) -> bool {
    ||| c as int >= 97 && c as int <= 122
    ||| c as int >= 65 && c as int <= 90
    ||| c as int >= 48 && c as int <= 57
    ||| c == '.' || c == '_' || c == '-' || c == ':'
}

/// An ASCII lowercase letter or digit.
pub open spec fn lowercase_or_digit(c: char) -> bool {
    c as int >= 97 && c as int <= 122 || c as int >= 48 && c as int <= 57
}

/// An identifier has one to `maximum` characters, all of them plain.
pub proof fn law_identifiers_are_plain(value: &str, maximum: usize, valid: bool)
    requires
        call_ensures(identifiers::valid_identifier, (value, maximum), valid),
    ensures
        valid <==> 1 <= value@.len() <= maximum && (forall|i: int|
            0 <= i < value@.len() ==> plain(#[trigger] value@[i])),
{
    if valid {
        assert forall|i: int| 0 <= i < value@.len() implies plain(#[trigger] value@[i]) by {
            assert(identifiers::Alphabet::Identifier.has(value@[i]));
        }
    }
}

/// A request identifier has at most 128 plain characters; an idempotency key and an
/// Instance key have at most 256.
pub proof fn law_names_are_bounded_identifiers(
    value: &str,
    request_id: bool,
    idempotency_key: bool,
    instance: bool,
)
    requires
        call_ensures(identifiers::valid_request_id, (value,), request_id),
        call_ensures(identifiers::valid_idempotency_key, (value,), idempotency_key),
        call_ensures(identifiers::valid_instance, (value,), instance),
    ensures
        ({
            let spelled = value@.len() > 0 && (forall|i: int|
                0 <= i < value@.len() ==> plain(#[trigger] value@[i]));
            &&& request_id <==> spelled && value@.len() <= 128
            &&& idempotency_key <==> spelled && value@.len() <= 256
            &&& instance <==> spelled && value@.len() <= 256
        }),
{
    assert forall|i: int| 0 <= i < value@.len() implies plain(#[trigger] value@[i])
        == identifiers::Alphabet::Identifier.has(value@[i]) by {}
    if identifiers::Alphabet::Identifier.spells(value@) {
        assert(forall|i: int| 0 <= i < value@.len() ==> plain(#[trigger] value@[i]));
    }
}

/// A reference has one to 512 characters, each of them plain or a slash.
pub proof fn law_references_are_plain_or_slashed(value: &str, valid: bool)
    requires
        call_ensures(identifiers::valid_reference, (value,), valid),
    ensures
        valid <==> 1 <= value@.len() <= 512 && (forall|i: int|
            0 <= i < value@.len() ==> (plain(#[trigger] value@[i]) || value@[i] == '/')),
{
    assert forall|i: int| 0 <= i < value@.len() implies (plain(#[trigger] value@[i]) || value@[i]
        == '/') == identifiers::Alphabet::Reference.has(value@[i]) by {}
    if valid {
        assert(identifiers::Alphabet::Reference.spells(value@));
    }
}

/// A kind has one to 128 characters, which are lowercase letters and digits with
/// `.`, `_` and `-` between them.
pub proof fn law_kinds_are_lowercase(value: &str, valid: bool)
    requires
        call_ensures(identifiers::valid_kind, (value,), valid),
    ensures
        valid <==> {
            &&& 1 <= value@.len() <= 128
            &&& lowercase_or_digit(value@[0])
            &&& lowercase_or_digit(value@[value@.len() - 1])
            &&& forall|i: int|
                0 <= i < value@.len() ==> (lowercase_or_digit(#[trigger] value@[i]) || value@[i]
                    == '.' || value@[i] == '_' || value@[i] == '-')
        },
{
    assert forall|i: int| 0 <= i < value@.len() implies (lowercase_or_digit(#[trigger] value@[i])
        || value@[i] == '.' || value@[i] == '_' || value@[i] == '-')
        == identifiers::Alphabet::Kind.has(value@[i]) by {}
    if valid {
        assert(identifiers::Alphabet::Kind.spells(value@));
        assert(identifiers::Alphabet::Kind.has(value@[0]));
        assert(identifiers::Alphabet::Kind.has(value@[value@.len() - 1]));
    }
}

/// A space, tab, line break or other character that only separates.
pub open spec fn blank(c: char) -> bool {
    let code = c as int;
    ||| 0x9 <= code <= 0xd || code == 0x20 || code == 0x85 || code == 0xa0 || code == 0x1680
    ||| 0x2000 <= code <= 0x200a || code == 0x2028 || code == 0x2029
    ||| code == 0x202f || code == 0x205f || code == 0x3000
}

/// Blank characters are white space, and codes below the space or from delete to 9f are
/// controls.
pub proof fn law_characters_are_classed_by_their_codes(c: char, white: bool, control: bool)
    requires
        call_ensures(text::is_white_space, (c,), white),
        call_ensures(text::is_control, (c,), control),
    ensures
        white <==> blank(c),
        control <==> (c as int) < 0x20 || 0x7f <= c as int <= 0x9f,
{
}

/// A reason may be left out. One that is given is not blank all through, holds no
/// control code, and takes at most 1000 bytes in UTF-8.
pub proof fn law_reasons_are_visible_and_short(value: Option<&str>, valid: bool)
    requires
        call_ensures(identifiers::valid_reason, (value,), valid),
    ensures
        valid <==> match value {
            None => true,
            Some(given) => {
                &&& !(forall|i: int| 0 <= i < given@.len() ==> blank(#[trigger] given@[i]))
                &&& vstd::utf8::encode_utf8(given@).len() <= 1000
                &&& forall|i: int|
                    0 <= i < given@.len() ==> ((#[trigger] given@[i]) as int >= 0x20
                        && !(0x7f <= given@[i] as int <= 0x9f))
            },
        },
{
    if let Some(given) = value {
        assert forall|i: int| 0 <= i < given@.len() implies blank(#[trigger] given@[i])
            == text::white_space(given@[i]) by {}
        assert forall|i: int| 0 <= i < given@.len() implies ((#[trigger] given@[i]) as int >= 0x20
            && !(0x7f <= given@[i] as int <= 0x9f)) == !text::control(given@[i]) by {}
        if valid {
            let i = choose|i: int|
                0 <= i < given@.len() && !text::white_space(#[trigger] given@[i]);
            assert(!blank(given@[i]));
            assert forall|i: int| 0 <= i < given@.len() implies (
            #[trigger] given@[i]) as int >= 0x20 && !(0x7f <= given@[i] as int <= 0x9f) by {
                assert(!text::control(given@[i]));
            }
        }
    }
}

/// Whether a slash or an end of the path stands right before a place in it.
pub open spec fn opens(path: Seq<char>, i: int) -> bool {
    i == 0 || path[i - 1] == '/'
}

/// Whether a slash or an end of the path stands at a place in it.
pub open spec fn closes(path: Seq<char>, i: int) -> bool {
    i == path.len() || path[i] == '/'
}

/// A secret reference has one to 256 characters, each of them plain or a slash. No
/// part between slashes is empty, and none is a lone dot or two dots.
pub proof fn law_secret_references_have_plain_parts(value: &str, valid: bool)
    requires
        call_ensures(identifiers::valid_secret_reference, (value,), valid),
    ensures
        valid <==> {
            &&& 1 <= value@.len() <= 256
            &&& forall|i: int|
                0 <= i < value@.len() ==> (plain(#[trigger] value@[i]) || value@[i] == '/')
            &&& forall|i: int|
                0 <= i <= value@.len() && #[trigger] opens(value@, i) ==> !closes(value@, i)
            &&& forall|i: int|
                0 <= i < value@.len() && #[trigger] opens(value@, i) && value@[i] == '.' ==> {
                    &&& !closes(value@, i + 1)
                    &&& value@[i + 1] == '.' ==> !closes(value@, i + 2)
                }
        },
{
    let path = value@;
    assert forall|i: int| 0 <= i < path.len() implies (plain(#[trigger] path[i]) || path[i] == '/')
        == identifiers::Alphabet::Reference.has(path[i]) by {}
    if valid {
        assert(identifiers::Alphabet::Reference.spells(path));
        assert forall|i: int| 0 <= i <= path.len() && #[trigger] opens(path, i) implies !closes(
            path,
            i,
        ) by {
            if i == path.len() {
                assert(path.last() == path[i - 1]);
            } else if i > 0 {
                assert(!(path[i - 1] == '/' && path[i] == '/'));
            } else {
                assert(path.first() == path[0]);
            }
        }
        assert forall|i: int|
            0 <= i < path.len() && #[trigger] opens(path, i) && path[i] == '.' implies {
            &&& !closes(path, i + 1)
            &&& path[i + 1] == '.' ==> !closes(path, i + 2)
        } by {
            if closes(path, i + 1) {
                assert(identifiers::segment(path, i, i + 1));
                assert(path.subrange(i, i + 1) =~= seq!['.']);
            }
            if path[i + 1] == '.' && closes(path, i + 2) {
                assert(identifiers::segment(path, i, i + 2));
                assert(path.subrange(i, i + 2) =~= seq!['.', '.']);
            }
        }
    }
    if 1 <= path.len() <= 256 && (forall|i: int|
        0 <= i < path.len() ==> (plain(#[trigger] path[i]) || path[i] == '/')) && (forall|i: int|
        0 <= i <= path.len() && #[trigger] opens(path, i) ==> !closes(path, i)) && (forall|i: int|
        0 <= i < path.len() && #[trigger] opens(path, i) && path[i] == '.' ==> {
            &&& !closes(path, i + 1)
            &&& path[i + 1] == '.' ==> !closes(path, i + 2)
        }) {
        assert(opens(path, 0));
        assert(path.last() == path[path.len() - 1]);
        assert(opens(path, path.len() as int) ==> !closes(path, path.len() as int));
        assert forall|i: int, j: int| 0 <= i && j == i + 1 && j < path.len() implies !(
        #[trigger] path[i] == '/' && #[trigger] path[j] == '/') by {
            assert(opens(path, j) ==> !closes(path, j));
        }
        assert forall|start: int, end: int| #[trigger]
            identifiers::segment(path, start, end) implies !identifiers::relative_segment(
            path.subrange(start, end),
        ) by {
            let part = path.subrange(start, end);
            if identifiers::relative_segment(part) {
                assert(part.len() == end - start);
                assert(part[0] == path[start]);
                assert(opens(path, start));
                assert(closes(path, end));
                if part.len() == 2 {
                    assert(part[1] == path[start + 1]);
                }
            }
        }
    }
}

// The configuration.

/// Whether a text is one of several, to the letter.
pub open spec fn listed(names: Seq<String>, name: Seq<char>) -> bool {
    exists|i: int| 0 <= i < names.len() && (#[trigger] names[i])@ == name
}

/// A list contains a caller where one of its texts is that caller's name.
pub(crate) proof fn lemma_listed(names: Seq<String>, name: Seq<char>)
    ensures
        text::texts(names).contains(name) <==> listed(names, name),
{
    let all = text::texts(names);
    if all.contains(name) {
        let i = choose|i: int| 0 <= i < all.len() && all[i] == name;
        assert(names[i]@ == name);
    }
    if listed(names, name) {
        let i = choose|i: int| 0 <= i < names.len() && (#[trigger] names[i])@ == name;
        assert(all[i] == name);
    }
}

/// Only what is on a list to the letter is found on it.
pub proof fn law_callers_are_matched_to_the_letter(
    callers: &[String],
    caller: &str,
    found: bool,
)
    requires
        call_ensures(config::contains_exact, (callers, caller), found),
    ensures
        found <==> listed(callers@, caller@),
{
    lemma_listed(callers@, caller@);
}

/// Whether each name of a list occurs in it once.
pub open spec fn distinct(names: Seq<String>) -> bool {
    forall|i: int, j: int|
        0 <= i < j < names.len() ==> (#[trigger] names[i])@ != (#[trigger] names[j])@
}

/// Whether every name of a list is an Instance key.
pub open spec fn all_instances(names: Seq<String>) -> bool {
    forall|i: int|
        0 <= i < names.len() ==> identifiers::instance((#[trigger] names[i])@)
}

/// A list of callers is valid where it holds between one and 64 Instance keys, each
/// of them once. Otherwise the first of these that fails is reported.
pub proof fn law_caller_lists_are_short_and_distinct(
    callers: &[String],
    result: Result<(), CallerListError>,
)
    requires
        call_ensures(config::validate_callers, (callers,), result),
    ensures
        ({
            let size = 1 <= callers@.len() <= 64;
            let spelled = all_instances(callers@);
            &&& result is Ok <==> size && spelled && distinct(callers@)
            &&& result == Err::<(), _>(CallerListError::EmptyOrTooLarge) <==> !size
            &&& result == Err::<(), _>(CallerListError::InvalidInstance) <==> size && !spelled
            &&& result == Err::<(), _>(CallerListError::DuplicateInstance) <==> size && spelled
                && !distinct(callers@)
        }),
{
    lemma_callers(callers@);
}

proof fn lemma_callers(names: Seq<String>)
    ensures
        text::texts(names).len() == names.len(),
        (exists|i: int|
            0 <= i < text::texts(names).len() && !identifiers::instance(
                #[trigger] text::texts(names)[i],
            )) <==> !all_instances(names),
        text::texts(names).no_duplicates() <==> distinct(names),
{
    let all = text::texts(names);
    assert forall|i: int| 0 <= i < names.len() implies #[trigger] all[i] == names[i]@ by {}
    if !all_instances(names) {
        let i = choose|i: int|
            0 <= i < names.len() && !identifiers::instance((#[trigger] names[i])@);
        assert(!identifiers::instance(all[i]));
    }
    if all.no_duplicates() {
        assert forall|i: int, j: int| 0 <= i < j < names.len() implies (#[trigger] names[i])@ != (
        #[trigger] names[j])@ by {
            assert(all[i] != all[j]);
        }
    }
    if distinct(names) {
        assert forall|i: int, j: int|
            0 <= i < all.len() && 0 <= j < all.len() && i != j implies all[i] != all[j] by {
            if i < j {
                assert(names[i]@ != names[j]@);
            } else {
                assert(names[j]@ != names[i]@);
            }
        }
    }
}

/// Whether a list of callers is valid.
pub open spec fn valid_list(names: Seq<String>) -> bool {
    1 <= names.len() <= 64 && all_instances(names) && distinct(names)
}

/// A configuration is valid where its schema may be owned, its secret reference is
/// one, and its three lists of callers are valid. Otherwise the first of these that
/// fails is reported.
pub proof fn law_configuration_is_checked_in_order(
    configuration: &BusinessApprovalConfig,
    result: Result<(), BusinessApprovalConfigError>,
)
    requires
        call_ensures(BusinessApprovalConfig::validate, (configuration,), result),
    ensures
        ({
            let owned = schema::owned_schema_name(configuration.schema@);
            let secret = identifiers::secret_reference(configuration.database_url_secret@);
            let requesters = valid_list(configuration.requester_instances@);
            let deciders = valid_list(configuration.decider_instances@);
            let executors = valid_list(configuration.expiration_executor_instances@);
            &&& result is Ok <==> owned && secret && requesters && deciders && executors
            &&& result matches Err(error) ==> match error {
                BusinessApprovalConfigError::InvalidSchema => !owned,
                BusinessApprovalConfigError::InvalidSecretReference => owned && !secret,
                BusinessApprovalConfigError::InvalidRequesters(_) => {
                    owned && secret && !requesters
                },
                BusinessApprovalConfigError::InvalidDeciders(_) => {
                    owned && secret && requesters && !deciders
                },
                BusinessApprovalConfigError::InvalidExpirationExecutors(_) => {
                    owned && secret && requesters && deciders && !executors
                },
            }
        }),
{
    lemma_callers(configuration.requester_instances@);
    lemma_callers(configuration.decider_instances@);
    lemma_callers(configuration.expiration_executor_instances@);
}

/// A configuration that is created holds what it was given.
pub proof fn law_configuration_holds_what_it_was_given(
    schema: &str,
    secret: &str,
    requesters: Vec<String>,
    deciders: Vec<String>,
    executors: Vec<String>,
    result: Result<BusinessApprovalConfig, BusinessApprovalConfigError>,
    name: Seq<char>,
)
    requires
        call_ensures(
            BusinessApprovalConfig::new,
            (schema, secret, requesters, deciders, executors),
            result,
        ),
    ensures
        result is Ok <==> schema::owned_schema_name(schema@) && identifiers::secret_reference(
            secret@,
        ) && valid_list(requesters@) && valid_list(deciders@) && valid_list(executors@),
        result matches Ok(made) ==> {
            &&& made.schema@ == schema@
            &&& made.database_url_secret@ == secret@
            &&& listed(made.requester_instances@, name) <==> listed(requesters@, name)
            &&& listed(made.decider_instances@, name) <==> listed(deciders@, name)
            &&& listed(made.expiration_executor_instances@, name) <==> listed(executors@, name)
        },
{
    lemma_callers(requesters@);
    lemma_callers(deciders@);
    lemma_callers(executors@);
    lemma_listed(requesters@, name);
    lemma_listed(deciders@, name);
    lemma_listed(executors@, name);
    if let Ok(made) = result {
        lemma_listed(made.requester_instances@, name);
        lemma_listed(made.decider_instances@, name);
        lemma_listed(made.expiration_executor_instances@, name);
    }
}

/// An Instance may request, decide or expire where it is on the list for that, may
/// read where it is on any list, and may read every request where it is on one of
/// the latter two.
pub proof fn law_each_list_grants_its_own(
    configuration: &BusinessApprovalConfig,
    caller: &str,
    request: bool,
    decide: bool,
    expire: bool,
    read: bool,
    read_any: bool,
)
    requires
        call_ensures(BusinessApprovalConfig::can_request, (configuration, caller), request),
        call_ensures(BusinessApprovalConfig::can_decide, (configuration, caller), decide),
        call_ensures(BusinessApprovalConfig::can_expire, (configuration, caller), expire),
        call_ensures(BusinessApprovalConfig::can_read, (configuration, caller), read),
        call_ensures(
            BusinessApprovalConfig::can_read_any_request,
            (configuration, caller),
            read_any,
        ),
    ensures
        request <==> listed(configuration.requester_instances@, caller@),
        decide <==> listed(configuration.decider_instances@, caller@),
        expire <==> listed(configuration.expiration_executor_instances@, caller@),
        read_any <==> decide || expire,
        read <==> request || decide || expire,
{
    lemma_listed(configuration.requester_instances@, caller@);
    lemma_listed(configuration.decider_instances@, caller@);
    lemma_listed(configuration.expiration_executor_instances@, caller@);
}

/// A schema may be owned where its name has one to 63 lowercase letters, digits and
/// underscores, begins with a letter, and is not one that the database keeps for
/// itself.
pub proof fn law_owned_schemas_are_named_apart(
    name: &str,
    result: Result<(), InvalidSchemaName>,
)
    requires
        call_ensures(schema::schema_plan, (name,), result),
    ensures
        result is Ok <==> {
            &&& 1 <= name@.len() <= 63
            &&& 97 <= name@[0] as int <= 122
            &&& forall|i: int|
                0 <= i < name@.len() ==> (lowercase_or_digit(#[trigger] name@[i]) || name@[i]
                    == '_')
            &&& name@ != "public"@
            &&& name@ != "information_schema"@
            &&& !(name@.len() >= 3 && name@[0] == 'p' && name@[1] == 'g' && name@[2] == '_')
        },
        result matches Err(error) ==> error.schema@ == name@,
{
    reveal_strlit("pg_");
    assert forall|i: int| 0 <= i < name@.len() implies lowercase_or_digit(#[trigger] name@[i])
        == text::ascii_lower_or_digit(name@[i]) by {}
    if name@.len() >= 3 && name@[0] == 'p' && name@[1] == 'g' && name@[2] == '_' {
        assert("pg_"@ =~= name@.subrange(0, 3));
    }
    if "pg_"@.is_prefix_of(name@) {
        assert(name@.subrange(0, 3)[0] == 'p' && name@.subrange(0, 3)[1] == 'g'
            && name@.subrange(0, 3)[2] == '_');
    }
}

// Failures.

/// Whether an error reports a contradiction.
pub open spec fn is_internal<E>(error: PluginError<E>, fault: Seq<char>) -> bool {
    error matches PluginError::Runtime(RuntimeFailure::Internal { detail }) && detail@
        == "Business Approval: "@ + fault
}

/// A contradiction is reported by its name, and so is missing terminal evidence.
pub proof fn law_contradictions_are_reported_by_name<E>(
    fault: &str,
    reported: PluginError<E>,
    terminal: PluginError<E>,
)
    requires
        call_ensures(failure::invalid_request_runtime::<E>, (fault,), reported),
        call_ensures(failure::invalid_terminal::<E>, (), terminal),
    ensures
        is_internal(reported, fault@),
        is_internal(terminal, "stored terminal evidence is inconsistent"@),
{
}

/// What is said of a list of callers.
pub open spec fn list_fault(error: CallerListError) -> Seq<char> {
    match error {
        CallerListError::EmptyOrTooLarge => {
            "the list must contain between 1 and 64 Instance keys"@
        },
        CallerListError::InvalidInstance => "an Instance key is invalid"@,
        CallerListError::DuplicateInstance => "Instance keys must not be duplicated"@,
    }
}

/// An invalid configuration is reported by the field at fault.
pub proof fn law_invalid_configurations_are_reported_by_field(
    configuration: &BusinessApprovalConfig,
    validated: Result<(), BusinessApprovalConfigError>,
    result: Result<(), RuntimeFailure>,
)
    requires
        call_ensures(BusinessApprovalConfig::validate, (configuration,), validated),
        call_ensures(config::validate_config, (configuration,), result),
    ensures
        match validated {
            Ok(_) => result is Ok,
            Err(error) => {
                &&& result matches Err(RuntimeFailure::InvalidResolvedPlan { detail })
                &&& detail@ == "Business Approval configuration is invalid: "@ + (match error {
                    BusinessApprovalConfigError::InvalidSchema => {
                        "invalid owned PostgreSQL schema"@
                    },
                    BusinessApprovalConfigError::InvalidSecretReference => {
                        "invalid database URL secret reference"@
                    },
                    BusinessApprovalConfigError::InvalidRequesters(list) => {
                        "invalid requester_instances: "@ + list_fault(list)
                    },
                    BusinessApprovalConfigError::InvalidDeciders(list) => {
                        "invalid decider_instances: "@ + list_fault(list)
                    },
                    BusinessApprovalConfigError::InvalidExpirationExecutors(list) => {
                        "invalid expiration_executor_instances: "@ + list_fault(list)
                    },
                })
            },
        },
{
}

// Instants and numerals.

/// An instant of the years -9999 to 9999 is kept as the last whole microsecond that
/// is not after it, and no other instant is kept.
pub proof fn law_instants_are_kept_in_microseconds<E>(
    nanos: i128,
    result: Result<Timestamp, PluginError<E>>,
)
    requires
        call_ensures(timestamp::normalize_timestamp::<E>, (nanos,), result),
    ensures
        result is Ok <==> -377_705_116_800_000_000_000 <= nanos <= 253_402_300_799_999_999_999,
        result matches Ok(at) ==> at@ % 1000 == 0 && at@ <= nanos < at@ + 1000,
        result matches Err(error) ==> is_internal(error, "timestamp is outside PostgreSQL range"@),
{
}

/// An instant is made of the number of nanoseconds that it is asked for, and gives
/// it back.
pub proof fn law_instants_are_counted_in_nanoseconds(
    nanos: i128,
    made: Option<Timestamp>,
    count: i128,
)
    requires
        call_ensures(Timestamp::from_unix_nanos, (nanos,), made),
        made matches Some(at) ==> call_ensures(Timestamp::unix_nanos, (&at,), count),
    ensures
        made is Some <==> -377_705_116_800_000_000_000 <= nanos <= 253_402_300_799_999_999_999,
        made is Some ==> count == nanos,
{
}

/// An instant is written from the year zero on, and what is written is read as the
/// same instant.
pub proof fn law_written_instants_are_read_back<E>(
    at: Timestamp,
    result: Result<String, PluginError<E>>,
)
    requires
        call_ensures(timestamp::format_timestamp::<E>, (at,), result),
    ensures
        result is Ok <==> at@ >= -62_167_219_200_000_000_000,
        result matches Ok(written) ==> timestamp::rfc3339_instant(written@) == Some(at@),
        result matches Err(error) ==> is_internal(error, "stored timestamp cannot be formatted"@),
{
}

/// The number that decimal digits stand for.
pub open spec fn numeral(digits: Seq<char>) -> int
    decreases digits.len(),
{
    if digits.len() == 0 {
        0
    } else {
        numeral(digits.drop_last()) * 10 + (digits.last() as int - 48)
    }
}

pub(crate) proof fn lemma_decimal(n: nat)
    ensures
        numeral(text::decimal(n)) == n,
        text::decimal(n).len() > 0,
        n > 0 ==> text::decimal(n)[0] != '0',
        forall|i: int|
            0 <= i < text::decimal(n).len() ==> 48 <= (#[trigger] text::decimal(n)[i]) as int
                <= 57,
    decreases n,
{
    reveal_with_fuel(numeral, 2);
    let digits = text::decimal(n);
    if n < 10 {
        assert(digits.drop_last() =~= seq![]);
        assert(digits[0] as int == 48 + n);
    } else {
        lemma_decimal(n / 10);
        assert(digits.drop_last() =~= text::decimal(n / 10));
        assert(digits.last() as int == 48 + n % 10);
        assert(digits[0] == text::decimal(n / 10)[0]);
    }
}

/// A number is written in decimal digits that stand for it, without a zero before them.
pub proof fn law_numbers_are_written_in_decimal(n: u64, written: String)
    requires
        call_ensures(text::decimal_text, (n,), written),
    ensures
        numeral(written@) == n,
        written@.len() > 0,
        n > 0 ==> written@[0] != '0',
        n == 0 ==> written@.len() == 1,
        forall|i: int| 0 <= i < written@.len() ==> 48 <= (#[trigger] written@[i]) as int <= 57,
{
    lemma_decimal(n as nat);
}

/// A revision is written from one on: in decimal digits, without a leading zero, that
/// stand for it.
pub proof fn law_revisions_are_written_in_decimal<E>(
    revision: i64,
    result: Result<String, PluginError<E>>,
)
    requires
        call_ensures(response::revision_string::<E>, (revision,), result),
    ensures
        result is Ok <==> revision >= 1,
        result matches Ok(written) ==> {
            &&& numeral(written@) == revision
            &&& written@.len() > 0
            &&& written@[0] != '0'
            &&& forall|i: int|
                0 <= i < written@.len() ==> 48 <= (#[trigger] written@[i]) as int <= 57
        },
        result matches Err(error) ==> is_internal(error, "stored revision is invalid"@),
{
    if revision >= 1 {
        lemma_decimal(revision as nat);
    }
}

/// The first two revisions are written as one digit.
pub(crate) proof fn lemma_first_revisions()
    ensures
        text::decimal(1) == "1"@,
        text::decimal(2) == "2"@,
{
    reveal_strlit("1");
    reveal_strlit("2");
    assert(text::decimal(1) =~= "1"@);
    assert(text::decimal(2) =~= "2"@);
}

// Statuses and rows.

/// The word for a status.
pub open spec fn word(status: ApprovalStatus) -> Seq<char> {
    match status {
        ApprovalStatus::Pending => "pending"@,
        ApprovalStatus::Approved => "approved"@,
        ApprovalStatus::Rejected => "rejected"@,
        ApprovalStatus::Cancelled => "cancelled"@,
        ApprovalStatus::Expired => "expired"@,
    }
}

/// A status is written as its word, and no text but that word is read as it.
pub proof fn law_statuses_are_their_words(
    status: ApprovalStatus,
    written: &'static str,
    value: &str,
    result: Result<ApprovalStatus, StorageError>,
)
    requires
        call_ensures(ApprovalStatus::as_str, (status,), written),
        call_ensures(ApprovalStatus::parse, (value,), result),
    ensures
        written@ == word(status),
        result == Ok::<_, StorageError>(status) <==> value@ == word(status),
        result matches Err(error) ==> error matches StorageError::InvalidStatus { status: unknown }
            && unknown@ == value@,
{
    storage::law_status_text_is_read_back(status);
}

/// Whether an approval has the evidence that its status calls for.
pub open spec fn evidenced(approval: StoredApproval) -> bool {
    let ended = approval.revision == 2 && approval.terminal_caller_instance is Some
        && approval.terminal_at is Some;
    match approval.status {
        ApprovalStatus::Pending => {
            &&& approval.revision == 1
            &&& approval.terminal_caller_instance is None
            &&& approval.terminal_actor is None
            &&& approval.evidence_ref is None
            &&& approval.reason is None
            &&& approval.terminal_at is None
        },
        ApprovalStatus::Approved | ApprovalStatus::Rejected => {
            ended && approval.terminal_actor is Some && approval.evidence_ref is Some
        },
        ApprovalStatus::Cancelled => {
            ended && approval.terminal_actor is Some && approval.evidence_ref is None
        },
        ApprovalStatus::Expired => {
            ended && approval.terminal_actor is None && approval.evidence_ref is None
                && approval.reason is None
        },
    }
}

/// The evidence of an approval is accepted exactly where its status calls for it.
pub proof fn law_evidence_fits_the_status(
    approval: &StoredApproval,
    result: Result<(), StorageError>,
)
    requires
        call_ensures(storage::validate_evidence, (approval,), result),
    ensures
        result is Ok <==> evidenced(*approval),
        result matches Err(error) ==> error is InvalidEvidence,
{
}

/// Whether a column holds a text.
pub open spec fn holds(column: Option<String>, value: String) -> bool {
    column matches Some(content) && content@ == value@
}

/// Whether a column holds a text that may be missing.
pub open spec fn holds_optional(column: Option<Option<String>>, value: Option<String>) -> bool {
    match (column, value) {
        (Some(None), None) => true,
        (Some(Some(content)), Some(text)) => content@ == text@,
        _ => false,
    }
}

/// Whether an approval is what a row holds, column by column.
pub open spec fn is_read_from(approval: StoredApproval, row: ApprovalRow) -> bool {
    &&& row.status matches Some(status) && status@ == word(approval.status)
    &&& row.revision == Some(approval.revision)
    &&& holds(row.request_id, approval.request_id)
    &&& holds(row.requester_instance, approval.requester_instance)
    &&& holds(row.idempotency_key, approval.idempotency_key)
    &&& holds(row.requested_by, approval.requested_by)
    &&& holds(row.approval_kind, approval.approval_kind)
    &&& holds(row.subject_kind, approval.subject_kind)
    &&& holds(row.subject_id, approval.subject_id)
    &&& row.requested_at matches Some(at) && at@ == approval.requested_at@
    &&& row.expires_at matches Some(at) && at@ == approval.expires_at@
    &&& holds_optional(row.terminal_caller_instance, approval.terminal_caller_instance)
    &&& holds_optional(row.terminal_actor, approval.terminal_actor)
    &&& holds_optional(row.evidence_ref, approval.evidence_ref)
    &&& holds_optional(row.reason, approval.reason)
    &&& match (row.terminal_at, approval.terminal_at) {
        (Some(None), None) => true,
        (Some(Some(at)), Some(ended)) => at@ == ended@,
        _ => false,
    }
}

/// A row is read as the approval that it holds, column by column, and with the
/// evidence that its status calls for. A row that holds such an approval is read.
pub proof fn law_rows_are_read_column_by_column(
    row: ApprovalRow,
    result: Result<StoredApproval, StorageError>,
    kept: StoredApproval,
)
    requires
        call_ensures(storage::decode_approval, (row,), result),
    ensures
        result matches Ok(approval) ==> is_read_from(approval, row) && evidenced(approval),
        is_read_from(kept, row) && evidenced(kept) ==> result is Ok,
{
    if let Ok(approval) = result {
        storage::law_status_text_is_read_back(approval.status);
    }
    if is_read_from(kept, row) && evidenced(kept) {
        storage::law_status_text_is_read_back(kept.status);
        assert(row@.approval() == kept@);
    }
}

/// The operation whose failure a row stands for that has a column missing: the first
/// one missing, when the status is read first, then the revision, then the rest.
pub open spec fn missing(row: ApprovalRow) -> Option<Seq<char>> {
    if row.request_id is None {
        Some("decode request ID"@)
    } else if row.requester_instance is None {
        Some("decode requester Instance"@)
    } else if row.idempotency_key is None {
        Some("decode idempotency key"@)
    } else if row.requested_by is None {
        Some("decode requester"@)
    } else if row.approval_kind is None {
        Some("decode approval kind"@)
    } else if row.subject_kind is None {
        Some("decode subject kind"@)
    } else if row.subject_id is None {
        Some("decode subject ID"@)
    } else if row.requested_at is None {
        Some("decode request timestamp"@)
    } else if row.expires_at is None {
        Some("decode expiration timestamp"@)
    } else if row.terminal_caller_instance is None {
        Some("decode terminal caller"@)
    } else if row.terminal_actor is None {
        Some("decode terminal actor"@)
    } else if row.evidence_ref is None {
        Some("decode evidence reference"@)
    } else if row.reason is None {
        Some("decode reason"@)
    } else if row.terminal_at is None {
        Some("decode terminal timestamp"@)
    } else {
        None
    }
}

/// Whether an error is that of a failed operation.
pub open spec fn is_failed(error: StorageError, name: Seq<char>) -> bool {
    error matches StorageError::Database { operation } && operation@ == name
}

/// The first fault of a row is the one that is reported.
pub proof fn law_first_fault_of_a_row_is_reported(
    row: ApprovalRow,
    result: Result<StoredApproval, StorageError>,
)
    requires
        call_ensures(storage::decode_approval, (row,), result),
    ensures
        result matches Err(error) ==> match (row.status, row.revision) {
            (None, _) => is_failed(error, "decode status"@),
            (Some(status), revision) => if forall|known: ApprovalStatus|
                status@ != #[trigger] word(known) {
                error matches StorageError::InvalidStatus { status: unknown } && unknown@ == status@
            } else {
                match revision {
                    None => is_failed(error, "decode revision"@),
                    Some(number) => if number < 1 {
                        error is InvalidRevision
                    } else {
                        match missing(row) {
                            Some(name) => is_failed(error, name),
                            None => error is InvalidEvidence,
                        }
                    },
                }
            },
        },
{
    if let Some(status) = row.status {
        if storage::status_of(status@) is Some {
            let known = storage::status_of(status@)->0;
            storage::law_status_text_is_read_back(known);
            assert(status@ == word(known));
        } else {
            assert forall|known: ApprovalStatus| status@ != #[trigger] word(known) by {
                storage::law_status_text_is_read_back(known);
            }
        }
    }
}

/// A request is the one that an intent asks for where everything but the time of
/// asking agrees.
pub proof fn law_same_intent_agrees_in_all_but_the_time(
    approval: &StoredApproval,
    intent: &RequestIntent,
    same: bool,
)
    requires
        call_ensures(storage::same_intent, (approval, intent), same),
    ensures
        same <==> {
            &&& approval.request_id@ == intent.request_id@
            &&& approval.requester_instance@ == intent.requester_instance@
            &&& approval.idempotency_key@ == intent.idempotency_key@
            &&& approval.requested_by@ == intent.requested_by@
            &&& approval.approval_kind@ == intent.approval_kind@
            &&& approval.subject_kind@ == intent.subject_kind@
            &&& approval.subject_id@ == intent.subject_id@
            &&& approval.expires_at@ == intent.expires_at@
        },
{
}

/// An intent is overdue where its deadline does not lie after the time of asking,
/// however far ahead it lies otherwise.
pub proof fn law_intent_is_overdue_from_its_deadline_on(intent: &RequestIntent, overdue: bool)
    requires
        call_ensures(RequestIntent::overdue, (intent,), overdue),
    ensures
        overdue <==> intent.expires_at@ <= intent.requested_at@,
        intent@.overdue() <==> intent.expires_at@ <= intent.requested_at@,
{
}

} // verus!
