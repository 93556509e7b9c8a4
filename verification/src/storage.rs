//! What the database keeps of an approval, and how a row of it is read.

use vstd::prelude::*;

use crate::text;
use crate::timestamp;
use crate::timestamp::Timestamp;

verus! {

/// The status of an approval request.
#[derive(Clone, Copy, Debug, PartialEq, Eq, Structural)]
pub enum ApprovalStatus {
    Pending,
    Approved,
    Rejected,
    Cancelled,
    Expired,
}

/// The text that stands for a status in the database.
pub open spec fn status_text(status: ApprovalStatus) -> Seq<char> {
    match status {
        ApprovalStatus::Pending => "pending"@,
        ApprovalStatus::Approved => "approved"@,
        ApprovalStatus::Rejected => "rejected"@,
        ApprovalStatus::Cancelled => "cancelled"@,
        ApprovalStatus::Expired => "expired"@,
    }
}

/// The status that a text stands for, if any.
pub open spec fn status_of(value: Seq<char>) -> Option<ApprovalStatus> {
    if value == "pending"@ {
        Some(ApprovalStatus::Pending)
    } else if value == "approved"@ {
        Some(ApprovalStatus::Approved)
    } else if value == "rejected"@ {
        Some(ApprovalStatus::Rejected)
    } else if value == "cancelled"@ {
        Some(ApprovalStatus::Cancelled)
    } else if value == "expired"@ {
        Some(ApprovalStatus::Expired)
    } else {
        None
    }
}

impl ApprovalStatus {
    /// The text that stands for the status in the database.
    pub fn as_str(self) -> (value: &'static str)
        ensures
            value@ == status_text(self),
    {
        match self {
            ApprovalStatus::Pending => "pending",
            ApprovalStatus::Approved => "approved",
            ApprovalStatus::Rejected => "rejected",
            ApprovalStatus::Cancelled => "cancelled",
            ApprovalStatus::Expired => "expired",
        }
    }

    /// Reads the text that stands for a status.
    pub fn parse(value: &str) -> (result: Result<ApprovalStatus, StorageError>)
        ensures
            match result {
                Ok(status) => status_of(value@) == Some(status),
                Err(error) => status_of(value@) is None && error@ == (
                StorageErrorModel::InvalidStatus { status: value@ }),
            },
    {
        if text::same_text(value, "pending") {
            Ok(ApprovalStatus::Pending)
        } else if text::same_text(value, "approved") {
            Ok(ApprovalStatus::Approved)
        } else if text::same_text(value, "rejected") {
            Ok(ApprovalStatus::Rejected)
        } else if text::same_text(value, "cancelled") {
            Ok(ApprovalStatus::Cancelled)
        } else if text::same_text(value, "expired") {
            Ok(ApprovalStatus::Expired)
        } else {
            Err(StorageError::InvalidStatus { status: value.to_owned() })
        }
    }
}

/// A status and the text that stands for it determine each other.
pub proof fn law_status_text_is_read_back(status: ApprovalStatus)
    ensures
        status_of(status_text(status)) == Some(status),
        forall|value: Seq<char>| #[trigger]
            status_of(value) == Some(status) ==> value == status_text(status),
{
    reveal_strlit("pending");
    reveal_strlit("approved");
    reveal_strlit("rejected");
    reveal_strlit("cancelled");
    reveal_strlit("expired");
    assert("pending"@.len() == 7 && "approved"@.len() == 8 && "rejected"@.len() == 8);
    assert("cancelled"@.len() == 9 && "expired"@.len() == 7);
    assert("pending"@[0] == 'p' && "expired"@[0] == 'e');
    assert("approved"@[0] == 'a' && "rejected"@[0] == 'r');
}

/// A rule of the capability that stops an operation on storage.
#[derive(Clone, Copy, Debug, PartialEq, Eq, Structural)]
pub enum DomainFailure {
    IdempotencyConflict,
    RequestNotFound,
    AlreadyTerminal,
    NotRequester,
    NotDue,
    /// A request that is not there yet cannot be made after its deadline.
    DeadlinePassed,
}

/// A failure of the database, or of what it holds.
#[derive(Clone, Debug, PartialEq, Eq)]
pub enum StorageError {
    /// A database operation failed.
    Database { operation: &'static str },
    /// A row has a status that is none.
    InvalidStatus { status: String },
    /// A row has a revision below one.
    InvalidRevision,
    /// A row has other terminal evidence than its status calls for.
    InvalidEvidence,
    /// A conflicting insertion left no row to be found.
    InconsistentIdempotency,
}

/// The value of a [`StorageError`].
pub enum StorageErrorModel {
    Database { operation: Seq<char> },
    InvalidStatus { status: Seq<char> },
    InvalidRevision,
    InvalidEvidence,
    InconsistentIdempotency,
}

impl View for StorageError {
    type V = StorageErrorModel;

    open spec fn view(&self) -> StorageErrorModel {
        match *self {
            StorageError::Database { operation } => {
                StorageErrorModel::Database { operation: operation@ }
            },
            StorageError::InvalidStatus { status } => {
                StorageErrorModel::InvalidStatus { status: status@ }
            },
            StorageError::InvalidRevision => StorageErrorModel::InvalidRevision,
            StorageError::InvalidEvidence => StorageErrorModel::InvalidEvidence,
            StorageError::InconsistentIdempotency => StorageErrorModel::InconsistentIdempotency,
        }
    }
}

/// The message of a storage error.
pub open spec fn storage_message(error: StorageErrorModel) -> Seq<char> {
    match error {
        StorageErrorModel::Database { operation } => {
            "PostgreSQL operation `"@ + operation + "` failed"@
        },
        StorageErrorModel::InvalidStatus { status } => {
            "stored Business Approval status `"@ + status + "` is invalid"@
        },
        StorageErrorModel::InvalidRevision => "stored Business Approval revision is invalid"@,
        StorageErrorModel::InvalidEvidence => {
            "stored Business Approval terminal evidence is inconsistent"@
        },
        StorageErrorModel::InconsistentIdempotency => {
            "idempotency conflict could not be resolved to an existing request"@
        },
    }
}

impl StorageError {
    /// The message of the error.
    pub fn message(&self) -> (message: String)
        ensures
            message@ == storage_message(self@),
    {
        match self {
            StorageError::Database { operation } => {
                text::joined("PostgreSQL operation `", operation, "` failed")
            },
            StorageError::InvalidStatus { status } => {
                text::joined("stored Business Approval status `", status.as_str(), "` is invalid")
            },
            StorageError::InvalidRevision => {
                "stored Business Approval revision is invalid".to_owned()
            },
            StorageError::InvalidEvidence => {
                "stored Business Approval terminal evidence is inconsistent".to_owned()
            },
            StorageError::InconsistentIdempotency => {
                "idempotency conflict could not be resolved to an existing request".to_owned()
            },
        }
    }
}

/// What a requester asks for.
#[derive(Clone, Debug, PartialEq, Eq)]
pub struct RequestIntent {
    pub request_id: String,
    pub requester_instance: String,
    pub idempotency_key: String,
    pub requested_by: String,
    pub approval_kind: String,
    pub subject_kind: String,
    pub subject_id: String,
    pub requested_at: Timestamp,
    pub expires_at: Timestamp,
}

/// The value of a [`RequestIntent`].
pub struct IntentModel {
    pub request_id: Seq<char>,
    pub requester_instance: Seq<char>,
    pub idempotency_key: Seq<char>,
    pub requested_by: Seq<char>,
    pub approval_kind: Seq<char>,
    pub subject_kind: Seq<char>,
    pub subject_id: Seq<char>,
    pub requested_at: int,
    pub expires_at: int,
}

impl View for RequestIntent {
    type V = IntentModel;

    open spec fn view(&self) -> IntentModel {
        IntentModel {
            request_id: self.request_id@,
            requester_instance: self.requester_instance@,
            idempotency_key: self.idempotency_key@,
            requested_by: self.requested_by@,
            approval_kind: self.approval_kind@,
            subject_kind: self.subject_kind@,
            subject_id: self.subject_id@,
            requested_at: self.requested_at@,
            expires_at: self.expires_at@,
        }
    }
}

impl IntentModel {
    /// Whether the deadline does not lie after the time of asking. Such an intent
    /// can only be the retry of a request that is there already.
    pub open spec fn overdue(self) -> bool {
        self.expires_at <= self.requested_at
    }
}

impl RequestIntent {
    /// Whether the deadline does not lie after the time of asking.
    pub fn overdue(&self) -> (overdue: bool)
        ensures
            overdue == self@.overdue(),
    {
        self.expires_at.unix_nanos() <= self.requested_at.unix_nanos()
    }
}

/// An approval request as the database keeps it.
#[derive(Clone, Debug, PartialEq, Eq)]
pub struct StoredApproval {
    pub request_id: String,
    pub requester_instance: String,
    pub idempotency_key: String,
    pub requested_by: String,
    pub approval_kind: String,
    pub subject_kind: String,
    pub subject_id: String,
    pub status: ApprovalStatus,
    pub revision: i64,
    pub requested_at: Timestamp,
    pub expires_at: Timestamp,
    pub terminal_caller_instance: Option<String>,
    pub terminal_actor: Option<String>,
    pub evidence_ref: Option<String>,
    pub reason: Option<String>,
    pub terminal_at: Option<Timestamp>,
}

/// The value of a [`StoredApproval`].
pub struct ApprovalModel {
    pub request_id: Seq<char>,
    pub requester_instance: Seq<char>,
    pub idempotency_key: Seq<char>,
    pub requested_by: Seq<char>,
    pub approval_kind: Seq<char>,
    pub subject_kind: Seq<char>,
    pub subject_id: Seq<char>,
    pub status: ApprovalStatus,
    pub revision: int,
    pub requested_at: int,
    pub expires_at: int,
    pub terminal_caller_instance: Option<Seq<char>>,
    pub terminal_actor: Option<Seq<char>>,
    pub evidence_ref: Option<Seq<char>>,
    pub reason: Option<Seq<char>>,
    pub terminal_at: Option<int>,
}

impl View for StoredApproval {
    type V = ApprovalModel;

    open spec fn view(&self) -> ApprovalModel {
        ApprovalModel {
            request_id: self.request_id@,
            requester_instance: self.requester_instance@,
            idempotency_key: self.idempotency_key@,
            requested_by: self.requested_by@,
            approval_kind: self.approval_kind@,
            subject_kind: self.subject_kind@,
            subject_id: self.subject_id@,
            status: self.status,
            revision: self.revision as int,
            requested_at: self.requested_at@,
            expires_at: self.expires_at@,
            terminal_caller_instance: text::optional_text(self.terminal_caller_instance),
            terminal_actor: text::optional_text(self.terminal_actor),
            evidence_ref: text::optional_text(self.evidence_ref),
            reason: text::optional_text(self.reason),
            terminal_at: timestamp::optional_instant(self.terminal_at),
        }
    }
}

/// The answer to a request: the approval, and whether it was created for it.
#[derive(Clone, Debug, PartialEq, Eq)]
pub struct RequestOutcome {
    pub created: bool,
    pub approval: StoredApproval,
}

/// The value of a [`RequestOutcome`].
pub struct OutcomeModel {
    pub created: bool,
    pub approval: ApprovalModel,
}

impl View for RequestOutcome {
    type V = OutcomeModel;

    open spec fn view(&self) -> OutcomeModel {
        OutcomeModel { created: self.created, approval: self.approval@ }
    }
}

impl ApprovalModel {
    /// Whether the terminal evidence is what the status calls for.
    ///
    /// A pending request is at revision one and has none. A terminal one is at
    /// revision two and names the Instance and the time of its terminal step; a
    /// decision has an actor and an evidence reference, a cancellation an actor
    /// alone, and an expiration neither of them nor a reason.
    pub open spec fn consistent(self) -> bool {
        if self.status is Pending {
            &&& self.revision == 1
            &&& self.terminal_caller_instance is None
            &&& self.terminal_actor is None
            &&& self.evidence_ref is None
            &&& self.reason is None
            &&& self.terminal_at is None
        } else {
            &&& self.revision == 2
            &&& self.terminal_caller_instance is Some
            &&& self.terminal_at is Some
            &&& self.terminal_actor is Some <==> !(self.status is Expired)
            &&& self.evidence_ref is Some <==> (self.status is Approved || self.status is Rejected)
            &&& self.status is Expired ==> self.reason is None
        }
    }

    /// Whether the approval is the one that an intent asks for.
    pub open spec fn asked_by(self, intent: IntentModel) -> bool {
        &&& self.request_id == intent.request_id
        &&& self.requester_instance == intent.requester_instance
        &&& self.idempotency_key == intent.idempotency_key
        &&& self.requested_by == intent.requested_by
        &&& self.approval_kind == intent.approval_kind
        &&& self.subject_kind == intent.subject_kind
        &&& self.subject_id == intent.subject_id
        &&& self.expires_at == intent.expires_at
    }
}

/// Checks that the terminal evidence is what the status calls for.
pub fn validate_evidence(approval: &StoredApproval) -> (result: Result<(), StorageError>)
    ensures
        match result {
            Ok(_) => approval@.consistent(),
            Err(error) => !approval@.consistent() && error@ == StorageErrorModel::InvalidEvidence,
        },
{
    let valid = match approval.status {
        ApprovalStatus::Pending => {
            approval.revision == 1 && approval.terminal_caller_instance.is_none()
                && approval.terminal_actor.is_none() && approval.evidence_ref.is_none()
                && approval.reason.is_none() && approval.terminal_at.is_none()
        },
        ApprovalStatus::Approved | ApprovalStatus::Rejected => {
            approval.revision == 2 && approval.terminal_caller_instance.is_some()
                && approval.terminal_actor.is_some() && approval.evidence_ref.is_some()
                && approval.terminal_at.is_some()
        },
        ApprovalStatus::Cancelled => {
            approval.revision == 2 && approval.terminal_caller_instance.is_some()
                && approval.terminal_actor.is_some() && approval.evidence_ref.is_none()
                && approval.terminal_at.is_some()
        },
        ApprovalStatus::Expired => {
            approval.revision == 2 && approval.terminal_caller_instance.is_some()
                && approval.terminal_actor.is_none() && approval.evidence_ref.is_none()
                && approval.reason.is_none() && approval.terminal_at.is_some()
        },
    };
    if valid {
        Ok(())
    } else {
        Err(StorageError::InvalidEvidence)
    }
}

/// Whether an approval is the one that an intent asks for. The time of the asking
/// does not count: a retry comes later.
pub fn same_intent(approval: &StoredApproval, intent: &RequestIntent) -> (same: bool)
    ensures
        same == approval@.asked_by(intent@),
{
    approval.request_id == intent.request_id && approval.requester_instance
        == intent.requester_instance && approval.idempotency_key == intent.idempotency_key
        && approval.requested_by == intent.requested_by && approval.approval_kind
        == intent.approval_kind && approval.subject_kind == intent.subject_kind
        && approval.subject_id == intent.subject_id && approval.expires_at.same(&intent.expires_at)
}

/// One row of the table, column by column. A column that could not be decoded
/// holds nothing.
#[derive(Clone, Debug, PartialEq, Eq)]
pub struct ApprovalRow {
    pub status: Option<String>,
    pub revision: Option<i64>,
    pub request_id: Option<String>,
    pub requester_instance: Option<String>,
    pub idempotency_key: Option<String>,
    pub requested_by: Option<String>,
    pub approval_kind: Option<String>,
    pub subject_kind: Option<String>,
    pub subject_id: Option<String>,
    pub requested_at: Option<Timestamp>,
    pub expires_at: Option<Timestamp>,
    pub terminal_caller_instance: Option<Option<String>>,
    pub terminal_actor: Option<Option<String>>,
    pub evidence_ref: Option<Option<String>>,
    pub reason: Option<Option<String>>,
    pub terminal_at: Option<Option<Timestamp>>,
}

/// The value of an [`ApprovalRow`].
pub struct RowModel {
    pub status: Option<Seq<char>>,
    pub revision: Option<int>,
    pub request_id: Option<Seq<char>>,
    pub requester_instance: Option<Seq<char>>,
    pub idempotency_key: Option<Seq<char>>,
    pub requested_by: Option<Seq<char>>,
    pub approval_kind: Option<Seq<char>>,
    pub subject_kind: Option<Seq<char>>,
    pub subject_id: Option<Seq<char>>,
    pub requested_at: Option<int>,
    pub expires_at: Option<int>,
    pub terminal_caller_instance: Option<Option<Seq<char>>>,
    pub terminal_actor: Option<Option<Seq<char>>>,
    pub evidence_ref: Option<Option<Seq<char>>>,
    pub reason: Option<Option<Seq<char>>>,
    pub terminal_at: Option<Option<int>>,
}

/// The value of a column that may be null.
pub open spec fn nullable_text(column: Option<Option<String>>) -> Option<Option<Seq<char>>> {
    match column {
        Some(value) => Some(text::optional_text(value)),
        None => None,
    }
}

impl View for ApprovalRow {
    type V = RowModel;

    open spec fn view(&self) -> RowModel {
        RowModel {
            status: text::optional_text(self.status),
            revision: match self.revision {
                Some(revision) => Some(revision as int),
                None => None,
            },
            request_id: text::optional_text(self.request_id),
            requester_instance: text::optional_text(self.requester_instance),
            idempotency_key: text::optional_text(self.idempotency_key),
            requested_by: text::optional_text(self.requested_by),
            approval_kind: text::optional_text(self.approval_kind),
            subject_kind: text::optional_text(self.subject_kind),
            subject_id: text::optional_text(self.subject_id),
            requested_at: timestamp::optional_instant(self.requested_at),
            expires_at: timestamp::optional_instant(self.expires_at),
            terminal_caller_instance: nullable_text(self.terminal_caller_instance),
            terminal_actor: nullable_text(self.terminal_actor),
            evidence_ref: nullable_text(self.evidence_ref),
            reason: nullable_text(self.reason),
            terminal_at: match self.terminal_at {
                Some(at) => Some(timestamp::optional_instant(at)),
                None => None,
            },
        }
    }
}

/// The error of a column that could not be decoded.
pub open spec fn undecoded(operation: Seq<char>) -> Option<StorageErrorModel> {
    Some(StorageErrorModel::Database { operation })
}

impl RowModel {
    /// The first column, after the status and the revision, that could not be
    /// decoded.
    pub open spec fn undecoded_column(self) -> Option<StorageErrorModel> {
        if self.request_id is None {
            undecoded("decode request ID"@)
        } else if self.requester_instance is None {
            undecoded("decode requester Instance"@)
        } else if self.idempotency_key is None {
            undecoded("decode idempotency key"@)
        } else if self.requested_by is None {
            undecoded("decode requester"@)
        } else if self.approval_kind is None {
            undecoded("decode approval kind"@)
        } else if self.subject_kind is None {
            undecoded("decode subject kind"@)
        } else if self.subject_id is None {
            undecoded("decode subject ID"@)
        } else if self.requested_at is None {
            undecoded("decode request timestamp"@)
        } else if self.expires_at is None {
            undecoded("decode expiration timestamp"@)
        } else if self.terminal_caller_instance is None {
            undecoded("decode terminal caller"@)
        } else if self.terminal_actor is None {
            undecoded("decode terminal actor"@)
        } else if self.evidence_ref is None {
            undecoded("decode evidence reference"@)
        } else if self.reason is None {
            undecoded("decode reason"@)
        } else if self.terminal_at is None {
            undecoded("decode terminal timestamp"@)
        } else {
            None
        }
    }

    /// The approval in the row, where every column of it was decoded.
    pub open spec fn approval(self) -> ApprovalModel {
        ApprovalModel {
            request_id: self.request_id->0,
            requester_instance: self.requester_instance->0,
            idempotency_key: self.idempotency_key->0,
            requested_by: self.requested_by->0,
            approval_kind: self.approval_kind->0,
            subject_kind: self.subject_kind->0,
            subject_id: self.subject_id->0,
            status: status_of(self.status->0)->0,
            revision: self.revision->0,
            requested_at: self.requested_at->0,
            expires_at: self.expires_at->0,
            terminal_caller_instance: self.terminal_caller_instance->0,
            terminal_actor: self.terminal_actor->0,
            evidence_ref: self.evidence_ref->0,
            reason: self.reason->0,
            terminal_at: self.terminal_at->0,
        }
    }

    /// What is wrong with the row, if anything: the first thing that shows when
    /// the status is read first, then the revision, then the other columns, and
    /// the terminal evidence last.
    pub open spec fn defect(self) -> Option<StorageErrorModel> {
        match self.status {
            None => undecoded("decode status"@),
            Some(status) => if status_of(status) is None {
                Some(StorageErrorModel::InvalidStatus { status })
            } else {
                match self.revision {
                    None => undecoded("decode revision"@),
                    Some(revision) => if revision < 1 {
                        Some(StorageErrorModel::InvalidRevision)
                    } else if self.undecoded_column() is Some {
                        self.undecoded_column()
                    } else if !self.approval().consistent() {
                        Some(StorageErrorModel::InvalidEvidence)
                    } else {
                        None
                    },
                }
            },
        }
    }
}

/// The content of a column, or the failure of the decoding that it stands for.
pub fn value<T>(column: Option<T>, operation: &'static str) -> (result: Result<T, StorageError>)
    ensures
        match column {
            Some(content) => result == Ok::<T, StorageError>(content),
            None => result matches Err(error) && error@ == (StorageErrorModel::Database {
                operation: operation@,
            }),
        },
{
    match column {
        Some(content) => Ok(content),
        None => Err(StorageError::Database { operation }),
    }
}

/// Reads an approval from a row of the table.
pub fn decode_approval(row: ApprovalRow) -> (result: Result<StoredApproval, StorageError>)
    ensures
        match result {
            Ok(approval) => row@.defect() is None && approval@ == row@.approval(),
            Err(error) => row@.defect() == Some(error@),
        },
{
    let status_text = value(row.status, "decode status")?;
    let status = ApprovalStatus::parse(status_text.as_str())?;
    let revision: i64 = value(row.revision, "decode revision")?;
    if revision < 1 {
        return Err(StorageError::InvalidRevision);
    }
    let approval = StoredApproval {
        request_id: value(row.request_id, "decode request ID")?,
        requester_instance: value(row.requester_instance, "decode requester Instance")?,
        idempotency_key: value(row.idempotency_key, "decode idempotency key")?,
        requested_by: value(row.requested_by, "decode requester")?,
        approval_kind: value(row.approval_kind, "decode approval kind")?,
        subject_kind: value(row.subject_kind, "decode subject kind")?,
        subject_id: value(row.subject_id, "decode subject ID")?,
        status,
        revision,
        requested_at: value(row.requested_at, "decode request timestamp")?,
        expires_at: value(row.expires_at, "decode expiration timestamp")?,
        terminal_caller_instance: value(row.terminal_caller_instance, "decode terminal caller")?,
        terminal_actor: value(row.terminal_actor, "decode terminal actor")?,
        evidence_ref: value(row.evidence_ref, "decode evidence reference")?,
        reason: value(row.reason, "decode reason")?,
        terminal_at: value(row.terminal_at, "decode terminal timestamp")?,
    };
    validate_evidence(&approval)?;
    Ok(approval)
}

} // verus!
