//! The requests, answers and refusals of the capability.

use vstd::prelude::*;

verus! {

/// What an approval is about.
#[derive(Clone, Debug, PartialEq, Eq)]
pub struct RequestRequestSubject {
    pub kind: String,
    pub id: String,
}

/// Asks for an approval.
#[derive(Clone, Debug, PartialEq, Eq)]
pub struct RequestRequest {
    pub request_id: String,
    pub idempotency_key: String,
    pub requested_by: String,
    pub approval_kind: String,
    pub subject: RequestRequestSubject,
    pub expires_at: String,
}

/// The status of an approval that was asked for.
#[derive(Clone, Copy, Debug, PartialEq, Eq, Structural)]
pub enum RequestResponseStatus {
    Pending,
    Approved,
    Rejected,
    Cancelled,
    Expired,
}

/// Answers the asking for an approval.
#[derive(Clone, Debug, PartialEq, Eq)]
pub struct RequestResponse {
    pub created: bool,
    pub request_id: String,
    pub status: RequestResponseStatus,
    pub revision: String,
}

/// Refuses the asking for an approval.
#[derive(Clone, Copy, Debug, PartialEq, Eq, Structural)]
pub enum RequestError {
    Forbidden,
    InvalidRequest,
    IdempotencyConflict,
}

/// Which way a decision goes.
#[derive(Clone, Copy, Debug, PartialEq, Eq, Structural)]
pub enum DecideRequestDecision {
    Approved,
    Rejected,
}

/// Decides about an approval.
#[derive(Clone, Debug, PartialEq, Eq)]
pub struct DecideRequest {
    pub request_id: String,
    pub decision: DecideRequestDecision,
    pub decided_by: String,
    pub evidence_ref: String,
    pub reason: Option<String>,
}

/// The status of an approval that was decided.
#[derive(Clone, Copy, Debug, PartialEq, Eq, Structural)]
pub enum DecideResponseStatus {
    Approved,
    Rejected,
}

/// Answers a decision.
#[derive(Clone, Debug, PartialEq, Eq)]
pub struct DecideResponse {
    pub request_id: String,
    pub status: DecideResponseStatus,
    pub revision: String,
    pub terminal_caller_instance: String,
    pub terminal_actor: Option<String>,
    pub evidence_ref: Option<String>,
    pub reason: Option<String>,
    pub terminal_at: String,
}

/// Refuses a decision.
#[derive(Clone, Copy, Debug, PartialEq, Eq, Structural)]
pub enum DecideError {
    Forbidden,
    InvalidRequest,
    RequestNotFound,
    AlreadyTerminal,
}

/// Cancels an approval.
#[derive(Clone, Debug, PartialEq, Eq)]
pub struct CancelRequest {
    pub request_id: String,
    pub cancelled_by: String,
    pub reason: Option<String>,
}

/// The status of an approval that was cancelled.
#[derive(Clone, Copy, Debug, PartialEq, Eq, Structural)]
pub enum CancelResponseStatus {
    Cancelled,
}

/// Answers a cancellation.
#[derive(Clone, Debug, PartialEq, Eq)]
pub struct CancelResponse {
    pub request_id: String,
    pub status: CancelResponseStatus,
    pub revision: String,
    pub terminal_caller_instance: String,
    pub terminal_actor: Option<String>,
    pub evidence_ref: Option<String>,
    pub reason: Option<String>,
    pub terminal_at: String,
}

/// Refuses a cancellation.
#[derive(Clone, Copy, Debug, PartialEq, Eq, Structural)]
pub enum CancelError {
    Forbidden,
    InvalidRequest,
    RequestNotFound,
    AlreadyTerminal,
    NotRequester,
}

/// Reads an approval.
#[derive(Clone, Debug, PartialEq, Eq)]
pub struct ReadRequest {
    pub request_id: String,
}

/// What an approval that was read is about.
#[derive(Clone, Debug, PartialEq, Eq)]
pub struct ReadResponseSubject {
    pub kind: String,
    pub id: String,
}

/// The status of an approval that was read.
#[derive(Clone, Copy, Debug, PartialEq, Eq, Structural)]
pub enum ReadResponseStatus {
    Pending,
    Approved,
    Rejected,
    Cancelled,
    Expired,
}

/// Answers a read.
#[derive(Clone, Debug, PartialEq, Eq)]
pub struct ReadResponse {
    pub request_id: String,
    pub idempotency_key: String,
    pub approval_kind: String,
    pub subject: ReadResponseSubject,
    pub requester_instance: String,
    pub requested_by: String,
    pub status: ReadResponseStatus,
    pub revision: String,
    pub requested_at: String,
    pub expires_at: String,
    pub terminal_caller_instance: Option<String>,
    pub terminal_actor: Option<String>,
    pub evidence_ref: Option<String>,
    pub reason: Option<String>,
    pub terminal_at: Option<String>,
}

/// Refuses a read.
#[derive(Clone, Copy, Debug, PartialEq, Eq, Structural)]
pub enum ReadError {
    Forbidden,
    InvalidRequest,
    RequestNotFound,
}

/// Expires an approval.
#[derive(Clone, Debug, PartialEq, Eq)]
pub struct ExpireRequest {
    pub request_id: String,
}

/// The status of an approval that has expired.
#[derive(Clone, Copy, Debug, PartialEq, Eq, Structural)]
pub enum ExpireResponseStatus {
    Expired,
}

/// Answers an expiration.
#[derive(Clone, Debug, PartialEq, Eq)]
pub struct ExpireResponse {
    pub request_id: String,
    pub status: ExpireResponseStatus,
    pub revision: String,
    pub terminal_caller_instance: String,
    pub terminal_actor: Option<String>,
    pub evidence_ref: Option<String>,
    pub reason: Option<String>,
    pub terminal_at: String,
}

/// Refuses an expiration.
#[derive(Clone, Copy, Debug, PartialEq, Eq, Structural)]
pub enum ExpireError {
    Forbidden,
    InvalidRequest,
    RequestNotFound,
    AlreadyTerminal,
    NotDue,
}

} // verus!
