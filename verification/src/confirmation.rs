use vstd::prelude::*;

verus! {

/// An error of the Solana RPC client (`solana_rpc_client_api::client_error::Error`);
/// opaque here, handed on unchanged.
#[verifier::external_type_specification]
#[verifier::external_body]
pub struct ExClientError(solana_rpc_client_api::client_error::Error);

/// How far a signature has progressed, as seen by a status query.
#[derive(Debug)]
pub enum ConfirmationStatus {
    NotFound,
    Processed,
    Confirmed,
    Finalized,
    Failed(String),
}

/// Why waiting for a confirmation ended without one.
#[derive(Debug)]
pub enum ConfirmationError {
    Rpc(solana_rpc_client_api::client_error::Error),
    TransactionFailed(String),
    Timeout,
}

/// The commitment level a cluster node reports for a transaction.
#[derive(Debug, Clone, Copy, PartialEq, Eq, Structural)]
pub enum CommitmentLevel {
    Processed,
    Confirmed,
    Finalized,
}

/// What a node reports for one signature: the number of confirmations
/// (`None` once the block is rooted), the transaction error rendered as text,
/// if it failed, and the reported commitment level, if the node reports one.
#[derive(Debug, Clone)]
pub struct SignatureStatusReport {
    pub confirmations: Option<usize>,
    pub error: Option<String>,
    pub confirmation_status: Option<CommitmentLevel>,
}

/// The commitment level of a report: the one the node states, or else the one
/// its confirmation count implies (rooted means finalized, at least one
/// confirmation means confirmed, none means processed).
pub open spec fn spec_commitment_level(report: SignatureStatusReport) -> CommitmentLevel {
    match report.confirmation_status {
        Some(level) => level,
        None => match report.confirmations {
            Some(count) => if count > 0 {
                CommitmentLevel::Confirmed
            } else {
                CommitmentLevel::Processed
            },
            None => CommitmentLevel::Finalized,
        },
    }
}

/// The status of a signature given the node's report for it, if any.
pub open spec fn spec_status_from_report(report: Option<SignatureStatusReport>) -> ConfirmationStatus {
    match report {
        None => ConfirmationStatus::NotFound,
        Some(r) => match r.error {
            Some(message) => ConfirmationStatus::Failed(message),
            None => match spec_commitment_level(r) {
                CommitmentLevel::Processed => ConfirmationStatus::Processed,
                CommitmentLevel::Confirmed => ConfirmationStatus::Confirmed,
                CommitmentLevel::Finalized => ConfirmationStatus::Finalized,
            },
        },
    }
}

impl SignatureStatusReport {
    /// The commitment level the report stands for.
    pub fn commitment_level(&self) -> (level: CommitmentLevel)
        ensures
            level == spec_commitment_level(*self),
    {
        match self.confirmation_status {
            Some(level) => level,
            None => match self.confirmations {
                Some(count) => if count > 0 {
                    CommitmentLevel::Confirmed
                } else {
                    CommitmentLevel::Processed
                },
                None => CommitmentLevel::Finalized,
            },
        }
    }
}

/// Classifies the node's report for a signature: no report means the
/// signature is not found, an error means the transaction failed, and
/// otherwise the commitment level decides.
pub fn status_from_report(report: Option<SignatureStatusReport>) -> (status: ConfirmationStatus)
    ensures
        status == spec_status_from_report(report),
{
    match report {
        None => ConfirmationStatus::NotFound,
        Some(r) => {
            let level = r.commitment_level();
            match r.error {
                Some(message) => ConfirmationStatus::Failed(message),
                None => match level {
                    CommitmentLevel::Processed => ConfirmationStatus::Processed,
                    CommitmentLevel::Confirmed => ConfirmationStatus::Confirmed,
                    CommitmentLevel::Finalized => ConfirmationStatus::Finalized,
                },
            }
        },
    }
}

/// Milliseconds to wait before querying a pending signature again.
pub const RETRY_INTERVAL_MS: u64 = 500;

/// What the waiting loop does after one status query.
#[derive(Debug)]
pub enum PollStep {
    /// Query again after this many milliseconds.
    RetryAfter(u64),
    /// Stop waiting with this outcome.
    Finish(Result<ConfirmationStatus, ConfirmationError>),
}

/// The step that follows a status query's outcome.
pub open spec fn spec_next_poll_step(
    poll: Result<ConfirmationStatus, solana_rpc_client_api::client_error::Error>,
) -> PollStep {
    match poll {
        Err(error) => PollStep::Finish(Err(ConfirmationError::Rpc(error))),
        Ok(ConfirmationStatus::NotFound) => PollStep::RetryAfter(RETRY_INTERVAL_MS),
        Ok(ConfirmationStatus::Processed) => PollStep::RetryAfter(RETRY_INTERVAL_MS),
        Ok(ConfirmationStatus::Confirmed) => PollStep::Finish(Ok(ConfirmationStatus::Confirmed)),
        Ok(ConfirmationStatus::Finalized) => PollStep::Finish(Ok(ConfirmationStatus::Finalized)),
        Ok(ConfirmationStatus::Failed(message)) => PollStep::Finish(
            Err(ConfirmationError::TransactionFailed(message)),
        ),
    }
}

/// Decides, after one status query, whether to keep waiting for the
/// signature to be confirmed: a query error or a failed transaction ends the
/// wait with an error, a confirmed or finalized status ends it successfully,
/// and a status that is not found yet or only processed means query again
/// after `RETRY_INTERVAL_MS`.
pub fn next_poll_step(
    poll: Result<ConfirmationStatus, solana_rpc_client_api::client_error::Error>,
) -> (step: PollStep)
    ensures
        step == spec_next_poll_step(poll),
{
    match poll {
        Err(error) => PollStep::Finish(Err(ConfirmationError::Rpc(error))),
        Ok(status) => match status {
            ConfirmationStatus::NotFound | ConfirmationStatus::Processed => PollStep::RetryAfter(
                RETRY_INTERVAL_MS,
            ),
            ConfirmationStatus::Confirmed => PollStep::Finish(Ok(ConfirmationStatus::Confirmed)),
            ConfirmationStatus::Finalized => PollStep::Finish(Ok(ConfirmationStatus::Finalized)),
            ConfirmationStatus::Failed(message) => PollStep::Finish(
                Err(ConfirmationError::TransactionFailed(message)),
            ),
        },
    }
}

/// The wait ends successfully only at the confirmed or finalized level, never
/// gives up on a signature that is still pending, and reports a failed
/// transaction with the node's own error text.
pub proof fn lemma_poll_step_outcomes(
    poll: Result<ConfirmationStatus, solana_rpc_client_api::client_error::Error>,
)
    ensures
        spec_next_poll_step(poll) matches PollStep::Finish(Ok(status)) ==> (status
            is Confirmed || status is Finalized),
        (poll matches Ok(status) && (status is NotFound || status is Processed))
            <==> spec_next_poll_step(poll) is RetryAfter,
        poll matches Ok(ConfirmationStatus::Failed(message)) ==> spec_next_poll_step(poll)
            == PollStep::Finish(Err(ConfirmationError::TransactionFailed(message))),
        poll is Err ==> spec_next_poll_step(poll) matches PollStep::Finish(Err(ConfirmationError::Rpc(_))),
{
}

/// A level the node states is the report's level whatever the confirmation
/// count; without one, a rooted transaction (no count) is finalized, one
/// with confirmations is confirmed and one with none is processed. A report
/// without an error is classified at that level.
pub proof fn lemma_stated_level_wins(report: SignatureStatusReport)
    ensures
        report.confirmation_status matches Some(level) ==> spec_commitment_level(report) == level,
        report.confirmation_status is None && report.confirmations is None ==> spec_commitment_level(report)
            == CommitmentLevel::Finalized,
        report.confirmation_status is None && report.confirmations is Some ==> spec_commitment_level(report)
            == (if report.confirmations->0 > 0 {
            CommitmentLevel::Confirmed
        } else {
            CommitmentLevel::Processed
        }),
        report.error is None && report.confirmation_status == Some(CommitmentLevel::Finalized)
            ==> spec_status_from_report(Some(report)) is Finalized,
        report.error is None && report.confirmation_status == Some(CommitmentLevel::Confirmed)
            ==> spec_status_from_report(Some(report)) is Confirmed,
        report.error is None && report.confirmation_status == Some(CommitmentLevel::Processed)
            ==> spec_status_from_report(Some(report)) is Processed,
{
}

/// A signature the node reports on is never classified as not found, and it
/// is classified as failed exactly when the node reports an error.
pub proof fn lemma_report_classification(report: SignatureStatusReport)
    ensures
        !(spec_status_from_report(Some(report)) is NotFound),
        spec_status_from_report(Some(report)) is Failed <==> report.error is Some,
{
}

} // verus!
