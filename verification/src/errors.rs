//! What the entry points of the policy ledger answer when they refuse.

use vstd::prelude::*;
use vstd::string::StringExecFns;
use crate::level::{format_flood_level, level_text, MAX_FLOOD_THRESHOLD};

verus! {

/// The classes of refusal, shared by the ledger and the ingestion side.
#[derive(Clone, Copy, Debug, PartialEq, Eq, Structural)]
pub enum ErrorKind {
    /// The caller does not hold the role that the operation asks for.
    Unauthorized,
    /// An argument is malformed or out of range.
    Validation,
    /// The operation would duplicate something that must be unique.
    Conflict,
    /// No policy, holder or location of that name.
    NotFound,
    /// The transition is not permitted from the current state.
    InvalidState,
    /// The measured level is below the payout threshold.
    ThresholdNotMet,
    /// The data provider could not be reached or sent something unusable.
    ExternalFetchFailure,
    /// Ingestion is switched off.
    Paused,
}

/// Every reason for which the policy ledger refuses an operation.
#[derive(Clone, Copy, Debug, PartialEq, Eq, Structural)]
pub enum LedgerError {
    /// The premium is zero.
    PremiumZero,
    /// The coverage is zero.
    CoverageZero,
    /// The threshold is zero or below.
    ThresholdNotPositive,
    /// The threshold is above the maximum.
    ThresholdTooHigh { requested: i64 },
    /// The holder's current policy is still active.
    PolicyAlreadyActive,
    /// No policy has this id.
    PolicyNotFound,
    /// The caller holds no policy.
    NoPolicyForHolder,
    /// The caller is neither the policy's holder nor the administrator.
    NotHolderOrAdmin,
    /// The caller is not the administrator.
    AdminRequired,
    /// The caller may not push water levels.
    UpdaterRequired,
    /// A payout was asked for on a policy that is not active.
    PayoutOnInactive,
    /// A payout was asked for on a policy that is already paid out.
    AlreadyPaidOut,
    /// The caller's policy is not active.
    NoActivePolicy,
    /// The caller's policy is already paid out.
    PayoutAlreadyIssued,
    /// The water level is below the threshold.
    BelowThreshold,
}

impl LedgerError {
    /// The class of this refusal.
    pub open spec fn kind_of(self) -> ErrorKind {
        match self {
            LedgerError::PremiumZero => ErrorKind::Validation,
            LedgerError::CoverageZero => ErrorKind::Validation,
            LedgerError::ThresholdNotPositive => ErrorKind::Validation,
            LedgerError::ThresholdTooHigh { .. } => ErrorKind::Validation,
            LedgerError::PolicyAlreadyActive => ErrorKind::Conflict,
            LedgerError::PolicyNotFound => ErrorKind::NotFound,
            LedgerError::NoPolicyForHolder => ErrorKind::NotFound,
            LedgerError::NotHolderOrAdmin => ErrorKind::Unauthorized,
            LedgerError::AdminRequired => ErrorKind::Unauthorized,
            LedgerError::UpdaterRequired => ErrorKind::Unauthorized,
            LedgerError::PayoutOnInactive => ErrorKind::InvalidState,
            LedgerError::AlreadyPaidOut => ErrorKind::InvalidState,
            LedgerError::NoActivePolicy => ErrorKind::InvalidState,
            LedgerError::PayoutAlreadyIssued => ErrorKind::InvalidState,
            LedgerError::BelowThreshold => ErrorKind::ThresholdNotMet,
        }
    }

    /// The sentence that a caller is shown.
    pub open spec fn message_text(self) -> Seq<char> {
        match self {
            LedgerError::PremiumZero => "Premium must be greater than 0"@,
            LedgerError::CoverageZero => "Coverage must be greater than 0"@,
            LedgerError::ThresholdNotPositive => "Threshold must be positive"@,
            LedgerError::ThresholdTooHigh { requested } => "Threshold too high: "@ + level_text(
                requested as int,
            ) + " (max "@ + level_text(MAX_FLOOD_THRESHOLD as int) + ")"@,
            LedgerError::PolicyAlreadyActive => "Policy already active"@,
            LedgerError::PolicyNotFound => "Policy not found"@,
            LedgerError::NoPolicyForHolder => "No policy found"@,
            LedgerError::NotHolderOrAdmin => "Unauthorized"@,
            LedgerError::AdminRequired => "Unauthorized: Admin access required"@,
            LedgerError::UpdaterRequired => "Unauthorized: Oracle updater access required"@,
            LedgerError::PayoutOnInactive => "Cannot pay out inactive policy"@,
            LedgerError::AlreadyPaidOut => "Policy already paid out"@,
            LedgerError::NoActivePolicy => "No active policy"@,
            LedgerError::PayoutAlreadyIssued => "Payout already issued"@,
            LedgerError::BelowThreshold => "Flood level below threshold"@,
        }
    }

    /// The class of this refusal.
    pub fn kind(&self) -> (r: ErrorKind)
        ensures
            r == self.kind_of(),
    {
        match self {
            LedgerError::PremiumZero => ErrorKind::Validation,
            LedgerError::CoverageZero => ErrorKind::Validation,
            LedgerError::ThresholdNotPositive => ErrorKind::Validation,
            LedgerError::ThresholdTooHigh { .. } => ErrorKind::Validation,
            LedgerError::PolicyAlreadyActive => ErrorKind::Conflict,
            LedgerError::PolicyNotFound => ErrorKind::NotFound,
            LedgerError::NoPolicyForHolder => ErrorKind::NotFound,
            LedgerError::NotHolderOrAdmin => ErrorKind::Unauthorized,
            LedgerError::AdminRequired => ErrorKind::Unauthorized,
            LedgerError::UpdaterRequired => ErrorKind::Unauthorized,
            LedgerError::PayoutOnInactive => ErrorKind::InvalidState,
            LedgerError::AlreadyPaidOut => ErrorKind::InvalidState,
            LedgerError::NoActivePolicy => ErrorKind::InvalidState,
            LedgerError::PayoutAlreadyIssued => ErrorKind::InvalidState,
            LedgerError::BelowThreshold => ErrorKind::ThresholdNotMet,
        }
    }

    /// The sentence that a caller is shown.
    pub fn message(&self) -> (r: String)
        ensures
            r@ == self.message_text(),
    {
        match self {
            LedgerError::PremiumZero => String::from_str("Premium must be greater than 0"),
            LedgerError::CoverageZero => String::from_str("Coverage must be greater than 0"),
            LedgerError::ThresholdNotPositive => String::from_str("Threshold must be positive"),
            LedgerError::ThresholdTooHigh { requested } => {
                let mut out = String::from_str("Threshold too high: ");
                let asked = format_flood_level(*requested);
                out.append(asked.as_str());
                out.append(" (max ");
                let most = format_flood_level(MAX_FLOOD_THRESHOLD);
                out.append(most.as_str());
                out.append(")");
                out
            },
            LedgerError::PolicyAlreadyActive => String::from_str("Policy already active"),
            LedgerError::PolicyNotFound => String::from_str("Policy not found"),
            LedgerError::NoPolicyForHolder => String::from_str("No policy found"),
            LedgerError::NotHolderOrAdmin => String::from_str("Unauthorized"),
            LedgerError::AdminRequired => String::from_str("Unauthorized: Admin access required"),
            LedgerError::UpdaterRequired => String::from_str(
                "Unauthorized: Oracle updater access required",
            ),
            LedgerError::PayoutOnInactive => String::from_str("Cannot pay out inactive policy"),
            LedgerError::AlreadyPaidOut => String::from_str("Policy already paid out"),
            LedgerError::NoActivePolicy => String::from_str("No active policy"),
            LedgerError::PayoutAlreadyIssued => String::from_str("Payout already issued"),
            LedgerError::BelowThreshold => String::from_str("Flood level below threshold"),
        }
    }
}

/// Every reason for which the ingestion side refuses or fails.
#[derive(Clone, Copy, Debug, PartialEq, Eq, Structural)]
pub enum OracleErrorKind {
    /// The caller is not on the list of those who may operate ingestion.
    Unauthorized,
    /// Ingestion is switched off.
    Paused,
    /// The site has no cached reading.
    NotFound,
    /// The refresh interval is below one minute.
    IntervalTooShort,
    /// The identity is on the list already.
    AlreadyAuthorized,
    /// The outbound call did not come back with a response.
    Transport,
    /// The response body is not UTF-8.
    BodyNotUtf8,
    /// The response body is not a document of the provider.
    MalformedJson,
    /// The document holds no time series.
    NoTimeSeries,
    /// The first time series holds no group of values.
    NoValues,
    /// The first group of values is empty.
    NoLatestValue,
    /// The latest value does not write a level.
    BadLevel,
}

impl OracleErrorKind {
    /// The class of this failure.
    pub open spec fn kind_of(self) -> ErrorKind {
        match self {
            OracleErrorKind::Unauthorized => ErrorKind::Unauthorized,
            OracleErrorKind::Paused => ErrorKind::Paused,
            OracleErrorKind::NotFound => ErrorKind::NotFound,
            OracleErrorKind::IntervalTooShort => ErrorKind::Validation,
            OracleErrorKind::AlreadyAuthorized => ErrorKind::Conflict,
            OracleErrorKind::Transport => ErrorKind::ExternalFetchFailure,
            OracleErrorKind::BodyNotUtf8 => ErrorKind::ExternalFetchFailure,
            OracleErrorKind::MalformedJson => ErrorKind::ExternalFetchFailure,
            OracleErrorKind::NoTimeSeries => ErrorKind::ExternalFetchFailure,
            OracleErrorKind::NoValues => ErrorKind::ExternalFetchFailure,
            OracleErrorKind::NoLatestValue => ErrorKind::ExternalFetchFailure,
            OracleErrorKind::BadLevel => ErrorKind::ExternalFetchFailure,
        }
    }

    /// The class of this failure.
    pub fn kind(&self) -> (r: ErrorKind)
        ensures
            r == self.kind_of(),
    {
        match self {
            OracleErrorKind::Unauthorized => ErrorKind::Unauthorized,
            OracleErrorKind::Paused => ErrorKind::Paused,
            OracleErrorKind::NotFound => ErrorKind::NotFound,
            OracleErrorKind::IntervalTooShort => ErrorKind::Validation,
            OracleErrorKind::AlreadyAuthorized => ErrorKind::Conflict,
            OracleErrorKind::Transport => ErrorKind::ExternalFetchFailure,
            OracleErrorKind::BodyNotUtf8 => ErrorKind::ExternalFetchFailure,
            OracleErrorKind::MalformedJson => ErrorKind::ExternalFetchFailure,
            OracleErrorKind::NoTimeSeries => ErrorKind::ExternalFetchFailure,
            OracleErrorKind::NoValues => ErrorKind::ExternalFetchFailure,
            OracleErrorKind::NoLatestValue => ErrorKind::ExternalFetchFailure,
            OracleErrorKind::BadLevel => ErrorKind::ExternalFetchFailure,
        }
    }
}

/// The sentence for a failure. `detail` is what the sentence is about: the
/// site's key where no reading is found, the text that writes no level,
/// and for the failures of the outbound call what the layer below
/// reported; the other sentences do not use it.
pub open spec fn oracle_message(kind: OracleErrorKind, detail: Seq<char>) -> Seq<char> {
    match kind {
        OracleErrorKind::Unauthorized => "Unauthorized: Caller is not authorized"@,
        OracleErrorKind::Paused => "Oracle is paused"@,
        OracleErrorKind::NotFound => "No data available for location: "@ + detail,
        OracleErrorKind::IntervalTooShort => "Update interval must be at least 60 seconds"@,
        OracleErrorKind::AlreadyAuthorized => "Principal already authorized"@,
        OracleErrorKind::Transport => "HTTP request failed: "@ + detail,
        OracleErrorKind::BodyNotUtf8 => "Failed to parse response body: "@ + detail,
        OracleErrorKind::MalformedJson => "Failed to parse JSON: "@ + detail,
        OracleErrorKind::NoTimeSeries => "No time series data found"@,
        OracleErrorKind::NoValues => "No values found"@,
        OracleErrorKind::NoLatestValue => "No latest value found"@,
        OracleErrorKind::BadLevel => "Failed to parse water level: "@ + detail,
    }
}

/// A failure of the ingestion side: what went wrong, and the sentence that
/// a caller is shown.
#[derive(Debug)]
pub struct OracleError {
    pub kind: OracleErrorKind,
    pub message: String,
}

impl OracleError {
    /// Whether this is the failure `kind` about `detail`.
    pub open spec fn says(self, kind: OracleErrorKind, detail: Seq<char>) -> bool {
        self.kind == kind && self.message@ == oracle_message(kind, detail)
    }

    /// The failure `kind` about `detail`.
    pub fn new(kind: OracleErrorKind, detail: &str) -> (r: OracleError)
        ensures
            r.says(kind, detail@),
    {
        let message = match kind {
            OracleErrorKind::Unauthorized => String::from_str(
                "Unauthorized: Caller is not authorized",
            ),
            OracleErrorKind::Paused => String::from_str("Oracle is paused"),
            OracleErrorKind::NotFound => String::from_str(
                "No data available for location: ",
            ).concat(detail),
            OracleErrorKind::IntervalTooShort => String::from_str(
                "Update interval must be at least 60 seconds",
            ),
            OracleErrorKind::AlreadyAuthorized => String::from_str("Principal already authorized"),
            OracleErrorKind::Transport => String::from_str("HTTP request failed: ").concat(detail),
            OracleErrorKind::BodyNotUtf8 => String::from_str(
                "Failed to parse response body: ",
            ).concat(detail),
            OracleErrorKind::MalformedJson => String::from_str("Failed to parse JSON: ").concat(
                detail,
            ),
            OracleErrorKind::NoTimeSeries => String::from_str("No time series data found"),
            OracleErrorKind::NoValues => String::from_str("No values found"),
            OracleErrorKind::NoLatestValue => String::from_str("No latest value found"),
            OracleErrorKind::BadLevel => String::from_str("Failed to parse water level: ").concat(
                detail,
            ),
        };
        OracleError { kind, message }
    }
}

impl Clone for OracleError {
    fn clone(&self) -> (r: OracleError)
        ensures
            r.kind == self.kind,
            r.message@ == self.message@,
    {
        OracleError { kind: self.kind, message: self.message.clone() }
    }
}

} // verus!
