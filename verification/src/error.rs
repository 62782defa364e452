use vstd::prelude::*;

verus! {

/// Why a protocol operation was rejected. Every check is terminal: a rejected
/// operation has no effect on any record.
#[derive(Clone, Copy, PartialEq, Eq, Structural, Debug)]
pub enum ErrorCode {
    /// `create_lock` was invoked by a caller that does not hold the asset's
    /// current supply-control rights.
    InvalidSupplyController,
    /// The operation was invoked by a principal other than the required
    /// admin or authority.
    Unauthorized,
    /// A mint authority's back-reference, or a presented account, does not
    /// match the lock it is used with.
    RecordMismatch,
    /// A mint was attempted while the authority's enable flag is off.
    AuthorityDisabled,
    /// The requested amount would exceed the remaining daily allowance.
    QuotaExceeded,
    /// A derivation offset does not reproduce the expected address.
    InvalidDerivation,
}

impl ErrorCode {
    /// A short description of the rejection, for callers that surface it.
    pub fn message(&self) -> (m: &'static str)
        ensures
            m@ == self.message_spec(),
    {
        match self {
            ErrorCode::InvalidSupplyController => "Caller does not control the asset supply",
            ErrorCode::Unauthorized => "Caller is not the required admin or authority",
            ErrorCode::RecordMismatch => "Record does not belong to the presented lock",
            ErrorCode::AuthorityDisabled => "Mint authority is disabled",
            ErrorCode::QuotaExceeded => "Daily mint limit exceeded",
            ErrorCode::InvalidDerivation => "Offset does not derive the expected address",
        }
    }

    pub open spec fn message_spec(self) -> Seq<char> {
        match self {
            ErrorCode::InvalidSupplyController => "Caller does not control the asset supply"@,
            ErrorCode::Unauthorized => "Caller is not the required admin or authority"@,
            ErrorCode::RecordMismatch => "Record does not belong to the presented lock"@,
            ErrorCode::AuthorityDisabled => "Mint authority is disabled"@,
            ErrorCode::QuotaExceeded => "Daily mint limit exceeded"@,
            ErrorCode::InvalidDerivation => "Offset does not derive the expected address"@,
        }
    }
}

} // verus!
