use vstd::prelude::*;

verus! {

/// Why an instruction was rejected. Every rejection happens before any record
/// is changed.
#[derive(Clone, Copy, Debug, PartialEq, Eq, Structural)]
pub enum ErrorCode {
    /// The campaign id does not match the addressed campaign record.
    InvalidCampaignId,
    /// A completion was attempted for a bug that was never started.
    CampaignNotStarted,
    /// A completion was attempted for a bug that is already completed.
    CampaignAlreadyCompleted,
    /// The bug id lies outside `1..=20`.
    InvalidBugId,
    /// The caller is not the campaign's authority.
    NotAuthorized,
    /// The target address already holds a record.
    CollectionAlreadyInitialized,
    /// The asset address already holds data.
    AssetAlreadyInitialized,
    /// The referenced collection holds no data.
    CollectionNotInitialized,
    /// The referenced collection is not owned by the minting service, or is
    /// not the one bound to the collection authority.
    InvalidCollection,
    /// The caller does not own the addressed record.
    UnauthorizedPlayer,
}

pub open spec fn error_text(e: ErrorCode) -> Seq<char> {
    match e {
        ErrorCode::InvalidCampaignId => "Invalid Campaign Id"@,
        ErrorCode::CampaignNotStarted => "Campaign not initialized"@,
        ErrorCode::CampaignAlreadyCompleted => "Campaign already completed"@,
        ErrorCode::InvalidBugId => "Invalid Bug Id"@,
        ErrorCode::NotAuthorized => "The payer is not the program's upgrade authority."@,
        ErrorCode::CollectionAlreadyInitialized => "The collection has already been initialized."@,
        ErrorCode::AssetAlreadyInitialized => "The asset has already been initialized."@,
        ErrorCode::CollectionNotInitialized => "The collection is not initialized."@,
        ErrorCode::InvalidCollection => "The collection is invalid."@,
        ErrorCode::UnauthorizedPlayer => "Unauthorized Player."@,
    }
}

impl ErrorCode {
    /// The human-readable message that accompanies the code.
    pub fn message(&self) -> (r: &'static str)
        ensures
            r@ == error_text(*self),
    {
        match self {
            ErrorCode::InvalidCampaignId => "Invalid Campaign Id",
            ErrorCode::CampaignNotStarted => "Campaign not initialized",
            ErrorCode::CampaignAlreadyCompleted => "Campaign already completed",
            ErrorCode::InvalidBugId => "Invalid Bug Id",
            ErrorCode::NotAuthorized => "The payer is not the program's upgrade authority.",
            ErrorCode::CollectionAlreadyInitialized => "The collection has already been initialized.",
            ErrorCode::AssetAlreadyInitialized => "The asset has already been initialized.",
            ErrorCode::CollectionNotInitialized => "The collection is not initialized.",
            ErrorCode::InvalidCollection => "The collection is invalid.",
            ErrorCode::UnauthorizedPlayer => "Unauthorized Player.",
        }
    }
}

} // verus!
