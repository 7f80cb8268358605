//! The failures an operation can end in.

use vstd::prelude::*;

verus! {

/// Why a ledger operation was refused.
#[derive(Clone, Copy, Debug, PartialEq, Eq, Structural)]
pub enum StablecoinError {
    /// The caller lacks the privilege the operation needs.
    Unauthorized,
    /// The proposed fee recipient is the null identity.
    InvalidDaoAccount,
    /// The reserves do not back the amount to mint.
    InsufficientReserves,
    /// A sum, difference, product or quotient left the 64-bit range.
    Overflow,
    /// The fee is larger than the amount it is taken from.
    InsufficientAmount,
}

/// Why a marketplace operation was refused.
#[derive(Clone, Copy, Debug, PartialEq, Eq, Structural)]
pub enum RWAMarketplaceError {
    /// The caller lacks the privilege the operation needs.
    Unauthorized,
    /// The token account belongs to another owner or another token type.
    InvalidTokenAccount,
    /// The asset's status does not permit the operation.
    NotEligibleForLiquidation,
    /// The threshold is not a percentage between 1 and 100.
    InvalidThreshold,
    /// A counter or a collateral total left the 64-bit range.
    Overflow,
}

/// First numeric code of the marketplace errors, chosen so that they never
/// collide with the ledger's.
pub const MARKETPLACE_CODE_BASE: u32 = 100;

impl StablecoinError {
    /// The numeric code under which the host reports this error.
    pub open spec fn spec_code(self) -> u32 {
        match self {
            StablecoinError::Unauthorized => 0,
            StablecoinError::InvalidDaoAccount => 1,
            StablecoinError::InsufficientReserves => 2,
            StablecoinError::Overflow => 3,
            StablecoinError::InsufficientAmount => 4,
        }
    }

    /// The text shown for this error.
    pub open spec fn spec_message(self) -> Seq<char> {
        match self {
            StablecoinError::Unauthorized => "Unauthorized access"@,
            StablecoinError::InvalidDaoAccount => "Invalid DAO account"@,
            StablecoinError::InsufficientReserves => "Insufficient reserves"@,
            StablecoinError::Overflow => "Arithmetic overflow"@,
            StablecoinError::InsufficientAmount => "Insufficient amount after fee"@,
        }
    }

    /// The numeric code under which the host reports this error.
    pub fn code(&self) -> (code: u32)
        ensures
            code == self.spec_code(),
    {
        match self {
            StablecoinError::Unauthorized => 0,
            StablecoinError::InvalidDaoAccount => 1,
            StablecoinError::InsufficientReserves => 2,
            StablecoinError::Overflow => 3,
            StablecoinError::InsufficientAmount => 4,
        }
    }

    /// The text shown for this error.
    pub fn message(&self) -> (text: String)
        ensures
            text@ == self.spec_message(),
    {
        match self {
            StablecoinError::Unauthorized => "Unauthorized access".to_owned(),
            StablecoinError::InvalidDaoAccount => "Invalid DAO account".to_owned(),
            StablecoinError::InsufficientReserves => "Insufficient reserves".to_owned(),
            StablecoinError::Overflow => "Arithmetic overflow".to_owned(),
            StablecoinError::InsufficientAmount => "Insufficient amount after fee".to_owned(),
        }
    }
}

impl RWAMarketplaceError {
    /// The numeric code under which the host reports this error.
    pub open spec fn spec_code(self) -> u32 {
        match self {
            RWAMarketplaceError::Unauthorized => 100,
            RWAMarketplaceError::InvalidTokenAccount => 101,
            RWAMarketplaceError::NotEligibleForLiquidation => 102,
            RWAMarketplaceError::InvalidThreshold => 103,
            RWAMarketplaceError::Overflow => 104,
        }
    }

    /// The text shown for this error.
    pub open spec fn spec_message(self) -> Seq<char> {
        match self {
            RWAMarketplaceError::Unauthorized => "Unauthorized access"@,
            RWAMarketplaceError::InvalidTokenAccount => "Invalid token account"@,
            RWAMarketplaceError::NotEligibleForLiquidation => "Asset not eligible for liquidation"@,
            RWAMarketplaceError::InvalidThreshold => "Invalid liquidation threshold (must be between 1-100)"@,
            RWAMarketplaceError::Overflow => "Arithmetic overflow"@,
        }
    }

    /// The position of this error among the marketplace errors.
    pub open spec fn spec_position(self) -> u32 {
        match self {
            RWAMarketplaceError::Unauthorized => 0,
            RWAMarketplaceError::InvalidTokenAccount => 1,
            RWAMarketplaceError::NotEligibleForLiquidation => 2,
            RWAMarketplaceError::InvalidThreshold => 3,
            RWAMarketplaceError::Overflow => 4,
        }
    }

    /// The numeric code under which the host reports this error: its
    /// position, moved past the ledger's codes.
    pub fn code(&self) -> (code: u32)
        ensures
            code == self.spec_code(),
            code == self.spec_position() + MARKETPLACE_CODE_BASE,
    {
        let position: u32 = match self {
            RWAMarketplaceError::Unauthorized => 0,
            RWAMarketplaceError::InvalidTokenAccount => 1,
            RWAMarketplaceError::NotEligibleForLiquidation => 2,
            RWAMarketplaceError::InvalidThreshold => 3,
            RWAMarketplaceError::Overflow => 4,
        };
        position + MARKETPLACE_CODE_BASE
    }

    /// The text shown for this error.
    pub fn message(&self) -> (text: String)
        ensures
            text@ == self.spec_message(),
    {
        match self {
            RWAMarketplaceError::Unauthorized => "Unauthorized access".to_owned(),
            RWAMarketplaceError::InvalidTokenAccount => "Invalid token account".to_owned(),
            RWAMarketplaceError::NotEligibleForLiquidation => "Asset not eligible for liquidation".to_owned(),
            RWAMarketplaceError::InvalidThreshold => "Invalid liquidation threshold (must be between 1-100)".to_owned(),
            RWAMarketplaceError::Overflow => "Arithmetic overflow".to_owned(),
        }
    }
}

/// No ledger error shares its code with a marketplace error, and within
/// each family the codes tell the errors apart.
pub proof fn lemma_codes_distinct(a: StablecoinError, b: StablecoinError, x: RWAMarketplaceError, y: RWAMarketplaceError)
    ensures
        a.spec_code() != x.spec_code(),
        a.spec_code() == b.spec_code() ==> a == b,
        x.spec_code() == y.spec_code() ==> x == y,
{
}

} // verus!
