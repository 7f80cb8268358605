//! The wire form of the requests: one tag byte, then the fields of the
//! request at fixed places, integers in little-endian order.

use vstd::prelude::*;
use crate::identity::Identity;

verus! {

/// A request, as a client sends it.
#[derive(Clone, Debug, PartialEq, Eq)]
pub enum StablecoinInstruction {
    /// Create the ledger.
    Initialize { usdt_mint: Identity, dao_token_account: Identity, decimals: u8 },
    /// Transfer with the fee.
    Transfer { amount: u64 },
    /// Mint new units.
    Mint { amount: u64 },
    /// Burn units.
    Burn { amount: u64 },
    /// Create the marketplace.
    InitializeMarketplace { stablecoin_config_address: Identity },
    /// List an asset.
    ListRWA {
        uri: String,
        name: String,
        symbol: String,
        asset_value: u64,
        location: String,
        property_details: String,
        liquidation_threshold: Option<u8>,
    },
    /// Restate the reserves.
    UpdateReserves { usdt_amount: u64, real_estate_value: u64 },
    /// Name a new fee recipient.
    UpdateDaoAccount { new_dao_account: Identity },
    /// Record a valuation.
    UpdateValuation { new_value: u64 },
    /// Hand an asset on.
    TransferRWA,
    /// Liquidate an asset.
    LiquidateRWA,
    /// Set the default threshold.
    SetLiquidationThreshold { threshold: u8 },
}

/// A request with its identities as byte sequences and its texts as
/// sequences of characters.
pub enum InstructionView {
    Initialize { usdt_mint: Seq<u8>, dao_token_account: Seq<u8>, decimals: u8 },
    Transfer { amount: u64 },
    Mint { amount: u64 },
    Burn { amount: u64 },
    InitializeMarketplace { stablecoin_config_address: Seq<u8> },
    ListRWA {
        uri: Seq<char>,
        name: Seq<char>,
        symbol: Seq<char>,
        asset_value: u64,
        location: Seq<char>,
        property_details: Seq<char>,
        liquidation_threshold: Option<u8>,
    },
    UpdateReserves { usdt_amount: u64, real_estate_value: u64 },
    UpdateDaoAccount { new_dao_account: Seq<u8> },
    UpdateValuation { new_value: u64 },
    TransferRWA,
    LiquidateRWA,
    SetLiquidationThreshold { threshold: u8 },
}

/// Why a byte string is no request.
#[derive(Clone, Copy, Debug, PartialEq, Eq, Structural)]
pub enum InstructionError {
    /// The bytes are empty, carry an unknown tag, or end before a field
    /// does.
    InvalidInstructionData,
}

impl View for StablecoinInstruction {
    type V = InstructionView;

    open spec fn view(&self) -> InstructionView {
        match *self {
            StablecoinInstruction::Initialize { usdt_mint, dao_token_account, decimals } => {
                InstructionView::Initialize {
                    usdt_mint: usdt_mint@,
                    dao_token_account: dao_token_account@,
                    decimals,
                }
            },
            StablecoinInstruction::Transfer { amount } => InstructionView::Transfer { amount },
            StablecoinInstruction::Mint { amount } => InstructionView::Mint { amount },
            StablecoinInstruction::Burn { amount } => InstructionView::Burn { amount },
            StablecoinInstruction::InitializeMarketplace { stablecoin_config_address } => {
                InstructionView::InitializeMarketplace {
                    stablecoin_config_address: stablecoin_config_address@,
                }
            },
            StablecoinInstruction::ListRWA {
                uri,
                name,
                symbol,
                asset_value,
                location,
                property_details,
                liquidation_threshold,
            } => InstructionView::ListRWA {
                uri: uri@,
                name: name@,
                symbol: symbol@,
                asset_value,
                location: location@,
                property_details: property_details@,
                liquidation_threshold,
            },
            StablecoinInstruction::UpdateReserves { usdt_amount, real_estate_value } => {
                InstructionView::UpdateReserves { usdt_amount, real_estate_value }
            },
            StablecoinInstruction::UpdateDaoAccount { new_dao_account } => {
                InstructionView::UpdateDaoAccount { new_dao_account: new_dao_account@ }
            },
            StablecoinInstruction::UpdateValuation { new_value } => InstructionView::UpdateValuation {
                new_value,
            },
            StablecoinInstruction::TransferRWA => InstructionView::TransferRWA,
            StablecoinInstruction::LiquidateRWA => InstructionView::LiquidateRWA,
            StablecoinInstruction::SetLiquidationThreshold { threshold } => {
                InstructionView::SetLiquidationThreshold { threshold }
            },
        }
    }
}

/// The number that eight bytes spell in little-endian order.
pub open spec fn le_u64(bytes: Seq<u8>) -> int
    recommends
        bytes.len() == 8,
{
    bytes[0] + bytes[1] * 0x100 + bytes[2] * 0x1_0000 + bytes[3] * 0x100_0000 + bytes[4]
        * 0x1_0000_0000 + bytes[5] * 0x100_0000_0000 + bytes[6] * 0x1_0000_0000_0000 + bytes[7]
        * 0x100_0000_0000_0000
}

/// The integer in the eight bytes of `rest` from `at` on, if `rest` is that
/// long.
pub open spec fn u64_at(rest: Seq<u8>, at: int) -> Option<u64> {
    if 0 <= at && at + 8 <= rest.len() {
        Some(le_u64(rest.subrange(at, at + 8)) as u64)
    } else {
        None
    }
}

/// The thirty-two bytes of `rest` from `at` on, which spell an identity.
pub open spec fn identity_at(rest: Seq<u8>, at: int) -> Seq<u8>
    recommends
        0 <= at,
        at + 32 <= rest.len(),
{
    rest.subrange(at, at + 32)
}

/// Whether the fields that have no check of their own are all there: an
/// `Initialize` request carries two identities and a byte, an
/// `UpdateDaoAccount` or `InitializeMarketplace` request one identity.
pub open spec fn fixed_fields_present(input: Seq<u8>) -> bool {
    input.len() > 0 ==> (input[0] == 0 ==> input.len() >= 66) && (input[0] == 5 || input[0] == 6
        ==> input.len() >= 33)
}

/// The request that `input` spells.
///
/// The first byte is the tag; the fields follow it. An amount is eight
/// bytes. A listing carries its value and, if one more byte follows, its
/// threshold; its texts are not on the wire and are filled with fixed
/// words. Bytes after the last field are ignored.
pub open spec fn unpacked(input: Seq<u8>) -> Result<InstructionView, InstructionError> {
    if input.len() == 0 {
        Err(InstructionError::InvalidInstructionData)
    } else {
        let tag = input[0];
        let rest = input.subrange(1, input.len() as int);
        if tag == 0 {
            Ok(
                InstructionView::Initialize {
                    usdt_mint: identity_at(rest, 0),
                    dao_token_account: identity_at(rest, 32),
                    decimals: rest[64],
                },
            )
        } else if tag == 1 {
            match u64_at(rest, 0) {
                Some(amount) => Ok(InstructionView::Transfer { amount }),
                None => Err(InstructionError::InvalidInstructionData),
            }
        } else if tag == 2 {
            match u64_at(rest, 0) {
                Some(amount) => Ok(InstructionView::Mint { amount }),
                None => Err(InstructionError::InvalidInstructionData),
            }
        } else if tag == 3 {
            match u64_at(rest, 0) {
                Some(amount) => Ok(InstructionView::Burn { amount }),
                None => Err(InstructionError::InvalidInstructionData),
            }
        } else if tag == 4 {
            match (u64_at(rest, 0), u64_at(rest, 8)) {
                (Some(usdt_amount), Some(real_estate_value)) => Ok(
                    InstructionView::UpdateReserves { usdt_amount, real_estate_value },
                ),
                _ => Err(InstructionError::InvalidInstructionData),
            }
        } else if tag == 5 {
            Ok(InstructionView::UpdateDaoAccount { new_dao_account: identity_at(rest, 0) })
        } else if tag == 6 {
            Ok(
                InstructionView::InitializeMarketplace {
                    stablecoin_config_address: identity_at(rest, 0),
                },
            )
        } else if tag == 7 {
            match u64_at(rest, 0) {
                Some(asset_value) => Ok(
                    InstructionView::ListRWA {
                        uri: "metadata_uri"@,
                        name: "Property NFT"@,
                        symbol: "RWA"@,
                        asset_value,
                        location: "Location"@,
                        property_details: "Details"@,
                        liquidation_threshold: if rest.len() > 8 {
                            Some(rest[8])
                        } else {
                            None
                        },
                    },
                ),
                None => Err(InstructionError::InvalidInstructionData),
            }
        } else if tag == 8 {
            match u64_at(rest, 0) {
                Some(new_value) => Ok(InstructionView::UpdateValuation { new_value }),
                None => Err(InstructionError::InvalidInstructionData),
            }
        } else if tag == 9 {
            Ok(InstructionView::TransferRWA)
        } else if tag == 10 {
            Ok(InstructionView::LiquidateRWA)
        } else if tag == 11 {
            if rest.len() > 0 {
                Ok(InstructionView::SetLiquidationThreshold { threshold: rest[0] })
            } else {
                Err(InstructionError::InvalidInstructionData)
            }
        } else {
            Err(InstructionError::InvalidInstructionData)
        }
    }
}

/// Reads the integer in the eight bytes of `input` from `at` on.
fn read_u64(input: &[u8], at: usize) -> (value: Option<u64>)
    requires
        at <= input.len(),
    ensures
        value == u64_at(input@, at as int),
{
    if input.len() - at < 8 {
        return None;
    }
    proof {
        let bytes = input@.subrange(at as int, at + 8);
        assert(forall|i: int| 0 <= i < 8 ==> bytes[i] == input@[at + i]);
    }
    let b0: u64 = input[at] as u64;
    let b1: u64 = input[at + 1] as u64;
    let b2: u64 = input[at + 2] as u64;
    let b3: u64 = input[at + 3] as u64;
    let b4: u64 = input[at + 4] as u64;
    let b5: u64 = input[at + 5] as u64;
    let b6: u64 = input[at + 6] as u64;
    let b7: u64 = input[at + 7] as u64;
    Some(
        b0 + b1 * 0x100 + b2 * 0x1_0000 + b3 * 0x100_0000 + b4 * 0x1_0000_0000 + b5
            * 0x100_0000_0000 + b6 * 0x1_0000_0000_0000 + b7 * 0x100_0000_0000_0000,
    )
}

/// Reads the identity in the thirty-two bytes of `input` from `at` on.
fn read_identity(input: &[u8], at: usize) -> (id: Identity)
    requires
        at + 32 <= input.len(),
    ensures
        id@ == identity_at(input@, at as int),
{
    let mut bytes = [0u8; 32];
    let mut i: usize = 0;
    while i < 32
        invariant
            i <= 32,
            at + 32 <= input.len(),
            forall|j: int| 0 <= j < i ==> bytes@[j] == input@[at + j],
        decreases 32 - i,
    {
        bytes[i] = input[at + i];
        i += 1;
    }
    let id = Identity { bytes };
    proof {
        assert(id@ =~= input@.subrange(at as int, at + 32));
    }
    id
}

impl StablecoinInstruction {
    /// Whether `input` carries the fields that `unpack` reads without a
    /// check of their own.
    pub fn has_fixed_fields(input: &[u8]) -> (present: bool)
        ensures
            present == fixed_fields_present(input@),
    {
        if input.len() == 0 {
            true
        } else if input[0] == 0 {
            input.len() >= 66
        } else if input[0] == 5 || input[0] == 6 {
            input.len() >= 33
        } else {
            true
        }
    }

    /// Reads a request from its wire form.
    ///
    /// The identities of an `Initialize`, `UpdateDaoAccount` or
    /// `InitializeMarketplace` request, and the decimals of the first, are
    /// read where they must stand; the caller sees to it that the bytes
    /// reach that far.
    pub fn unpack(input: &[u8]) -> (request: Result<StablecoinInstruction, InstructionError>)
        requires
            fixed_fields_present(input@),
        ensures
            match request {
                Ok(instruction) => unpacked(input@) == Ok::<InstructionView, InstructionError>(instruction@),
                Err(e) => unpacked(input@) == Err::<InstructionView, InstructionError>(e),
            },
    {
        if input.len() == 0 {
            return Err(InstructionError::InvalidInstructionData);
        }
        let tag = input[0];
        let ghost rest = input@.subrange(1, input@.len() as int);
        proof {
            assert(forall|at: int|
                0 <= at && at + 8 <= rest.len() ==> #[trigger] rest.subrange(at, at + 8)
                    =~= input@.subrange(1 + at, 1 + at + 8));
            assert(forall|at: int|
                0 <= at && at + 32 <= rest.len() ==> #[trigger] rest.subrange(at, at + 32)
                    =~= input@.subrange(1 + at, 1 + at + 32));
        }
        if tag == 0 {
            let usdt_mint = read_identity(input, 1);
            let dao_token_account = read_identity(input, 33);
            let decimals = input[65];
            Ok(StablecoinInstruction::Initialize { usdt_mint, dao_token_account, decimals })
        } else if tag == 1 {
            match read_u64(input, 1) {
                Some(amount) => Ok(StablecoinInstruction::Transfer { amount }),
                None => Err(InstructionError::InvalidInstructionData),
            }
        } else if tag == 2 {
            match read_u64(input, 1) {
                Some(amount) => Ok(StablecoinInstruction::Mint { amount }),
                None => Err(InstructionError::InvalidInstructionData),
            }
        } else if tag == 3 {
            match read_u64(input, 1) {
                Some(amount) => Ok(StablecoinInstruction::Burn { amount }),
                None => Err(InstructionError::InvalidInstructionData),
            }
        } else if tag == 4 {
            let usdt_amount = match read_u64(input, 1) {
                Some(amount) => amount,
                None => {
                    return Err(InstructionError::InvalidInstructionData);
                },
            };
            let real_estate_value = match read_u64(input, 9) {
                Some(value) => value,
                None => {
                    return Err(InstructionError::InvalidInstructionData);
                },
            };
            Ok(StablecoinInstruction::UpdateReserves { usdt_amount, real_estate_value })
        } else if tag == 5 {
            let new_dao_account = read_identity(input, 1);
            Ok(StablecoinInstruction::UpdateDaoAccount { new_dao_account })
        } else if tag == 6 {
            let stablecoin_config_address = read_identity(input, 1);
            Ok(StablecoinInstruction::InitializeMarketplace { stablecoin_config_address })
        } else if tag == 7 {
            let asset_value = match read_u64(input, 1) {
                Some(value) => value,
                None => {
                    return Err(InstructionError::InvalidInstructionData);
                },
            };
            let liquidation_threshold = if input.len() > 9 {
                Some(input[9])
            } else {
                None
            };
            Ok(
                StablecoinInstruction::ListRWA {
                    uri: "metadata_uri".to_owned(),
                    name: "Property NFT".to_owned(),
                    symbol: "RWA".to_owned(),
                    asset_value,
                    location: "Location".to_owned(),
                    property_details: "Details".to_owned(),
                    liquidation_threshold,
                },
            )
        } else if tag == 8 {
            match read_u64(input, 1) {
                Some(new_value) => Ok(StablecoinInstruction::UpdateValuation { new_value }),
                None => Err(InstructionError::InvalidInstructionData),
            }
        } else if tag == 9 {
            Ok(StablecoinInstruction::TransferRWA)
        } else if tag == 10 {
            Ok(StablecoinInstruction::LiquidateRWA)
        } else if tag == 11 {
            if input.len() > 1 {
                Ok(StablecoinInstruction::SetLiquidationThreshold { threshold: input[1] })
            } else {
                Err(InstructionError::InvalidInstructionData)
            }
        } else {
            Err(InstructionError::InvalidInstructionData)
        }
    }
}

} // verus!
