use green_stablecoin::identity::Identity;
use green_stablecoin::instruction::{InstructionError, StablecoinInstruction};

fn with_tag(tag: u8, rest: &[u8]) -> Vec<u8> {
    let mut bytes = vec![tag];
    bytes.extend_from_slice(rest);
    bytes
}

fn counting(from: u8) -> [u8; 32] {
    let mut bytes = [0u8; 32];
    for (i, byte) in bytes.iter_mut().enumerate() {
        *byte = from + i as u8;
    }
    bytes
}

#[test]
fn unpack_empty_is_invalid() {
    assert!(StablecoinInstruction::has_fixed_fields(&[]));
    assert_eq!(StablecoinInstruction::unpack(&[]), Err(InstructionError::InvalidInstructionData));
}

#[test]
fn unpack_unknown_tag_is_invalid() {
    for tag in [12u8, 13, 100, 255] {
        let bytes = with_tag(tag, &[0u8; 80]);
        assert!(StablecoinInstruction::has_fixed_fields(&bytes));
        assert_eq!(
            StablecoinInstruction::unpack(&bytes),
            Err(InstructionError::InvalidInstructionData)
        );
    }
}

#[test]
fn unpack_initialize() {
    let mut rest = Vec::new();
    rest.extend_from_slice(&counting(1));
    rest.extend_from_slice(&counting(101));
    rest.push(6);
    let bytes = with_tag(0, &rest);
    assert!(StablecoinInstruction::has_fixed_fields(&bytes));
    assert_eq!(
        StablecoinInstruction::unpack(&bytes),
        Ok(StablecoinInstruction::Initialize {
            usdt_mint: Identity::new(counting(1)),
            dao_token_account: Identity::new(counting(101)),
            decimals: 6,
        })
    );
    // bytes after the last field are ignored
    let mut longer = bytes.clone();
    longer.push(99);
    assert_eq!(StablecoinInstruction::unpack(&longer), StablecoinInstruction::unpack(&bytes));
}

#[test]
fn has_fixed_fields_lengths() {
    assert!(!StablecoinInstruction::has_fixed_fields(&with_tag(0, &[0u8; 64])));
    assert!(StablecoinInstruction::has_fixed_fields(&with_tag(0, &[0u8; 65])));
    assert!(!StablecoinInstruction::has_fixed_fields(&[0]));
    for tag in [5u8, 6] {
        assert!(!StablecoinInstruction::has_fixed_fields(&with_tag(tag, &[0u8; 31])));
        assert!(StablecoinInstruction::has_fixed_fields(&with_tag(tag, &[0u8; 32])));
    }
    for tag in [1u8, 2, 3, 4, 7, 8, 9, 10, 11, 12] {
        assert!(StablecoinInstruction::has_fixed_fields(&[tag]));
    }
}

#[test]
fn unpack_amounts_are_little_endian() {
    let amount: u64 = 0x0102_0304_0506_0708;
    let rest = amount.to_le_bytes();
    assert_eq!(rest, [8, 7, 6, 5, 4, 3, 2, 1]);
    assert_eq!(
        StablecoinInstruction::unpack(&with_tag(1, &rest)),
        Ok(StablecoinInstruction::Transfer { amount })
    );
    assert_eq!(
        StablecoinInstruction::unpack(&with_tag(2, &rest)),
        Ok(StablecoinInstruction::Mint { amount })
    );
    assert_eq!(
        StablecoinInstruction::unpack(&with_tag(3, &rest)),
        Ok(StablecoinInstruction::Burn { amount })
    );
    assert_eq!(
        StablecoinInstruction::unpack(&with_tag(8, &rest)),
        Ok(StablecoinInstruction::UpdateValuation { new_value: amount })
    );
    assert_eq!(
        StablecoinInstruction::unpack(&with_tag(1, &[1, 0, 0, 0, 0, 0, 0, 0])),
        Ok(StablecoinInstruction::Transfer { amount: 1 })
    );
    assert_eq!(
        StablecoinInstruction::unpack(&with_tag(1, &[0, 1, 0, 0, 0, 0, 0, 0])),
        Ok(StablecoinInstruction::Transfer { amount: 256 })
    );
    assert_eq!(
        StablecoinInstruction::unpack(&with_tag(1, &[0xff; 8])),
        Ok(StablecoinInstruction::Transfer { amount: u64::MAX })
    );
    for amount in [0u64, 10_000, 1 << 32, 1 << 63, 0xdead_beef_cafe_f00d] {
        assert_eq!(
            StablecoinInstruction::unpack(&with_tag(2, &amount.to_le_bytes())),
            Ok(StablecoinInstruction::Mint { amount })
        );
    }
}

#[test]
fn unpack_short_amount_is_invalid() {
    for tag in [1u8, 2, 3, 4, 7, 8] {
        for len in 0..8usize {
            let bytes = with_tag(tag, &vec![1u8; len]);
            assert_eq!(
                StablecoinInstruction::unpack(&bytes),
                Err(InstructionError::InvalidInstructionData)
            );
        }
    }
}

#[test]
fn unpack_update_reserves() {
    let mut rest = Vec::new();
    rest.extend_from_slice(&700_000u64.to_le_bytes());
    rest.extend_from_slice(&300_000u64.to_le_bytes());
    assert_eq!(
        StablecoinInstruction::unpack(&with_tag(4, &rest)),
        Ok(StablecoinInstruction::UpdateReserves { usdt_amount: 700_000, real_estate_value: 300_000 })
    );
    assert_eq!(
        StablecoinInstruction::unpack(&with_tag(4, &rest[..15])),
        Err(InstructionError::InvalidInstructionData)
    );
}

#[test]
fn unpack_identities() {
    let bytes = with_tag(5, &counting(7));
    assert_eq!(
        StablecoinInstruction::unpack(&bytes),
        Ok(StablecoinInstruction::UpdateDaoAccount { new_dao_account: Identity::new(counting(7)) })
    );
    let bytes = with_tag(6, &counting(9));
    assert_eq!(
        StablecoinInstruction::unpack(&bytes),
        Ok(StablecoinInstruction::InitializeMarketplace {
            stablecoin_config_address: Identity::new(counting(9)),
        })
    );
}

#[test]
fn unpack_list_rwa() {
    let mut rest = Vec::new();
    rest.extend_from_slice(&100_000u64.to_le_bytes());
    let without = StablecoinInstruction::unpack(&with_tag(7, &rest));
    assert_eq!(
        without,
        Ok(StablecoinInstruction::ListRWA {
            uri: String::from("metadata_uri"),
            name: String::from("Property NFT"),
            symbol: String::from("RWA"),
            asset_value: 100_000,
            location: String::from("Location"),
            property_details: String::from("Details"),
            liquidation_threshold: None,
        })
    );
    rest.push(85);
    let with = StablecoinInstruction::unpack(&with_tag(7, &rest));
    assert_eq!(
        with,
        Ok(StablecoinInstruction::ListRWA {
            uri: String::from("metadata_uri"),
            name: String::from("Property NFT"),
            symbol: String::from("RWA"),
            asset_value: 100_000,
            location: String::from("Location"),
            property_details: String::from("Details"),
            liquidation_threshold: Some(85),
        })
    );
}

#[test]
fn unpack_requests_without_fields() {
    assert_eq!(StablecoinInstruction::unpack(&[9]), Ok(StablecoinInstruction::TransferRWA));
    assert_eq!(StablecoinInstruction::unpack(&[10]), Ok(StablecoinInstruction::LiquidateRWA));
    assert_eq!(StablecoinInstruction::unpack(&[9, 1, 2]), Ok(StablecoinInstruction::TransferRWA));
}

#[test]
fn unpack_set_liquidation_threshold() {
    assert_eq!(
        StablecoinInstruction::unpack(&[11, 80]),
        Ok(StablecoinInstruction::SetLiquidationThreshold { threshold: 80 })
    );
    assert_eq!(
        StablecoinInstruction::unpack(&[11, 0, 5]),
        Ok(StablecoinInstruction::SetLiquidationThreshold { threshold: 0 })
    );
    assert_eq!(StablecoinInstruction::unpack(&[11]), Err(InstructionError::InvalidInstructionData));
}
