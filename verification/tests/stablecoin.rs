use green_stablecoin::error::StablecoinError;
use green_stablecoin::guard::{lower, portion, raise};
use green_stablecoin::identity::Identity;
use green_stablecoin::stablecoin::{
    burn, get_dao_contributions, get_reserves, initialize, is_backed, mint, split_fee, transfer,
    update_dao_account, update_real_estate, update_reserves, BurnEvent, Config, DaoUpdatedEvent,
    FeeSplit, MintEvent, ReservesUpdatedEvent, TransferEvent,
};
use green_stablecoin::token::TokenInstruction;

fn id(byte: u8) -> Identity {
    Identity::new([byte; 32])
}

fn ledger() -> Config {
    initialize(id(1), id(2), id(3), id(4), 6)
}

#[test]
fn test_stablecoin_initialize() {
    let admin = id(1);
    let usdt_mint = id(2);
    let dao_token_account = id(3);
    let mint_ref = id(4);
    let config = initialize(admin, usdt_mint, dao_token_account, mint_ref, 6);
    assert_eq!(config.admin, admin);
    assert_eq!(config.usdt_mint, usdt_mint);
    assert_eq!(config.dao_token_account, dao_token_account);
    assert_eq!(config.decimals, 6);
}

#[test]
fn initialize_zeroes_every_accumulator() {
    let config = ledger();
    assert_eq!(config.mint, id(4));
    assert_eq!(config.dao_contributions, 0);
    assert_eq!(config.usdt_reserve, 0);
    assert_eq!(config.real_estate_value, 0);
    assert_eq!(config.total_supply, 0);
}

#[test]
fn identity_equality_is_bytewise() {
    let mut bytes = [7u8; 32];
    let a = Identity::new(bytes);
    bytes[31] = 8;
    let b = Identity::new(bytes);
    assert!(a == Identity::new([7u8; 32]));
    assert!(a != b);
    assert_eq!(a.bytes[0], 7);
    assert_eq!(b.bytes[31], 8);
}

#[test]
fn null_identity_is_all_zero() {
    assert!(Identity::default().is_default());
    assert_eq!(Identity::default(), Identity::new([0u8; 32]));
    let mut bytes = [0u8; 32];
    bytes[31] = 1;
    assert!(!Identity::new(bytes).is_default());
    assert!(!id(9).is_default());
}

#[test]
fn portion_rounds_down() {
    assert_eq!(portion(10_000, 50, 10_000), Some(50));
    assert_eq!(portion(199, 50, 10_000), Some(0));
    assert_eq!(portion(200, 50, 10_000), Some(1));
    assert_eq!(portion(399, 50, 10_000), Some(1));
    assert_eq!(portion(3, 70, 100), Some(2));
    assert_eq!(portion(3, 30, 100), Some(0));
    assert_eq!(portion(0, 70, 100), Some(0));
}

#[test]
fn portion_refuses_overflow_and_zero_denominator() {
    assert_eq!(portion(u64::MAX, 2, 100), None);
    assert_eq!(portion(u64::MAX, 1, 1), Some(u64::MAX));
    assert_eq!(portion(u64::MAX / 50, 50, 10_000), Some(u64::MAX / 50 * 50 / 10_000));
    assert_eq!(portion(u64::MAX / 50 + 1, 50, 10_000), None);
    assert_eq!(portion(5, 1, 0), None);
}

#[test]
fn raise_and_lower_are_checked() {
    assert_eq!(raise(1, 2), Some(3));
    assert_eq!(raise(u64::MAX, 0), Some(u64::MAX));
    assert_eq!(raise(u64::MAX, 1), None);
    assert_eq!(lower(3, 2), Some(1));
    assert_eq!(lower(3, 3), Some(0));
    assert_eq!(lower(3, 4), None);
}

#[test]
fn split_fee_conserves_the_amount() {
    assert_eq!(split_fee(10_000, 50, 10_000), Ok(FeeSplit { fee: 50, amount_after_fee: 9_950 }));
    assert_eq!(split_fee(1, 50, 10_000), Ok(FeeSplit { fee: 0, amount_after_fee: 1 }));
    assert_eq!(split_fee(0, 50, 10_000), Ok(FeeSplit { fee: 0, amount_after_fee: 0 }));
    assert_eq!(split_fee(100, 10_000, 10_000), Ok(FeeSplit { fee: 100, amount_after_fee: 0 }));
    for amount in [0u64, 1, 199, 200, 201, 12_345, 999_999_999, u64::MAX / 50] {
        let split = split_fee(amount, 50, 10_000).unwrap();
        assert_eq!(split.fee + split.amount_after_fee, amount);
        assert_eq!(split.fee, amount * 50 / 10_000);
    }
}

#[test]
fn split_fee_insufficient_amount_when_fee_exceeds_amount() {
    assert_eq!(split_fee(100, 20_000, 10_000), Err(StablecoinError::InsufficientAmount));
    assert_eq!(split_fee(1, 3, 2), Ok(FeeSplit { fee: 1, amount_after_fee: 0 }));
    assert_eq!(split_fee(2, 3, 2), Err(StablecoinError::InsufficientAmount));
}

#[test]
fn split_fee_overflow() {
    assert_eq!(split_fee(u64::MAX, 50, 10_000), Err(StablecoinError::Overflow));
    assert_eq!(split_fee(10, 50, 0), Err(StablecoinError::Overflow));
}

#[test]
fn transfer_ten_thousand_units() {
    let mut config = ledger();
    let receipt = transfer(&mut config, id(10), id(11), 10_000).unwrap();
    assert_eq!(
        receipt.event,
        TransferEvent { from: id(10), to: id(11), amount: 9_950, fee: 50, dao: id(3) }
    );
    assert_eq!(
        receipt.payment,
        TokenInstruction::Transfer { mint: id(4), from: id(10), to: id(11), amount: 9_950 }
    );
    assert_eq!(
        receipt.fee_payment,
        TokenInstruction::Transfer { mint: id(4), from: id(10), to: id(3), amount: 50 }
    );
    assert_eq!(config.dao_contributions, 50);
    assert_eq!(get_dao_contributions(&config), 50);
    let expected = Config { dao_contributions: 50, ..ledger() };
    assert_eq!(config, expected);
}

#[test]
fn transfer_below_two_hundred_is_free() {
    let mut config = ledger();
    let receipt = transfer(&mut config, id(10), id(11), 199).unwrap();
    assert_eq!(receipt.event.fee, 0);
    assert_eq!(receipt.event.amount, 199);
    assert_eq!(config.dao_contributions, 0);
    let receipt = transfer(&mut config, id(10), id(11), 0).unwrap();
    assert_eq!(receipt.event.fee, 0);
    assert_eq!(receipt.event.amount, 0);
}

#[test]
fn transfer_fees_add_up_in_any_order() {
    let amounts = [10_000u64, 199, 200, 123_456_789, 1];
    let mut forward = ledger();
    let mut expected = 0u64;
    for amount in amounts {
        let receipt = transfer(&mut forward, id(10), id(11), amount).unwrap();
        assert_eq!(receipt.event.fee + receipt.event.amount, amount);
        expected += receipt.event.fee;
    }
    assert_eq!(expected, 50 + 0 + 1 + 617_283 + 0);
    assert_eq!(forward.dao_contributions, expected);
    let mut backward = ledger();
    for amount in amounts.iter().rev() {
        transfer(&mut backward, id(12), id(13), *amount).unwrap();
    }
    assert_eq!(backward.dao_contributions, expected);
    assert_eq!(backward, forward);
}

#[test]
fn transfer_overflow_leaves_ledger_untouched() {
    let mut config = ledger();
    transfer(&mut config, id(10), id(11), 10_000).unwrap();
    let before = config;
    assert_eq!(transfer(&mut config, id(10), id(11), u64::MAX), Err(StablecoinError::Overflow));
    assert_eq!(config, before);
    assert_eq!(
        transfer(&mut config, id(10), id(11), u64::MAX / 50 + 1),
        Err(StablecoinError::Overflow)
    );
    assert!(transfer(&mut config, id(10), id(11), u64::MAX / 50).is_ok());
}

#[test]
fn transfer_overflow_of_the_fee_total() {
    let mut config = Config { dao_contributions: u64::MAX - 49, ..ledger() };
    let before = config;
    assert_eq!(transfer(&mut config, id(10), id(11), 10_000), Err(StablecoinError::Overflow));
    assert_eq!(config, before);
    let receipt = transfer(&mut config, id(10), id(11), 9_999).unwrap();
    assert_eq!(receipt.event.fee, 49);
    assert_eq!(config.dao_contributions, u64::MAX);
}

#[test]
fn mint_exactly_backed() {
    let mut config = ledger();
    update_reserves(&mut config, id(1), 700_000, 300_000).unwrap();
    let receipt = mint(&mut config, id(1), id(20), 1_000_000).unwrap();
    assert_eq!(receipt.event, MintEvent { to: id(20), amount: 1_000_000 });
    assert_eq!(
        receipt.token,
        TokenInstruction::MintTo { mint: id(4), to: id(20), amount: 1_000_000 }
    );
    assert_eq!(config.total_supply, 1_000_000);
    assert_eq!(config.usdt_reserve, 700_000);
    assert_eq!(config.real_estate_value, 300_000);
}

#[test]
fn mint_one_short_of_collateral() {
    let mut config = ledger();
    update_reserves(&mut config, id(1), 700_000, 299_999).unwrap();
    let before = config;
    assert_eq!(
        mint(&mut config, id(1), id(20), 1_000_000),
        Err(StablecoinError::InsufficientReserves)
    );
    assert_eq!(config, before);
}

#[test]
fn mint_one_short_of_liquid_reserve() {
    let mut config = ledger();
    update_reserves(&mut config, id(1), 699_999, 300_000).unwrap();
    assert_eq!(
        mint(&mut config, id(1), id(20), 1_000_000),
        Err(StablecoinError::InsufficientReserves)
    );
    assert_eq!(config.total_supply, 0);
}

#[test]
fn mint_requirements_round_down() {
    let mut config = ledger();
    update_reserves(&mut config, id(1), 2, 0).unwrap();
    // 3 * 70 / 100 = 2 and 3 * 30 / 100 = 0
    assert!(mint(&mut config, id(1), id(20), 3).is_ok());
    update_reserves(&mut config, id(1), 1, 0).unwrap();
    assert_eq!(mint(&mut config, id(1), id(20), 3), Err(StablecoinError::InsufficientReserves));
    // 1 * 70 / 100 = 0
    update_reserves(&mut config, id(1), 0, 0).unwrap();
    assert!(mint(&mut config, id(1), id(20), 1).is_ok());
    assert_eq!(config.total_supply, 4);
}

#[test]
fn mint_checks_the_increment_only() {
    let mut config = ledger();
    update_reserves(&mut config, id(1), 70, 30).unwrap();
    assert!(mint(&mut config, id(1), id(20), 100).is_ok());
    assert!(mint(&mut config, id(1), id(20), 100).is_ok());
    assert_eq!(config.total_supply, 200);
}

#[test]
fn mint_unauthorized() {
    let mut config = ledger();
    update_reserves(&mut config, id(1), 700_000, 300_000).unwrap();
    let before = config;
    assert_eq!(mint(&mut config, id(9), id(20), 1), Err(StablecoinError::Unauthorized));
    // the caller is checked before the reserves
    assert_eq!(mint(&mut config, id(9), id(20), u64::MAX), Err(StablecoinError::Unauthorized));
    assert_eq!(config, before);
}

#[test]
fn mint_overflow() {
    let mut config = ledger();
    update_reserves(&mut config, id(1), u64::MAX, u64::MAX).unwrap();
    assert_eq!(mint(&mut config, id(1), id(20), u64::MAX), Err(StablecoinError::Overflow));
    assert_eq!(mint(&mut config, id(1), id(20), u64::MAX / 70 + 1), Err(StablecoinError::Overflow));
    assert!(mint(&mut config, id(1), id(20), u64::MAX / 70).is_ok());
    let mut full = Config { total_supply: u64::MAX, ..config };
    assert_eq!(mint(&mut full, id(1), id(20), 1), Err(StablecoinError::Overflow));
    assert_eq!(full.total_supply, u64::MAX);
}

#[test]
fn is_backed_answers() {
    let mut config = ledger();
    assert_eq!(is_backed(&config, 0), Ok(true));
    assert_eq!(is_backed(&config, 1), Ok(true));
    assert_eq!(is_backed(&config, 2), Ok(false));
    update_reserves(&mut config, id(1), 700_000, 300_000).unwrap();
    assert_eq!(is_backed(&config, 1_000_000), Ok(true));
    assert_eq!(is_backed(&config, 1_000_002), Ok(false));
    assert_eq!(is_backed(&config, u64::MAX), Err(StablecoinError::Overflow));
}

#[test]
fn burn_lowers_supply() {
    let mut config = ledger();
    update_reserves(&mut config, id(1), 700, 300).unwrap();
    mint(&mut config, id(1), id(20), 1_000).unwrap();
    let receipt = burn(&mut config, id(1), id(20), 400).unwrap();
    assert_eq!(receipt.event, BurnEvent { from: id(20), amount: 400 });
    assert_eq!(receipt.token, TokenInstruction::Burn { mint: id(4), from: id(20), amount: 400 });
    assert_eq!(config.total_supply, 600);
    assert!(burn(&mut config, id(1), id(20), 600).is_ok());
    assert_eq!(config.total_supply, 0);
}

#[test]
fn burn_unauthorized_or_more_than_supply() {
    let mut config = ledger();
    update_reserves(&mut config, id(1), 700, 300).unwrap();
    mint(&mut config, id(1), id(20), 1_000).unwrap();
    let before = config;
    assert_eq!(burn(&mut config, id(20), id(20), 1), Err(StablecoinError::Unauthorized));
    assert_eq!(burn(&mut config, id(1), id(20), 1_001), Err(StablecoinError::Overflow));
    assert_eq!(config, before);
}

#[test]
fn update_reserves_is_admin_only() {
    let mut config = ledger();
    assert_eq!(
        update_reserves(&mut config, id(1), 5, 6),
        Ok(ReservesUpdatedEvent { usdt_amount: 5, real_estate_value: 6 })
    );
    assert_eq!(config.usdt_reserve, 5);
    assert_eq!(config.real_estate_value, 6);
    assert_eq!(update_reserves(&mut config, id(2), 7, 8), Err(StablecoinError::Unauthorized));
    assert_eq!(config.usdt_reserve, 5);
    assert_eq!(config.real_estate_value, 6);
}

#[test]
fn update_real_estate_keeps_liquid_reserve() {
    let mut config = ledger();
    update_reserves(&mut config, id(1), 5, 6).unwrap();
    assert_eq!(
        update_real_estate(&mut config, id(1), 9),
        Ok(ReservesUpdatedEvent { usdt_amount: 5, real_estate_value: 9 })
    );
    assert_eq!(config.usdt_reserve, 5);
    assert_eq!(config.real_estate_value, 9);
    assert_eq!(update_real_estate(&mut config, id(3), 1), Err(StablecoinError::Unauthorized));
    assert_eq!(config.real_estate_value, 9);
}

#[test]
fn update_dao_account_rules() {
    let mut config = ledger();
    assert_eq!(
        update_dao_account(&mut config, id(1), id(30)),
        Ok(DaoUpdatedEvent { new_dao_account: id(30) })
    );
    assert_eq!(config.dao_token_account, id(30));
    assert_eq!(
        update_dao_account(&mut config, id(1), Identity::default()),
        Err(StablecoinError::InvalidDaoAccount)
    );
    assert_eq!(update_dao_account(&mut config, id(2), id(31)), Err(StablecoinError::Unauthorized));
    // the caller is checked before the new recipient
    assert_eq!(
        update_dao_account(&mut config, id(2), Identity::default()),
        Err(StablecoinError::Unauthorized)
    );
    assert_eq!(config.dao_token_account, id(30));
    // later fees go to the new recipient
    let receipt = transfer(&mut config, id(10), id(11), 10_000).unwrap();
    assert_eq!(receipt.event.dao, id(30));
}

#[test]
fn get_reserves_reports_both_and_true() {
    let mut config = ledger();
    assert_eq!(get_reserves(&config), (0, 0, true));
    update_reserves(&mut config, id(1), 11, 22).unwrap();
    assert_eq!(get_reserves(&config), (11, 22, true));
}

#[test]
fn stablecoin_error_codes_and_messages() {
    assert_eq!(StablecoinError::Unauthorized.code(), 0);
    assert_eq!(StablecoinError::InvalidDaoAccount.code(), 1);
    assert_eq!(StablecoinError::InsufficientReserves.code(), 2);
    assert_eq!(StablecoinError::Overflow.code(), 3);
    assert_eq!(StablecoinError::InsufficientAmount.code(), 4);
    assert_eq!(StablecoinError::Unauthorized.message(), "Unauthorized access");
    assert_eq!(StablecoinError::InvalidDaoAccount.message(), "Invalid DAO account");
    assert_eq!(StablecoinError::InsufficientReserves.message(), "Insufficient reserves");
    assert_eq!(StablecoinError::Overflow.message(), "Arithmetic overflow");
    assert_eq!(StablecoinError::InsufficientAmount.message(), "Insufficient amount after fee");
}
