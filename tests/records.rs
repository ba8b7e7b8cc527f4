use borsh::BorshSerialize;
use nft_staking::address::{decimal_text, is_associated_token_address, same_address, Address};
use nft_staking::common::{
    get_or_create_current_payroll_by_time, get_or_create_next_payroll_by_time,
    get_or_create_payroll_by_index, get_staking_pda, verify_ata_account, verify_program_account,
    verify_system_account,
};
use nft_staking::epoch::{
    checked_claimable_after, checked_next_payroll_index, checked_payroll_index, compute_owed_reward,
    get_current_payroll_index, recalculate_reward_rate,
};
use nft_staking::error::{ContractError, LedgerError};
use nft_staking::instruction::{
    decode_instruction, Instruction, PoolDepositIns, PoolInitializationIns, RewardAddition,
    RewardInitialization, RewardRedemption, TokenDataUpdate,
};
use nft_staking::seeds::{payroll_address, pool_address, staking_address};
use nft_staking::setup::{init_pool, register_collection, set_token_weight};
use nft_staking::state::{
    CollectionData, Payroll, PayrollIndex, PayrollToken, Pool, RewardToken, StakingAccount,
    StakingPayroll, TokenData, PAYROLL_PDA_LEN, POOL_PDA_LEN, STAKING_PDA_LEN,
};
use solana_program::pubkey::Pubkey;

fn addr(b: u8) -> Address {
    Address::new([b; 32])
}

fn sample_pool() -> Pool {
    Pool {
        account_type: 100,
        id: [1u8; 16],
        name: [2u8; 16],
        total_deposited_power: 0x0102_0304_0506_0708,
        reward_period: 100,
        start_at: 7,
        pool_type: 3,
        creator: addr(4),
        collection: addr(5),
    }
}

fn sample_position() -> StakingAccount {
    StakingAccount {
        account_type: 101,
        deposited_power: 1,
        deposited_at: 2,
        withdrawn_at: 3,
        first_payroll_index: 4,
        withdrawn_reward_amount: u64::MAX,
        pool_pda_account: addr(6),
        withdrawn_address: addr(7),
        staking_token_mint_address: addr(8),
        depositor: addr(9),
    }
}

#[test]
fn epoch_index_counts_from_one() {
    assert_eq!(get_current_payroll_index(0, 100, 0), 1);
    assert_eq!(get_current_payroll_index(99, 100, 0), 1);
    assert_eq!(get_current_payroll_index(100, 100, 0), 2);
    assert_eq!(get_current_payroll_index(350, 100, 50), 4);
}

#[test]
fn epoch_index_never_decreases() {
    let mut last = 0;
    for now in 10..1_000u64 {
        let i = get_current_payroll_index(now, 37, 10);
        assert!(i >= 1);
        assert!(i >= last);
        last = i;
    }
}

#[test]
fn epoch_index_undefined_inputs_give_none() {
    assert_eq!(checked_payroll_index(5, 0, 0), None);
    assert_eq!(checked_payroll_index(5, 10, 6), None);
    assert_eq!(checked_payroll_index(u64::MAX, 1, 0), None);
    assert_eq!(checked_payroll_index(50, 100, 0), Some(1));
    assert_eq!(checked_next_payroll_index(50, 100, 0), Some(2));
    assert_eq!(checked_next_payroll_index(u64::MAX - 1, 1, 0), None);
}

#[test]
fn claimable_after_is_start_plus_index_periods() {
    assert_eq!(checked_claimable_after(0, 1, 100), Some(100));
    assert_eq!(checked_claimable_after(50, 3, 100), Some(350));
    assert_eq!(checked_claimable_after(1, u64::MAX, 1), None);
}

#[test]
fn reward_rate_is_zero_without_power_or_reward() {
    assert_eq!(recalculate_reward_rate(0, 12_345), 0);
    assert_eq!(recalculate_reward_rate(0, u64::MAX), 0);
    assert_eq!(recalculate_reward_rate(17, 0), 0);
}

#[test]
fn reward_rate_scales_by_million() {
    assert_eq!(recalculate_reward_rate(1, 1_000_000), 1_000_000_000_000);
    assert_eq!(recalculate_reward_rate(2, 100), 50_000_000);
    assert_eq!(recalculate_reward_rate(3, 10), 3_333_333);
}

#[test]
fn owed_reward_subtracts_what_was_paid() {
    assert_eq!(compute_owed_reward(1, 1_000_000_000_000, 1_000_000, 0), Some(1_000_000));
    assert_eq!(compute_owed_reward(1, 100, 2, 0), Some(50));
    assert_eq!(compute_owed_reward(1, 100, 2, 50), Some(0));
    assert_eq!(compute_owed_reward(1, 100, 2, 80), Some(0));
    assert_eq!(compute_owed_reward(3, 100, 7, 10), Some(32));
    assert_eq!(compute_owed_reward(5, 100, 0, 0), Some(0));
    assert_eq!(compute_owed_reward(u64::MAX, u64::MAX, 1, 0), None);
}

#[test]
fn pool_round_trip() {
    let p = sample_pool();
    let bytes = p.to_bytes();
    assert_eq!(bytes.len(), POOL_PDA_LEN);
    assert_eq!(Pool::try_from_slice(&bytes), Ok(p));
}

#[test]
fn pool_bytes_match_borsh_layout() {
    let p = sample_pool();
    let t = (
        p.account_type,
        p.id,
        p.name,
        p.total_deposited_power,
        p.reward_period,
        p.start_at,
        p.pool_type,
        p.creator.bytes,
        p.collection.bytes,
    );
    assert_eq!(p.to_bytes(), t.try_to_vec().unwrap());
}

#[test]
fn position_bytes_match_borsh_layout() {
    let s = sample_position();
    let t = (
        s.account_type,
        s.deposited_power,
        s.deposited_at,
        s.withdrawn_at,
        s.first_payroll_index,
        s.withdrawn_reward_amount,
        s.pool_pda_account.bytes,
        s.withdrawn_address.bytes,
        s.staking_token_mint_address.bytes,
        s.depositor.bytes,
    );
    assert_eq!(s.to_bytes(), t.try_to_vec().unwrap());
}

#[test]
fn all_records_round_trip() {
    let s = sample_position();
    assert_eq!(s.to_bytes().len(), STAKING_PDA_LEN);
    assert_eq!(StakingAccount::try_from_slice(&s.to_bytes()), Ok(s));
    let pr = Payroll {
        account_type: 102,
        total_deposited_power: 2,
        index: 3,
        number_of_reward_tokens: 4,
        claimable_after: 5,
        start_at: 6,
        pool_pda_account: addr(1),
        creator: addr(2),
    };
    assert_eq!(pr.to_bytes().len(), PAYROLL_PDA_LEN);
    assert_eq!(Payroll::try_from_slice(&pr.to_bytes()), Ok(pr));
    let pi = PayrollIndex {
        account_type: 104,
        reward_token_mint_account: addr(3),
        index: 9,
        payroll_pda: addr(4),
        creator: addr(5),
    };
    assert_eq!(PayrollIndex::try_from_slice(&pi.to_bytes()), Ok(pi));
    let pt = PayrollToken {
        account_type: 103,
        reward_token_mint_account: addr(6),
        reward_withdrawn_amount: 7,
        total_reward_amount: 8,
        payroll_pda: addr(9),
        creator: addr(10),
    };
    assert_eq!(PayrollToken::try_from_slice(&pt.to_bytes()), Ok(pt));
    let sp = StakingPayroll {
        account_type: 105,
        staking_pda_account: addr(11),
        deposited_power: 1,
        total_pool_deposited_power: 2,
        total_reward_amount: 3,
        reward_withdrawn_amount: 4,
        index: 5,
        withdrawn_at: 6,
    };
    assert_eq!(StakingPayroll::try_from_slice(&sp.to_bytes()), Ok(sp));
    let td = TokenData { account_type: 106, power: 77, token_mint_address: addr(12) };
    assert_eq!(TokenData::try_from_slice(&td.to_bytes()), Ok(td));
    let cd = CollectionData { account_type: 107, collection_mint_address: addr(13) };
    assert_eq!(CollectionData::try_from_slice(&cd.to_bytes()), Ok(cd));
    let rt = RewardToken { account_type: 1, reward_token_mint_address: addr(14), reward_ata: addr(15) };
    assert_eq!(RewardToken::try_from_slice(&rt.to_bytes()), Ok(rt));
}

#[test]
fn record_of_wrong_length_is_refused() {
    let mut bytes = sample_pool().to_bytes();
    bytes.push(0);
    assert_eq!(Pool::try_from_slice(&bytes), Err(LedgerError::InvalidAccountData));
    assert_eq!(Payroll::try_from_slice(&[]), Err(LedgerError::InvalidAccountData));
}

#[test]
fn payloads_round_trip() {
    let ins = PoolInitializationIns {
        id: [1u8; 16],
        name: [2u8; 16],
        reward_period: 3,
        start_at: 4,
        creator: addr(5),
        collection: addr(6),
        pool_type: 7,
    };
    assert_eq!(PoolInitializationIns::try_from_slice(&ins.to_bytes()), Ok(ins));
    let d = PoolDepositIns { withdrawn_address: addr(8) };
    assert_eq!(PoolDepositIns::try_from_slice(&d.to_bytes()), Ok(d));
    let a = RewardAddition { amount: 1_000_000, payroll_index: 2 };
    assert_eq!(a.to_bytes(), vec![64, 66, 15, 0, 0, 0, 0, 0, 2, 0, 0, 0, 0, 0, 0, 0]);
    assert_eq!(RewardAddition::try_from_slice(&a.to_bytes()), Ok(a));
    let i = RewardInitialization { index: 9 };
    assert_eq!(RewardInitialization::try_from_slice(&i.to_bytes()), Ok(i));
    let r = RewardRedemption { index: 3 };
    assert_eq!(RewardRedemption::try_from_slice(&r.to_bytes()), Ok(r));
    let t = TokenDataUpdate { token_power: 10 };
    assert_eq!(TokenDataUpdate::try_from_slice(&t.to_bytes()), Ok(t));
    assert_eq!(TokenDataUpdate::try_from_slice(&[1, 2]), Err(LedgerError::InvalidInstructionData));
}

#[test]
fn requests_are_selected_by_leading_byte() {
    assert_eq!(decode_instruction(&[]), Err(LedgerError::InvalidInstructionData));
    assert_eq!(decode_instruction(&[0]), Err(LedgerError::InvalidInstructionData));
    assert_eq!(decode_instruction(&[8]), Err(LedgerError::InvalidInstructionData));
    assert_eq!(decode_instruction(&[3]), Ok(Instruction::Deposit));
    assert_eq!(decode_instruction(&[5, 1, 2]), Ok(Instruction::WithdrawPrincipal));
    assert_eq!(decode_instruction(&[7]), Ok(Instruction::RegisterCollection));
    assert_eq!(
        decode_instruction(&[4, 3, 0, 0, 0, 0, 0, 0, 0]),
        Ok(Instruction::ClaimReward(RewardRedemption { index: 3 }))
    );
    assert_eq!(decode_instruction(&[4, 3]), Err(LedgerError::InvalidInstructionData));
    let mut add = vec![2u8];
    add.extend(RewardAddition { amount: 5, payroll_index: 6 }.to_bytes());
    assert_eq!(
        decode_instruction(&add),
        Ok(Instruction::AddReward(RewardAddition { amount: 5, payroll_index: 6 }))
    );
    let mut w = vec![6u8];
    w.extend(TokenDataUpdate { token_power: 4 }.to_bytes());
    assert_eq!(decode_instruction(&w), Ok(Instruction::SetTokenWeight(TokenDataUpdate { token_power: 4 })));
}

#[test]
fn decimal_text_of_numbers() {
    assert_eq!(decimal_text(0), b"0".to_vec());
    assert_eq!(decimal_text(7), b"7".to_vec());
    assert_eq!(decimal_text(10), b"10".to_vec());
    assert_eq!(decimal_text(1234567), b"1234567".to_vec());
    assert_eq!(decimal_text(u64::MAX), u64::MAX.to_string().into_bytes());
}

#[test]
fn addresses_compare_by_bytes() {
    assert!(same_address(&addr(1), &addr(1)));
    let mut b = [1u8; 32];
    b[31] = 2;
    assert!(!same_address(&addr(1), &Address::new(b)));
}

#[test]
fn payroll_address_matches_program_derivation() {
    let program = addr(7);
    let pool = addr(8);
    let (key, bump) = payroll_address(&program, &pool, 12).unwrap();
    let (expected, expected_bump) = Pubkey::find_program_address(
        &[b"payroll", b"12", &[8u8; 32]],
        &Pubkey::new_from_array([7u8; 32]),
    );
    assert_eq!(key.bytes, expected.to_bytes());
    assert_eq!(bump, expected_bump);
    assert_ne!(key, pool);
}

#[test]
fn staking_pda_matches_program_derivation() {
    let (key, bump) = get_staking_pda(&addr(1), &addr(2), &addr(3), &addr(4)).unwrap();
    let (expected, expected_bump) = Pubkey::find_program_address(
        &[b"staking", &[3u8; 32], &[2u8; 32], &[1u8; 32]],
        &Pubkey::new_from_array([4u8; 32]),
    );
    assert_eq!(key.bytes, expected.to_bytes());
    assert_eq!(bump, expected_bump);
    assert_eq!(staking_address(&addr(4), &addr(1), &addr(2), &addr(3)), Some((key, bump)));
}

#[test]
fn associated_token_account_is_checked() {
    let owner = addr(1);
    let mint = addr(2);
    let expected = spl_associated_token_account::get_associated_token_address(
        &Pubkey::new_from_array(owner.bytes),
        &Pubkey::new_from_array(mint.bytes),
    );
    let ata = Address::new(expected.to_bytes());
    assert!(is_associated_token_address(&owner, &ata, &mint));
    assert!(!is_associated_token_address(&owner, &owner, &mint));
    assert_eq!(verify_ata_account(&owner, &ata, &mint), Ok(()));
    assert_eq!(
        verify_ata_account(&owner, &mint, &mint),
        Err(LedgerError::Contract(ContractError::InvalidAtaAccount))
    );
}

#[test]
fn owner_checks() {
    assert_eq!(verify_program_account(&addr(3), &addr(3)), Ok(()));
    assert_eq!(
        verify_program_account(&addr(3), &addr(4)),
        Err(LedgerError::Contract(ContractError::InvalidProgramAccount))
    );
    assert_eq!(verify_system_account(&Address::new([0u8; 32])), Ok(()));
    assert_eq!(
        verify_system_account(&addr(1)),
        Err(LedgerError::Contract(ContractError::InvalidProgramAccount))
    );
}

#[test]
fn get_or_create_payroll_twice_names_same_record() {
    let program = addr(7);
    let pool = addr(8);
    let (key, bump) = payroll_address(&program, &pool, 3).unwrap();
    let first = get_or_create_payroll_by_index(3, &program, &pool, &key, false).unwrap();
    assert!(first.create);
    let second = get_or_create_payroll_by_index(3, &program, &pool, &key, true).unwrap();
    assert!(!second.create);
    assert_eq!(first.key, second.key);
    assert_eq!(first.index, second.index);
    assert_eq!(first.bump, bump);
    assert_eq!(second.bump, bump);
    assert_eq!(
        get_or_create_payroll_by_index(4, &program, &pool, &key, true),
        Err(LedgerError::InvalidAccountData)
    );
}

#[test]
fn current_and_next_payroll_by_time() {
    let program = addr(7);
    let pool_key = addr(8);
    let pool = sample_pool();
    let (k3, _) = payroll_address(&program, &pool_key, 3).unwrap();
    let cur = get_or_create_current_payroll_by_time(250, &program, &pool_key, &k3, false, &pool).unwrap();
    assert_eq!(cur.index, 3);
    let (k4, _) = payroll_address(&program, &pool_key, 4).unwrap();
    let next = get_or_create_next_payroll_by_time(250, &program, &pool_key, &k4, true, &pool).unwrap();
    assert_eq!(next.index, 4);
    assert!(!next.create);
    assert_eq!(
        get_or_create_current_payroll_by_time(3, &program, &pool_key, &k3, false, &pool),
        Err(LedgerError::Contract(ContractError::InvalidTimeRange))
    );
}

#[test]
fn pool_creation_checks_payer_and_address() {
    let program = addr(7);
    let ins = PoolInitializationIns {
        id: [9u8; 16],
        name: [1u8; 16],
        reward_period: 60,
        start_at: 1_000,
        creator: addr(2),
        collection: addr(3),
        pool_type: 1,
    };
    let (key, bump) = pool_address(&program, &ins.id).unwrap();
    let (pool, b) = init_pool(&program, &Address::new([0u8; 32]), &key, &ins).unwrap();
    assert_eq!(b, bump);
    assert_eq!(pool.account_type, 100);
    assert_eq!(pool.total_deposited_power, 0);
    assert_eq!(pool.reward_period, 60);
    assert_eq!(pool.start_at, 1_000);
    assert_eq!(pool.collection, addr(3));
    assert_eq!(
        init_pool(&program, &addr(1), &key, &ins),
        Err(LedgerError::Contract(ContractError::NotASystemAccount))
    );
    assert_eq!(
        init_pool(&program, &Address::new([0u8; 32]), &addr(5), &ins),
        Err(LedgerError::Contract(ContractError::InvalidPdaAccount))
    );
}

#[test]
fn token_weight_and_collection_records() {
    let program = addr(7);
    let system = Address::new([0u8; 32]);
    let mint = addr(30);
    let (td_key, _) = nft_staking::seeds::token_data_address(&program, &mint).unwrap();
    let (td, _) = set_token_weight(&program, &system, &mint, &td_key, 3).unwrap();
    assert_eq!(td, TokenData { account_type: 106, power: 3, token_mint_address: mint });
    assert_eq!(
        set_token_weight(&program, &system, &mint, &mint, 3),
        Err(LedgerError::Contract(ContractError::InvalidPdaAccount))
    );
    let (cd_key, _) = nft_staking::seeds::collection_data_address(&program, &mint).unwrap();
    let (cd, _) = register_collection(&program, &system, &mint, &cd_key).unwrap();
    assert_eq!(cd, CollectionData { account_type: 107, collection_mint_address: mint });
    assert_eq!(
        register_collection(&program, &addr(1), &mint, &cd_key),
        Err(LedgerError::Contract(ContractError::InvalidProgramAccount))
    );
}

#[test]
fn error_codes_follow_declaration_order() {
    assert_eq!(ContractError::NotASystemAccount.code(), 0);
    assert_eq!(ContractError::InvalidPdaAccount.code(), 6);
    assert_eq!(ContractError::NoRewardPayroll.code(), 11);
    assert_eq!(ContractError::InvalidCollection.code(), 15);
    assert_eq!(ContractError::TransferError.code(), 14);
}
