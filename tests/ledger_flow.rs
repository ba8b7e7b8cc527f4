use nft_staking::address::Address;
use nft_staking::claim::{claim_reward, ClaimRequest};
use nft_staking::deposit::{deposit, CollectionRef, DepositOutcome, DepositRequest};
use nft_staking::epoch::{compute_owed_reward, recalculate_reward_rate};
use nft_staking::error::{ContractError, LedgerError};
use nft_staking::instruction::PoolInitializationIns;
use nft_staking::rewards::{add_reward, RewardOutcome, RewardRequest};
use nft_staking::seeds::{
    payroll_address, payroll_index_address, payroll_token_address, pool_address, staking_address,
    staking_payroll_address, token_data_address,
};
use nft_staking::setup::init_pool;
use nft_staking::state::{Payroll, PayrollToken, Pool, StakingAccount, StakingPayroll};
use nft_staking::withdrawal::{withdraw_principal, WithdrawRequest};
use solana_program::pubkey::Pubkey;

fn addr(b: u8) -> Address {
    Address::new([b; 32])
}

fn system() -> Address {
    Address::new([0u8; 32])
}

fn program() -> Address {
    addr(7)
}

fn ata(owner: &Address, mint: &Address) -> Address {
    let k = spl_associated_token_account::get_associated_token_address(
        &Pubkey::new_from_array(owner.bytes),
        &Pubkey::new_from_array(mint.bytes),
    );
    Address::new(k.to_bytes())
}

const COLLECTION: u8 = 40;
const METADATA_PROGRAM: u8 = 41;
const REWARD_MINT: u8 = 42;

fn make_pool(reward_period: u64, start_at: u64) -> (Address, Pool) {
    let ins = PoolInitializationIns {
        id: [3u8; 16],
        name: [4u8; 16],
        reward_period,
        start_at,
        creator: addr(9),
        collection: addr(COLLECTION),
        pool_type: 0,
    };
    let (key, _) = pool_address(&program(), &ins.id).unwrap();
    let (pool, _) = init_pool(&program(), &system(), &key, &ins).unwrap();
    (key, pool)
}

fn deposit_request(
    pool_key: Address,
    pool: Pool,
    depositor: Address,
    mint: Address,
    payroll: Option<Payroll>,
    now: u64,
) -> DepositRequest {
    let index = (now - pool.start_at) / pool.reward_period + 2;
    DepositRequest {
        program_id: program(),
        payer: depositor,
        payer_owner: system(),
        position_key: staking_address(&program(), &pool_key, &depositor, &mint).unwrap().0,
        position: None,
        pool_key,
        pool_owner: program(),
        pool,
        mint,
        metadata_owner: addr(METADATA_PROGRAM),
        metadata_program: addr(METADATA_PROGRAM),
        collection: Some(CollectionRef { key: addr(COLLECTION), verified: true }),
        token_data_key: token_data_address(&program(), &mint).unwrap().0,
        token_data: None,
        payroll_key: payroll_address(&program(), &pool_key, index).unwrap().0,
        payroll,
        now,
    }
}

fn reward_request(
    pool_key: Address,
    pool: Pool,
    payroll: Option<Payroll>,
    payroll_token: Option<PayrollToken>,
    index: u64,
    amount: u64,
) -> RewardRequest {
    let payer = addr(50);
    let mint = addr(REWARD_MINT);
    let payroll_key = payroll_address(&program(), &pool_key, index).unwrap().0;
    let number = payroll.map(|p| p.number_of_reward_tokens).unwrap_or(0) + 1;
    RewardRequest {
        program_id: program(),
        payer,
        payer_owner: system(),
        pool_key,
        pool,
        mint,
        source_ata: ata(&payer, &mint),
        destination_ata: ata(&payroll_key, &mint),
        payroll_token_key: payroll_token_address(&program(), &payroll_key, &mint, index).unwrap().0,
        payroll_token,
        payroll_index_key: payroll_index_address(&program(), &payroll_key, number).unwrap().0,
        payroll_key,
        payroll,
        amount,
        index,
    }
}

fn claim_request(
    pool_key: Address,
    pool: Pool,
    position: StakingAccount,
    payroll: Option<Payroll>,
    payroll_token: PayrollToken,
    receipt: Option<StakingPayroll>,
    index: u64,
    now: u64,
) -> ClaimRequest {
    let mint = payroll_token.reward_token_mint_account;
    let payroll_key = payroll_address(&program(), &pool_key, index).unwrap().0;
    let position_key = staking_address(
        &program(),
        &pool_key,
        &position.depositor,
        &position.staking_token_mint_address,
    )
    .unwrap()
    .0;
    ClaimRequest {
        program_id: program(),
        payer_owner: system(),
        pool_key,
        pool_owner: program(),
        pool,
        position_key,
        position_owner: program(),
        position,
        destination: position.withdrawn_address,
        receipt_key: staking_payroll_address(&program(), &pool_key, &position_key, index).unwrap().0,
        receipt,
        reward_mint: mint,
        source_ata: ata(&payroll_key, &mint),
        destination_ata: ata(&position.withdrawn_address, &mint),
        destination_ata_exists: true,
        payroll_key,
        payroll,
        payroll_token_key: payroll_token_address(&program(), &payroll_key, &mint, index).unwrap().0,
        payroll_token: Some(payroll_token),
        index,
        now,
    }
}

fn withdraw_request(pool_key: Address, pool: Pool, position: StakingAccount, payroll: Option<Payroll>, now: u64) -> WithdrawRequest {
    let index = (now - pool.start_at) / pool.reward_period + 1;
    let mint = position.staking_token_mint_address;
    WithdrawRequest {
        program_id: program(),
        payer: position.depositor,
        payer_owner: system(),
        payer_is_signer: true,
        position_key: staking_address(&program(), &pool_key, &position.depositor, &mint).unwrap().0,
        position_owner: program(),
        position,
        pool_key,
        pool_owner: program(),
        pool,
        destination: position.withdrawn_address,
        mint,
        token_data_key: token_data_address(&program(), &mint).unwrap().0,
        destination_ata_exists: true,
        payroll_key: payroll_address(&program(), &pool_key, index).unwrap().0,
        payroll,
        now,
    }
}

fn first_deposit(now: u64) -> (Address, DepositOutcome) {
    let (pool_key, pool) = make_pool(100, 0);
    let out = deposit(&deposit_request(pool_key, pool, addr(11), addr(21), None, now)).unwrap();
    (pool_key, out)
}

fn reward_epoch(pool_key: Address, pool: Pool, payroll: Option<Payroll>, index: u64, amount: u64) -> RewardOutcome {
    add_reward(&reward_request(pool_key, pool, payroll, None, index, amount)).unwrap()
}

#[test]
fn single_depositor_is_paid_whole_reward() {
    let (pool_key, d) = first_deposit(50);
    assert_eq!(d.pool.total_deposited_power, 1);
    assert_eq!(d.position.first_payroll_index, 2);
    assert_eq!(d.position.deposited_power, 1);
    assert_eq!(d.payroll.claimable_after, 200);
    assert!(d.payroll_slot.create);
    let rate = recalculate_reward_rate(d.payroll.total_deposited_power, 1_000_000);
    assert_eq!(rate, 1_000_000_000_000);
    assert_eq!(compute_owed_reward(1, rate, 1_000_000, 0), Some(1_000_000));
    let r = reward_epoch(pool_key, d.pool, Some(d.payroll), 2, 1_000_000);
    assert!(r.new_token);
    assert_eq!(r.payroll.number_of_reward_tokens, 1);
    assert_eq!(r.payroll_index.unwrap().index, 1);
    let req = claim_request(pool_key, d.pool, d.position, Some(r.payroll), r.payroll_token, None, 2, 250);
    let c = claim_reward(&req).unwrap();
    assert_eq!(c.amount, 1_000_000);
    assert_eq!(c.position.withdrawn_reward_amount, 1_000_000);
    assert_eq!(c.receipt.reward_withdrawn_amount, 1_000_000);
    assert_eq!(c.payroll_token.reward_withdrawn_amount, 1_000_000);
    assert!(c.create_receipt);
    assert!(!c.native);
}

#[test]
fn claim_before_claimable_after_is_refused() {
    let (pool_key, d) = first_deposit(50);
    let r = reward_epoch(pool_key, d.pool, Some(d.payroll), 2, 1_000_000);
    let req = claim_request(pool_key, d.pool, d.position, Some(r.payroll), r.payroll_token, None, 2, 190);
    assert_eq!(claim_reward(&req), Err(LedgerError::Contract(ContractError::InvalidTimeRange)));
}

#[test]
fn claim_of_first_epoch_at_ninety_is_refused() {
    let (pool_key, d) = first_deposit(50);
    let r = reward_epoch(pool_key, d.pool, None, 1, 1_000_000);
    assert_eq!(r.payroll.claimable_after, 100);
    let req = claim_request(pool_key, d.pool, d.position, Some(r.payroll), r.payroll_token, None, 1, 90);
    assert_eq!(claim_reward(&req), Err(LedgerError::Contract(ContractError::InvalidTimeRange)));
}

#[test]
fn claim_before_first_epoch_is_refused() {
    let (pool_key, d) = first_deposit(50);
    let (pool_key2, pool2) = (pool_key, d.pool);
    let r = reward_epoch(pool_key2, pool2, None, 1, 500);
    let req = claim_request(pool_key, d.pool, d.position, Some(r.payroll), r.payroll_token, None, 1, 1_000);
    assert_eq!(claim_reward(&req), Err(LedgerError::Contract(ContractError::InvalidTimeRange)));
}

#[test]
fn claim_without_epoch_record_is_refused() {
    let (pool_key, d) = first_deposit(50);
    let r = reward_epoch(pool_key, d.pool, Some(d.payroll), 2, 10);
    let req = claim_request(pool_key, d.pool, d.position, None, r.payroll_token, None, 2, 250);
    assert_eq!(claim_reward(&req), Err(LedgerError::Contract(ContractError::NoRewardPayroll)));
}

#[test]
fn claim_without_reward_record_is_refused() {
    let (pool_key, d) = first_deposit(50);
    let r = reward_epoch(pool_key, d.pool, Some(d.payroll), 2, 10);
    let mut req = claim_request(pool_key, d.pool, d.position, Some(r.payroll), r.payroll_token, None, 2, 250);
    req.payroll_token = None;
    assert_eq!(claim_reward(&req), Err(LedgerError::InvalidAccountData));
}

#[test]
fn second_claim_of_same_epoch_is_refused() {
    let (pool_key, d) = first_deposit(50);
    let r = reward_epoch(pool_key, d.pool, Some(d.payroll), 2, 1_000_000);
    let req = claim_request(pool_key, d.pool, d.position, Some(r.payroll), r.payroll_token, None, 2, 250);
    let c = claim_reward(&req).unwrap();
    let again = claim_request(pool_key, d.pool, c.position, Some(r.payroll), c.payroll_token, Some(c.receipt), 2, 300);
    assert_eq!(claim_reward(&again), Err(LedgerError::Contract(ContractError::RewardAlreadyWithdrawn)));
}

#[test]
fn reward_added_after_a_claim_is_paid_on_top() {
    let (pool_key, d) = first_deposit(50);
    let r = reward_epoch(pool_key, d.pool, Some(d.payroll), 2, 600);
    let c = claim_reward(&claim_request(pool_key, d.pool, d.position, Some(r.payroll), r.payroll_token, None, 2, 250)).unwrap();
    assert_eq!(c.amount, 600);
    let more = add_reward(&reward_request(pool_key, d.pool, Some(r.payroll), Some(c.payroll_token), 2, 400)).unwrap();
    assert!(!more.new_token);
    assert_eq!(more.payroll_token.total_reward_amount, 1_000);
    assert_eq!(more.payroll.number_of_reward_tokens, 1);
    let c2 = claim_reward(&claim_request(pool_key, d.pool, c.position, Some(more.payroll), more.payroll_token, Some(c.receipt), 2, 260)).unwrap();
    assert_eq!(c2.amount, 400);
    assert_eq!(c2.position.withdrawn_reward_amount, 1_000);
    assert_eq!(c2.receipt.reward_withdrawn_amount, 1_000);
    assert!(!c2.create_receipt);
}

#[test]
fn two_depositors_share_reward_equally() {
    let (pool_key, pool) = make_pool(100, 0);
    let a = deposit(&deposit_request(pool_key, pool, addr(11), addr(21), None, 50)).unwrap();
    let b = deposit(&deposit_request(pool_key, a.pool, addr(12), addr(22), Some(a.payroll), 60)).unwrap();
    assert_eq!(b.pool.total_deposited_power, 2);
    assert_eq!(b.payroll.total_deposited_power, 2);
    assert!(!b.payroll_slot.create);
    assert_eq!(recalculate_reward_rate(2, 100), 50_000_000);
    assert_eq!(compute_owed_reward(1, 50_000_000, 1_000_000, 0), Some(50));
    let r = reward_epoch(pool_key, b.pool, Some(b.payroll), 2, 100);
    let ca = claim_reward(&claim_request(pool_key, b.pool, a.position, Some(r.payroll), r.payroll_token, None, 2, 200)).unwrap();
    assert_eq!(ca.amount, 50);
    let cb = claim_reward(&claim_request(pool_key, b.pool, b.position, Some(r.payroll), ca.payroll_token, None, 2, 200)).unwrap();
    assert_eq!(cb.amount, 50);
    assert_eq!(cb.payroll_token.reward_withdrawn_amount, 100);
}

#[test]
fn withdrawn_position_claims_only_earlier_epochs() {
    let (pool_key, d) = first_deposit(50);
    let r2 = reward_epoch(pool_key, d.pool, Some(d.payroll), 2, 1_000);
    let w = withdraw_principal(&withdraw_request(pool_key, d.pool, d.position, None, 350)).unwrap();
    assert_eq!(w.position.withdrawn_at, 350);
    assert_eq!(w.pool.total_deposited_power, 0);
    assert_eq!(w.payroll_slot.index, 4);
    assert!(w.payroll_slot.create);
    assert_eq!(w.payroll.total_deposited_power, 0);
    let r4 = reward_epoch(pool_key, w.pool, Some(w.payroll), 4, 1_000);
    let late = claim_request(pool_key, w.pool, w.position, Some(r4.payroll), r4.payroll_token, None, 4, 900);
    assert_eq!(claim_reward(&late), Err(LedgerError::Contract(ContractError::InvalidPdaAccount)));
    let early = claim_request(pool_key, w.pool, w.position, Some(r2.payroll), r2.payroll_token, None, 2, 900);
    assert_eq!(claim_reward(&early).unwrap().amount, 1_000);
}

#[test]
fn second_withdrawal_is_refused() {
    let (pool_key, d) = first_deposit(50);
    let w = withdraw_principal(&withdraw_request(pool_key, d.pool, d.position, None, 120)).unwrap();
    assert_eq!(w.position.withdrawn_at, 120);
    let again = withdraw_request(pool_key, w.pool, w.position, Some(w.payroll), 130);
    assert_eq!(withdraw_principal(&again), Err(LedgerError::Contract(ContractError::FundAlreadyWithdrawn)));
}

#[test]
fn withdrawal_by_another_account_is_refused() {
    let (pool_key, d) = first_deposit(50);
    let mut req = withdraw_request(pool_key, d.pool, d.position, None, 120);
    req.payer = addr(99);
    assert_eq!(withdraw_principal(&req), Err(LedgerError::Contract(ContractError::InvalidDepositor)));
    let mut unsigned = withdraw_request(pool_key, d.pool, d.position, None, 120);
    unsigned.payer_is_signer = false;
    assert_eq!(withdraw_principal(&unsigned), Err(LedgerError::Contract(ContractError::InvalidDepositor)));
}

#[test]
fn withdrawal_to_other_address_is_refused() {
    let (pool_key, d) = first_deposit(50);
    let mut req = withdraw_request(pool_key, d.pool, d.position, None, 120);
    req.destination = addr(98);
    assert_eq!(withdraw_principal(&req), Err(LedgerError::Contract(ContractError::InvalidWithdrawnAddress)));
}

#[test]
fn deposit_into_existing_position_is_refused() {
    let (pool_key, d) = first_deposit(50);
    let mut req = deposit_request(pool_key, d.pool, addr(11), addr(21), Some(d.payroll), 60);
    req.position = Some(d.position);
    assert_eq!(deposit(&req), Err(LedgerError::Contract(ContractError::InvalidDepositAmount)));
    let mut closed = d.position;
    closed.withdrawn_at = 70;
    req.position = Some(closed);
    assert_eq!(deposit(&req), Err(LedgerError::Contract(ContractError::FundAlreadyWithdrawn)));
}

#[test]
fn deposit_from_unverified_collection_is_refused() {
    let (pool_key, pool) = make_pool(100, 0);
    let mut req = deposit_request(pool_key, pool, addr(11), addr(21), None, 50);
    req.collection = Some(CollectionRef { key: addr(COLLECTION), verified: false });
    assert_eq!(deposit(&req), Err(LedgerError::Contract(ContractError::InvalidCollection)));
    req.collection = Some(CollectionRef { key: addr(1), verified: true });
    assert_eq!(deposit(&req), Err(LedgerError::Contract(ContractError::InvalidCollection)));
    req.collection = None;
    assert_eq!(deposit(&req), Err(LedgerError::Contract(ContractError::InvalidCollection)));
}

#[test]
fn deposit_at_wrong_position_address_is_refused() {
    let (pool_key, pool) = make_pool(100, 0);
    let mut req = deposit_request(pool_key, pool, addr(11), addr(21), None, 50);
    req.position_key = addr(77);
    assert_eq!(deposit(&req), Err(LedgerError::Contract(ContractError::InvalidPdaAccount)));
}

#[test]
fn deposit_with_wrong_epoch_record_is_refused() {
    let (pool_key, pool) = make_pool(100, 0);
    let mut req = deposit_request(pool_key, pool, addr(11), addr(21), None, 50);
    req.payroll_key = payroll_address(&program(), &pool_key, 1).unwrap().0;
    assert_eq!(deposit(&req), Err(LedgerError::InvalidAccountData));
}

#[test]
fn deposit_uses_token_power() {
    let (pool_key, pool) = make_pool(100, 0);
    let mut req = deposit_request(pool_key, pool, addr(11), addr(21), None, 50);
    let (td, _) = nft_staking::setup::set_token_weight(&program(), &system(), &addr(21), &req.token_data_key, 5).unwrap();
    req.token_data = Some(td);
    let out = deposit(&req).unwrap();
    assert_eq!(out.position.deposited_power, 5);
    assert_eq!(out.pool.total_deposited_power, 5);
}

#[test]
fn deposit_before_start_is_refused() {
    let (pool_key, pool) = make_pool(100, 1_000);
    let mut req = deposit_request(pool_key, pool, addr(11), addr(21), None, 1_000);
    req.now = 999;
    assert_eq!(deposit(&req), Err(LedgerError::Contract(ContractError::InvalidTimeRange)));
}

#[test]
fn reward_with_wrong_source_account_is_refused() {
    let (pool_key, d) = first_deposit(50);
    let mut req = reward_request(pool_key, d.pool, Some(d.payroll), None, 2, 10);
    req.source_ata = addr(5);
    assert_eq!(add_reward(&req), Err(LedgerError::Contract(ContractError::InvalidAtaAccount)));
}

#[test]
fn reward_into_new_epoch_creates_it() {
    let (pool_key, d) = first_deposit(50);
    let r = reward_epoch(pool_key, d.pool, None, 3, 10);
    assert!(r.payroll_slot.create);
    assert!(r.create_payroll_ata);
    assert_eq!(r.payroll.index, 3);
    assert_eq!(r.payroll.total_deposited_power, 1);
    assert_eq!(r.payroll.claimable_after, 300);
    assert_eq!(r.payroll.number_of_reward_tokens, 1);
}

#[test]
fn claim_with_other_reward_token_is_refused() {
    let (pool_key, d) = first_deposit(50);
    let r = reward_epoch(pool_key, d.pool, Some(d.payroll), 2, 10);
    let mut req = claim_request(pool_key, d.pool, d.position, Some(r.payroll), r.payroll_token, None, 2, 250);
    req.reward_mint = addr(43);
    assert_eq!(claim_reward(&req), Err(LedgerError::Contract(ContractError::InvalidRewardToken)));
}

#[test]
fn claim_to_other_address_is_refused() {
    let (pool_key, d) = first_deposit(50);
    let r = reward_epoch(pool_key, d.pool, Some(d.payroll), 2, 10);
    let mut req = claim_request(pool_key, d.pool, d.position, Some(r.payroll), r.payroll_token, None, 2, 250);
    req.destination = addr(44);
    assert_eq!(claim_reward(&req), Err(LedgerError::Contract(ContractError::InvalidWithdrawnAddress)));
}

#[test]
fn claim_from_wrong_source_account_is_refused() {
    let (pool_key, d) = first_deposit(50);
    let r = reward_epoch(pool_key, d.pool, Some(d.payroll), 2, 10);
    let mut req = claim_request(pool_key, d.pool, d.position, Some(r.payroll), r.payroll_token, None, 2, 250);
    req.source_ata = addr(45);
    assert_eq!(claim_reward(&req), Err(LedgerError::Contract(ContractError::InvalidAtaAccount)));
}

#[test]
fn claim_by_foreign_program_record_is_refused() {
    let (pool_key, d) = first_deposit(50);
    let r = reward_epoch(pool_key, d.pool, Some(d.payroll), 2, 10);
    let mut req = claim_request(pool_key, d.pool, d.position, Some(r.payroll), r.payroll_token, None, 2, 250);
    req.position_owner = addr(46);
    assert_eq!(claim_reward(&req), Err(LedgerError::Contract(ContractError::InvalidProgramAccount)));
}

#[test]
fn native_reward_is_marked_native() {
    let (pool_key, d) = first_deposit(50);
    let mut req = reward_request(pool_key, d.pool, Some(d.payroll), None, 2, 10);
    let mint = system();
    req.mint = mint;
    req.source_ata = ata(&req.payer, &mint);
    req.destination_ata = ata(&req.payroll_key, &mint);
    req.payroll_token_key = payroll_token_address(&program(), &req.payroll_key, &mint, 2).unwrap().0;
    let r = add_reward(&req).unwrap();
    assert!(r.native);
    assert!(!r.create_payroll_ata);
    let c = claim_reward(&claim_request(pool_key, d.pool, d.position, Some(r.payroll), r.payroll_token, None, 2, 250)).unwrap();
    assert!(c.native);
    assert!(!c.create_destination_ata);
    assert_eq!(c.amount, 10);
}
