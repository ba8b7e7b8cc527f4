use vstd::prelude::*;
use crate::address::{
    associated_token_address_of, is_associated_token_address, program_address_of, same_address,
    Address,
};
use crate::epoch::{
    checked_next_payroll_index, checked_payroll_index, epoch_index, epoch_index_defined,
};
use crate::error::{ContractError, LedgerError};
use crate::seeds::{payroll_address, payroll_seeds, staking_address, staking_seeds};
use crate::state::Pool;

verus! {

/// The address of the system program: 32 zero bytes.
pub open spec fn system_program() -> Seq<u8> {
    Seq::new(32, |i: int| 0u8)
}

/// Relies on `solana_program::system_program::ID`, the all-zero address.
#[verifier::external_body]
pub(crate) fn system_program_id() -> (r: Address)
    ensures
        r@ == system_program(),
{
    Address { bytes: solana_program::system_program::ID.to_bytes() }
}

/// Whether `seeds` under `program_id` derive the address `key`.
pub open spec fn derives_to(seeds: Seq<Seq<u8>>, program_id: Seq<u8>, key: Seq<u8>) -> bool {
    match program_address_of(seeds, program_id) {
        Some((a, _)) => a == key,
        None => false,
    }
}

/// The bump seed of a derivation known to succeed.
pub open spec fn bump_of(seeds: Seq<Seq<u8>>, program_id: Seq<u8>) -> u8 {
    match program_address_of(seeds, program_id) {
        Some((_, b)) => b,
        None => 0,
    }
}

/// Checks that a record is owned by `program_id`.
pub fn verify_program_account(owner: &Address, program_id: &Address) -> (r: Result<(), LedgerError>)
    ensures
        r is Ok <==> owner@ == program_id@,
        r is Err ==> r->Err_0 == LedgerError::Contract(ContractError::InvalidProgramAccount),
{
    if same_address(owner, program_id) {
        Ok(())
    } else {
        Err(LedgerError::Contract(ContractError::InvalidProgramAccount))
    }
}

/// Checks that an account is a plain funding account, owned by the system program.
pub fn verify_system_account(owner: &Address) -> (r: Result<(), LedgerError>)
    ensures
        r is Ok <==> owner@ == system_program(),
        r is Err ==> r->Err_0 == LedgerError::Contract(ContractError::InvalidProgramAccount),
{
    let system = system_program_id();
    verify_program_account(owner, &system)
}

/// Checks that `ata` is the token balance account of `address` for `mint`.
pub fn verify_ata_account(address: &Address, ata: &Address, mint: &Address) -> (r: Result<(), LedgerError>)
    ensures
        r is Ok <==> ata@ == associated_token_address_of(address@, mint@),
        r is Err ==> r->Err_0 == LedgerError::Contract(ContractError::InvalidAtaAccount),
{
    if is_associated_token_address(address, ata, mint) {
        Ok(())
    } else {
        Err(LedgerError::Contract(ContractError::InvalidAtaAccount))
    }
}

/// The address and bump seed of the position of `address` with token `mint` in a pool.
pub fn get_staking_pda(pool_pda: &Address, address: &Address, mint: &Address, program_id: &Address) -> (r:
    Result<(Address, u8), LedgerError>)
    ensures
        (match r {
            Ok((a, b)) => program_address_of(staking_seeds(*pool_pda, *address, *mint), program_id@) == Some(
                (a@, b),
            ),
            Err(e) => program_address_of(staking_seeds(*pool_pda, *address, *mint), program_id@) is None
                && e == LedgerError::NoProgramAddress,
        }),
{
    match staking_address(program_id, pool_pda, address, mint) {
        Some(p) => Ok(p),
        None => Err(LedgerError::NoProgramAddress),
    }
}

/// Where an epoch record stands: its address, index and bump seed, and whether the
/// record is still to be created.
#[derive(Clone, Copy, Debug, PartialEq, Eq)]
pub struct PayrollSlot {
    pub key: Address,
    pub index: u64,
    pub bump: u8,
    pub create: bool,
}

/// What resolving the epoch record `index` of pool `pool_key` at `payroll_key` gives.
pub open spec fn payroll_slot(
    program_id: Seq<u8>,
    pool_key: Address,
    payroll_key: Address,
    index: u64,
    exists: bool,
) -> Result<PayrollSlot, LedgerError> {
    let seeds = payroll_seeds(pool_key, index);
    if derives_to(seeds, program_id, payroll_key@) {
        Ok(PayrollSlot { key: payroll_key, index, bump: bump_of(seeds, program_id), create: !exists })
    } else {
        Err(LedgerError::InvalidAccountData)
    }
}

/// Resolves the epoch record `index` of a pool: checks that `payroll_key` is its derived
/// address and says whether it must be created (`exists` is whether it holds data).
/// Resolving it again once it exists names the same record and creates nothing.
pub fn get_or_create_payroll_by_index(
    payroll_index: u64,
    program_id: &Address,
    pool_key: &Address,
    payroll_key: &Address,
    exists: bool,
) -> (r: Result<PayrollSlot, LedgerError>)
    ensures
        r == payroll_slot(program_id@, *pool_key, *payroll_key, payroll_index, exists),
{
    match payroll_address(program_id, pool_key, payroll_index) {
        Some((key, bump)) => {
            if same_address(&key, payroll_key) {
                Ok(PayrollSlot { key: *payroll_key, index: payroll_index, bump, create: !exists })
            } else {
                Err(LedgerError::InvalidAccountData)
            }
        },
        None => Err(LedgerError::InvalidAccountData),
    }
}

/// Resolving an epoch record twice gives the same record, and the second time, once it
/// exists, nothing is created.
pub proof fn lemma_get_or_create_payroll_idempotent(
    program_id: Seq<u8>,
    pool_key: Address,
    payroll_key: Address,
    index: u64,
    exists: bool,
)
    ensures
        payroll_slot(program_id, pool_key, payroll_key, index, exists) is Ok <==> payroll_slot(
            program_id,
            pool_key,
            payroll_key,
            index,
            true,
        ) is Ok,
        payroll_slot(program_id, pool_key, payroll_key, index, exists) is Ok ==> {
            let first = payroll_slot(program_id, pool_key, payroll_key, index, exists)->Ok_0;
            let second = payroll_slot(program_id, pool_key, payroll_key, index, true)->Ok_0;
            &&& second.key == first.key
            &&& second.index == first.index
            &&& second.bump == first.bump
            &&& !second.create
        },
{
}

/// What resolving the epoch record that contains `now` (`next`: the one after it) gives.
pub open spec fn payroll_slot_by_time(
    now: u64,
    program_id: Seq<u8>,
    pool_key: Address,
    payroll_key: Address,
    exists: bool,
    pool: Pool,
    next: bool,
) -> Result<PayrollSlot, LedgerError> {
    if !epoch_index_defined(now, pool.reward_period, pool.start_at) {
        Err(LedgerError::Contract(ContractError::InvalidTimeRange))
    } else {
        let current = epoch_index(now as int, pool.reward_period as int, pool.start_at as int);
        if next && current >= u64::MAX {
            Err(LedgerError::ArithmeticOverflow)
        } else {
            let index = if next { current + 1 } else { current };
            payroll_slot(program_id, pool_key, payroll_key, index as u64, exists)
        }
    }
}

/// Resolves the epoch record after the one that contains `now`, the first one a deposit
/// made now takes part in.
pub fn get_or_create_next_payroll_by_time(
    now: u64,
    program_id: &Address,
    pool_key: &Address,
    payroll_key: &Address,
    exists: bool,
    pool_data: &Pool,
) -> (r: Result<PayrollSlot, LedgerError>)
    ensures
        r == payroll_slot_by_time(now, program_id@, *pool_key, *payroll_key, exists, *pool_data, true),
{
    if checked_payroll_index(now, pool_data.reward_period, pool_data.start_at).is_none() {
        return Err(LedgerError::Contract(ContractError::InvalidTimeRange));
    }
    match checked_next_payroll_index(now, pool_data.reward_period, pool_data.start_at) {
        Some(index) => get_or_create_payroll_by_index(index, program_id, pool_key, payroll_key, exists),
        None => Err(LedgerError::ArithmeticOverflow),
    }
}

/// Resolves the epoch record that contains `now`.
pub fn get_or_create_current_payroll_by_time(
    now: u64,
    program_id: &Address,
    pool_key: &Address,
    payroll_key: &Address,
    exists: bool,
    pool_data: &Pool,
) -> (r: Result<PayrollSlot, LedgerError>)
    ensures
        r == payroll_slot_by_time(now, program_id@, *pool_key, *payroll_key, exists, *pool_data, false),
{
    match checked_payroll_index(now, pool_data.reward_period, pool_data.start_at) {
        Some(index) => get_or_create_payroll_by_index(index, program_id, pool_key, payroll_key, exists),
        None => Err(LedgerError::Contract(ContractError::InvalidTimeRange)),
    }
}

} // verus!
