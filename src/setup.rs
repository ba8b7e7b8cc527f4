use vstd::prelude::*;
use crate::address::{same_address, Address};
use crate::common::{bump_of, derives_to, system_program, system_program_id, verify_system_account};
use crate::error::{ContractError, LedgerError};
use crate::instruction::PoolInitializationIns;
use crate::seeds::{
    collection_data_address, collection_data_seeds, pool_address, pool_seeds, token_data_address,
    token_data_seeds,
};
use crate::state::{
    CollectionData, Pool, TokenData, COLLECTION_DATA_ACCOUNT_TYPE, POOL_ACCOUNT_TYPE,
    TOKEN_DATA_ACCOUNT_TYPE,
};

verus! {

/// The pool a creation request describes, without deposits.
pub open spec fn initial_pool(ins: PoolInitializationIns) -> Pool {
    Pool {
        account_type: POOL_ACCOUNT_TYPE,
        id: ins.id,
        name: ins.name,
        total_deposited_power: 0,
        reward_period: ins.reward_period,
        start_at: ins.start_at,
        pool_type: ins.pool_type,
        creator: ins.creator,
        collection: ins.collection,
    }
}

/// Creates a pool at the address derived from its id. The paying account must be a
/// plain funding account. Returns the pool and the bump seed of its address.
pub fn init_pool(
    program_id: &Address,
    payer_owner: &Address,
    pool_key: &Address,
    ins: &PoolInitializationIns,
) -> (r: Result<(Pool, u8), LedgerError>)
    ensures
        payer_owner@ != system_program() ==> r == Err::<(Pool, u8), LedgerError>(
            LedgerError::Contract(ContractError::NotASystemAccount),
        ),
        payer_owner@ == system_program() && !derives_to(pool_seeds(ins.id), program_id@, pool_key@) ==> r
            == Err::<(Pool, u8), LedgerError>(LedgerError::Contract(ContractError::InvalidPdaAccount)),
        payer_owner@ == system_program() && derives_to(pool_seeds(ins.id), program_id@, pool_key@) ==> r
            == Ok::<(Pool, u8), LedgerError>((initial_pool(*ins), bump_of(pool_seeds(ins.id), program_id@))),
{
    let system = system_program_id();
    if !same_address(payer_owner, &system) {
        return Err(LedgerError::Contract(ContractError::NotASystemAccount));
    }
    match pool_address(program_id, &ins.id) {
        Some((key, bump)) => {
            if !same_address(&key, pool_key) {
                return Err(LedgerError::Contract(ContractError::InvalidPdaAccount));
            }
            let pool = Pool {
                account_type: POOL_ACCOUNT_TYPE,
                id: ins.id,
                name: ins.name,
                total_deposited_power: 0,
                reward_period: ins.reward_period,
                start_at: ins.start_at,
                pool_type: ins.pool_type,
                creator: ins.creator,
                collection: ins.collection,
            };
            Ok((pool, bump))
        },
        None => Err(LedgerError::Contract(ContractError::InvalidPdaAccount)),
    }
}

/// Sets the power of a staking token, in the record derived from the token.
/// Returns the record and the bump seed of its address.
pub fn set_token_weight(
    program_id: &Address,
    payer_owner: &Address,
    mint: &Address,
    token_data_key: &Address,
    token_power: u64,
) -> (r: Result<(TokenData, u8), LedgerError>)
    ensures
        payer_owner@ != system_program() ==> r == Err::<(TokenData, u8), LedgerError>(
            LedgerError::Contract(ContractError::InvalidProgramAccount),
        ),
        payer_owner@ == system_program() && !derives_to(token_data_seeds(*mint), program_id@, token_data_key@)
            ==> r == Err::<(TokenData, u8), LedgerError>(LedgerError::Contract(ContractError::InvalidPdaAccount)),
        payer_owner@ == system_program() && derives_to(token_data_seeds(*mint), program_id@, token_data_key@)
            ==> r == Ok::<(TokenData, u8), LedgerError>((
            TokenData { account_type: TOKEN_DATA_ACCOUNT_TYPE, power: token_power, token_mint_address: *mint },
            bump_of(token_data_seeds(*mint), program_id@),
        )),
{
    verify_system_account(payer_owner)?;
    match token_data_address(program_id, mint) {
        Some((key, bump)) => {
            if !same_address(&key, token_data_key) {
                return Err(LedgerError::Contract(ContractError::InvalidPdaAccount));
            }
            Ok((TokenData { account_type: TOKEN_DATA_ACCOUNT_TYPE, power: token_power, token_mint_address: *mint }, bump))
        },
        None => Err(LedgerError::Contract(ContractError::InvalidPdaAccount)),
    }
}

/// Registers a collection, in the record derived from its mint.
/// Returns the record and the bump seed of its address.
pub fn register_collection(
    program_id: &Address,
    payer_owner: &Address,
    collection_mint: &Address,
    collection_data_key: &Address,
) -> (r: Result<(CollectionData, u8), LedgerError>)
    ensures
        payer_owner@ != system_program() ==> r == Err::<(CollectionData, u8), LedgerError>(
            LedgerError::Contract(ContractError::InvalidProgramAccount),
        ),
        payer_owner@ == system_program() && !derives_to(
            collection_data_seeds(*collection_mint),
            program_id@,
            collection_data_key@,
        ) ==> r == Err::<(CollectionData, u8), LedgerError>(
            LedgerError::Contract(ContractError::InvalidPdaAccount),
        ),
        payer_owner@ == system_program() && derives_to(
            collection_data_seeds(*collection_mint),
            program_id@,
            collection_data_key@,
        ) ==> r == Ok::<(CollectionData, u8), LedgerError>((
            CollectionData { account_type: COLLECTION_DATA_ACCOUNT_TYPE, collection_mint_address: *collection_mint },
            bump_of(collection_data_seeds(*collection_mint), program_id@),
        )),
{
    verify_system_account(payer_owner)?;
    match collection_data_address(program_id, collection_mint) {
        Some((key, bump)) => {
            if !same_address(&key, collection_data_key) {
                return Err(LedgerError::Contract(ContractError::InvalidPdaAccount));
            }
            Ok((CollectionData { account_type: COLLECTION_DATA_ACCOUNT_TYPE, collection_mint_address: *collection_mint }, bump))
        },
        None => Err(LedgerError::Contract(ContractError::InvalidPdaAccount)),
    }
}

} // verus!
