use vstd::prelude::*;
use crate::address::{program_address_of, same_address, Address};
use crate::common::{
    derives_to, get_or_create_next_payroll_by_time, get_staking_pda, payroll_slot_by_time,
    system_program, verify_program_account, verify_system_account, PayrollSlot,
};
use crate::epoch::{checked_claimable_after, claimable_after};
use crate::error::{ContractError, LedgerError};
use crate::seeds::{staking_seeds, token_data_address, token_data_seeds};
use crate::state::{
    Payroll, Pool, StakingAccount, TokenData, POOL_PAYROLL_ACCOUNT_TYPE, STAKING_ACCOUNT_TYPE,
};

verus! {

/// The collection a token's metadata names, and whether the collection verified it.
#[derive(Clone, Copy, Debug, PartialEq, Eq)]
pub struct CollectionRef {
    pub key: Address,
    pub verified: bool,
}

/// What a deposit of one staking token into a pool reads.
#[derive(Clone, Copy, Debug, PartialEq, Eq)]
pub struct DepositRequest {
    pub program_id: Address,
    /// The depositor, who also pays for the records.
    pub payer: Address,
    pub payer_owner: Address,
    pub position_key: Address,
    /// The position record at `position_key`, where one exists.
    pub position: Option<StakingAccount>,
    pub pool_key: Address,
    pub pool_owner: Address,
    pub pool: Pool,
    /// The staking token.
    pub mint: Address,
    /// The owner of the token's metadata record, and the program that must own it.
    pub metadata_owner: Address,
    pub metadata_program: Address,
    /// The collection the token's metadata names, if any.
    pub collection: Option<CollectionRef>,
    pub token_data_key: Address,
    /// The token's power record, where one exists.
    pub token_data: Option<TokenData>,
    pub payroll_key: Address,
    /// The epoch record at `payroll_key`, where one exists.
    pub payroll: Option<Payroll>,
    pub now: u64,
}

/// What a successful deposit writes.
#[derive(Clone, Copy, Debug, PartialEq, Eq)]
pub struct DepositOutcome {
    /// The bump seed of the new position record.
    pub position_bump: u8,
    /// The epoch record the deposit takes part from.
    pub payroll_slot: PayrollSlot,
    pub position: StakingAccount,
    pub pool: Pool,
    pub payroll: Payroll,
}

/// The power of a staking token: its power record, or 1 where it has none.
pub open spec fn deposit_power(req: DepositRequest) -> u64 {
    match req.token_data {
        Some(t) => t.power,
        None => 1,
    }
}

/// The epoch record a deposit made at `req.now` takes part from.
pub open spec fn deposit_slot(req: DepositRequest) -> Result<PayrollSlot, LedgerError> {
    payroll_slot_by_time(req.now, req.program_id@, req.pool_key, req.payroll_key, req.payroll is Some, req.pool, true)
}

/// The first rule a deposit breaks, in the order they are checked; `None` where it is made.
pub open spec fn deposit_failure(req: DepositRequest) -> Option<LedgerError> {
    let p = req.program_id@;
    let staking = program_address_of(staking_seeds(req.pool_key, req.payer, req.mint), p);
    if req.payer_owner@ != system_program() || req.pool_owner@ != p {
        Some(LedgerError::Contract(ContractError::InvalidProgramAccount))
    } else if req.metadata_owner != req.metadata_program {
        Some(LedgerError::Contract(ContractError::InvalidPdaAccount))
    } else if !derives_to(token_data_seeds(req.mint), p, req.token_data_key@) {
        Some(LedgerError::Contract(ContractError::InvalidPdaAccount))
    } else if req.collection is None || req.collection->0.key != req.pool.collection || !req.collection->0.verified {
        Some(LedgerError::Contract(ContractError::InvalidCollection))
    } else if staking is None {
        Some(LedgerError::NoProgramAddress)
    } else if deposit_slot(req) is Err {
        Some(deposit_slot(req)->Err_0)
    } else if !derives_to(staking_seeds(req.pool_key, req.payer, req.mint), p, req.position_key@) {
        Some(LedgerError::Contract(ContractError::InvalidPdaAccount))
    } else if req.position is Some && req.position->0.withdrawn_at > 0 {
        Some(LedgerError::Contract(ContractError::FundAlreadyWithdrawn))
    } else if req.position is Some {
        // one position holds one deposit
        Some(LedgerError::Contract(ContractError::InvalidDepositAmount))
    } else if req.pool.total_deposited_power + deposit_power(req) > u64::MAX || claimable_after(
        req.pool.start_at as int,
        deposit_slot(req)->Ok_0.index as int,
        req.pool.reward_period as int,
    ) > u64::MAX {
        Some(LedgerError::ArithmeticOverflow)
    } else {
        None
    }
}

/// The new position of a deposit.
pub open spec fn deposited_position(req: DepositRequest) -> StakingAccount {
    StakingAccount {
        account_type: STAKING_ACCOUNT_TYPE,
        deposited_power: deposit_power(req),
        deposited_at: req.now,
        withdrawn_at: 0,
        first_payroll_index: deposit_slot(req)->Ok_0.index,
        withdrawn_reward_amount: 0,
        pool_pda_account: req.pool_key,
        withdrawn_address: req.payer,
        staking_token_mint_address: req.mint,
        depositor: req.payer,
    }
}

/// The pool after a deposit: its power grows by the token's power.
pub open spec fn deposited_pool(req: DepositRequest) -> Pool {
    Pool { total_deposited_power: (req.pool.total_deposited_power + deposit_power(req)) as u64, ..req.pool }
}

/// The epoch record after a deposit: it takes the pool's new power and keeps its count
/// of reward tokens.
pub open spec fn deposited_payroll(req: DepositRequest) -> Payroll {
    let index = deposit_slot(req)->Ok_0.index;
    Payroll {
        account_type: POOL_PAYROLL_ACCOUNT_TYPE,
        total_deposited_power: deposited_pool(req).total_deposited_power,
        index,
        number_of_reward_tokens: match req.payroll {
            Some(p) => p.number_of_reward_tokens,
            None => 0,
        },
        claimable_after: claimable_after(
            req.pool.start_at as int,
            index as int,
            req.pool.reward_period as int,
        ) as u64,
        start_at: req.pool.start_at,
        pool_pda_account: req.pool_key,
        creator: req.payer,
    }
}

/// Opens a position for one staking token in a pool. The position takes part from the
/// epoch after the current one, with the token's power (1 where none was set); the
/// pool's power and that epoch's snapshot of it grow by that power.
pub fn deposit(req: &DepositRequest) -> (r: Result<DepositOutcome, LedgerError>)
    ensures
        r is Err <==> deposit_failure(*req) is Some,
        r is Err ==> r->Err_0 == deposit_failure(*req)->0,
        r is Ok ==> {
            let o = r->Ok_0;
            &&& program_address_of(staking_seeds(req.pool_key, req.payer, req.mint), req.program_id@)
                == Some((req.position_key@, o.position_bump))
            &&& o.payroll_slot == deposit_slot(*req)->Ok_0
            &&& o.position == deposited_position(*req)
            &&& o.pool == deposited_pool(*req)
            &&& o.payroll == deposited_payroll(*req)
        },
{
    verify_system_account(&req.payer_owner)?;
    verify_program_account(&req.pool_owner, &req.program_id)?;
    if !same_address(&req.metadata_owner, &req.metadata_program) {
        return Err(LedgerError::Contract(ContractError::InvalidPdaAccount));
    }
    match token_data_address(&req.program_id, &req.mint) {
        Some((key, _)) => {
            if !same_address(&key, &req.token_data_key) {
                return Err(LedgerError::Contract(ContractError::InvalidPdaAccount));
            }
        },
        None => {
            return Err(LedgerError::Contract(ContractError::InvalidPdaAccount));
        },
    }
    match req.collection {
        Some(c) => {
            if !same_address(&c.key, &req.pool.collection) || !c.verified {
                return Err(LedgerError::Contract(ContractError::InvalidCollection));
            }
        },
        None => {
            return Err(LedgerError::Contract(ContractError::InvalidCollection));
        },
    }
    let (expected_position, position_bump) = get_staking_pda(
        &req.pool_key,
        &req.payer,
        &req.mint,
        &req.program_id,
    )?;
    let power: u64 = match req.token_data {
        Some(t) => t.power,
        None => 1,
    };
    let slot = get_or_create_next_payroll_by_time(
        req.now,
        &req.program_id,
        &req.pool_key,
        &req.payroll_key,
        req.payroll.is_some(),
        &req.pool,
    )?;
    if !same_address(&req.position_key, &expected_position) {
        return Err(LedgerError::Contract(ContractError::InvalidPdaAccount));
    }
    match req.position {
        Some(existing) => {
            if existing.withdrawn_at > 0 {
                return Err(LedgerError::Contract(ContractError::FundAlreadyWithdrawn));
            }
            return Err(LedgerError::Contract(ContractError::InvalidDepositAmount));
        },
        None => {},
    }
    if req.pool.total_deposited_power > u64::MAX - power {
        return Err(LedgerError::ArithmeticOverflow);
    }
    let claimable = match checked_claimable_after(req.pool.start_at, slot.index, req.pool.reward_period) {
        Some(c) => c,
        None => {
            return Err(LedgerError::ArithmeticOverflow);
        },
    };
    let position = StakingAccount {
        account_type: STAKING_ACCOUNT_TYPE,
        deposited_power: power,
        deposited_at: req.now,
        withdrawn_at: 0,
        first_payroll_index: slot.index,
        withdrawn_reward_amount: 0,
        pool_pda_account: req.pool_key,
        withdrawn_address: req.payer,
        staking_token_mint_address: req.mint,
        depositor: req.payer,
    };
    let pool = Pool { total_deposited_power: req.pool.total_deposited_power + power, ..req.pool };
    let number_of_reward_tokens: u64 = match req.payroll {
        Some(p) => p.number_of_reward_tokens,
        None => 0,
    };
    let payroll = Payroll {
        account_type: POOL_PAYROLL_ACCOUNT_TYPE,
        total_deposited_power: pool.total_deposited_power,
        index: slot.index,
        number_of_reward_tokens,
        claimable_after: claimable,
        start_at: req.pool.start_at,
        pool_pda_account: req.pool_key,
        creator: req.payer,
    };
    Ok(DepositOutcome { position_bump, payroll_slot: slot, position, pool, payroll })
}

} // verus!
