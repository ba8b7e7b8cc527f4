use vstd::prelude::*;
use crate::address::{program_address_of, same_address, Address};
use crate::common::{
    bump_of, derives_to, get_or_create_current_payroll_by_time, payroll_slot_by_time, system_program,
    verify_program_account, verify_system_account, PayrollSlot,
};
use crate::epoch::{checked_claimable_after, claimable_after};
use crate::deposit::{deposit_failure, deposited_pool, deposited_position, DepositRequest};
use crate::error::{ContractError, LedgerError};
use crate::seeds::{pool_address, pool_seeds, token_data_address, token_data_seeds};
use crate::state::{Payroll, Pool, StakingAccount, POOL_PAYROLL_ACCOUNT_TYPE};

verus! {

/// What the withdrawal of a position's staking token reads.
#[derive(Clone, Copy, Debug, PartialEq, Eq)]
pub struct WithdrawRequest {
    pub program_id: Address,
    /// The account that asks, which pays for new records.
    pub payer: Address,
    pub payer_owner: Address,
    pub payer_is_signer: bool,
    pub position_key: Address,
    pub position_owner: Address,
    pub position: StakingAccount,
    pub pool_key: Address,
    pub pool_owner: Address,
    pub pool: Pool,
    /// The account the token goes back to.
    pub destination: Address,
    /// The staking token.
    pub mint: Address,
    pub token_data_key: Address,
    pub destination_ata_exists: bool,
    pub payroll_key: Address,
    /// The record of the current epoch, where one exists.
    pub payroll: Option<Payroll>,
    pub now: u64,
}

/// What a successful withdrawal writes.
#[derive(Clone, Copy, Debug, PartialEq, Eq)]
pub struct WithdrawOutcome {
    pub position: StakingAccount,
    pub pool: Pool,
    /// The bump seed with which the pool signs the return of the token.
    pub pool_bump: u8,
    /// The destination's balance account of the token must be created.
    pub create_destination_ata: bool,
    /// The current epoch record, whose snapshot takes the pool's new power.
    pub payroll_slot: PayrollSlot,
    pub payroll: Payroll,
}

/// The record of the epoch that contains `req.now`.
pub open spec fn withdraw_slot(req: WithdrawRequest) -> Result<PayrollSlot, LedgerError> {
    payroll_slot_by_time(req.now, req.program_id@, req.pool_key, req.payroll_key, req.payroll is Some, req.pool, false)
}

/// The first rule a withdrawal breaks, in the order they are checked; `None` where it
/// is made.
pub open spec fn withdraw_failure(req: WithdrawRequest) -> Option<LedgerError> {
    let p = req.program_id@;
    if req.payer_owner@ != system_program() || req.pool_owner@ != p || req.position_owner@ != p {
        Some(LedgerError::Contract(ContractError::InvalidProgramAccount))
    } else if !derives_to(token_data_seeds(req.mint), p, req.token_data_key@) {
        Some(LedgerError::Contract(ContractError::InvalidPdaAccount))
    } else if req.position.withdrawn_at > 0 {
        Some(LedgerError::Contract(ContractError::FundAlreadyWithdrawn))
    } else if !req.payer_is_signer || req.payer != req.position.depositor {
        Some(LedgerError::Contract(ContractError::InvalidDepositor))
    } else if req.position.withdrawn_address != req.destination {
        Some(LedgerError::Contract(ContractError::InvalidWithdrawnAddress))
    } else if req.position.pool_pda_account != req.pool_key {
        Some(LedgerError::Contract(ContractError::InvalidPdaAccount))
    } else if req.position.staking_token_mint_address != req.mint {
        Some(LedgerError::Contract(ContractError::InvalidDepositToken))
    } else if req.now == 0 {
        Some(LedgerError::Contract(ContractError::InvalidTimeRange))
    } else if req.pool.total_deposited_power < req.position.deposited_power {
        Some(LedgerError::ArithmeticOverflow)
    } else if program_address_of(pool_seeds(req.pool.id), p) is None {
        Some(LedgerError::NoProgramAddress)
    } else if withdraw_slot(req) is Err {
        Some(withdraw_slot(req)->Err_0)
    } else if req.payroll is None && claimable_after(
        req.pool.start_at as int,
        withdraw_slot(req)->Ok_0.index as int,
        req.pool.reward_period as int,
    ) > u64::MAX {
        Some(LedgerError::ArithmeticOverflow)
    } else {
        None
    }
}

/// The position once withdrawn at `req.now`.
pub open spec fn withdrawn_position(req: WithdrawRequest) -> StakingAccount {
    StakingAccount { withdrawn_at: req.now, ..req.position }
}

/// The pool once the position's power has left it.
pub open spec fn withdrawn_pool(req: WithdrawRequest) -> Pool {
    Pool {
        total_deposited_power: (req.pool.total_deposited_power - req.position.deposited_power) as u64,
        ..req.pool
    }
}

/// The current epoch record after the withdrawal: it takes the pool's new power; one
/// created here starts without reward tokens.
pub open spec fn withdrawn_payroll(req: WithdrawRequest) -> Payroll {
    let power = withdrawn_pool(req).total_deposited_power;
    match req.payroll {
        Some(p) => Payroll { total_deposited_power: power, ..p },
        None => {
            let index = withdraw_slot(req)->Ok_0.index;
            Payroll {
                account_type: POOL_PAYROLL_ACCOUNT_TYPE,
                total_deposited_power: power,
                index,
                number_of_reward_tokens: 0,
                claimable_after: claimable_after(
                    req.pool.start_at as int,
                    index as int,
                    req.pool.reward_period as int,
                ) as u64,
                start_at: req.pool.start_at,
                pool_pda_account: req.pool_key,
                creator: req.payer,
            }
        },
    }
}

/// The same request, made again once the withdrawal has been written.
pub open spec fn after_withdrawal(req: WithdrawRequest) -> WithdrawRequest {
    WithdrawRequest { position: withdrawn_position(req), pool: withdrawn_pool(req), ..req }
}

/// Closes a position: records when it was withdrawn, takes its power out of the pool and
/// out of the current epoch's snapshot, and returns the staking token to the recorded
/// destination. A position is withdrawn once only.
pub fn withdraw_principal(req: &WithdrawRequest) -> (r: Result<WithdrawOutcome, LedgerError>)
    ensures
        r is Err <==> withdraw_failure(*req) is Some,
        r is Err ==> r->Err_0 == withdraw_failure(*req)->0,
        r is Ok ==> {
            let o = r->Ok_0;
            &&& o.position == withdrawn_position(*req)
            &&& o.pool == withdrawn_pool(*req)
            &&& program_address_of(pool_seeds(req.pool.id), req.program_id@) is Some
            &&& bump_of(pool_seeds(req.pool.id), req.program_id@) == o.pool_bump
            &&& o.create_destination_ata == !req.destination_ata_exists
            &&& o.payroll_slot == withdraw_slot(*req)->Ok_0
            &&& o.payroll == withdrawn_payroll(*req)
        },
{
    verify_system_account(&req.payer_owner)?;
    verify_program_account(&req.pool_owner, &req.program_id)?;
    verify_program_account(&req.position_owner, &req.program_id)?;
    match token_data_address(&req.program_id, &req.mint) {
        Some((key, _)) => {
            if !same_address(&key, &req.token_data_key) {
                return Err(LedgerError::Contract(ContractError::InvalidPdaAccount));
            }
        },
        None => {
            return Err(LedgerError::Contract(ContractError::InvalidPdaAccount));
        },
    }
    if req.position.withdrawn_at > 0 {
        return Err(LedgerError::Contract(ContractError::FundAlreadyWithdrawn));
    }
    if !req.payer_is_signer || !same_address(&req.payer, &req.position.depositor) {
        return Err(LedgerError::Contract(ContractError::InvalidDepositor));
    }
    if !same_address(&req.position.withdrawn_address, &req.destination) {
        return Err(LedgerError::Contract(ContractError::InvalidWithdrawnAddress));
    }
    if !same_address(&req.position.pool_pda_account, &req.pool_key) {
        return Err(LedgerError::Contract(ContractError::InvalidPdaAccount));
    }
    if !same_address(&req.position.staking_token_mint_address, &req.mint) {
        return Err(LedgerError::Contract(ContractError::InvalidDepositToken));
    }
    if req.now == 0 {
        return Err(LedgerError::Contract(ContractError::InvalidTimeRange));
    }
    if req.pool.total_deposited_power < req.position.deposited_power {
        return Err(LedgerError::ArithmeticOverflow);
    }
    let pool_bump = match pool_address(&req.program_id, &req.pool.id) {
        Some((_, bump)) => bump,
        None => {
            return Err(LedgerError::NoProgramAddress);
        },
    };
    let slot = get_or_create_current_payroll_by_time(
        req.now,
        &req.program_id,
        &req.pool_key,
        &req.payroll_key,
        req.payroll.is_some(),
        &req.pool,
    )?;
    let position = StakingAccount { withdrawn_at: req.now, ..req.position };
    let pool = Pool {
        total_deposited_power: req.pool.total_deposited_power - req.position.deposited_power,
        ..req.pool
    };
    let payroll = match req.payroll {
        Some(p) => Payroll { total_deposited_power: pool.total_deposited_power, ..p },
        None => {
            let claimable = match checked_claimable_after(req.pool.start_at, slot.index, req.pool.reward_period) {
                Some(c) => c,
                None => {
                    return Err(LedgerError::ArithmeticOverflow);
                },
            };
            Payroll {
                account_type: POOL_PAYROLL_ACCOUNT_TYPE,
                total_deposited_power: pool.total_deposited_power,
                index: slot.index,
                number_of_reward_tokens: 0,
                claimable_after: claimable,
                start_at: req.pool.start_at,
                pool_pda_account: req.pool_key,
                creator: req.payer,
            }
        },
    };
    Ok(WithdrawOutcome {
        position,
        pool,
        pool_bump,
        create_destination_ata: !req.destination_ata_exists,
        payroll_slot: slot,
        payroll,
    })
}

/// A position is withdrawn once: a withdrawal sets `withdrawn_at` to a time after 0, and
/// the same withdrawal asked again is refused with `FundAlreadyWithdrawn`.
pub proof fn lemma_withdraw_once(req: WithdrawRequest)
    requires
        withdraw_failure(req) is None,
    ensures
        withdrawn_position(req).withdrawn_at == req.now,
        withdrawn_position(req).withdrawn_at > 0,
        withdraw_failure(after_withdrawal(req)) == Some(
            LedgerError::Contract(ContractError::FundAlreadyWithdrawn),
        ),
{
}

/// A withdrawal takes out of the pool exactly the power that the position's deposit put
/// in: the pool's power returns to what it was before the deposit.
pub proof fn lemma_withdraw_undoes_deposit(d: DepositRequest, w: WithdrawRequest)
    requires
        deposit_failure(d) is None,
        w.position == deposited_position(d),
        w.pool == deposited_pool(d),
        withdraw_failure(w) is None,
    ensures
        withdrawn_pool(w).total_deposited_power == d.pool.total_deposited_power,
{
}

} // verus!
