use vstd::prelude::*;
use crate::address::{associated_token_address_of, same_address, Address};
use crate::common::{
    bump_of, derives_to, system_program, system_program_id, verify_ata_account,
    verify_program_account, verify_system_account,
};
use crate::epoch::{
    checked_payroll_index, compute_owed_reward, epoch_index, epoch_index_defined, owed_reward,
};
use crate::error::{ContractError, LedgerError};
use crate::seeds::{
    payroll_address, payroll_seeds, payroll_token_address, payroll_token_seeds,
    staking_payroll_address, staking_payroll_seeds,
};
use crate::state::{Payroll, PayrollToken, Pool, StakingAccount, StakingPayroll, STAKING_PAYROLL_ACCOUNT_TYPE};

verus! {

/// What a claim of the reward of one epoch in one reward token reads.
#[derive(Clone, Copy, Debug, PartialEq, Eq)]
pub struct ClaimRequest {
    pub program_id: Address,
    /// The owner of the paying account.
    pub payer_owner: Address,
    pub pool_key: Address,
    pub pool_owner: Address,
    pub pool: Pool,
    pub position_key: Address,
    pub position_owner: Address,
    pub position: StakingAccount,
    /// The account that receives the reward.
    pub destination: Address,
    pub receipt_key: Address,
    /// The claim receipt of this position and epoch, where one exists.
    pub receipt: Option<StakingPayroll>,
    pub reward_mint: Address,
    /// The epoch's balance account of the reward token.
    pub source_ata: Address,
    /// The destination's balance account of the reward token.
    pub destination_ata: Address,
    pub destination_ata_exists: bool,
    pub payroll_key: Address,
    /// The epoch record, where one exists.
    pub payroll: Option<Payroll>,
    pub payroll_token_key: Address,
    /// The epoch's sub-ledger of the reward token, where one exists.
    pub payroll_token: Option<PayrollToken>,
    /// The epoch claimed.
    pub index: u64,
    pub now: u64,
}

/// What a successful claim pays and writes.
#[derive(Clone, Copy, Debug, PartialEq, Eq)]
pub struct ClaimOutcome {
    /// The amount paid.
    pub amount: u64,
    /// The reward is the native asset, paid by moving balance directly.
    pub native: bool,
    /// The destination's balance account must be created first.
    pub create_destination_ata: bool,
    /// The receipt must be created, with this bump seed.
    pub create_receipt: bool,
    pub receipt_bump: u8,
    /// The bump seed with which the epoch record signs the transfer.
    pub payroll_bump: u8,
    pub position: StakingAccount,
    pub receipt: StakingPayroll,
    pub payroll_token: PayrollToken,
}

/// What was paid before on this position, epoch and token.
pub open spec fn already_paid(req: ClaimRequest) -> int {
    match req.receipt {
        Some(r) => r.reward_withdrawn_amount as int,
        None => 0,
    }
}

/// What the claim owes.
pub open spec fn claim_owed(req: ClaimRequest) -> int {
    owed_reward(
        req.position.deposited_power as int,
        req.payroll_token->0.total_reward_amount as int,
        req.payroll->0.total_deposited_power as int,
        already_paid(req),
    )
}

/// The first rule a claim breaks, in the order they are checked; `None` where it is paid.
pub open spec fn claim_failure(req: ClaimRequest) -> Option<LedgerError> {
    let p = req.program_id@;
    let mint = req.payroll_token->0.reward_token_mint_account;
    if req.payroll is None {
        Some(LedgerError::Contract(ContractError::NoRewardPayroll))
    } else if req.payroll_token is None {
        Some(LedgerError::InvalidAccountData)
    } else if req.payer_owner@ != system_program() || req.pool_owner@ != p || req.position_owner@ != p {
        Some(LedgerError::Contract(ContractError::InvalidProgramAccount))
    } else if req.source_ata@ != associated_token_address_of(req.payroll_key@, mint@)
        || req.destination_ata@ != associated_token_address_of(req.position.withdrawn_address@, mint@) {
        Some(LedgerError::Contract(ContractError::InvalidAtaAccount))
    } else if req.position.withdrawn_address != req.destination {
        Some(LedgerError::Contract(ContractError::InvalidWithdrawnAddress))
    } else if mint != req.reward_mint {
        Some(LedgerError::Contract(ContractError::InvalidRewardToken))
    } else if !derives_to(payroll_token_seeds(req.payroll_key, req.reward_mint, req.index), p, req.payroll_token_key@) {
        Some(LedgerError::Contract(ContractError::InvalidPdaAccount))
    } else if req.position.first_payroll_index > req.index {
        Some(LedgerError::Contract(ContractError::InvalidTimeRange))
    } else if !derives_to(payroll_seeds(req.pool_key, req.index), p, req.payroll_key@) {
        Some(LedgerError::Contract(ContractError::InvalidPdaAccount))
    } else if req.position.withdrawn_at > 0 && !epoch_index_defined(
        req.position.withdrawn_at,
        req.pool.reward_period,
        req.pool.start_at,
    ) {
        Some(LedgerError::Contract(ContractError::InvalidTimeRange))
    } else if req.position.withdrawn_at > 0 && epoch_index(
        req.position.withdrawn_at as int,
        req.pool.reward_period as int,
        req.pool.start_at as int,
    ) - 1 < req.payroll->0.index {
        // a withdrawn position is paid only for epochs before the one it left in
        Some(LedgerError::Contract(ContractError::InvalidPdaAccount))
    } else if !derives_to(
        staking_payroll_seeds(req.pool_key, req.position_key, req.payroll->0.index),
        p,
        req.receipt_key@,
    ) {
        Some(LedgerError::Contract(ContractError::InvalidPdaAccount))
    } else if req.now < req.payroll->0.claimable_after {
        Some(LedgerError::Contract(ContractError::InvalidTimeRange))
    } else if claim_owed(req) > u64::MAX {
        Some(LedgerError::ArithmeticOverflow)
    } else if claim_owed(req) == 0 {
        Some(LedgerError::Contract(ContractError::RewardAlreadyWithdrawn))
    } else if req.position.withdrawn_reward_amount + claim_owed(req) > u64::MAX
        || already_paid(req) + claim_owed(req) > u64::MAX
        || req.payroll_token->0.reward_withdrawn_amount + claim_owed(req) > u64::MAX {
        Some(LedgerError::ArithmeticOverflow)
    } else {
        None
    }
}

/// The position after a claim of `amount`.
pub open spec fn claimed_position(req: ClaimRequest, amount: u64) -> StakingAccount {
    StakingAccount {
        withdrawn_reward_amount: (req.position.withdrawn_reward_amount + amount) as u64,
        ..req.position
    }
}

/// The receipt after a claim of `amount`.
pub open spec fn claimed_receipt(req: ClaimRequest, amount: u64) -> StakingPayroll {
    StakingPayroll {
        account_type: STAKING_PAYROLL_ACCOUNT_TYPE,
        staking_pda_account: req.position_key,
        deposited_power: req.position.deposited_power,
        total_pool_deposited_power: req.payroll->0.total_deposited_power,
        total_reward_amount: req.payroll_token->0.total_reward_amount,
        reward_withdrawn_amount: (already_paid(req) + amount) as u64,
        index: req.payroll->0.index,
        withdrawn_at: req.now,
    }
}

/// The reward sub-ledger after a claim of `amount`.
pub open spec fn claimed_token(req: ClaimRequest, amount: u64) -> PayrollToken {
    PayrollToken {
        reward_withdrawn_amount: (req.payroll_token->0.reward_withdrawn_amount + amount) as u64,
        ..req.payroll_token->0
    }
}

/// The same request, made again once a claim of `amount` has been written.
pub open spec fn after_claim(req: ClaimRequest, amount: u64) -> ClaimRequest {
    ClaimRequest {
        position: claimed_position(req, amount),
        receipt: Some(claimed_receipt(req, amount)),
        payroll_token: Some(claimed_token(req, amount)),
        ..req
    }
}

/// Pays a position its reward for one epoch in one reward token: the share
/// `floor(deposited_power * total_reward_amount / total_deposited_power)` of the epoch,
/// less what was paid on it before. All checks come before anything is written.
pub fn claim_reward(req: &ClaimRequest) -> (r: Result<ClaimOutcome, LedgerError>)
    ensures
        r is Err <==> claim_failure(*req) is Some,
        r is Err ==> r->Err_0 == claim_failure(*req)->0,
        r is Ok ==> {
            let o = r->Ok_0;
            &&& o.amount == claim_owed(*req)
            &&& o.position == claimed_position(*req, o.amount)
            &&& o.receipt == claimed_receipt(*req, o.amount)
            &&& o.payroll_token == claimed_token(*req, o.amount)
            &&& o.native == (req.reward_mint@ == system_program())
            &&& o.create_destination_ata == (!o.native && !req.destination_ata_exists)
            &&& o.create_receipt == (req.receipt is None)
            &&& o.receipt_bump == bump_of(
                staking_payroll_seeds(req.pool_key, req.position_key, req.payroll->0.index),
                req.program_id@,
            )
            &&& o.payroll_bump == bump_of(payroll_seeds(req.pool_key, req.index), req.program_id@)
        },
{
    let payroll = match req.payroll {
        Some(p) => p,
        None => {
            return Err(LedgerError::Contract(ContractError::NoRewardPayroll));
        },
    };
    let token = match req.payroll_token {
        Some(t) => t,
        None => {
            return Err(LedgerError::InvalidAccountData);
        },
    };
    verify_system_account(&req.payer_owner)?;
    verify_program_account(&req.pool_owner, &req.program_id)?;
    verify_program_account(&req.position_owner, &req.program_id)?;
    let mint = token.reward_token_mint_account;
    verify_ata_account(&req.payroll_key, &req.source_ata, &mint)?;
    verify_ata_account(&req.position.withdrawn_address, &req.destination_ata, &mint)?;
    if !same_address(&req.position.withdrawn_address, &req.destination) {
        return Err(LedgerError::Contract(ContractError::InvalidWithdrawnAddress));
    }
    if !same_address(&mint, &req.reward_mint) {
        return Err(LedgerError::Contract(ContractError::InvalidRewardToken));
    }
    match payroll_token_address(&req.program_id, &req.payroll_key, &req.reward_mint, req.index) {
        Some((key, _)) => {
            if !same_address(&key, &req.payroll_token_key) {
                return Err(LedgerError::Contract(ContractError::InvalidPdaAccount));
            }
        },
        None => {
            return Err(LedgerError::Contract(ContractError::InvalidPdaAccount));
        },
    }
    if req.position.first_payroll_index > req.index {
        return Err(LedgerError::Contract(ContractError::InvalidTimeRange));
    }
    let payroll_bump = match payroll_address(&req.program_id, &req.pool_key, req.index) {
        Some((key, bump)) => {
            if !same_address(&key, &req.payroll_key) {
                return Err(LedgerError::Contract(ContractError::InvalidPdaAccount));
            }
            bump
        },
        None => {
            return Err(LedgerError::Contract(ContractError::InvalidPdaAccount));
        },
    };
    if req.position.withdrawn_at > 0 {
        match checked_payroll_index(req.position.withdrawn_at, req.pool.reward_period, req.pool.start_at) {
            Some(latest) => {
                if latest - 1 < payroll.index {
                    return Err(LedgerError::Contract(ContractError::InvalidPdaAccount));
                }
            },
            None => {
                return Err(LedgerError::Contract(ContractError::InvalidTimeRange));
            },
        }
    }
    let receipt_bump = match staking_payroll_address(
        &req.program_id,
        &req.pool_key,
        &req.position_key,
        payroll.index,
    ) {
        Some((key, bump)) => {
            if !same_address(&key, &req.receipt_key) {
                return Err(LedgerError::Contract(ContractError::InvalidPdaAccount));
            }
            bump
        },
        None => {
            return Err(LedgerError::Contract(ContractError::InvalidPdaAccount));
        },
    };
    if req.now < payroll.claimable_after {
        return Err(LedgerError::Contract(ContractError::InvalidTimeRange));
    }
    let already: u64 = match req.receipt {
        Some(r) => r.reward_withdrawn_amount,
        None => 0,
    };
    let amount = match compute_owed_reward(
        req.position.deposited_power,
        token.total_reward_amount,
        payroll.total_deposited_power,
        already,
    ) {
        Some(a) => a,
        None => {
            return Err(LedgerError::ArithmeticOverflow);
        },
    };
    if amount == 0 {
        return Err(LedgerError::Contract(ContractError::RewardAlreadyWithdrawn));
    }
    if req.position.withdrawn_reward_amount > u64::MAX - amount || already > u64::MAX - amount
        || token.reward_withdrawn_amount > u64::MAX - amount {
        return Err(LedgerError::ArithmeticOverflow);
    }
    let system = system_program_id();
    let native = same_address(&req.reward_mint, &system);
    let position = StakingAccount {
        withdrawn_reward_amount: req.position.withdrawn_reward_amount + amount,
        ..req.position
    };
    let receipt = StakingPayroll {
        account_type: STAKING_PAYROLL_ACCOUNT_TYPE,
        staking_pda_account: req.position_key,
        deposited_power: req.position.deposited_power,
        total_pool_deposited_power: payroll.total_deposited_power,
        total_reward_amount: token.total_reward_amount,
        reward_withdrawn_amount: already + amount,
        index: payroll.index,
        withdrawn_at: req.now,
    };
    let payroll_token = PayrollToken { reward_withdrawn_amount: token.reward_withdrawn_amount + amount, ..token };
    Ok(ClaimOutcome {
        amount,
        native,
        create_destination_ata: !native && !req.destination_ata_exists,
        create_receipt: req.receipt.is_none(),
        receipt_bump,
        payroll_bump,
        position,
        receipt,
        payroll_token,
    })
}

/// The share of an epoch's reward in one token that falls to a position.
pub open spec fn position_share(req: ClaimRequest) -> int {
    owed_reward(
        req.position.deposited_power as int,
        req.payroll_token->0.total_reward_amount as int,
        req.payroll->0.total_deposited_power as int,
        0,
    )
}

/// No reward is paid twice: a paid claim adds exactly what it pays to the position's
/// total, leaves the receipt holding the position's whole share of the epoch (never
/// more), and the same claim made again is refused with `RewardAlreadyWithdrawn`.
pub proof fn lemma_claim_not_paid_twice(req: ClaimRequest)
    requires
        claim_failure(req) is None,
    ensures
        claimed_position(req, claim_owed(req) as u64).withdrawn_reward_amount
            == req.position.withdrawn_reward_amount + claim_owed(req),
        claimed_receipt(req, claim_owed(req) as u64).reward_withdrawn_amount == position_share(req),
        claim_failure(after_claim(req, claim_owed(req) as u64)) == Some(
            LedgerError::Contract(ContractError::RewardAlreadyWithdrawn),
        ),
{
    let next = after_claim(req, claim_owed(req) as u64);
    assert(already_paid(next) == position_share(req));
    assert(claim_owed(next) == 0);
}

} // verus!
