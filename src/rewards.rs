use vstd::prelude::*;
use crate::address::{associated_token_address_of, same_address, Address};
use crate::common::{
    bump_of, derives_to, get_or_create_payroll_by_index, payroll_slot, system_program,
    system_program_id, verify_ata_account, verify_system_account, PayrollSlot,
};
use crate::epoch::{checked_claimable_after, claimable_after};
use crate::error::{ContractError, LedgerError};
use crate::seeds::{payroll_index_address, payroll_index_seeds, payroll_token_address, payroll_token_seeds};
use crate::state::{
    Payroll, PayrollIndex, PayrollToken, Pool, POOL_PAYROLL_ACCOUNT_TYPE,
    POOL_PAYROLL_INDEX_ACCOUNT_TYPE, POOL_PAYROLL_TOKEN_ACCOUNT_TYPE,
};

verus! {

/// What adding a reward to an epoch reads.
#[derive(Clone, Copy, Debug, PartialEq, Eq)]
pub struct RewardRequest {
    pub program_id: Address,
    /// The contributor, who also pays for the records.
    pub payer: Address,
    pub payer_owner: Address,
    pub pool_key: Address,
    pub pool: Pool,
    /// The reward token; the system program's address stands for the native asset.
    pub mint: Address,
    /// The contributor's balance account of the reward token.
    pub source_ata: Address,
    /// The epoch's balance account of the reward token.
    pub destination_ata: Address,
    pub payroll_token_key: Address,
    /// The epoch's sub-ledger of this token, where one exists.
    pub payroll_token: Option<PayrollToken>,
    pub payroll_index_key: Address,
    pub payroll_key: Address,
    /// The epoch record, where one exists.
    pub payroll: Option<Payroll>,
    pub amount: u64,
    /// The epoch the reward is for.
    pub index: u64,
}

/// What a successful addition of a reward writes.
#[derive(Clone, Copy, Debug, PartialEq, Eq)]
pub struct RewardOutcome {
    pub payroll_slot: PayrollSlot,
    pub payroll: Payroll,
    pub payroll_token: PayrollToken,
    /// The sub-ledger is new, and is created with this bump seed.
    pub new_token: bool,
    pub payroll_token_bump: u8,
    /// For a new token: its enumeration entry and that entry's bump seed.
    pub payroll_index: Option<PayrollIndex>,
    pub payroll_index_bump: u8,
    /// The reward is the native asset, moved as balance.
    pub native: bool,
    /// The epoch's balance account of the token must be created.
    pub create_payroll_ata: bool,
}

/// The number under which a new reward token of the epoch is enumerated.
pub open spec fn next_token_number(req: RewardRequest) -> int {
    match req.payroll {
        Some(p) => p.number_of_reward_tokens + 1,
        None => 1,
    }
}

/// The first rule an addition of a reward breaks, in the order they are checked; `None`
/// where it is made.
pub open spec fn reward_failure(req: RewardRequest) -> Option<LedgerError> {
    let p = req.program_id@;
    let slot = payroll_slot(p, req.pool_key, req.payroll_key, req.index, req.payroll is Some);
    if req.payer_owner@ != system_program() {
        Some(LedgerError::Contract(ContractError::InvalidProgramAccount))
    } else if req.source_ata@ != associated_token_address_of(req.payer@, req.mint@)
        || req.destination_ata@ != associated_token_address_of(req.payroll_key@, req.mint@) {
        Some(LedgerError::Contract(ContractError::InvalidAtaAccount))
    } else if !derives_to(payroll_token_seeds(req.payroll_key, req.mint, req.index), p, req.payroll_token_key@) {
        Some(LedgerError::Contract(ContractError::InvalidPdaAccount))
    } else if req.payroll_token is Some && req.payroll_token->0.reward_token_mint_account != req.mint {
        Some(LedgerError::Contract(ContractError::InvalidRewardToken))
    } else if slot is Err {
        Some(slot->Err_0)
    } else if req.payroll_token is None && next_token_number(req) > u64::MAX {
        Some(LedgerError::ArithmeticOverflow)
    } else if req.payroll_token is None && !derives_to(
        payroll_index_seeds(req.payroll_key, next_token_number(req) as u64),
        p,
        req.payroll_index_key@,
    ) {
        Some(LedgerError::Contract(ContractError::InvalidPdaAccount))
    } else if req.payroll is None && claimable_after(
        req.pool.start_at as int,
        req.index as int,
        req.pool.reward_period as int,
    ) > u64::MAX {
        Some(LedgerError::ArithmeticOverflow)
    } else if req.payroll_token is Some && req.payroll_token->0.total_reward_amount + req.amount > u64::MAX {
        Some(LedgerError::ArithmeticOverflow)
    } else {
        None
    }
}

/// The epoch record after the addition: created where it did not exist, with the pool's
/// power; its count of reward tokens grows by one for a new token.
pub open spec fn rewarded_payroll(req: RewardRequest) -> Payroll {
    match req.payroll {
        Some(p) => if req.payroll_token is None {
            Payroll { number_of_reward_tokens: (p.number_of_reward_tokens + 1) as u64, ..p }
        } else {
            p
        },
        None => Payroll {
            account_type: POOL_PAYROLL_ACCOUNT_TYPE,
            total_deposited_power: req.pool.total_deposited_power,
            index: req.index,
            number_of_reward_tokens: 1,
            claimable_after: claimable_after(
                req.pool.start_at as int,
                req.index as int,
                req.pool.reward_period as int,
            ) as u64,
            start_at: req.pool.start_at,
            pool_pda_account: req.pool_key,
            creator: req.payer,
        },
    }
}

/// The token's sub-ledger after the addition: created holding `amount`, or grown by it.
pub open spec fn rewarded_token(req: RewardRequest) -> PayrollToken {
    match req.payroll_token {
        Some(t) => PayrollToken { total_reward_amount: (t.total_reward_amount + req.amount) as u64, ..t },
        None => PayrollToken {
            account_type: POOL_PAYROLL_TOKEN_ACCOUNT_TYPE,
            reward_token_mint_account: req.mint,
            reward_withdrawn_amount: 0,
            total_reward_amount: req.amount,
            payroll_pda: req.payroll_key,
            creator: req.payer,
        },
    }
}

/// The enumeration entry of a new token.
pub open spec fn reward_index_entry(req: RewardRequest) -> PayrollIndex {
    PayrollIndex {
        account_type: POOL_PAYROLL_INDEX_ACCOUNT_TYPE,
        reward_token_mint_account: req.mint,
        index: next_token_number(req) as u64,
        payroll_pda: req.payroll_key,
        creator: req.payer,
    }
}

/// Adds `amount` of a reward token to the epoch `index`, creating the epoch record, the
/// token's sub-ledger and its enumeration entry where they do not exist yet.
pub fn add_reward(req: &RewardRequest) -> (r: Result<RewardOutcome, LedgerError>)
    ensures
        r is Err <==> reward_failure(*req) is Some,
        r is Err ==> r->Err_0 == reward_failure(*req)->0,
        r is Ok ==> {
            let o = r->Ok_0;
            &&& o.payroll_slot == payroll_slot(
                req.program_id@,
                req.pool_key,
                req.payroll_key,
                req.index,
                req.payroll is Some,
            )->Ok_0
            &&& o.payroll == rewarded_payroll(*req)
            &&& o.payroll_token == rewarded_token(*req)
            &&& o.new_token == (req.payroll_token is None)
            &&& o.payroll_token_bump == bump_of(
                payroll_token_seeds(req.payroll_key, req.mint, req.index),
                req.program_id@,
            )
            &&& o.payroll_index == (if req.payroll_token is None {
                Some(reward_index_entry(*req))
            } else {
                None
            })
            &&& req.payroll_token is None ==> o.payroll_index_bump == bump_of(
                payroll_index_seeds(req.payroll_key, next_token_number(*req) as u64),
                req.program_id@,
            )
            &&& o.native == (req.mint@ == system_program())
            &&& o.create_payroll_ata == (!o.native && req.payroll is None)
        },
{
    verify_system_account(&req.payer_owner)?;
    verify_ata_account(&req.payer, &req.source_ata, &req.mint)?;
    verify_ata_account(&req.payroll_key, &req.destination_ata, &req.mint)?;
    let payroll_token_bump = match payroll_token_address(&req.program_id, &req.payroll_key, &req.mint, req.index) {
        Some((key, bump)) => {
            if !same_address(&key, &req.payroll_token_key) {
                return Err(LedgerError::Contract(ContractError::InvalidPdaAccount));
            }
            bump
        },
        None => {
            return Err(LedgerError::Contract(ContractError::InvalidPdaAccount));
        },
    };
    match req.payroll_token {
        Some(t) => {
            if !same_address(&t.reward_token_mint_account, &req.mint) {
                return Err(LedgerError::Contract(ContractError::InvalidRewardToken));
            }
        },
        None => {},
    }
    let slot = get_or_create_payroll_by_index(
        req.index,
        &req.program_id,
        &req.pool_key,
        &req.payroll_key,
        req.payroll.is_some(),
    )?;
    let count: u64 = match req.payroll {
        Some(p) => p.number_of_reward_tokens,
        None => 0,
    };
    let mut payroll_index: Option<PayrollIndex> = None;
    let mut payroll_index_bump: u8 = 0;
    if req.payroll_token.is_none() {
        if count == u64::MAX {
            return Err(LedgerError::ArithmeticOverflow);
        }
        let number = count + 1;
        match payroll_index_address(&req.program_id, &req.payroll_key, number) {
            Some((key, bump)) => {
                if !same_address(&key, &req.payroll_index_key) {
                    return Err(LedgerError::Contract(ContractError::InvalidPdaAccount));
                }
                payroll_index_bump = bump;
            },
            None => {
                return Err(LedgerError::Contract(ContractError::InvalidPdaAccount));
            },
        }
        payroll_index = Some(
            PayrollIndex {
                account_type: POOL_PAYROLL_INDEX_ACCOUNT_TYPE,
                reward_token_mint_account: req.mint,
                index: number,
                payroll_pda: req.payroll_key,
                creator: req.payer,
            },
        );
    }
    let payroll = match req.payroll {
        Some(p) => {
            if req.payroll_token.is_none() {
                Payroll { number_of_reward_tokens: p.number_of_reward_tokens + 1, ..p }
            } else {
                p
            }
        },
        None => {
            let claimable = match checked_claimable_after(req.pool.start_at, req.index, req.pool.reward_period) {
                Some(c) => c,
                None => {
                    return Err(LedgerError::ArithmeticOverflow);
                },
            };
            Payroll {
                account_type: POOL_PAYROLL_ACCOUNT_TYPE,
                total_deposited_power: req.pool.total_deposited_power,
                index: req.index,
                number_of_reward_tokens: 1,
                claimable_after: claimable,
                start_at: req.pool.start_at,
                pool_pda_account: req.pool_key,
                creator: req.payer,
            }
        },
    };
    let payroll_token = match req.payroll_token {
        Some(t) => {
            if t.total_reward_amount > u64::MAX - req.amount {
                return Err(LedgerError::ArithmeticOverflow);
            }
            PayrollToken { total_reward_amount: t.total_reward_amount + req.amount, ..t }
        },
        None => PayrollToken {
            account_type: POOL_PAYROLL_TOKEN_ACCOUNT_TYPE,
            reward_token_mint_account: req.mint,
            reward_withdrawn_amount: 0,
            total_reward_amount: req.amount,
            payroll_pda: req.payroll_key,
            creator: req.payer,
        },
    };
    let system = system_program_id();
    let native = same_address(&req.mint, &system);
    Ok(RewardOutcome {
        payroll_slot: slot,
        payroll,
        payroll_token,
        new_token: req.payroll_token.is_none(),
        payroll_token_bump,
        payroll_index,
        payroll_index_bump,
        native,
        create_payroll_ata: !native && req.payroll.is_none(),
    })
}

} // verus!
