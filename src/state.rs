use vstd::prelude::*;
use crate::address::{Address, lemma_address_view_injective};
use crate::codec::{
    le_bytes, lemma_le_bytes_injective, lemma_le_bytes_len, push_address, push_array16, push_u64,
    push_u8, read_address, read_array16, read_u64,
};
use crate::error::LedgerError;

verus! {

/// The tag in the first byte of a pool record.
pub const POOL_ACCOUNT_TYPE: u8 = 100;
/// The tag in the first byte of a position record.
pub const STAKING_ACCOUNT_TYPE: u8 = 101;
/// The tag in the first byte of an epoch record.
pub const POOL_PAYROLL_ACCOUNT_TYPE: u8 = 102;
/// The tag in the first byte of a reward sub-ledger record.
pub const POOL_PAYROLL_TOKEN_ACCOUNT_TYPE: u8 = 103;
/// The tag in the first byte of a reward enumeration record.
pub const POOL_PAYROLL_INDEX_ACCOUNT_TYPE: u8 = 104;
/// The tag in the first byte of a claim receipt.
pub const STAKING_PAYROLL_ACCOUNT_TYPE: u8 = 105;
/// The tag in the first byte of a token power record.
pub const TOKEN_DATA_ACCOUNT_TYPE: u8 = 106;
/// The tag in the first byte of a collection registry record.
pub const COLLECTION_DATA_ACCOUNT_TYPE: u8 = 107;


/// A staking pool: its epoch clock and the power deposited in it.
#[derive(Clone, Copy, Debug, PartialEq, Eq)]
pub struct Pool {
    pub account_type: u8,
    pub id: [u8; 16],
    pub name: [u8; 16],
    /// The sum of the power of the positions not yet withdrawn.
    pub total_deposited_power: u64,
    /// The length of an epoch.
    pub reward_period: u64,
    /// The time at which epoch 1 begins.
    pub start_at: u64,
    pub pool_type: u8,
    pub creator: Address,
    /// The collection whose tokens the pool accepts.
    pub collection: Address,
}

/// The length of the serialized `Pool`.
pub const POOL_PDA_LEN: usize = 122;

impl Pool {
    /// The serialized form: the fields in declared order, integers little-endian.
    pub open spec fn spec_bytes(&self) -> Seq<u8> {
        seq![self.account_type]
            + self.id@
            + self.name@
            + le_bytes(self.total_deposited_power)
            + le_bytes(self.reward_period)
            + le_bytes(self.start_at)
            + seq![self.pool_type]
            + self.creator@
            + self.collection@
    }

    pub fn to_bytes(&self) -> (r: Vec<u8>)
        ensures
            r@ == self.spec_bytes(),
            r@.len() == POOL_PDA_LEN,
    {
        let mut out: Vec<u8> = Vec::new();
        push_u8(&mut out, self.account_type);
        push_array16(&mut out, &self.id);
        push_array16(&mut out, &self.name);
        push_u64(&mut out, self.total_deposited_power);
        push_u64(&mut out, self.reward_period);
        push_u64(&mut out, self.start_at);
        push_u8(&mut out, self.pool_type);
        push_address(&mut out, &self.creator);
        push_address(&mut out, &self.collection);
        proof {
            lemma_le_bytes_len(self.total_deposited_power);
            lemma_le_bytes_len(self.reward_period);
            lemma_le_bytes_len(self.start_at);
            assert(out@ =~= self.spec_bytes());
        }
        out
    }

    pub fn try_from_slice(data: &[u8]) -> (r: Result<Pool, LedgerError>)
        ensures
            r is Ok <==> data@.len() == POOL_PDA_LEN,
            r is Ok ==> r->Ok_0.spec_bytes() == data@,
            r is Err ==> r->Err_0 == LedgerError::InvalidAccountData,
    {
        if data.len() != POOL_PDA_LEN {
            return Err(LedgerError::InvalidAccountData);
        }
        let account_type = data[0];
        let id = read_array16(data, 1);
        let name = read_array16(data, 17);
        let total_deposited_power = read_u64(data, 33);
        let reward_period = read_u64(data, 41);
        let start_at = read_u64(data, 49);
        let pool_type = data[57];
        let creator = read_address(data, 58);
        let collection = read_address(data, 90);
        let r = Pool { account_type, id, name, total_deposited_power, reward_period, start_at, pool_type, creator, collection };
        proof {
            lemma_le_bytes_len(r.total_deposited_power);
            lemma_le_bytes_len(r.reward_period);
            lemma_le_bytes_len(r.start_at);
            assert(seq![r.account_type] =~= data@.subrange(0, 1));
            assert(r.id@ =~= data@.subrange(1, 17));
            assert(r.name@ =~= data@.subrange(17, 33));
            assert(le_bytes(r.total_deposited_power) =~= data@.subrange(33, 41));
            assert(le_bytes(r.reward_period) =~= data@.subrange(41, 49));
            assert(le_bytes(r.start_at) =~= data@.subrange(49, 57));
            assert(seq![r.pool_type] =~= data@.subrange(57, 58));
            assert(r.creator@ =~= data@.subrange(58, 90));
            assert(r.collection@ =~= data@.subrange(90, 122));
            assert(data@ =~= r.spec_bytes());
        }
        Ok(r)
    }
}

/// A `Pool` read back from its own serialization is that same record: the reader
/// returns a record whose bytes are its input, and no two records share their bytes.
pub proof fn lemma_pool_round_trip(a: Pool, b: Pool)
    requires
        a.spec_bytes() == b.spec_bytes(),
    ensures
        a == b,
{
    lemma_le_bytes_len(a.total_deposited_power);
    lemma_le_bytes_len(b.total_deposited_power);
    lemma_le_bytes_len(a.reward_period);
    lemma_le_bytes_len(b.reward_period);
    lemma_le_bytes_len(a.start_at);
    lemma_le_bytes_len(b.start_at);
    assert(a.spec_bytes().subrange(0, 1) =~= seq![a.account_type]);
    assert(b.spec_bytes().subrange(0, 1) =~= seq![b.account_type]);
    assert(seq![a.account_type][0] == seq![b.account_type][0]);
    assert(a.spec_bytes().subrange(1, 17) =~= a.id@);
    assert(b.spec_bytes().subrange(1, 17) =~= b.id@);
    assert(a.id =~= b.id);
    assert(a.spec_bytes().subrange(17, 33) =~= a.name@);
    assert(b.spec_bytes().subrange(17, 33) =~= b.name@);
    assert(a.name =~= b.name);
    assert(a.spec_bytes().subrange(33, 41) =~= le_bytes(a.total_deposited_power));
    assert(b.spec_bytes().subrange(33, 41) =~= le_bytes(b.total_deposited_power));
    lemma_le_bytes_injective(a.total_deposited_power, b.total_deposited_power);
    assert(a.spec_bytes().subrange(41, 49) =~= le_bytes(a.reward_period));
    assert(b.spec_bytes().subrange(41, 49) =~= le_bytes(b.reward_period));
    lemma_le_bytes_injective(a.reward_period, b.reward_period);
    assert(a.spec_bytes().subrange(49, 57) =~= le_bytes(a.start_at));
    assert(b.spec_bytes().subrange(49, 57) =~= le_bytes(b.start_at));
    lemma_le_bytes_injective(a.start_at, b.start_at);
    assert(a.spec_bytes().subrange(57, 58) =~= seq![a.pool_type]);
    assert(b.spec_bytes().subrange(57, 58) =~= seq![b.pool_type]);
    assert(seq![a.pool_type][0] == seq![b.pool_type][0]);
    assert(a.spec_bytes().subrange(58, 90) =~= a.creator@);
    assert(b.spec_bytes().subrange(58, 90) =~= b.creator@);
    lemma_address_view_injective(a.creator, b.creator);
    assert(a.spec_bytes().subrange(90, 122) =~= a.collection@);
    assert(b.spec_bytes().subrange(90, 122) =~= b.collection@);
    lemma_address_view_injective(a.collection, b.collection);
}

/// An epoch record: the power of the pool in this epoch and when its rewards can be claimed.
#[derive(Clone, Copy, Debug, PartialEq, Eq)]
pub struct Payroll {
    pub account_type: u8,
    pub total_deposited_power: u64,
    pub index: u64,
    pub number_of_reward_tokens: u64,
    pub claimable_after: u64,
    pub start_at: u64,
    pub pool_pda_account: Address,
    pub creator: Address,
}

/// The length of the serialized `Payroll`.
pub const PAYROLL_PDA_LEN: usize = 105;

impl Payroll {
    /// The serialized form: the fields in declared order, integers little-endian.
    pub open spec fn spec_bytes(&self) -> Seq<u8> {
        seq![self.account_type]
            + le_bytes(self.total_deposited_power)
            + le_bytes(self.index)
            + le_bytes(self.number_of_reward_tokens)
            + le_bytes(self.claimable_after)
            + le_bytes(self.start_at)
            + self.pool_pda_account@
            + self.creator@
    }

    pub fn to_bytes(&self) -> (r: Vec<u8>)
        ensures
            r@ == self.spec_bytes(),
            r@.len() == PAYROLL_PDA_LEN,
    {
        let mut out: Vec<u8> = Vec::new();
        push_u8(&mut out, self.account_type);
        push_u64(&mut out, self.total_deposited_power);
        push_u64(&mut out, self.index);
        push_u64(&mut out, self.number_of_reward_tokens);
        push_u64(&mut out, self.claimable_after);
        push_u64(&mut out, self.start_at);
        push_address(&mut out, &self.pool_pda_account);
        push_address(&mut out, &self.creator);
        proof {
            lemma_le_bytes_len(self.total_deposited_power);
            lemma_le_bytes_len(self.index);
            lemma_le_bytes_len(self.number_of_reward_tokens);
            lemma_le_bytes_len(self.claimable_after);
            lemma_le_bytes_len(self.start_at);
            assert(out@ =~= self.spec_bytes());
        }
        out
    }

    pub fn try_from_slice(data: &[u8]) -> (r: Result<Payroll, LedgerError>)
        ensures
            r is Ok <==> data@.len() == PAYROLL_PDA_LEN,
            r is Ok ==> r->Ok_0.spec_bytes() == data@,
            r is Err ==> r->Err_0 == LedgerError::InvalidAccountData,
    {
        if data.len() != PAYROLL_PDA_LEN {
            return Err(LedgerError::InvalidAccountData);
        }
        let account_type = data[0];
        let total_deposited_power = read_u64(data, 1);
        let index = read_u64(data, 9);
        let number_of_reward_tokens = read_u64(data, 17);
        let claimable_after = read_u64(data, 25);
        let start_at = read_u64(data, 33);
        let pool_pda_account = read_address(data, 41);
        let creator = read_address(data, 73);
        let r = Payroll { account_type, total_deposited_power, index, number_of_reward_tokens, claimable_after, start_at, pool_pda_account, creator };
        proof {
            lemma_le_bytes_len(r.total_deposited_power);
            lemma_le_bytes_len(r.index);
            lemma_le_bytes_len(r.number_of_reward_tokens);
            lemma_le_bytes_len(r.claimable_after);
            lemma_le_bytes_len(r.start_at);
            assert(seq![r.account_type] =~= data@.subrange(0, 1));
            assert(le_bytes(r.total_deposited_power) =~= data@.subrange(1, 9));
            assert(le_bytes(r.index) =~= data@.subrange(9, 17));
            assert(le_bytes(r.number_of_reward_tokens) =~= data@.subrange(17, 25));
            assert(le_bytes(r.claimable_after) =~= data@.subrange(25, 33));
            assert(le_bytes(r.start_at) =~= data@.subrange(33, 41));
            assert(r.pool_pda_account@ =~= data@.subrange(41, 73));
            assert(r.creator@ =~= data@.subrange(73, 105));
            assert(data@ =~= r.spec_bytes());
        }
        Ok(r)
    }
}

/// A `Payroll` read back from its own serialization is that same record: the reader
/// returns a record whose bytes are its input, and no two records share their bytes.
pub proof fn lemma_payroll_round_trip(a: Payroll, b: Payroll)
    requires
        a.spec_bytes() == b.spec_bytes(),
    ensures
        a == b,
{
    lemma_le_bytes_len(a.total_deposited_power);
    lemma_le_bytes_len(b.total_deposited_power);
    lemma_le_bytes_len(a.index);
    lemma_le_bytes_len(b.index);
    lemma_le_bytes_len(a.number_of_reward_tokens);
    lemma_le_bytes_len(b.number_of_reward_tokens);
    lemma_le_bytes_len(a.claimable_after);
    lemma_le_bytes_len(b.claimable_after);
    lemma_le_bytes_len(a.start_at);
    lemma_le_bytes_len(b.start_at);
    assert(a.spec_bytes().subrange(0, 1) =~= seq![a.account_type]);
    assert(b.spec_bytes().subrange(0, 1) =~= seq![b.account_type]);
    assert(seq![a.account_type][0] == seq![b.account_type][0]);
    assert(a.spec_bytes().subrange(1, 9) =~= le_bytes(a.total_deposited_power));
    assert(b.spec_bytes().subrange(1, 9) =~= le_bytes(b.total_deposited_power));
    lemma_le_bytes_injective(a.total_deposited_power, b.total_deposited_power);
    assert(a.spec_bytes().subrange(9, 17) =~= le_bytes(a.index));
    assert(b.spec_bytes().subrange(9, 17) =~= le_bytes(b.index));
    lemma_le_bytes_injective(a.index, b.index);
    assert(a.spec_bytes().subrange(17, 25) =~= le_bytes(a.number_of_reward_tokens));
    assert(b.spec_bytes().subrange(17, 25) =~= le_bytes(b.number_of_reward_tokens));
    lemma_le_bytes_injective(a.number_of_reward_tokens, b.number_of_reward_tokens);
    assert(a.spec_bytes().subrange(25, 33) =~= le_bytes(a.claimable_after));
    assert(b.spec_bytes().subrange(25, 33) =~= le_bytes(b.claimable_after));
    lemma_le_bytes_injective(a.claimable_after, b.claimable_after);
    assert(a.spec_bytes().subrange(33, 41) =~= le_bytes(a.start_at));
    assert(b.spec_bytes().subrange(33, 41) =~= le_bytes(b.start_at));
    lemma_le_bytes_injective(a.start_at, b.start_at);
    assert(a.spec_bytes().subrange(41, 73) =~= a.pool_pda_account@);
    assert(b.spec_bytes().subrange(41, 73) =~= b.pool_pda_account@);
    lemma_address_view_injective(a.pool_pda_account, b.pool_pda_account);
    assert(a.spec_bytes().subrange(73, 105) =~= a.creator@);
    assert(b.spec_bytes().subrange(73, 105) =~= b.creator@);
    lemma_address_view_injective(a.creator, b.creator);
}

/// An enumeration entry that names one reward token of an epoch.
#[derive(Clone, Copy, Debug, PartialEq, Eq)]
pub struct PayrollIndex {
    pub account_type: u8,
    pub reward_token_mint_account: Address,
    pub index: u64,
    pub payroll_pda: Address,
    pub creator: Address,
}

/// The length of the serialized `PayrollIndex`.
pub const PAYROLL_INDEX_PDA_LEN: usize = 105;

impl PayrollIndex {
    /// The serialized form: the fields in declared order, integers little-endian.
    pub open spec fn spec_bytes(&self) -> Seq<u8> {
        seq![self.account_type]
            + self.reward_token_mint_account@
            + le_bytes(self.index)
            + self.payroll_pda@
            + self.creator@
    }

    pub fn to_bytes(&self) -> (r: Vec<u8>)
        ensures
            r@ == self.spec_bytes(),
            r@.len() == PAYROLL_INDEX_PDA_LEN,
    {
        let mut out: Vec<u8> = Vec::new();
        push_u8(&mut out, self.account_type);
        push_address(&mut out, &self.reward_token_mint_account);
        push_u64(&mut out, self.index);
        push_address(&mut out, &self.payroll_pda);
        push_address(&mut out, &self.creator);
        proof {
            lemma_le_bytes_len(self.index);
            assert(out@ =~= self.spec_bytes());
        }
        out
    }

    pub fn try_from_slice(data: &[u8]) -> (r: Result<PayrollIndex, LedgerError>)
        ensures
            r is Ok <==> data@.len() == PAYROLL_INDEX_PDA_LEN,
            r is Ok ==> r->Ok_0.spec_bytes() == data@,
            r is Err ==> r->Err_0 == LedgerError::InvalidAccountData,
    {
        if data.len() != PAYROLL_INDEX_PDA_LEN {
            return Err(LedgerError::InvalidAccountData);
        }
        let account_type = data[0];
        let reward_token_mint_account = read_address(data, 1);
        let index = read_u64(data, 33);
        let payroll_pda = read_address(data, 41);
        let creator = read_address(data, 73);
        let r = PayrollIndex { account_type, reward_token_mint_account, index, payroll_pda, creator };
        proof {
            lemma_le_bytes_len(r.index);
            assert(seq![r.account_type] =~= data@.subrange(0, 1));
            assert(r.reward_token_mint_account@ =~= data@.subrange(1, 33));
            assert(le_bytes(r.index) =~= data@.subrange(33, 41));
            assert(r.payroll_pda@ =~= data@.subrange(41, 73));
            assert(r.creator@ =~= data@.subrange(73, 105));
            assert(data@ =~= r.spec_bytes());
        }
        Ok(r)
    }
}

/// A `PayrollIndex` read back from its own serialization is that same record: the reader
/// returns a record whose bytes are its input, and no two records share their bytes.
pub proof fn lemma_payroll_index_round_trip(a: PayrollIndex, b: PayrollIndex)
    requires
        a.spec_bytes() == b.spec_bytes(),
    ensures
        a == b,
{
    lemma_le_bytes_len(a.index);
    lemma_le_bytes_len(b.index);
    assert(a.spec_bytes().subrange(0, 1) =~= seq![a.account_type]);
    assert(b.spec_bytes().subrange(0, 1) =~= seq![b.account_type]);
    assert(seq![a.account_type][0] == seq![b.account_type][0]);
    assert(a.spec_bytes().subrange(1, 33) =~= a.reward_token_mint_account@);
    assert(b.spec_bytes().subrange(1, 33) =~= b.reward_token_mint_account@);
    lemma_address_view_injective(a.reward_token_mint_account, b.reward_token_mint_account);
    assert(a.spec_bytes().subrange(33, 41) =~= le_bytes(a.index));
    assert(b.spec_bytes().subrange(33, 41) =~= le_bytes(b.index));
    lemma_le_bytes_injective(a.index, b.index);
    assert(a.spec_bytes().subrange(41, 73) =~= a.payroll_pda@);
    assert(b.spec_bytes().subrange(41, 73) =~= b.payroll_pda@);
    lemma_address_view_injective(a.payroll_pda, b.payroll_pda);
    assert(a.spec_bytes().subrange(73, 105) =~= a.creator@);
    assert(b.spec_bytes().subrange(73, 105) =~= b.creator@);
    lemma_address_view_injective(a.creator, b.creator);
}

/// The reward sub-ledger of one token in one epoch.
#[derive(Clone, Copy, Debug, PartialEq, Eq)]
pub struct PayrollToken {
    pub account_type: u8,
    pub reward_token_mint_account: Address,
    pub reward_withdrawn_amount: u64,
    pub total_reward_amount: u64,
    pub payroll_pda: Address,
    pub creator: Address,
}

/// The length of the serialized `PayrollToken`.
pub const PAYROLL_TOKEN_PDA_LEN: usize = 113;

impl PayrollToken {
    /// The serialized form: the fields in declared order, integers little-endian.
    pub open spec fn spec_bytes(&self) -> Seq<u8> {
        seq![self.account_type]
            + self.reward_token_mint_account@
            + le_bytes(self.reward_withdrawn_amount)
            + le_bytes(self.total_reward_amount)
            + self.payroll_pda@
            + self.creator@
    }

    pub fn to_bytes(&self) -> (r: Vec<u8>)
        ensures
            r@ == self.spec_bytes(),
            r@.len() == PAYROLL_TOKEN_PDA_LEN,
    {
        let mut out: Vec<u8> = Vec::new();
        push_u8(&mut out, self.account_type);
        push_address(&mut out, &self.reward_token_mint_account);
        push_u64(&mut out, self.reward_withdrawn_amount);
        push_u64(&mut out, self.total_reward_amount);
        push_address(&mut out, &self.payroll_pda);
        push_address(&mut out, &self.creator);
        proof {
            lemma_le_bytes_len(self.reward_withdrawn_amount);
            lemma_le_bytes_len(self.total_reward_amount);
            assert(out@ =~= self.spec_bytes());
        }
        out
    }

    pub fn try_from_slice(data: &[u8]) -> (r: Result<PayrollToken, LedgerError>)
        ensures
            r is Ok <==> data@.len() == PAYROLL_TOKEN_PDA_LEN,
            r is Ok ==> r->Ok_0.spec_bytes() == data@,
            r is Err ==> r->Err_0 == LedgerError::InvalidAccountData,
    {
        if data.len() != PAYROLL_TOKEN_PDA_LEN {
            return Err(LedgerError::InvalidAccountData);
        }
        let account_type = data[0];
        let reward_token_mint_account = read_address(data, 1);
        let reward_withdrawn_amount = read_u64(data, 33);
        let total_reward_amount = read_u64(data, 41);
        let payroll_pda = read_address(data, 49);
        let creator = read_address(data, 81);
        let r = PayrollToken { account_type, reward_token_mint_account, reward_withdrawn_amount, total_reward_amount, payroll_pda, creator };
        proof {
            lemma_le_bytes_len(r.reward_withdrawn_amount);
            lemma_le_bytes_len(r.total_reward_amount);
            assert(seq![r.account_type] =~= data@.subrange(0, 1));
            assert(r.reward_token_mint_account@ =~= data@.subrange(1, 33));
            assert(le_bytes(r.reward_withdrawn_amount) =~= data@.subrange(33, 41));
            assert(le_bytes(r.total_reward_amount) =~= data@.subrange(41, 49));
            assert(r.payroll_pda@ =~= data@.subrange(49, 81));
            assert(r.creator@ =~= data@.subrange(81, 113));
            assert(data@ =~= r.spec_bytes());
        }
        Ok(r)
    }
}

/// A `PayrollToken` read back from its own serialization is that same record: the reader
/// returns a record whose bytes are its input, and no two records share their bytes.
pub proof fn lemma_payroll_token_round_trip(a: PayrollToken, b: PayrollToken)
    requires
        a.spec_bytes() == b.spec_bytes(),
    ensures
        a == b,
{
    lemma_le_bytes_len(a.reward_withdrawn_amount);
    lemma_le_bytes_len(b.reward_withdrawn_amount);
    lemma_le_bytes_len(a.total_reward_amount);
    lemma_le_bytes_len(b.total_reward_amount);
    assert(a.spec_bytes().subrange(0, 1) =~= seq![a.account_type]);
    assert(b.spec_bytes().subrange(0, 1) =~= seq![b.account_type]);
    assert(seq![a.account_type][0] == seq![b.account_type][0]);
    assert(a.spec_bytes().subrange(1, 33) =~= a.reward_token_mint_account@);
    assert(b.spec_bytes().subrange(1, 33) =~= b.reward_token_mint_account@);
    lemma_address_view_injective(a.reward_token_mint_account, b.reward_token_mint_account);
    assert(a.spec_bytes().subrange(33, 41) =~= le_bytes(a.reward_withdrawn_amount));
    assert(b.spec_bytes().subrange(33, 41) =~= le_bytes(b.reward_withdrawn_amount));
    lemma_le_bytes_injective(a.reward_withdrawn_amount, b.reward_withdrawn_amount);
    assert(a.spec_bytes().subrange(41, 49) =~= le_bytes(a.total_reward_amount));
    assert(b.spec_bytes().subrange(41, 49) =~= le_bytes(b.total_reward_amount));
    lemma_le_bytes_injective(a.total_reward_amount, b.total_reward_amount);
    assert(a.spec_bytes().subrange(49, 81) =~= a.payroll_pda@);
    assert(b.spec_bytes().subrange(49, 81) =~= b.payroll_pda@);
    lemma_address_view_injective(a.payroll_pda, b.payroll_pda);
    assert(a.spec_bytes().subrange(81, 113) =~= a.creator@);
    assert(b.spec_bytes().subrange(81, 113) =~= b.creator@);
    lemma_address_view_injective(a.creator, b.creator);
}

/// A depositor's position in a pool.
#[derive(Clone, Copy, Debug, PartialEq, Eq)]
pub struct StakingAccount {
    pub account_type: u8,
    pub deposited_power: u64,
    pub deposited_at: u64,
    /// 0 while the position is open.
    pub withdrawn_at: u64,
    /// The first epoch the position takes part in.
    pub first_payroll_index: u64,
    /// The rewards paid to the position so far.
    pub withdrawn_reward_amount: u64,
    pub pool_pda_account: Address,
    pub withdrawn_address: Address,
    pub staking_token_mint_address: Address,
    pub depositor: Address,
}

/// The length of the serialized `StakingAccount`.
pub const STAKING_PDA_LEN: usize = 169;

impl StakingAccount {
    /// The serialized form: the fields in declared order, integers little-endian.
    pub open spec fn spec_bytes(&self) -> Seq<u8> {
        seq![self.account_type]
            + le_bytes(self.deposited_power)
            + le_bytes(self.deposited_at)
            + le_bytes(self.withdrawn_at)
            + le_bytes(self.first_payroll_index)
            + le_bytes(self.withdrawn_reward_amount)
            + self.pool_pda_account@
            + self.withdrawn_address@
            + self.staking_token_mint_address@
            + self.depositor@
    }

    pub fn to_bytes(&self) -> (r: Vec<u8>)
        ensures
            r@ == self.spec_bytes(),
            r@.len() == STAKING_PDA_LEN,
    {
        let mut out: Vec<u8> = Vec::new();
        push_u8(&mut out, self.account_type);
        push_u64(&mut out, self.deposited_power);
        push_u64(&mut out, self.deposited_at);
        push_u64(&mut out, self.withdrawn_at);
        push_u64(&mut out, self.first_payroll_index);
        push_u64(&mut out, self.withdrawn_reward_amount);
        push_address(&mut out, &self.pool_pda_account);
        push_address(&mut out, &self.withdrawn_address);
        push_address(&mut out, &self.staking_token_mint_address);
        push_address(&mut out, &self.depositor);
        proof {
            lemma_le_bytes_len(self.deposited_power);
            lemma_le_bytes_len(self.deposited_at);
            lemma_le_bytes_len(self.withdrawn_at);
            lemma_le_bytes_len(self.first_payroll_index);
            lemma_le_bytes_len(self.withdrawn_reward_amount);
            assert(out@ =~= self.spec_bytes());
        }
        out
    }

    pub fn try_from_slice(data: &[u8]) -> (r: Result<StakingAccount, LedgerError>)
        ensures
            r is Ok <==> data@.len() == STAKING_PDA_LEN,
            r is Ok ==> r->Ok_0.spec_bytes() == data@,
            r is Err ==> r->Err_0 == LedgerError::InvalidAccountData,
    {
        if data.len() != STAKING_PDA_LEN {
            return Err(LedgerError::InvalidAccountData);
        }
        let account_type = data[0];
        let deposited_power = read_u64(data, 1);
        let deposited_at = read_u64(data, 9);
        let withdrawn_at = read_u64(data, 17);
        let first_payroll_index = read_u64(data, 25);
        let withdrawn_reward_amount = read_u64(data, 33);
        let pool_pda_account = read_address(data, 41);
        let withdrawn_address = read_address(data, 73);
        let staking_token_mint_address = read_address(data, 105);
        let depositor = read_address(data, 137);
        let r = StakingAccount { account_type, deposited_power, deposited_at, withdrawn_at, first_payroll_index, withdrawn_reward_amount, pool_pda_account, withdrawn_address, staking_token_mint_address, depositor };
        proof {
            lemma_le_bytes_len(r.deposited_power);
            lemma_le_bytes_len(r.deposited_at);
            lemma_le_bytes_len(r.withdrawn_at);
            lemma_le_bytes_len(r.first_payroll_index);
            lemma_le_bytes_len(r.withdrawn_reward_amount);
            assert(seq![r.account_type] =~= data@.subrange(0, 1));
            assert(le_bytes(r.deposited_power) =~= data@.subrange(1, 9));
            assert(le_bytes(r.deposited_at) =~= data@.subrange(9, 17));
            assert(le_bytes(r.withdrawn_at) =~= data@.subrange(17, 25));
            assert(le_bytes(r.first_payroll_index) =~= data@.subrange(25, 33));
            assert(le_bytes(r.withdrawn_reward_amount) =~= data@.subrange(33, 41));
            assert(r.pool_pda_account@ =~= data@.subrange(41, 73));
            assert(r.withdrawn_address@ =~= data@.subrange(73, 105));
            assert(r.staking_token_mint_address@ =~= data@.subrange(105, 137));
            assert(r.depositor@ =~= data@.subrange(137, 169));
            assert(data@ =~= r.spec_bytes());
        }
        Ok(r)
    }
}

/// A `StakingAccount` read back from its own serialization is that same record: the reader
/// returns a record whose bytes are its input, and no two records share their bytes.
pub proof fn lemma_staking_account_round_trip(a: StakingAccount, b: StakingAccount)
    requires
        a.spec_bytes() == b.spec_bytes(),
    ensures
        a == b,
{
    lemma_le_bytes_len(a.deposited_power);
    lemma_le_bytes_len(b.deposited_power);
    lemma_le_bytes_len(a.deposited_at);
    lemma_le_bytes_len(b.deposited_at);
    lemma_le_bytes_len(a.withdrawn_at);
    lemma_le_bytes_len(b.withdrawn_at);
    lemma_le_bytes_len(a.first_payroll_index);
    lemma_le_bytes_len(b.first_payroll_index);
    lemma_le_bytes_len(a.withdrawn_reward_amount);
    lemma_le_bytes_len(b.withdrawn_reward_amount);
    assert(a.spec_bytes().subrange(0, 1) =~= seq![a.account_type]);
    assert(b.spec_bytes().subrange(0, 1) =~= seq![b.account_type]);
    assert(seq![a.account_type][0] == seq![b.account_type][0]);
    assert(a.spec_bytes().subrange(1, 9) =~= le_bytes(a.deposited_power));
    assert(b.spec_bytes().subrange(1, 9) =~= le_bytes(b.deposited_power));
    lemma_le_bytes_injective(a.deposited_power, b.deposited_power);
    assert(a.spec_bytes().subrange(9, 17) =~= le_bytes(a.deposited_at));
    assert(b.spec_bytes().subrange(9, 17) =~= le_bytes(b.deposited_at));
    lemma_le_bytes_injective(a.deposited_at, b.deposited_at);
    assert(a.spec_bytes().subrange(17, 25) =~= le_bytes(a.withdrawn_at));
    assert(b.spec_bytes().subrange(17, 25) =~= le_bytes(b.withdrawn_at));
    lemma_le_bytes_injective(a.withdrawn_at, b.withdrawn_at);
    assert(a.spec_bytes().subrange(25, 33) =~= le_bytes(a.first_payroll_index));
    assert(b.spec_bytes().subrange(25, 33) =~= le_bytes(b.first_payroll_index));
    lemma_le_bytes_injective(a.first_payroll_index, b.first_payroll_index);
    assert(a.spec_bytes().subrange(33, 41) =~= le_bytes(a.withdrawn_reward_amount));
    assert(b.spec_bytes().subrange(33, 41) =~= le_bytes(b.withdrawn_reward_amount));
    lemma_le_bytes_injective(a.withdrawn_reward_amount, b.withdrawn_reward_amount);
    assert(a.spec_bytes().subrange(41, 73) =~= a.pool_pda_account@);
    assert(b.spec_bytes().subrange(41, 73) =~= b.pool_pda_account@);
    lemma_address_view_injective(a.pool_pda_account, b.pool_pda_account);
    assert(a.spec_bytes().subrange(73, 105) =~= a.withdrawn_address@);
    assert(b.spec_bytes().subrange(73, 105) =~= b.withdrawn_address@);
    lemma_address_view_injective(a.withdrawn_address, b.withdrawn_address);
    assert(a.spec_bytes().subrange(105, 137) =~= a.staking_token_mint_address@);
    assert(b.spec_bytes().subrange(105, 137) =~= b.staking_token_mint_address@);
    lemma_address_view_injective(a.staking_token_mint_address, b.staking_token_mint_address);
    assert(a.spec_bytes().subrange(137, 169) =~= a.depositor@);
    assert(b.spec_bytes().subrange(137, 169) =~= b.depositor@);
    lemma_address_view_injective(a.depositor, b.depositor);
}

/// A claim receipt of one position for one epoch.
#[derive(Clone, Copy, Debug, PartialEq, Eq)]
pub struct StakingPayroll {
    pub account_type: u8,
    pub staking_pda_account: Address,
    pub deposited_power: u64,
    pub total_pool_deposited_power: u64,
    pub total_reward_amount: u64,
    pub reward_withdrawn_amount: u64,
    pub index: u64,
    pub withdrawn_at: u64,
}

/// The length of the serialized `StakingPayroll`.
pub const STAKING_PAYROLL_PDA_LEN: usize = 81;

impl StakingPayroll {
    /// The serialized form: the fields in declared order, integers little-endian.
    pub open spec fn spec_bytes(&self) -> Seq<u8> {
        seq![self.account_type]
            + self.staking_pda_account@
            + le_bytes(self.deposited_power)
            + le_bytes(self.total_pool_deposited_power)
            + le_bytes(self.total_reward_amount)
            + le_bytes(self.reward_withdrawn_amount)
            + le_bytes(self.index)
            + le_bytes(self.withdrawn_at)
    }

    pub fn to_bytes(&self) -> (r: Vec<u8>)
        ensures
            r@ == self.spec_bytes(),
            r@.len() == STAKING_PAYROLL_PDA_LEN,
    {
        let mut out: Vec<u8> = Vec::new();
        push_u8(&mut out, self.account_type);
        push_address(&mut out, &self.staking_pda_account);
        push_u64(&mut out, self.deposited_power);
        push_u64(&mut out, self.total_pool_deposited_power);
        push_u64(&mut out, self.total_reward_amount);
        push_u64(&mut out, self.reward_withdrawn_amount);
        push_u64(&mut out, self.index);
        push_u64(&mut out, self.withdrawn_at);
        proof {
            lemma_le_bytes_len(self.deposited_power);
            lemma_le_bytes_len(self.total_pool_deposited_power);
            lemma_le_bytes_len(self.total_reward_amount);
            lemma_le_bytes_len(self.reward_withdrawn_amount);
            lemma_le_bytes_len(self.index);
            lemma_le_bytes_len(self.withdrawn_at);
            assert(out@ =~= self.spec_bytes());
        }
        out
    }

    pub fn try_from_slice(data: &[u8]) -> (r: Result<StakingPayroll, LedgerError>)
        ensures
            r is Ok <==> data@.len() == STAKING_PAYROLL_PDA_LEN,
            r is Ok ==> r->Ok_0.spec_bytes() == data@,
            r is Err ==> r->Err_0 == LedgerError::InvalidAccountData,
    {
        if data.len() != STAKING_PAYROLL_PDA_LEN {
            return Err(LedgerError::InvalidAccountData);
        }
        let account_type = data[0];
        let staking_pda_account = read_address(data, 1);
        let deposited_power = read_u64(data, 33);
        let total_pool_deposited_power = read_u64(data, 41);
        let total_reward_amount = read_u64(data, 49);
        let reward_withdrawn_amount = read_u64(data, 57);
        let index = read_u64(data, 65);
        let withdrawn_at = read_u64(data, 73);
        let r = StakingPayroll { account_type, staking_pda_account, deposited_power, total_pool_deposited_power, total_reward_amount, reward_withdrawn_amount, index, withdrawn_at };
        proof {
            lemma_le_bytes_len(r.deposited_power);
            lemma_le_bytes_len(r.total_pool_deposited_power);
            lemma_le_bytes_len(r.total_reward_amount);
            lemma_le_bytes_len(r.reward_withdrawn_amount);
            lemma_le_bytes_len(r.index);
            lemma_le_bytes_len(r.withdrawn_at);
            assert(seq![r.account_type] =~= data@.subrange(0, 1));
            assert(r.staking_pda_account@ =~= data@.subrange(1, 33));
            assert(le_bytes(r.deposited_power) =~= data@.subrange(33, 41));
            assert(le_bytes(r.total_pool_deposited_power) =~= data@.subrange(41, 49));
            assert(le_bytes(r.total_reward_amount) =~= data@.subrange(49, 57));
            assert(le_bytes(r.reward_withdrawn_amount) =~= data@.subrange(57, 65));
            assert(le_bytes(r.index) =~= data@.subrange(65, 73));
            assert(le_bytes(r.withdrawn_at) =~= data@.subrange(73, 81));
            assert(data@ =~= r.spec_bytes());
        }
        Ok(r)
    }
}

/// A `StakingPayroll` read back from its own serialization is that same record: the reader
/// returns a record whose bytes are its input, and no two records share their bytes.
pub proof fn lemma_staking_payroll_round_trip(a: StakingPayroll, b: StakingPayroll)
    requires
        a.spec_bytes() == b.spec_bytes(),
    ensures
        a == b,
{
    lemma_le_bytes_len(a.deposited_power);
    lemma_le_bytes_len(b.deposited_power);
    lemma_le_bytes_len(a.total_pool_deposited_power);
    lemma_le_bytes_len(b.total_pool_deposited_power);
    lemma_le_bytes_len(a.total_reward_amount);
    lemma_le_bytes_len(b.total_reward_amount);
    lemma_le_bytes_len(a.reward_withdrawn_amount);
    lemma_le_bytes_len(b.reward_withdrawn_amount);
    lemma_le_bytes_len(a.index);
    lemma_le_bytes_len(b.index);
    lemma_le_bytes_len(a.withdrawn_at);
    lemma_le_bytes_len(b.withdrawn_at);
    assert(a.spec_bytes().subrange(0, 1) =~= seq![a.account_type]);
    assert(b.spec_bytes().subrange(0, 1) =~= seq![b.account_type]);
    assert(seq![a.account_type][0] == seq![b.account_type][0]);
    assert(a.spec_bytes().subrange(1, 33) =~= a.staking_pda_account@);
    assert(b.spec_bytes().subrange(1, 33) =~= b.staking_pda_account@);
    lemma_address_view_injective(a.staking_pda_account, b.staking_pda_account);
    assert(a.spec_bytes().subrange(33, 41) =~= le_bytes(a.deposited_power));
    assert(b.spec_bytes().subrange(33, 41) =~= le_bytes(b.deposited_power));
    lemma_le_bytes_injective(a.deposited_power, b.deposited_power);
    assert(a.spec_bytes().subrange(41, 49) =~= le_bytes(a.total_pool_deposited_power));
    assert(b.spec_bytes().subrange(41, 49) =~= le_bytes(b.total_pool_deposited_power));
    lemma_le_bytes_injective(a.total_pool_deposited_power, b.total_pool_deposited_power);
    assert(a.spec_bytes().subrange(49, 57) =~= le_bytes(a.total_reward_amount));
    assert(b.spec_bytes().subrange(49, 57) =~= le_bytes(b.total_reward_amount));
    lemma_le_bytes_injective(a.total_reward_amount, b.total_reward_amount);
    assert(a.spec_bytes().subrange(57, 65) =~= le_bytes(a.reward_withdrawn_amount));
    assert(b.spec_bytes().subrange(57, 65) =~= le_bytes(b.reward_withdrawn_amount));
    lemma_le_bytes_injective(a.reward_withdrawn_amount, b.reward_withdrawn_amount);
    assert(a.spec_bytes().subrange(65, 73) =~= le_bytes(a.index));
    assert(b.spec_bytes().subrange(65, 73) =~= le_bytes(b.index));
    lemma_le_bytes_injective(a.index, b.index);
    assert(a.spec_bytes().subrange(73, 81) =~= le_bytes(a.withdrawn_at));
    assert(b.spec_bytes().subrange(73, 81) =~= le_bytes(b.withdrawn_at));
    lemma_le_bytes_injective(a.withdrawn_at, b.withdrawn_at);
}

/// The power of a staking token.
#[derive(Clone, Copy, Debug, PartialEq, Eq)]
pub struct TokenData {
    pub account_type: u8,
    pub power: u64,
    pub token_mint_address: Address,
}

/// The length of the serialized `TokenData`.
pub const TOKEN_DATA_PDA_LEN: usize = 41;

impl TokenData {
    /// The serialized form: the fields in declared order, integers little-endian.
    pub open spec fn spec_bytes(&self) -> Seq<u8> {
        seq![self.account_type]
            + le_bytes(self.power)
            + self.token_mint_address@
    }

    pub fn to_bytes(&self) -> (r: Vec<u8>)
        ensures
            r@ == self.spec_bytes(),
            r@.len() == TOKEN_DATA_PDA_LEN,
    {
        let mut out: Vec<u8> = Vec::new();
        push_u8(&mut out, self.account_type);
        push_u64(&mut out, self.power);
        push_address(&mut out, &self.token_mint_address);
        proof {
            lemma_le_bytes_len(self.power);
            assert(out@ =~= self.spec_bytes());
        }
        out
    }

    pub fn try_from_slice(data: &[u8]) -> (r: Result<TokenData, LedgerError>)
        ensures
            r is Ok <==> data@.len() == TOKEN_DATA_PDA_LEN,
            r is Ok ==> r->Ok_0.spec_bytes() == data@,
            r is Err ==> r->Err_0 == LedgerError::InvalidAccountData,
    {
        if data.len() != TOKEN_DATA_PDA_LEN {
            return Err(LedgerError::InvalidAccountData);
        }
        let account_type = data[0];
        let power = read_u64(data, 1);
        let token_mint_address = read_address(data, 9);
        let r = TokenData { account_type, power, token_mint_address };
        proof {
            lemma_le_bytes_len(r.power);
            assert(seq![r.account_type] =~= data@.subrange(0, 1));
            assert(le_bytes(r.power) =~= data@.subrange(1, 9));
            assert(r.token_mint_address@ =~= data@.subrange(9, 41));
            assert(data@ =~= r.spec_bytes());
        }
        Ok(r)
    }
}

/// A `TokenData` read back from its own serialization is that same record: the reader
/// returns a record whose bytes are its input, and no two records share their bytes.
pub proof fn lemma_token_data_round_trip(a: TokenData, b: TokenData)
    requires
        a.spec_bytes() == b.spec_bytes(),
    ensures
        a == b,
{
    lemma_le_bytes_len(a.power);
    lemma_le_bytes_len(b.power);
    assert(a.spec_bytes().subrange(0, 1) =~= seq![a.account_type]);
    assert(b.spec_bytes().subrange(0, 1) =~= seq![b.account_type]);
    assert(seq![a.account_type][0] == seq![b.account_type][0]);
    assert(a.spec_bytes().subrange(1, 9) =~= le_bytes(a.power));
    assert(b.spec_bytes().subrange(1, 9) =~= le_bytes(b.power));
    lemma_le_bytes_injective(a.power, b.power);
    assert(a.spec_bytes().subrange(9, 41) =~= a.token_mint_address@);
    assert(b.spec_bytes().subrange(9, 41) =~= b.token_mint_address@);
    lemma_address_view_injective(a.token_mint_address, b.token_mint_address);
}

/// A registered collection.
#[derive(Clone, Copy, Debug, PartialEq, Eq)]
pub struct CollectionData {
    pub account_type: u8,
    pub collection_mint_address: Address,
}

/// The length of the serialized `CollectionData`.
pub const COLLECTION_DATA_PDA_LEN: usize = 33;

impl CollectionData {
    /// The serialized form: the fields in declared order, integers little-endian.
    pub open spec fn spec_bytes(&self) -> Seq<u8> {
        seq![self.account_type]
            + self.collection_mint_address@
    }

    pub fn to_bytes(&self) -> (r: Vec<u8>)
        ensures
            r@ == self.spec_bytes(),
            r@.len() == COLLECTION_DATA_PDA_LEN,
    {
        let mut out: Vec<u8> = Vec::new();
        push_u8(&mut out, self.account_type);
        push_address(&mut out, &self.collection_mint_address);
        proof {
            assert(out@ =~= self.spec_bytes());
        }
        out
    }

    pub fn try_from_slice(data: &[u8]) -> (r: Result<CollectionData, LedgerError>)
        ensures
            r is Ok <==> data@.len() == COLLECTION_DATA_PDA_LEN,
            r is Ok ==> r->Ok_0.spec_bytes() == data@,
            r is Err ==> r->Err_0 == LedgerError::InvalidAccountData,
    {
        if data.len() != COLLECTION_DATA_PDA_LEN {
            return Err(LedgerError::InvalidAccountData);
        }
        let account_type = data[0];
        let collection_mint_address = read_address(data, 1);
        let r = CollectionData { account_type, collection_mint_address };
        proof {
            assert(seq![r.account_type] =~= data@.subrange(0, 1));
            assert(r.collection_mint_address@ =~= data@.subrange(1, 33));
            assert(data@ =~= r.spec_bytes());
        }
        Ok(r)
    }
}

/// A `CollectionData` read back from its own serialization is that same record: the reader
/// returns a record whose bytes are its input, and no two records share their bytes.
pub proof fn lemma_collection_data_round_trip(a: CollectionData, b: CollectionData)
    requires
        a.spec_bytes() == b.spec_bytes(),
    ensures
        a == b,
{
    assert(a.spec_bytes().subrange(0, 1) =~= seq![a.account_type]);
    assert(b.spec_bytes().subrange(0, 1) =~= seq![b.account_type]);
    assert(seq![a.account_type][0] == seq![b.account_type][0]);
    assert(a.spec_bytes().subrange(1, 33) =~= a.collection_mint_address@);
    assert(b.spec_bytes().subrange(1, 33) =~= b.collection_mint_address@);
    lemma_address_view_injective(a.collection_mint_address, b.collection_mint_address);
}

/// A reward token of a pool and its balance account.
#[derive(Clone, Copy, Debug, PartialEq, Eq)]
pub struct RewardToken {
    pub account_type: u8,
    pub reward_token_mint_address: Address,
    pub reward_ata: Address,
}

/// The length of the serialized `RewardToken`.
pub const REWARD_TOKEN_PDA_LEN: usize = 65;

impl RewardToken {
    /// The serialized form: the fields in declared order, integers little-endian.
    pub open spec fn spec_bytes(&self) -> Seq<u8> {
        seq![self.account_type]
            + self.reward_token_mint_address@
            + self.reward_ata@
    }

    pub fn to_bytes(&self) -> (r: Vec<u8>)
        ensures
            r@ == self.spec_bytes(),
            r@.len() == REWARD_TOKEN_PDA_LEN,
    {
        let mut out: Vec<u8> = Vec::new();
        push_u8(&mut out, self.account_type);
        push_address(&mut out, &self.reward_token_mint_address);
        push_address(&mut out, &self.reward_ata);
        proof {
            assert(out@ =~= self.spec_bytes());
        }
        out
    }

    pub fn try_from_slice(data: &[u8]) -> (r: Result<RewardToken, LedgerError>)
        ensures
            r is Ok <==> data@.len() == REWARD_TOKEN_PDA_LEN,
            r is Ok ==> r->Ok_0.spec_bytes() == data@,
            r is Err ==> r->Err_0 == LedgerError::InvalidAccountData,
    {
        if data.len() != REWARD_TOKEN_PDA_LEN {
            return Err(LedgerError::InvalidAccountData);
        }
        let account_type = data[0];
        let reward_token_mint_address = read_address(data, 1);
        let reward_ata = read_address(data, 33);
        let r = RewardToken { account_type, reward_token_mint_address, reward_ata };
        proof {
            assert(seq![r.account_type] =~= data@.subrange(0, 1));
            assert(r.reward_token_mint_address@ =~= data@.subrange(1, 33));
            assert(r.reward_ata@ =~= data@.subrange(33, 65));
            assert(data@ =~= r.spec_bytes());
        }
        Ok(r)
    }
}

/// A `RewardToken` read back from its own serialization is that same record: the reader
/// returns a record whose bytes are its input, and no two records share their bytes.
pub proof fn lemma_reward_token_round_trip(a: RewardToken, b: RewardToken)
    requires
        a.spec_bytes() == b.spec_bytes(),
    ensures
        a == b,
{
    assert(a.spec_bytes().subrange(0, 1) =~= seq![a.account_type]);
    assert(b.spec_bytes().subrange(0, 1) =~= seq![b.account_type]);
    assert(seq![a.account_type][0] == seq![b.account_type][0]);
    assert(a.spec_bytes().subrange(1, 33) =~= a.reward_token_mint_address@);
    assert(b.spec_bytes().subrange(1, 33) =~= b.reward_token_mint_address@);
    lemma_address_view_injective(a.reward_token_mint_address, b.reward_token_mint_address);
    assert(a.spec_bytes().subrange(33, 65) =~= a.reward_ata@);
    assert(b.spec_bytes().subrange(33, 65) =~= b.reward_ata@);
    lemma_address_view_injective(a.reward_ata, b.reward_ata);
}

} // verus!
