use vstd::prelude::*;
use crate::address::{Address, lemma_address_view_injective};
use crate::codec::{
    le_bytes, lemma_le_bytes_injective, lemma_le_bytes_len, push_address, push_array16, push_u64,
    push_u8, read_address, read_array16, read_u64,
};
use crate::error::LedgerError;

verus! {


/// The payload of the pool creation request.
#[derive(Clone, Copy, Debug, PartialEq, Eq)]
pub struct PoolInitializationIns {
    pub id: [u8; 16],
    pub name: [u8; 16],
    pub reward_period: u64,
    pub start_at: u64,
    pub creator: Address,
    pub collection: Address,
    pub pool_type: u8,
}

/// The length of the serialized `PoolInitializationIns`.
pub const POOL_INITIALIZATION_INS_LEN: usize = 113;

impl PoolInitializationIns {
    /// The serialized form: the fields in declared order, integers little-endian.
    pub open spec fn spec_bytes(&self) -> Seq<u8> {
        self.id@
            + self.name@
            + le_bytes(self.reward_period)
            + le_bytes(self.start_at)
            + self.creator@
            + self.collection@
            + seq![self.pool_type]
    }

    pub fn to_bytes(&self) -> (r: Vec<u8>)
        ensures
            r@ == self.spec_bytes(),
            r@.len() == POOL_INITIALIZATION_INS_LEN,
    {
        let mut out: Vec<u8> = Vec::new();
        push_array16(&mut out, &self.id);
        push_array16(&mut out, &self.name);
        push_u64(&mut out, self.reward_period);
        push_u64(&mut out, self.start_at);
        push_address(&mut out, &self.creator);
        push_address(&mut out, &self.collection);
        push_u8(&mut out, self.pool_type);
        proof {
            lemma_le_bytes_len(self.reward_period);
            lemma_le_bytes_len(self.start_at);
            assert(out@ =~= self.spec_bytes());
        }
        out
    }

    pub fn try_from_slice(data: &[u8]) -> (r: Result<PoolInitializationIns, LedgerError>)
        ensures
            r is Ok <==> data@.len() == POOL_INITIALIZATION_INS_LEN,
            r is Ok ==> r->Ok_0.spec_bytes() == data@,
            r is Err ==> r->Err_0 == LedgerError::InvalidInstructionData,
    {
        if data.len() != POOL_INITIALIZATION_INS_LEN {
            return Err(LedgerError::InvalidInstructionData);
        }
        let id = read_array16(data, 0);
        let name = read_array16(data, 16);
        let reward_period = read_u64(data, 32);
        let start_at = read_u64(data, 40);
        let creator = read_address(data, 48);
        let collection = read_address(data, 80);
        let pool_type = data[112];
        let r = PoolInitializationIns { id, name, reward_period, start_at, creator, collection, pool_type };
        proof {
            lemma_le_bytes_len(r.reward_period);
            lemma_le_bytes_len(r.start_at);
            assert(r.id@ =~= data@.subrange(0, 16));
            assert(r.name@ =~= data@.subrange(16, 32));
            assert(le_bytes(r.reward_period) =~= data@.subrange(32, 40));
            assert(le_bytes(r.start_at) =~= data@.subrange(40, 48));
            assert(r.creator@ =~= data@.subrange(48, 80));
            assert(r.collection@ =~= data@.subrange(80, 112));
            assert(seq![r.pool_type] =~= data@.subrange(112, 113));
            assert(data@ =~= r.spec_bytes());
        }
        Ok(r)
    }
}

/// A `PoolInitializationIns` read back from its own serialization is that same record: the reader
/// returns a record whose bytes are its input, and no two records share their bytes.
pub proof fn lemma_pool_initialization_ins_round_trip(a: PoolInitializationIns, b: PoolInitializationIns)
    requires
        a.spec_bytes() == b.spec_bytes(),
    ensures
        a == b,
{
    lemma_le_bytes_len(a.reward_period);
    lemma_le_bytes_len(b.reward_period);
    lemma_le_bytes_len(a.start_at);
    lemma_le_bytes_len(b.start_at);
    assert(a.spec_bytes().subrange(0, 16) =~= a.id@);
    assert(b.spec_bytes().subrange(0, 16) =~= b.id@);
    assert(a.id =~= b.id);
    assert(a.spec_bytes().subrange(16, 32) =~= a.name@);
    assert(b.spec_bytes().subrange(16, 32) =~= b.name@);
    assert(a.name =~= b.name);
    assert(a.spec_bytes().subrange(32, 40) =~= le_bytes(a.reward_period));
    assert(b.spec_bytes().subrange(32, 40) =~= le_bytes(b.reward_period));
    lemma_le_bytes_injective(a.reward_period, b.reward_period);
    assert(a.spec_bytes().subrange(40, 48) =~= le_bytes(a.start_at));
    assert(b.spec_bytes().subrange(40, 48) =~= le_bytes(b.start_at));
    lemma_le_bytes_injective(a.start_at, b.start_at);
    assert(a.spec_bytes().subrange(48, 80) =~= a.creator@);
    assert(b.spec_bytes().subrange(48, 80) =~= b.creator@);
    lemma_address_view_injective(a.creator, b.creator);
    assert(a.spec_bytes().subrange(80, 112) =~= a.collection@);
    assert(b.spec_bytes().subrange(80, 112) =~= b.collection@);
    lemma_address_view_injective(a.collection, b.collection);
    assert(a.spec_bytes().subrange(112, 113) =~= seq![a.pool_type]);
    assert(b.spec_bytes().subrange(112, 113) =~= seq![b.pool_type]);
    assert(seq![a.pool_type][0] == seq![b.pool_type][0]);
}

/// The payload of a deposit request.
#[derive(Clone, Copy, Debug, PartialEq, Eq)]
pub struct PoolDepositIns {
    pub withdrawn_address: Address,
}

/// The length of the serialized `PoolDepositIns`.
pub const POOL_DEPOSIT_INS_LEN: usize = 32;

impl PoolDepositIns {
    /// The serialized form: the fields in declared order, integers little-endian.
    pub open spec fn spec_bytes(&self) -> Seq<u8> {
        self.withdrawn_address@
    }

    pub fn to_bytes(&self) -> (r: Vec<u8>)
        ensures
            r@ == self.spec_bytes(),
            r@.len() == POOL_DEPOSIT_INS_LEN,
    {
        let mut out: Vec<u8> = Vec::new();
        push_address(&mut out, &self.withdrawn_address);
        proof {
            assert(out@ =~= self.spec_bytes());
        }
        out
    }

    pub fn try_from_slice(data: &[u8]) -> (r: Result<PoolDepositIns, LedgerError>)
        ensures
            r is Ok <==> data@.len() == POOL_DEPOSIT_INS_LEN,
            r is Ok ==> r->Ok_0.spec_bytes() == data@,
            r is Err ==> r->Err_0 == LedgerError::InvalidInstructionData,
    {
        if data.len() != POOL_DEPOSIT_INS_LEN {
            return Err(LedgerError::InvalidInstructionData);
        }
        let withdrawn_address = read_address(data, 0);
        let r = PoolDepositIns { withdrawn_address };
        proof {
            assert(r.withdrawn_address@ =~= data@.subrange(0, 32));
            assert(data@ =~= r.spec_bytes());
        }
        Ok(r)
    }
}

/// A `PoolDepositIns` read back from its own serialization is that same record: the reader
/// returns a record whose bytes are its input, and no two records share their bytes.
pub proof fn lemma_pool_deposit_ins_round_trip(a: PoolDepositIns, b: PoolDepositIns)
    requires
        a.spec_bytes() == b.spec_bytes(),
    ensures
        a == b,
{
    assert(a.spec_bytes().subrange(0, 32) =~= a.withdrawn_address@);
    assert(b.spec_bytes().subrange(0, 32) =~= b.withdrawn_address@);
    lemma_address_view_injective(a.withdrawn_address, b.withdrawn_address);
}

/// The payload of a request that adds a reward to an epoch.
#[derive(Clone, Copy, Debug, PartialEq, Eq)]
pub struct RewardAddition {
    pub amount: u64,
    pub payroll_index: u64,
}

/// The length of the serialized `RewardAddition`.
pub const REWARD_ADDITION_LEN: usize = 16;

impl RewardAddition {
    /// The serialized form: the fields in declared order, integers little-endian.
    pub open spec fn spec_bytes(&self) -> Seq<u8> {
        le_bytes(self.amount)
            + le_bytes(self.payroll_index)
    }

    pub fn to_bytes(&self) -> (r: Vec<u8>)
        ensures
            r@ == self.spec_bytes(),
            r@.len() == REWARD_ADDITION_LEN,
    {
        let mut out: Vec<u8> = Vec::new();
        push_u64(&mut out, self.amount);
        push_u64(&mut out, self.payroll_index);
        proof {
            lemma_le_bytes_len(self.amount);
            lemma_le_bytes_len(self.payroll_index);
            assert(out@ =~= self.spec_bytes());
        }
        out
    }

    pub fn try_from_slice(data: &[u8]) -> (r: Result<RewardAddition, LedgerError>)
        ensures
            r is Ok <==> data@.len() == REWARD_ADDITION_LEN,
            r is Ok ==> r->Ok_0.spec_bytes() == data@,
            r is Err ==> r->Err_0 == LedgerError::InvalidInstructionData,
    {
        if data.len() != REWARD_ADDITION_LEN {
            return Err(LedgerError::InvalidInstructionData);
        }
        let amount = read_u64(data, 0);
        let payroll_index = read_u64(data, 8);
        let r = RewardAddition { amount, payroll_index };
        proof {
            lemma_le_bytes_len(r.amount);
            lemma_le_bytes_len(r.payroll_index);
            assert(le_bytes(r.amount) =~= data@.subrange(0, 8));
            assert(le_bytes(r.payroll_index) =~= data@.subrange(8, 16));
            assert(data@ =~= r.spec_bytes());
        }
        Ok(r)
    }
}

/// A `RewardAddition` read back from its own serialization is that same record: the reader
/// returns a record whose bytes are its input, and no two records share their bytes.
pub proof fn lemma_reward_addition_round_trip(a: RewardAddition, b: RewardAddition)
    requires
        a.spec_bytes() == b.spec_bytes(),
    ensures
        a == b,
{
    lemma_le_bytes_len(a.amount);
    lemma_le_bytes_len(b.amount);
    lemma_le_bytes_len(a.payroll_index);
    lemma_le_bytes_len(b.payroll_index);
    assert(a.spec_bytes().subrange(0, 8) =~= le_bytes(a.amount));
    assert(b.spec_bytes().subrange(0, 8) =~= le_bytes(b.amount));
    lemma_le_bytes_injective(a.amount, b.amount);
    assert(a.spec_bytes().subrange(8, 16) =~= le_bytes(a.payroll_index));
    assert(b.spec_bytes().subrange(8, 16) =~= le_bytes(b.payroll_index));
    lemma_le_bytes_injective(a.payroll_index, b.payroll_index);
}

/// The payload of a reward token registration.
#[derive(Clone, Copy, Debug, PartialEq, Eq)]
pub struct RewardInitialization {
    pub index: u8,
}

/// The length of the serialized `RewardInitialization`.
pub const REWARD_INITIALIZATION_LEN: usize = 1;

impl RewardInitialization {
    /// The serialized form: the fields in declared order, integers little-endian.
    pub open spec fn spec_bytes(&self) -> Seq<u8> {
        seq![self.index]
    }

    pub fn to_bytes(&self) -> (r: Vec<u8>)
        ensures
            r@ == self.spec_bytes(),
            r@.len() == REWARD_INITIALIZATION_LEN,
    {
        let mut out: Vec<u8> = Vec::new();
        push_u8(&mut out, self.index);
        proof {
            assert(out@ =~= self.spec_bytes());
        }
        out
    }

    pub fn try_from_slice(data: &[u8]) -> (r: Result<RewardInitialization, LedgerError>)
        ensures
            r is Ok <==> data@.len() == REWARD_INITIALIZATION_LEN,
            r is Ok ==> r->Ok_0.spec_bytes() == data@,
            r is Err ==> r->Err_0 == LedgerError::InvalidInstructionData,
    {
        if data.len() != REWARD_INITIALIZATION_LEN {
            return Err(LedgerError::InvalidInstructionData);
        }
        let index = data[0];
        let r = RewardInitialization { index };
        proof {
            assert(seq![r.index] =~= data@.subrange(0, 1));
            assert(data@ =~= r.spec_bytes());
        }
        Ok(r)
    }
}

/// A `RewardInitialization` read back from its own serialization is that same record: the reader
/// returns a record whose bytes are its input, and no two records share their bytes.
pub proof fn lemma_reward_initialization_round_trip(a: RewardInitialization, b: RewardInitialization)
    requires
        a.spec_bytes() == b.spec_bytes(),
    ensures
        a == b,
{
    assert(a.spec_bytes().subrange(0, 1) =~= seq![a.index]);
    assert(b.spec_bytes().subrange(0, 1) =~= seq![b.index]);
    assert(seq![a.index][0] == seq![b.index][0]);
}

/// The payload of a claim: the epoch claimed.
#[derive(Clone, Copy, Debug, PartialEq, Eq)]
pub struct RewardRedemption {
    pub index: u64,
}

/// The length of the serialized `RewardRedemption`.
pub const REWARD_REDEMPTION_LEN: usize = 8;

impl RewardRedemption {
    /// The serialized form: the fields in declared order, integers little-endian.
    pub open spec fn spec_bytes(&self) -> Seq<u8> {
        le_bytes(self.index)
    }

    pub fn to_bytes(&self) -> (r: Vec<u8>)
        ensures
            r@ == self.spec_bytes(),
            r@.len() == REWARD_REDEMPTION_LEN,
    {
        let mut out: Vec<u8> = Vec::new();
        push_u64(&mut out, self.index);
        proof {
            lemma_le_bytes_len(self.index);
            assert(out@ =~= self.spec_bytes());
        }
        out
    }

    pub fn try_from_slice(data: &[u8]) -> (r: Result<RewardRedemption, LedgerError>)
        ensures
            r is Ok <==> data@.len() == REWARD_REDEMPTION_LEN,
            r is Ok ==> r->Ok_0.spec_bytes() == data@,
            r is Err ==> r->Err_0 == LedgerError::InvalidInstructionData,
    {
        if data.len() != REWARD_REDEMPTION_LEN {
            return Err(LedgerError::InvalidInstructionData);
        }
        let index = read_u64(data, 0);
        let r = RewardRedemption { index };
        proof {
            lemma_le_bytes_len(r.index);
            assert(le_bytes(r.index) =~= data@.subrange(0, 8));
            assert(data@ =~= r.spec_bytes());
        }
        Ok(r)
    }
}

/// A `RewardRedemption` read back from its own serialization is that same record: the reader
/// returns a record whose bytes are its input, and no two records share their bytes.
pub proof fn lemma_reward_redemption_round_trip(a: RewardRedemption, b: RewardRedemption)
    requires
        a.spec_bytes() == b.spec_bytes(),
    ensures
        a == b,
{
    lemma_le_bytes_len(a.index);
    lemma_le_bytes_len(b.index);
    assert(a.spec_bytes().subrange(0, 8) =~= le_bytes(a.index));
    assert(b.spec_bytes().subrange(0, 8) =~= le_bytes(b.index));
    lemma_le_bytes_injective(a.index, b.index);
}

/// The payload that sets the power of a staking token.
#[derive(Clone, Copy, Debug, PartialEq, Eq)]
pub struct TokenDataUpdate {
    pub token_power: u64,
}

/// The length of the serialized `TokenDataUpdate`.
pub const TOKEN_DATA_UPDATE_LEN: usize = 8;

impl TokenDataUpdate {
    /// The serialized form: the fields in declared order, integers little-endian.
    pub open spec fn spec_bytes(&self) -> Seq<u8> {
        le_bytes(self.token_power)
    }

    pub fn to_bytes(&self) -> (r: Vec<u8>)
        ensures
            r@ == self.spec_bytes(),
            r@.len() == TOKEN_DATA_UPDATE_LEN,
    {
        let mut out: Vec<u8> = Vec::new();
        push_u64(&mut out, self.token_power);
        proof {
            lemma_le_bytes_len(self.token_power);
            assert(out@ =~= self.spec_bytes());
        }
        out
    }

    pub fn try_from_slice(data: &[u8]) -> (r: Result<TokenDataUpdate, LedgerError>)
        ensures
            r is Ok <==> data@.len() == TOKEN_DATA_UPDATE_LEN,
            r is Ok ==> r->Ok_0.spec_bytes() == data@,
            r is Err ==> r->Err_0 == LedgerError::InvalidInstructionData,
    {
        if data.len() != TOKEN_DATA_UPDATE_LEN {
            return Err(LedgerError::InvalidInstructionData);
        }
        let token_power = read_u64(data, 0);
        let r = TokenDataUpdate { token_power };
        proof {
            lemma_le_bytes_len(r.token_power);
            assert(le_bytes(r.token_power) =~= data@.subrange(0, 8));
            assert(data@ =~= r.spec_bytes());
        }
        Ok(r)
    }
}

/// A `TokenDataUpdate` read back from its own serialization is that same record: the reader
/// returns a record whose bytes are its input, and no two records share their bytes.
pub proof fn lemma_token_data_update_round_trip(a: TokenDataUpdate, b: TokenDataUpdate)
    requires
        a.spec_bytes() == b.spec_bytes(),
    ensures
        a == b,
{
    lemma_le_bytes_len(a.token_power);
    lemma_le_bytes_len(b.token_power);
    assert(a.spec_bytes().subrange(0, 8) =~= le_bytes(a.token_power));
    assert(b.spec_bytes().subrange(0, 8) =~= le_bytes(b.token_power));
    lemma_le_bytes_injective(a.token_power, b.token_power);
}

/// A request to the ledger: its operation and the operation's payload.
#[derive(Clone, Copy, Debug, PartialEq, Eq)]
pub enum Instruction {
    InitPool(PoolInitializationIns),
    AddReward(RewardAddition),
    Deposit,
    ClaimReward(RewardRedemption),
    WithdrawPrincipal,
    SetTokenWeight(TokenDataUpdate),
    RegisterCollection,
}

/// Reads a request: a leading byte selects the operation (1 to 7), the rest is its
/// payload. Deposit, withdrawal and collection registration read no payload.
pub fn decode_instruction(data: &[u8]) -> (r: Result<Instruction, LedgerError>)
    ensures
        data@.len() == 0 ==> r == Err::<Instruction, LedgerError>(LedgerError::InvalidInstructionData),
        data@.len() > 0 ==> {
            let tag = data@[0];
            let rest = data@.subrange(1, data@.len() as int);
            &&& (tag < 1 || tag > 7) ==> r == Err::<Instruction, LedgerError>(LedgerError::InvalidInstructionData)
            &&& tag == 1 ==> (r is Ok <==> rest.len() == POOL_INITIALIZATION_INS_LEN)
            &&& tag == 1 && r is Ok ==> r->Ok_0 is InitPool && r->Ok_0->InitPool_0.spec_bytes() == rest
            &&& tag == 2 ==> (r is Ok <==> rest.len() == REWARD_ADDITION_LEN)
            &&& tag == 2 && r is Ok ==> r->Ok_0 is AddReward && r->Ok_0->AddReward_0.spec_bytes() == rest
            &&& tag == 3 ==> r == Ok::<Instruction, LedgerError>(Instruction::Deposit)
            &&& tag == 4 ==> (r is Ok <==> rest.len() == REWARD_REDEMPTION_LEN)
            &&& tag == 4 && r is Ok ==> r->Ok_0 is ClaimReward && r->Ok_0->ClaimReward_0.spec_bytes() == rest
            &&& tag == 5 ==> r == Ok::<Instruction, LedgerError>(Instruction::WithdrawPrincipal)
            &&& tag == 6 ==> (r is Ok <==> rest.len() == TOKEN_DATA_UPDATE_LEN)
            &&& tag == 6 && r is Ok ==> r->Ok_0 is SetTokenWeight && r->Ok_0->SetTokenWeight_0.spec_bytes() == rest
            &&& tag == 7 ==> r == Ok::<Instruction, LedgerError>(Instruction::RegisterCollection)
            &&& r is Err ==> r->Err_0 == LedgerError::InvalidInstructionData
        },
{
    if data.len() == 0 {
        return Err(LedgerError::InvalidInstructionData);
    }
    let (head, rest) = data.split_at(1);
    let tag = head[0];
    if tag == 1 {
        Ok(Instruction::InitPool(PoolInitializationIns::try_from_slice(rest)?))
    } else if tag == 2 {
        Ok(Instruction::AddReward(RewardAddition::try_from_slice(rest)?))
    } else if tag == 3 {
        Ok(Instruction::Deposit)
    } else if tag == 4 {
        Ok(Instruction::ClaimReward(RewardRedemption::try_from_slice(rest)?))
    } else if tag == 5 {
        Ok(Instruction::WithdrawPrincipal)
    } else if tag == 6 {
        Ok(Instruction::SetTokenWeight(TokenDataUpdate::try_from_slice(rest)?))
    } else if tag == 7 {
        Ok(Instruction::RegisterCollection)
    } else {
        Err(LedgerError::InvalidInstructionData)
    }
}

} // verus!
