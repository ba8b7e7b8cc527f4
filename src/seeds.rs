use vstd::prelude::*;
use crate::address::{
    Address, decimal_digits, decimal_text, derived_view, program_address_of, seeds_view,
    try_find_program_address,
};

verus! {

fn id_bytes(id: &[u8; 16]) -> (r: Vec<u8>)
    ensures
        r@ == id@,
{
    let mut r: Vec<u8> = Vec::new();
    let mut i: usize = 0;
    while i < 16
        invariant
            0 <= i <= 16,
            r@ == id@.subrange(0, i as int),
        decreases 16 - i,
    {
        r.push(id[i]);
        i = i + 1;
    }
    assert(r@ =~= id@);
    r
}

/// The tag `pool` that leads the seeds of these records.
pub open spec fn pool_tag() -> Seq<u8> {
    seq![112, 111, 111, 108]
}

fn pool_tag_bytes() -> (r: Vec<u8>)
    ensures
        r@ == pool_tag(),
{
    let r: Vec<u8> = vec![112, 111, 111, 108];
    assert(r@ =~= pool_tag());
    r
}

/// The tag `payroll` that leads the seeds of these records.
pub open spec fn payroll_tag() -> Seq<u8> {
    seq![112, 97, 121, 114, 111, 108, 108]
}

fn payroll_tag_bytes() -> (r: Vec<u8>)
    ensures
        r@ == payroll_tag(),
{
    let r: Vec<u8> = vec![112, 97, 121, 114, 111, 108, 108];
    assert(r@ =~= payroll_tag());
    r
}

/// The tag `payrolltoken` that leads the seeds of these records.
pub open spec fn payroll_token_tag() -> Seq<u8> {
    seq![112, 97, 121, 114, 111, 108, 108, 116, 111, 107, 101, 110]
}

fn payroll_token_tag_bytes() -> (r: Vec<u8>)
    ensures
        r@ == payroll_token_tag(),
{
    let r: Vec<u8> = vec![112, 97, 121, 114, 111, 108, 108, 116, 111, 107, 101, 110];
    assert(r@ =~= payroll_token_tag());
    r
}

/// The tag `payrollindex` that leads the seeds of these records.
pub open spec fn payroll_index_tag() -> Seq<u8> {
    seq![112, 97, 121, 114, 111, 108, 108, 105, 110, 100, 101, 120]
}

fn payroll_index_tag_bytes() -> (r: Vec<u8>)
    ensures
        r@ == payroll_index_tag(),
{
    let r: Vec<u8> = vec![112, 97, 121, 114, 111, 108, 108, 105, 110, 100, 101, 120];
    assert(r@ =~= payroll_index_tag());
    r
}

/// The tag `staking` that leads the seeds of these records.
pub open spec fn staking_tag() -> Seq<u8> {
    seq![115, 116, 97, 107, 105, 110, 103]
}

fn staking_tag_bytes() -> (r: Vec<u8>)
    ensures
        r@ == staking_tag(),
{
    let r: Vec<u8> = vec![115, 116, 97, 107, 105, 110, 103];
    assert(r@ =~= staking_tag());
    r
}

/// The tag `stakingpayroll` that leads the seeds of these records.
pub open spec fn staking_payroll_tag() -> Seq<u8> {
    seq![115, 116, 97, 107, 105, 110, 103, 112, 97, 121, 114, 111, 108, 108]
}

fn staking_payroll_tag_bytes() -> (r: Vec<u8>)
    ensures
        r@ == staking_payroll_tag(),
{
    let r: Vec<u8> = vec![115, 116, 97, 107, 105, 110, 103, 112, 97, 121, 114, 111, 108, 108];
    assert(r@ =~= staking_payroll_tag());
    r
}

/// The tag `tokendata` that leads the seeds of these records.
pub open spec fn token_data_tag() -> Seq<u8> {
    seq![116, 111, 107, 101, 110, 100, 97, 116, 97]
}

fn token_data_tag_bytes() -> (r: Vec<u8>)
    ensures
        r@ == token_data_tag(),
{
    let r: Vec<u8> = vec![116, 111, 107, 101, 110, 100, 97, 116, 97];
    assert(r@ =~= token_data_tag());
    r
}

/// The tag `collectiondata` that leads the seeds of these records.
pub open spec fn collection_data_tag() -> Seq<u8> {
    seq![99, 111, 108, 108, 101, 99, 116, 105, 111, 110, 100, 97, 116, 97]
}

fn collection_data_tag_bytes() -> (r: Vec<u8>)
    ensures
        r@ == collection_data_tag(),
{
    let r: Vec<u8> = vec![99, 111, 108, 108, 101, 99, 116, 105, 111, 110, 100, 97, 116, 97];
    assert(r@ =~= collection_data_tag());
    r
}

/// The seeds of a pool, from its 16-byte id.
pub open spec fn pool_seeds(id: [u8; 16]) -> Seq<Seq<u8>> {
    seq![id@, pool_tag()]
}

/// The seeds of a pool, from its 16-byte id, as the derivation and a signature take them.
pub fn pool_seed_list(id: &[u8; 16]) -> (r: Vec<Vec<u8>>)
    ensures
        seeds_view(r@) == pool_seeds(*id),
{
    let mut seeds: Vec<Vec<u8>> = Vec::new();
    seeds.push(id_bytes(id));
    seeds.push(pool_tag_bytes());
    assert(seeds_view(seeds@) =~= pool_seeds(*id));
    seeds
}

/// The address and bump seed of a pool, from its 16-byte id.
pub fn pool_address(program_id: &Address, id: &[u8; 16]) -> (r: Option<(Address, u8)>)
    ensures
        derived_view(r) == program_address_of(pool_seeds(*id), program_id@),
{
    let seeds = pool_seed_list(id);
    try_find_program_address(&seeds, program_id)
}

/// The seeds of the epoch record `index` of a pool.
pub open spec fn payroll_seeds(pool: Address, index: u64) -> Seq<Seq<u8>> {
    seq![payroll_tag(), decimal_digits(index as nat), pool@]
}

/// The seeds of the epoch record `index` of a pool, as the derivation and a signature take them.
pub fn payroll_seed_list(pool: &Address, index: u64) -> (r: Vec<Vec<u8>>)
    ensures
        seeds_view(r@) == payroll_seeds(*pool, index),
{
    let mut seeds: Vec<Vec<u8>> = Vec::new();
    seeds.push(payroll_tag_bytes());
    seeds.push(decimal_text(index));
    seeds.push(pool.bytes_vec());
    assert(seeds_view(seeds@) =~= payroll_seeds(*pool, index));
    seeds
}

/// The address and bump seed of the epoch record `index` of a pool.
pub fn payroll_address(program_id: &Address, pool: &Address, index: u64) -> (r: Option<(Address, u8)>)
    ensures
        derived_view(r) == program_address_of(payroll_seeds(*pool, index), program_id@),
{
    let seeds = payroll_seed_list(pool, index);
    try_find_program_address(&seeds, program_id)
}

/// The seeds of the reward sub-ledger of token `mint` in epoch record `payroll` of index `index`.
pub open spec fn payroll_token_seeds(payroll: Address, mint: Address, index: u64) -> Seq<Seq<u8>> {
    seq![payroll_token_tag(), decimal_digits(index as nat), mint@, payroll@]
}

/// The seeds of the reward sub-ledger of token `mint` in epoch record `payroll` of index `index`, as the derivation and a signature take them.
pub fn payroll_token_seed_list(payroll: &Address, mint: &Address, index: u64) -> (r: Vec<Vec<u8>>)
    ensures
        seeds_view(r@) == payroll_token_seeds(*payroll, *mint, index),
{
    let mut seeds: Vec<Vec<u8>> = Vec::new();
    seeds.push(payroll_token_tag_bytes());
    seeds.push(decimal_text(index));
    seeds.push(mint.bytes_vec());
    seeds.push(payroll.bytes_vec());
    assert(seeds_view(seeds@) =~= payroll_token_seeds(*payroll, *mint, index));
    seeds
}

/// The address and bump seed of the reward sub-ledger of token `mint` in epoch record `payroll` of index `index`.
pub fn payroll_token_address(program_id: &Address, payroll: &Address, mint: &Address, index: u64) -> (r: Option<(Address, u8)>)
    ensures
        derived_view(r) == program_address_of(payroll_token_seeds(*payroll, *mint, index), program_id@),
{
    let seeds = payroll_token_seed_list(payroll, mint, index);
    try_find_program_address(&seeds, program_id)
}

/// The seeds of the enumeration entry `number` of the reward tokens of an epoch record.
pub open spec fn payroll_index_seeds(payroll: Address, number: u64) -> Seq<Seq<u8>> {
    seq![payroll_index_tag(), decimal_digits(number as nat), payroll@]
}

/// The seeds of the enumeration entry `number` of the reward tokens of an epoch record, as the derivation and a signature take them.
pub fn payroll_index_seed_list(payroll: &Address, number: u64) -> (r: Vec<Vec<u8>>)
    ensures
        seeds_view(r@) == payroll_index_seeds(*payroll, number),
{
    let mut seeds: Vec<Vec<u8>> = Vec::new();
    seeds.push(payroll_index_tag_bytes());
    seeds.push(decimal_text(number));
    seeds.push(payroll.bytes_vec());
    assert(seeds_view(seeds@) =~= payroll_index_seeds(*payroll, number));
    seeds
}

/// The address and bump seed of the enumeration entry `number` of the reward tokens of an epoch record.
pub fn payroll_index_address(program_id: &Address, payroll: &Address, number: u64) -> (r: Option<(Address, u8)>)
    ensures
        derived_view(r) == program_address_of(payroll_index_seeds(*payroll, number), program_id@),
{
    let seeds = payroll_index_seed_list(payroll, number);
    try_find_program_address(&seeds, program_id)
}

/// The seeds of the position of `depositor` with token `mint` in a pool.
pub open spec fn staking_seeds(pool: Address, depositor: Address, mint: Address) -> Seq<Seq<u8>> {
    seq![staking_tag(), mint@, depositor@, pool@]
}

/// The seeds of the position of `depositor` with token `mint` in a pool, as the derivation and a signature take them.
pub fn staking_seed_list(pool: &Address, depositor: &Address, mint: &Address) -> (r: Vec<Vec<u8>>)
    ensures
        seeds_view(r@) == staking_seeds(*pool, *depositor, *mint),
{
    let mut seeds: Vec<Vec<u8>> = Vec::new();
    seeds.push(staking_tag_bytes());
    seeds.push(mint.bytes_vec());
    seeds.push(depositor.bytes_vec());
    seeds.push(pool.bytes_vec());
    assert(seeds_view(seeds@) =~= staking_seeds(*pool, *depositor, *mint));
    seeds
}

/// The address and bump seed of the position of `depositor` with token `mint` in a pool.
pub fn staking_address(program_id: &Address, pool: &Address, depositor: &Address, mint: &Address) -> (r: Option<(Address, u8)>)
    ensures
        derived_view(r) == program_address_of(staking_seeds(*pool, *depositor, *mint), program_id@),
{
    let seeds = staking_seed_list(pool, depositor, mint);
    try_find_program_address(&seeds, program_id)
}

/// The seeds of the claim receipt of a position for epoch `index`.
pub open spec fn staking_payroll_seeds(pool: Address, staking: Address, index: u64) -> Seq<Seq<u8>> {
    seq![staking_payroll_tag(), decimal_digits(index as nat), pool@, staking@]
}

/// The seeds of the claim receipt of a position for epoch `index`, as the derivation and a signature take them.
pub fn staking_payroll_seed_list(pool: &Address, staking: &Address, index: u64) -> (r: Vec<Vec<u8>>)
    ensures
        seeds_view(r@) == staking_payroll_seeds(*pool, *staking, index),
{
    let mut seeds: Vec<Vec<u8>> = Vec::new();
    seeds.push(staking_payroll_tag_bytes());
    seeds.push(decimal_text(index));
    seeds.push(pool.bytes_vec());
    seeds.push(staking.bytes_vec());
    assert(seeds_view(seeds@) =~= staking_payroll_seeds(*pool, *staking, index));
    seeds
}

/// The address and bump seed of the claim receipt of a position for epoch `index`.
pub fn staking_payroll_address(program_id: &Address, pool: &Address, staking: &Address, index: u64) -> (r: Option<(Address, u8)>)
    ensures
        derived_view(r) == program_address_of(staking_payroll_seeds(*pool, *staking, index), program_id@),
{
    let seeds = staking_payroll_seed_list(pool, staking, index);
    try_find_program_address(&seeds, program_id)
}

/// The seeds of the power record of a staking token.
pub open spec fn token_data_seeds(mint: Address) -> Seq<Seq<u8>> {
    seq![token_data_tag(), mint@]
}

/// The seeds of the power record of a staking token, as the derivation and a signature take them.
pub fn token_data_seed_list(mint: &Address) -> (r: Vec<Vec<u8>>)
    ensures
        seeds_view(r@) == token_data_seeds(*mint),
{
    let mut seeds: Vec<Vec<u8>> = Vec::new();
    seeds.push(token_data_tag_bytes());
    seeds.push(mint.bytes_vec());
    assert(seeds_view(seeds@) =~= token_data_seeds(*mint));
    seeds
}

/// The address and bump seed of the power record of a staking token.
pub fn token_data_address(program_id: &Address, mint: &Address) -> (r: Option<(Address, u8)>)
    ensures
        derived_view(r) == program_address_of(token_data_seeds(*mint), program_id@),
{
    let seeds = token_data_seed_list(mint);
    try_find_program_address(&seeds, program_id)
}

/// The seeds of the registry record of a collection.
pub open spec fn collection_data_seeds(mint: Address) -> Seq<Seq<u8>> {
    seq![collection_data_tag(), mint@]
}

/// The seeds of the registry record of a collection, as the derivation and a signature take them.
pub fn collection_data_seed_list(mint: &Address) -> (r: Vec<Vec<u8>>)
    ensures
        seeds_view(r@) == collection_data_seeds(*mint),
{
    let mut seeds: Vec<Vec<u8>> = Vec::new();
    seeds.push(collection_data_tag_bytes());
    seeds.push(mint.bytes_vec());
    assert(seeds_view(seeds@) =~= collection_data_seeds(*mint));
    seeds
}

/// The address and bump seed of the registry record of a collection.
pub fn collection_data_address(program_id: &Address, mint: &Address) -> (r: Option<(Address, u8)>)
    ensures
        derived_view(r) == program_address_of(collection_data_seeds(*mint), program_id@),
{
    let seeds = collection_data_seed_list(mint);
    try_find_program_address(&seeds, program_id)
}

} // verus!
