//! Where the Uniswap V3 factory puts the pool of two tokens and a fee.
//!
//! The address of a pool follows from the factory, the two tokens in
//! their order, the fee and the hash of the pool's code. It is the low 20
//! bytes of a hash over these.

use vstd::prelude::*;
use crate::address::{Address, address_below, address_lt, uniswap_factory_address, uniswap_factory_bytes};
use crate::pool::{PoolError, fee_tier, uniswap_fee_amount};

verus! {

/// The Keccak-256 hash of some bytes.
pub uninterp spec fn keccak_of(data: Seq<u8>) -> Seq<u8>;

/// `ethers::utils::keccak256`. Believed of it: the same bytes always give
/// the same 32 bytes.
#[verifier::external_body]
fn keccak256(data: &[u8]) -> (r: [u8; 32])
    ensures
        r@ == keccak_of(data@),
{
    ethers::utils::keccak256(data)
}

/// The hash of the code of a Uniswap V3 pool.
pub open spec fn init_code_hash_bytes() -> Seq<u8> {
    seq![
        0xe3u8, 0x4f, 0x19, 0x9b, 0x19, 0xb2, 0xb4, 0xf4, 0x7f, 0x68, 0x44, 0x26, 0x19, 0xd5, 0x55,
        0x52, 0x7d, 0x24, 0x4f, 0x78, 0xa3, 0x29, 0x7e, 0xa8, 0x93, 0x25, 0xf8, 0x43, 0xf8, 0x7b,
        0x8b, 0x54,
    ]
}

/// The hash of the code of a Uniswap V3 pool.
pub fn pool_init_code_hash() -> (r: [u8; 32])
    ensures
        r@ == init_code_hash_bytes(),
{
    let r: [u8; 32] = [
        0xe3, 0x4f, 0x19, 0x9b, 0x19, 0xb2, 0xb4, 0xf4, 0x7f, 0x68, 0x44, 0x26, 0x19, 0xd5, 0x55,
        0x52, 0x7d, 0x24, 0x4f, 0x78, 0xa3, 0x29, 0x7e, 0xa8, 0x93, 0x25, 0xf8, 0x43, 0xf8, 0x7b,
        0x8b, 0x54,
    ];
    assert(r@ =~= init_code_hash_bytes());
    r
}

/// So many zero bytes.
pub open spec fn zeros(n: nat) -> Seq<u8> {
    Seq::new(n, |i: int| 0u8)
}

/// The four bytes of a number, highest first.
pub open spec fn be4(x: u32) -> Seq<u8> {
    seq![
        (x / 16777216) as u8,
        ((x / 65536) % 256) as u8,
        ((x / 256) % 256) as u8,
        (x % 256) as u8,
    ]
}

/// What is hashed for the salt of a pool: the two tokens and the fee, each
/// filled up with zeros at the front to 32 bytes.
pub open spec fn salt_input(token0: Seq<u8>, token1: Seq<u8>, fee: u32) -> Seq<u8> {
    zeros(12) + token0 + zeros(12) + token1 + zeros(28) + be4(fee)
}

/// The address that a creator gives to code of a known hash under a salt:
/// the low 20 bytes of the hash of a mark, the creator, the salt and the
/// hash of the code.
pub open spec fn created_address(creator: Seq<u8>, salt: Seq<u8>, code_hash: Seq<u8>) -> Seq<u8> {
    keccak_of(seq![0xffu8] + creator + salt + code_hash).skip(12)
}

/// The two tokens, the smaller address first.
pub open spec fn in_order(a: Seq<u8>, b: Seq<u8>) -> (Seq<u8>, Seq<u8>) {
    if address_below(b, a) {
        (b, a)
    } else {
        (a, b)
    }
}

/// The address of the Uniswap V3 pool of two tokens and a fee.
pub open spec fn pool_address_of(token_a: Seq<u8>, token_b: Seq<u8>, fee: u32) -> Seq<u8> {
    let (token0, token1) = in_order(token_a, token_b);
    created_address(
        uniswap_factory_bytes(),
        keccak_of(salt_input(token0, token1, fee)),
        init_code_hash_bytes(),
    )
}

fn push_zeros(v: &mut Vec<u8>, n: usize)
    ensures
        final(v)@ == old(v)@ + zeros(n as nat),
{
    let ghost before = v@;
    let mut i: usize = 0;
    assert(v@ =~= before + zeros(0));
    while i < n
        invariant
            i <= n,
            v@ == before + zeros(i as nat),
        decreases n - i,
    {
        v.push(0);
        i = i + 1;
        assert(v@ =~= before + zeros(i as nat));
    }
}

/// The address that a creator gives to code of a known hash under a salt.
pub fn create2_address(creator: &Address, salt: &[u8; 32], code_hash: &[u8; 32]) -> (r: Address)
    ensures
        r@ == created_address(creator@, salt@, code_hash@),
{
    let mut input: Vec<u8> = Vec::new();
    input.push(0xff);
    input.extend_from_slice(creator.as_slice());
    input.extend_from_slice(salt.as_slice());
    input.extend_from_slice(code_hash.as_slice());
    assert(input@ =~= seq![0xffu8] + creator@ + salt@ + code_hash@);
    let hash: [u8; 32] = keccak256(input.as_slice());
    let mut r: Address = [0u8; 20];
    let mut i: usize = 0;
    while i < 20
        invariant
            i <= 20,
            forall|j: int| 0 <= j < i ==> r@[j] == hash@[12 + j],
        decreases 20 - i,
    {
        r[i] = hash[12 + i];
        i = i + 1;
    }
    assert(r@ =~= hash@.skip(12));
    r
}

/// The address of the Uniswap V3 pool of two tokens and a fee. There is
/// one only where the fee is a fee tier.
pub fn uniswap_pool_address(token_a: &Address, token_b: &Address, fee: u32) -> (r: Result<
    Address,
    PoolError,
>)
    ensures
        r is Ok <==> fee_tier(fee) is Some,
        r matches Ok(a) ==> a@ == pool_address_of(token_a@, token_b@, fee),
        r matches Err(e) ==> e == PoolError::InvalidFeeAmount,
{
    match uniswap_fee_amount(fee) {
        Ok(_) => {},
        Err(e) => {
            return Err(e);
        },
    }
    let (token0, token1) = if address_lt(token_b, token_a) {
        (token_b, token_a)
    } else {
        (token_a, token_b)
    };
    let mut input: Vec<u8> = Vec::new();
    push_zeros(&mut input, 12);
    input.extend_from_slice(token0.as_slice());
    push_zeros(&mut input, 12);
    input.extend_from_slice(token1.as_slice());
    push_zeros(&mut input, 28);
    input.push((fee / 16777216) as u8);
    input.push(((fee / 65536) % 256) as u8);
    input.push(((fee / 256) % 256) as u8);
    input.push((fee % 256) as u8);
    assert(input@ =~= salt_input(token0@, token1@, fee));
    let salt: [u8; 32] = keccak256(input.as_slice());
    Ok(create2_address(&uniswap_factory_address(), &salt, &pool_init_code_hash()))
}

} // verus!
