//! Addresses of the contracts that the scanner deals with.

use vstd::prelude::*;
use vstd::slice::slice_subrange;
use vstd::pervasive::unreached;
use vstd::string::{is_ascii, StringSliceAdditionalSpecFns};
use crate::hexcodec::{decode, hex_decoded, is_hex_text};

verus! {

/// Identifier of the chain that all the contracts live on.
pub const CHAIN_ID: u64 = 42161;

/// A 20-byte account or contract address.
pub type Address = [u8; 20];

/// The text spells an address: 40 hexadecimal digits.
pub open spec fn is_address_text(t: Seq<u8>) -> bool {
    t.len() == 40 && is_hex_text(t)
}

/// Reads an address from 40 hexadecimal digits. `None` for any other text.
pub fn parse_address(text: &[u8]) -> (r: Option<Address>)
    ensures
        r is Some <==> is_address_text(text@),
        r matches Some(a) ==> a@ == hex_decoded(text@),
{
    if text.len() != 40 {
        return None;
    }
    match decode(text) {
        None => None,
        Some(v) => {
            let mut a: Address = [0u8; 20];
            let mut i: usize = 0;
            while i < 20
                invariant
                    i <= 20,
                    v@.len() == 20,
                    forall|j: int| 0 <= j < i ==> a@[j] == v@[j],
                decreases 20 - i,
            {
                a[i] = v[i];
                i = i + 1;
            }
            assert(a@ =~= v@);
            Some(a)
        },
    }
}

/// Reads an address from text of 42 characters, of which the first two
/// (the `0x` mark) are passed over. `None` for any other text.
pub fn parse_prefixed_address(text: &[u8]) -> (r: Option<Address>)
    ensures
        r is Some <==> text@.len() == 42 && is_address_text(text@.subrange(2, 42)),
        r matches Some(a) ==> a@ == hex_decoded(text@.subrange(2, 42)),
{
    if text.len() != 42 {
        return None;
    }
    parse_address(slice_subrange(text, 2, 42))
}

/// The bytes of a text of plain characters are its characters.
proof fn lemma_text_bytes(s: &str)
    requires
        is_ascii(s),
    ensures
        s.spec_bytes().len() == s@.len(),
        forall|i: int| 0 <= i < s@.len() ==> #[trigger] s.spec_bytes()[i] == s@[i] as u8,
{
    vstd::string::is_ascii_spec_bytes(s);
}

/// The wrapped native token, the common leg of every pair.
pub const WETH_ADDRESS: &'static str = "82aF49447D8a07e3bd95BD0d56f35241523fBab1";

/// The bytes that [`WETH_ADDRESS`] spells.
pub open spec fn weth_bytes() -> Seq<u8> {
    seq![0x82u8, 0xaf, 0x49, 0x44, 0x7d, 0x8a, 0x07, 0xe3, 0xbd, 0x95, 0xbd, 0x0d, 0x56, 0xf3, 0x52, 0x41, 0x52, 0x3f, 0xba, 0xb1]
}

/// The wrapped native token, the common leg of every pair.
pub fn weth_address() -> (a: Address)
    ensures
        a@ == weth_bytes(),
{
    let text: &str = "82aF49447D8a07e3bd95BD0d56f35241523fBab1";
    proof {
        reveal_strlit("82aF49447D8a07e3bd95BD0d56f35241523fBab1");
        lemma_text_bytes(text);
    }
    let bytes: &[u8] = text.as_bytes();
    match parse_address(bytes) {
        Some(a) => {
            assert(a@ =~= weth_bytes());
            a
        },
        None => unreached(),
    }
}

/// The Uniswap V3 swap router.
pub const UNISWAP_V3_SWAP_ROUTER_ADDRESS: &'static str = "0xE592427A0AEce92De3Edee1F18E0157C05861564";

/// The bytes that [`UNISWAP_V3_SWAP_ROUTER_ADDRESS`] spells.
pub open spec fn uniswap_router_bytes() -> Seq<u8> {
    seq![0xe5u8, 0x92, 0x42, 0x7a, 0x0a, 0xec, 0xe9, 0x2d, 0xe3, 0xed, 0xee, 0x1f, 0x18, 0xe0, 0x15, 0x7c, 0x05, 0x86, 0x15, 0x64]
}

/// The Uniswap V3 swap router.
pub fn uniswap_router_address() -> (a: Address)
    ensures
        a@ == uniswap_router_bytes(),
{
    let text: &str = "0xE592427A0AEce92De3Edee1F18E0157C05861564";
    proof {
        reveal_strlit("0xE592427A0AEce92De3Edee1F18E0157C05861564");
        lemma_text_bytes(text);
    }
    let bytes: &[u8] = text.as_bytes();
    match parse_prefixed_address(bytes) {
        Some(a) => {
            assert(a@ =~= uniswap_router_bytes());
            a
        },
        None => unreached(),
    }
}


/// The Uniswap V3 pool factory.
pub const UNISWAP_V3_FACTORY_ADDRESS: &'static str = "0x1F98431c8aD98523631AE4a59f267346ea31F984";

/// The bytes that [`UNISWAP_V3_FACTORY_ADDRESS`] spells.
pub open spec fn uniswap_factory_bytes() -> Seq<u8> {
    seq![0x1fu8, 0x98, 0x43, 0x1c, 0x8a, 0xd9, 0x85, 0x23, 0x63, 0x1a, 0xe4, 0xa5, 0x9f, 0x26, 0x73, 0x46, 0xea, 0x31, 0xf9, 0x84]
}

/// The Uniswap V3 pool factory.
pub fn uniswap_factory_address() -> (a: Address)
    ensures
        a@ == uniswap_factory_bytes(),
{
    let text: &str = "0x1F98431c8aD98523631AE4a59f267346ea31F984";
    proof {
        reveal_strlit("0x1F98431c8aD98523631AE4a59f267346ea31F984");
        lemma_text_bytes(text);
    }
    let bytes: &[u8] = text.as_bytes();
    match parse_prefixed_address(bytes) {
        Some(a) => {
            assert(a@ =~= uniswap_factory_bytes());
            a
        },
        None => unreached(),
    }
}

/// The PancakeSwap V3 swap router.
pub const PANCAKESWAP_V3_SWAP_ROUTER_ADDRESS: &'static str = "0x1b81D678ffb9C0263b24A97847620C99d213eB14";

/// The bytes that [`PANCAKESWAP_V3_SWAP_ROUTER_ADDRESS`] spells.
pub open spec fn pancake_router_bytes() -> Seq<u8> {
    seq![0x1bu8, 0x81, 0xd6, 0x78, 0xff, 0xb9, 0xc0, 0x26, 0x3b, 0x24, 0xa9, 0x78, 0x47, 0x62, 0x0c, 0x99, 0xd2, 0x13, 0xeb, 0x14]
}

/// The PancakeSwap V3 swap router.
pub fn pancake_router_address() -> (a: Address)
    ensures
        a@ == pancake_router_bytes(),
{
    let text: &str = "0x1b81D678ffb9C0263b24A97847620C99d213eB14";
    proof {
        reveal_strlit("0x1b81D678ffb9C0263b24A97847620C99d213eB14");
        lemma_text_bytes(text);
    }
    let bytes: &[u8] = text.as_bytes();
    match parse_prefixed_address(bytes) {
        Some(a) => {
            assert(a@ =~= pancake_router_bytes());
            a
        },
        None => unreached(),
    }
}

/// The Camelot V3 swap router.
pub const CAMELOT_V3_SWAP_ROUTER_ADDRESS: &'static str = "0x1F721E2E82F6676FCE4eA07A5958cF098D339e18";

/// The bytes that [`CAMELOT_V3_SWAP_ROUTER_ADDRESS`] spells.
pub open spec fn camelot_router_bytes() -> Seq<u8> {
    seq![0x1fu8, 0x72, 0x1e, 0x2e, 0x82, 0xf6, 0x67, 0x6f, 0xce, 0x4e, 0xa0, 0x7a, 0x59, 0x58, 0xcf, 0x09, 0x8d, 0x33, 0x9e, 0x18]
}

/// The Camelot V3 swap router.
pub fn camelot_router_address() -> (a: Address)
    ensures
        a@ == camelot_router_bytes(),
{
    let text: &str = "0x1F721E2E82F6676FCE4eA07A5958cF098D339e18";
    proof {
        reveal_strlit("0x1F721E2E82F6676FCE4eA07A5958cF098D339e18");
        lemma_text_bytes(text);
    }
    let bytes: &[u8] = text.as_bytes();
    match parse_prefixed_address(bytes) {
        Some(a) => {
            assert(a@ =~= camelot_router_bytes());
            a
        },
        None => unreached(),
    }
}

/// The Uniswap V3 quoter.
pub const UNISWAP_V3_QUOTER_ADDRESS: &'static str = "0xb27308f9F90D607463bb33eA1BeBb41C27CE5AB6";

/// The bytes that [`UNISWAP_V3_QUOTER_ADDRESS`] spells.
pub open spec fn uniswap_quoter_bytes() -> Seq<u8> {
    seq![0xb2u8, 0x73, 0x08, 0xf9, 0xf9, 0x0d, 0x60, 0x74, 0x63, 0xbb, 0x33, 0xea, 0x1b, 0xeb, 0xb4, 0x1c, 0x27, 0xce, 0x5a, 0xb6]
}

/// The Uniswap V3 quoter.
pub fn uniswap_quoter_address() -> (a: Address)
    ensures
        a@ == uniswap_quoter_bytes(),
{
    let text: &str = "0xb27308f9F90D607463bb33eA1BeBb41C27CE5AB6";
    proof {
        reveal_strlit("0xb27308f9F90D607463bb33eA1BeBb41C27CE5AB6");
        lemma_text_bytes(text);
    }
    let bytes: &[u8] = text.as_bytes();
    match parse_prefixed_address(bytes) {
        Some(a) => {
            assert(a@ =~= uniswap_quoter_bytes());
            a
        },
        None => unreached(),
    }
}

/// The PancakeSwap V3 quoter.
pub const PANCAKESWAP_V3_QUOTER_ADDRESS: &'static str = "0xB048Bbc1Ee6b733FFfCFb9e9CeF7375518e25997";

/// The bytes that [`PANCAKESWAP_V3_QUOTER_ADDRESS`] spells.
pub open spec fn pancake_quoter_bytes() -> Seq<u8> {
    seq![0xb0u8, 0x48, 0xbb, 0xc1, 0xee, 0x6b, 0x73, 0x3f, 0xff, 0xcf, 0xb9, 0xe9, 0xce, 0xf7, 0x37, 0x55, 0x18, 0xe2, 0x59, 0x97]
}

/// The PancakeSwap V3 quoter.
pub fn pancake_quoter_address() -> (a: Address)
    ensures
        a@ == pancake_quoter_bytes(),
{
    let text: &str = "0xB048Bbc1Ee6b733FFfCFb9e9CeF7375518e25997";
    proof {
        reveal_strlit("0xB048Bbc1Ee6b733FFfCFb9e9CeF7375518e25997");
        lemma_text_bytes(text);
    }
    let bytes: &[u8] = text.as_bytes();
    match parse_prefixed_address(bytes) {
        Some(a) => {
            assert(a@ =~= pancake_quoter_bytes());
            a
        },
        None => unreached(),
    }
}

/// The Camelot V3 quoter.
pub const CAMELOT_V3_QUOTER_ADDRESS: &'static str = "0x0Fc73040b26E9bC8514fA028D998E73A254Fa76E";

/// The bytes that [`CAMELOT_V3_QUOTER_ADDRESS`] spells.
pub open spec fn camelot_quoter_bytes() -> Seq<u8> {
    seq![0x0fu8, 0xc7, 0x30, 0x40, 0xb2, 0x6e, 0x9b, 0xc8, 0x51, 0x4f, 0xa0, 0x28, 0xd9, 0x98, 0xe7, 0x3a, 0x25, 0x4f, 0xa7, 0x6e]
}

/// The Camelot V3 quoter.
pub fn camelot_quoter_address() -> (a: Address)
    ensures
        a@ == camelot_quoter_bytes(),
{
    let text: &str = "0x0Fc73040b26E9bC8514fA028D998E73A254Fa76E";
    proof {
        reveal_strlit("0x0Fc73040b26E9bC8514fA028D998E73A254Fa76E");
        lemma_text_bytes(text);
    }
    let bytes: &[u8] = text.as_bytes();
    match parse_prefixed_address(bytes) {
        Some(a) => {
            assert(a@ =~= camelot_quoter_bytes());
            a
        },
        None => unreached(),
    }
}

/// The Uniswap V3 pool that prices WETH in USDC.
pub const UNISWAP_WETH_USDC_POOL: &'static str = "0xC6962004f452bE9203591991D15f6b388e09E8D0";

/// The bytes that [`UNISWAP_WETH_USDC_POOL`] spells.
pub open spec fn uniswap_weth_usdc_pool_bytes() -> Seq<u8> {
    seq![0xc6u8, 0x96, 0x20, 0x04, 0xf4, 0x52, 0xbe, 0x92, 0x03, 0x59, 0x19, 0x91, 0xd1, 0x5f, 0x6b, 0x38, 0x8e, 0x09, 0xe8, 0xd0]
}

/// The Uniswap V3 pool that prices WETH in USDC.
pub fn uniswap_weth_usdc_pool_address() -> (a: Address)
    ensures
        a@ == uniswap_weth_usdc_pool_bytes(),
{
    let text: &str = "0xC6962004f452bE9203591991D15f6b388e09E8D0";
    proof {
        reveal_strlit("0xC6962004f452bE9203591991D15f6b388e09E8D0");
        lemma_text_bytes(text);
    }
    let bytes: &[u8] = text.as_bytes();
    match parse_prefixed_address(bytes) {
        Some(a) => {
            assert(a@ =~= uniswap_weth_usdc_pool_bytes());
            a
        },
        None => unreached(),
    }
}

/// The PancakeSwap V3 pool that prices WETH in USDC.
pub const PANCAKESWAP_WETH_USDC_POOL: &'static str = "0x7fcdc35463e3770c2fb992716cd070b63540b947";

/// The bytes that [`PANCAKESWAP_WETH_USDC_POOL`] spells.
pub open spec fn pancake_weth_usdc_pool_bytes() -> Seq<u8> {
    seq![0x7fu8, 0xcd, 0xc3, 0x54, 0x63, 0xe3, 0x77, 0x0c, 0x2f, 0xb9, 0x92, 0x71, 0x6c, 0xd0, 0x70, 0xb6, 0x35, 0x40, 0xb9, 0x47]
}

/// The PancakeSwap V3 pool that prices WETH in USDC.
pub fn pancake_weth_usdc_pool_address() -> (a: Address)
    ensures
        a@ == pancake_weth_usdc_pool_bytes(),
{
    let text: &str = "0x7fcdc35463e3770c2fb992716cd070b63540b947";
    proof {
        reveal_strlit("0x7fcdc35463e3770c2fb992716cd070b63540b947");
        lemma_text_bytes(text);
    }
    let bytes: &[u8] = text.as_bytes();
    match parse_prefixed_address(bytes) {
        Some(a) => {
            assert(a@ =~= pancake_weth_usdc_pool_bytes());
            a
        },
        None => unreached(),
    }
}

/// The Camelot V3 pool that prices WETH in USDC.
pub const CAMELOT_WETH_USDC_POOL: &'static str = "0xb1026b8e7276e7ac75410f1fcbbe21796e8f7526";

/// The bytes that [`CAMELOT_WETH_USDC_POOL`] spells.
pub open spec fn camelot_weth_usdc_pool_bytes() -> Seq<u8> {
    seq![0xb1u8, 0x02, 0x6b, 0x8e, 0x72, 0x76, 0xe7, 0xac, 0x75, 0x41, 0x0f, 0x1f, 0xcb, 0xbe, 0x21, 0x79, 0x6e, 0x8f, 0x75, 0x26]
}

/// The Camelot V3 pool that prices WETH in USDC.
pub fn camelot_weth_usdc_pool_address() -> (a: Address)
    ensures
        a@ == camelot_weth_usdc_pool_bytes(),
{
    let text: &str = "0xb1026b8e7276e7ac75410f1fcbbe21796e8f7526";
    proof {
        reveal_strlit("0xb1026b8e7276e7ac75410f1fcbbe21796e8f7526");
        lemma_text_bytes(text);
    }
    let bytes: &[u8] = text.as_bytes();
    match parse_prefixed_address(bytes) {
        Some(a) => {
            assert(a@ =~= camelot_weth_usdc_pool_bytes());
            a
        },
        None => unreached(),
    }
}


/// One of the three exchanges.
#[derive(Clone, Copy, Debug, PartialEq, Eq, Structural)]
pub enum Venue {
    Camelot,
    PancakeSwap,
    Uniswap,
}

/// The swap router of a venue.
pub open spec fn router_bytes(venue: Venue) -> Seq<u8> {
    match venue {
        Venue::Camelot => camelot_router_bytes(),
        Venue::PancakeSwap => pancake_router_bytes(),
        Venue::Uniswap => uniswap_router_bytes(),
    }
}

/// The quoter of a venue.
pub open spec fn quoter_bytes(venue: Venue) -> Seq<u8> {
    match venue {
        Venue::Camelot => camelot_quoter_bytes(),
        Venue::PancakeSwap => pancake_quoter_bytes(),
        Venue::Uniswap => uniswap_quoter_bytes(),
    }
}

/// The pool of a venue that prices WETH in USDC.
pub open spec fn reference_pool_bytes(venue: Venue) -> Seq<u8> {
    match venue {
        Venue::Camelot => camelot_weth_usdc_pool_bytes(),
        Venue::PancakeSwap => pancake_weth_usdc_pool_bytes(),
        Venue::Uniswap => uniswap_weth_usdc_pool_bytes(),
    }
}

/// The swap router of a venue.
pub fn router_address(venue: Venue) -> (a: Address)
    ensures
        a@ == router_bytes(venue),
{
    match venue {
        Venue::Camelot => camelot_router_address(),
        Venue::PancakeSwap => pancake_router_address(),
        Venue::Uniswap => uniswap_router_address(),
    }
}

/// The quoter of a venue.
pub fn quoter_address(venue: Venue) -> (a: Address)
    ensures
        a@ == quoter_bytes(venue),
{
    match venue {
        Venue::Camelot => camelot_quoter_address(),
        Venue::PancakeSwap => pancake_quoter_address(),
        Venue::Uniswap => uniswap_quoter_address(),
    }
}

/// The pool of a venue that prices WETH in USDC.
pub fn reference_pool_address(venue: Venue) -> (a: Address)
    ensures
        a@ == reference_pool_bytes(venue),
{
    match venue {
        Venue::Camelot => camelot_weth_usdc_pool_address(),
        Venue::PancakeSwap => pancake_weth_usdc_pool_address(),
        Venue::Uniswap => uniswap_weth_usdc_pool_address(),
    }
}

/// Two addresses hold the same bytes.
pub fn same_address(a: &Address, b: &Address) -> (r: bool)
    ensures
        r == (a@ == b@),
{
    let mut i: usize = 0;
    while i < 20
        invariant
            i <= 20,
            forall|j: int| 0 <= j < i ==> a@[j] == b@[j],
        decreases 20 - i,
    {
        if a[i] != b[i] {
            return false;
        }
        i = i + 1;
    }
    assert(a@ =~= b@);
    true
}

/// The token is WETH.
pub fn is_weth(token: &Address) -> (r: bool)
    ensures
        r == (token@ == weth_bytes()),
{
    let weth: Address = weth_address();
    same_address(token, &weth)
}

/// `a` stands before `b` when both are read as numbers, highest byte first.
pub open spec fn address_below(a: Seq<u8>, b: Seq<u8>) -> bool {
    exists|i: int|
        0 <= i < 20 && #[trigger] a[i] < b[i] && forall|j: int| 0 <= j < i ==> a[j] == b[j]
}

/// `a < b`, addresses read as numbers with the highest byte first.
pub fn address_lt(a: &Address, b: &Address) -> (r: bool)
    ensures
        r == address_below(a@, b@),
{
    let mut i: usize = 0;
    while i < 20
        invariant
            i <= 20,
            forall|j: int| 0 <= j < i ==> a@[j] == b@[j],
        decreases 20 - i,
    {
        if a[i] < b[i] {
            return true;
        }
        if a[i] > b[i] {
            assert forall|k: int| 0 <= k < 20 && #[trigger] a@[k] < b@[k] implies !(forall|j: int|
                0 <= j < k ==> a@[j] == b@[j]) by {
                if k < i {
                } else if k > i {
                    assert(a@[i as int] != b@[i as int]);
                }
            }
            return false;
        }
        i = i + 1;
    }
    false
}

} // verus!
