use arbiscan::address::{
    address_lt, camelot_quoter_address, camelot_router_address, camelot_weth_usdc_pool_address,
    is_weth, pancake_quoter_address, pancake_router_address, pancake_weth_usdc_pool_address,
    parse_address, parse_prefixed_address, quoter_address, reference_pool_address,
    router_address, same_address, uniswap_factory_address, uniswap_quoter_address,
    uniswap_router_address, uniswap_weth_usdc_pool_address, weth_address, Venue,
    CAMELOT_V3_QUOTER_ADDRESS, CAMELOT_V3_SWAP_ROUTER_ADDRESS, CAMELOT_WETH_USDC_POOL, CHAIN_ID,
    PANCAKESWAP_V3_QUOTER_ADDRESS, PANCAKESWAP_V3_SWAP_ROUTER_ADDRESS, PANCAKESWAP_WETH_USDC_POOL,
    UNISWAP_V3_FACTORY_ADDRESS, UNISWAP_V3_QUOTER_ADDRESS, UNISWAP_V3_SWAP_ROUTER_ADDRESS,
    UNISWAP_WETH_USDC_POOL, WETH_ADDRESS,
};
use arbiscan::hexcodec::decode;

fn from_text(text: &str) -> [u8; 20] {
    let digits = text.strip_prefix("0x").unwrap_or(text);
    let v = hex::decode(digits).unwrap();
    let mut a = [0u8; 20];
    a.copy_from_slice(&v);
    a
}

#[test]
fn chain() {
    assert_eq!(CHAIN_ID, 42161);
}

#[test]
fn weth_bytes_exact() {
    assert_eq!(WETH_ADDRESS, "82aF49447D8a07e3bd95BD0d56f35241523fBab1");
    assert_eq!(
        weth_address(),
        [
            0x82, 0xaf, 0x49, 0x44, 0x7d, 0x8a, 0x07, 0xe3, 0xbd, 0x95, 0xbd, 0x0d, 0x56, 0xf3,
            0x52, 0x41, 0x52, 0x3f, 0xba, 0xb1
        ]
    );
}

#[test]
fn constants_are_what_their_text_spells() {
    assert_eq!(weth_address(), from_text(WETH_ADDRESS));
    assert_eq!(uniswap_factory_address(), from_text(UNISWAP_V3_FACTORY_ADDRESS));
    assert_eq!(uniswap_router_address(), from_text(UNISWAP_V3_SWAP_ROUTER_ADDRESS));
    assert_eq!(pancake_router_address(), from_text(PANCAKESWAP_V3_SWAP_ROUTER_ADDRESS));
    assert_eq!(camelot_router_address(), from_text(CAMELOT_V3_SWAP_ROUTER_ADDRESS));
    assert_eq!(uniswap_quoter_address(), from_text(UNISWAP_V3_QUOTER_ADDRESS));
    assert_eq!(pancake_quoter_address(), from_text(PANCAKESWAP_V3_QUOTER_ADDRESS));
    assert_eq!(camelot_quoter_address(), from_text(CAMELOT_V3_QUOTER_ADDRESS));
    assert_eq!(uniswap_weth_usdc_pool_address(), from_text(UNISWAP_WETH_USDC_POOL));
    assert_eq!(pancake_weth_usdc_pool_address(), from_text(PANCAKESWAP_WETH_USDC_POOL));
    assert_eq!(camelot_weth_usdc_pool_address(), from_text(CAMELOT_WETH_USDC_POOL));
}

#[test]
fn constants_text() {
    assert_eq!(UNISWAP_V3_FACTORY_ADDRESS, "0x1F98431c8aD98523631AE4a59f267346ea31F984");
    assert_eq!(UNISWAP_V3_SWAP_ROUTER_ADDRESS, "0xE592427A0AEce92De3Edee1F18E0157C05861564");
    assert_eq!(PANCAKESWAP_V3_SWAP_ROUTER_ADDRESS, "0x1b81D678ffb9C0263b24A97847620C99d213eB14");
    assert_eq!(CAMELOT_V3_SWAP_ROUTER_ADDRESS, "0x1F721E2E82F6676FCE4eA07A5958cF098D339e18");
    assert_eq!(UNISWAP_V3_QUOTER_ADDRESS, "0xb27308f9F90D607463bb33eA1BeBb41C27CE5AB6");
    assert_eq!(PANCAKESWAP_V3_QUOTER_ADDRESS, "0xB048Bbc1Ee6b733FFfCFb9e9CeF7375518e25997");
    assert_eq!(CAMELOT_V3_QUOTER_ADDRESS, "0x0Fc73040b26E9bC8514fA028D998E73A254Fa76E");
    assert_eq!(UNISWAP_WETH_USDC_POOL, "0xC6962004f452bE9203591991D15f6b388e09E8D0");
    assert_eq!(PANCAKESWAP_WETH_USDC_POOL, "0x7fcdc35463e3770c2fb992716cd070b63540b947");
    assert_eq!(CAMELOT_WETH_USDC_POOL, "0xb1026b8e7276e7ac75410f1fcbbe21796e8f7526");
}

#[test]
fn addresses_by_venue() {
    assert_eq!(router_address(Venue::Uniswap), uniswap_router_address());
    assert_eq!(router_address(Venue::PancakeSwap), pancake_router_address());
    assert_eq!(router_address(Venue::Camelot), camelot_router_address());
    assert_eq!(quoter_address(Venue::Uniswap), uniswap_quoter_address());
    assert_eq!(quoter_address(Venue::PancakeSwap), pancake_quoter_address());
    assert_eq!(quoter_address(Venue::Camelot), camelot_quoter_address());
    assert_eq!(reference_pool_address(Venue::Uniswap), uniswap_weth_usdc_pool_address());
    assert_eq!(reference_pool_address(Venue::PancakeSwap), pancake_weth_usdc_pool_address());
    assert_eq!(reference_pool_address(Venue::Camelot), camelot_weth_usdc_pool_address());
}

#[test]
fn hex_decoding() {
    assert_eq!(decode(b"6b697769"), Some(b"kiwi".to_vec()));
    assert_eq!(decode(b"0aF9"), Some(vec![0x0a, 0xf9]));
    assert_eq!(decode(b""), Some(vec![]));
    assert_eq!(decode(b"abc"), None);
    assert_eq!(decode(b"zz"), None);
    assert_eq!(decode(b"0x12"), None);
    assert_eq!(decode(b"1g"), None);
    assert_eq!(decode(b" 1"), None);
}

#[test]
fn address_parsing() {
    assert_eq!(parse_address(WETH_ADDRESS.as_bytes()), Some(weth_address()));
    assert_eq!(
        parse_address(b"82af49447d8a07e3bd95bd0d56f35241523fbab1"),
        Some(weth_address())
    );
    assert_eq!(parse_address(b"82af49447d8a07e3bd95bd0d56f35241523fbab"), None);
    assert_eq!(parse_address(b"82af49447d8a07e3bd95bd0d56f35241523fbab1aa"), None);
    assert_eq!(parse_address(b"82af49447d8a07e3bd95bd0d56f35241523fbabg"), None);
    assert_eq!(parse_address(b""), None);
    assert_eq!(
        parse_prefixed_address(b"0x82af49447d8a07e3bd95bd0d56f35241523fbab1"),
        Some(weth_address())
    );
    assert_eq!(parse_prefixed_address(b"82af49447d8a07e3bd95bd0d56f35241523fbab1"), None);
    assert_eq!(parse_prefixed_address(b"0x"), None);
    assert_eq!(parse_prefixed_address(b""), None);
}

#[test]
fn weth_is_told_apart() {
    assert!(is_weth(&weth_address()));
    assert!(!is_weth(&uniswap_router_address()));
    assert!(!is_weth(&[0u8; 20]));
    let mut almost = weth_address();
    almost[19] ^= 1;
    assert!(!is_weth(&almost));
}

#[test]
fn address_order() {
    let low = [0u8; 20];
    let mut mid = [0u8; 20];
    mid[19] = 1;
    let mut high = [0u8; 20];
    high[0] = 1;
    assert!(address_lt(&low, &mid));
    assert!(address_lt(&mid, &high));
    assert!(address_lt(&low, &high));
    assert!(!address_lt(&mid, &low));
    assert!(!address_lt(&high, &mid));
    assert!(!address_lt(&mid, &mid));
    let mut a = [9u8; 20];
    let mut b = [9u8; 20];
    a[5] = 1;
    b[5] = 2;
    a[6] = 200;
    b[6] = 0;
    assert!(address_lt(&a, &b));
    assert!(!address_lt(&b, &a));
    assert_eq!(address_lt(&a, &b), a < b);
    assert!(same_address(&a, &a));
    assert!(!same_address(&a, &b));
}
