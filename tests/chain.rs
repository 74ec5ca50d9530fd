use ghost_cli::chain::{chain_column, listed_chain_name, Chain};

#[test]
fn chain_ids() {
    assert_eq!(Chain::EthMainnet.chain_id(), 1);
    assert_eq!(Chain::EthSepolia.chain_id(), 11155111);
    assert_eq!(Chain::BaseMainnet.chain_id(), 8453);
    assert_eq!(Chain::BaseSepolia.chain_id(), 84532);
    assert_eq!(Chain::BeraTestnet.chain_id(), 80069);
    assert_eq!(Chain::BlastMainnet.chain_id(), 81457);
    assert_eq!(Chain::AbstractTestnet.chain_id(), 11124);
    assert_eq!(Chain::UniTestnet.chain_id(), 1301);
}

#[test]
fn options_list() {
    assert_eq!(
        Chain::options(),
        vec!["ethereum", "sepolia", "base", "base-testnet", "bera", "blast", "abstract", "uni-testnet"]
    );
}

#[test]
fn default_is_mainnet() {
    assert_eq!(Chain::default(), Chain::EthMainnet);
}

#[test]
fn try_from_known_and_unknown_ids() {
    assert_eq!(Chain::try_from(8453), Ok(Chain::BaseMainnet));
    assert_eq!(Chain::try_from(1301), Ok(Chain::UniTestnet));
    assert_eq!(Chain::try_from(42), Err("Unsupported chain id: 42".to_string()));
    assert_eq!(Chain::try_from(0), Err("Unsupported chain id: 0".to_string()));
}

#[test]
fn parse_by_id() {
    assert_eq!("84532".parse::<Chain>(), Ok(Chain::BaseSepolia));
    assert_eq!(Chain::from_name_or_id("+1"), Ok(Chain::EthMainnet));
    assert_eq!(Chain::from_name_or_id("137"), Err("Unsupported chain id: 137".to_string()));
}

#[test]
fn parse_by_name_in_any_case() {
    assert_eq!(Chain::from_name_or_id("ETH"), Ok(Chain::EthMainnet));
    assert_eq!(Chain::from_name_or_id("Base-Testnet"), Ok(Chain::BaseSepolia));
    assert_eq!(Chain::from_name_or_id("blast-mainnet"), Ok(Chain::BlastMainnet));
    assert_eq!(Chain::from_name_or_id("Abstract"), Ok(Chain::AbstractTestnet));
    assert_eq!(Chain::from_name_or_id("bera"), Ok(Chain::BeraTestnet));
    assert_eq!(Chain::from_name_or_id("sepolia"), Ok(Chain::EthSepolia));
    assert_eq!(Chain::from_name_or_id("uni-testnet"), Ok(Chain::UniTestnet));
}

#[test]
fn parse_unknown_name() {
    assert_eq!(
        Chain::from_name_or_id("Polygon"),
        Err("Unsupported chain name: Polygon. Valid options are: ethereum, sepolia, base, base-testnet, bera, blast, abstract, uni-testnet".to_string())
    );
    assert!(Chain::from_name_or_id("").is_err());
    assert!(Chain::from_name_or_id("99999999999999999999").is_err());
}

#[test]
fn lowercase_name_lookup() {
    assert_eq!(Chain::from_lowercase_name(&"base".to_string()), Some(Chain::BaseMainnet));
    assert_eq!(Chain::from_lowercase_name(&"BASE".to_string()), None);
}

#[test]
fn listing_chain_names() {
    assert_eq!(listed_chain_name(80094), "bera");
    assert_eq!(listed_chain_name(10143), "monad_testnet");
    assert_eq!(listed_chain_name(5), "Unknown");
    assert_eq!(chain_column(8453), "base (8453)");
    assert_eq!(chain_column(7), "Unknown (7)");
}
