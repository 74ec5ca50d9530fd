//! The chains a graph can be created on, their ids and their names.
use vstd::prelude::*;
use vstd::string::*;

use crate::text::{
    decimal_text, join_comma, joined, lowercase_of, parse_u64, parsed_u64, same_text,
    to_lowercase, u64_text,
};

verus! {

pub const CHAIN_ETH: u64 = 1;
pub const CHAIN_BASE: u64 = 8453;
pub const CHAIN_BASE_TESTNET: u64 = 84532;
pub const CHAIN_BLAST: u64 = 81457;
pub const CHAIN_BERA_MAINNET: u64 = 80094;
pub const CHAIN_BERA_TESTNET: u64 = 80069;
pub const CHAIN_ABS_TESTNET: u64 = 11124;
pub const CHAIN_ABS_MAINNET: u64 = 2741;
pub const CHAIN_ETH_SEPOLIA: u64 = 11155111;
pub const CHAIN_UNI_TESTNET: u64 = 1301;
pub const CHAIN_UNI_MAINNET: u64 = 130;
pub const CHAIN_MONAD_TESTNET: u64 = 10143;

/// A chain on which a graph can be created.
#[derive(Copy, Clone, Debug, PartialEq, Eq, Structural)]
pub enum Chain {
    EthMainnet,
    EthSepolia,
    BaseMainnet,
    BaseSepolia,
    BeraTestnet,
    BlastMainnet,
    AbstractTestnet,
    UniTestnet,
}

/// The chain id of each supported chain.
pub open spec fn id_of(c: Chain) -> u64 {
    match c {
        Chain::EthMainnet => CHAIN_ETH,
        Chain::EthSepolia => CHAIN_ETH_SEPOLIA,
        Chain::BaseMainnet => CHAIN_BASE,
        Chain::BaseSepolia => CHAIN_BASE_TESTNET,
        Chain::BeraTestnet => CHAIN_BERA_TESTNET,
        Chain::BlastMainnet => CHAIN_BLAST,
        Chain::AbstractTestnet => CHAIN_ABS_TESTNET,
        Chain::UniTestnet => CHAIN_UNI_TESTNET,
    }
}

/// The supported chain with chain id `id`, if any.
pub open spec fn chain_with_id(id: u64) -> Option<Chain> {
    if id == CHAIN_ETH {
        Some(Chain::EthMainnet)
    } else if id == CHAIN_ETH_SEPOLIA {
        Some(Chain::EthSepolia)
    } else if id == CHAIN_BASE {
        Some(Chain::BaseMainnet)
    } else if id == CHAIN_BASE_TESTNET {
        Some(Chain::BaseSepolia)
    } else if id == CHAIN_BERA_TESTNET {
        Some(Chain::BeraTestnet)
    } else if id == CHAIN_BLAST {
        Some(Chain::BlastMainnet)
    } else if id == CHAIN_ABS_TESTNET {
        Some(Chain::AbstractTestnet)
    } else if id == CHAIN_UNI_TESTNET {
        Some(Chain::UniTestnet)
    } else {
        None
    }
}

/// The supported chain that a lowercase name or alias denotes, if any.
pub open spec fn chain_named(n: Seq<char>) -> Option<Chain> {
    if n == "eth-mainnet"@ || n == "ethereum"@ || n == "eth"@ {
        Some(Chain::EthMainnet)
    } else if n == "eth-sepolia"@ || n == "sepolia"@ {
        Some(Chain::EthSepolia)
    } else if n == "base-mainnet"@ || n == "base"@ {
        Some(Chain::BaseMainnet)
    } else if n == "base-sepolia"@ || n == "base-testnet"@ {
        Some(Chain::BaseSepolia)
    } else if n == "bera-testnet"@ || n == "bera"@ {
        Some(Chain::BeraTestnet)
    } else if n == "blast-mainnet"@ || n == "blast"@ {
        Some(Chain::BlastMainnet)
    } else if n == "abstract-testnet"@ || n == "abstract"@ {
        Some(Chain::AbstractTestnet)
    } else if n == "uni-testnet"@ {
        Some(Chain::UniTestnet)
    } else {
        None
    }
}

/// The chain names offered to users, in order.
pub open spec fn option_names() -> Seq<Seq<char>> {
    seq![
        "ethereum"@,
        "sepolia"@,
        "base"@,
        "base-testnet"@,
        "bera"@,
        "blast"@,
        "abstract"@,
        "uni-testnet"@,
    ]
}

/// The message for an unsupported chain id.
pub open spec fn unknown_id_message(id: u64) -> Seq<char> {
    "Unsupported chain id: "@ + decimal_text(id as nat)
}

/// The message for an unsupported chain name.
pub open spec fn unknown_name_message(s: Seq<char>) -> Seq<char> {
    "Unsupported chain name: "@ + s + ". Valid options are: "@ + joined(option_names())
}

/// `r` is `Ok(c)` when `found` is `Some(c)`, else an error with message `err`.
pub open spec fn lookup_result(r: Result<Chain, String>, found: Option<Chain>, err: Seq<char>) -> bool {
    match found {
        Some(c) => r == Ok::<Chain, String>(c),
        None => r is Err && r->Err_0@ == err,
    }
}

/// What parsing `s` as a chain gives: a decimal chain id is looked up by id,
/// anything else by its lowercase form among the names and aliases.
pub open spec fn parse_result(r: Result<Chain, String>, s: Seq<char>) -> bool {
    match parsed_u64(s) {
        Some(id) => lookup_result(r, chain_with_id(id), unknown_id_message(id)),
        None => lookup_result(r, chain_named(lowercase_of(s)), unknown_name_message(s)),
    }
}

impl Chain {
    /// The chain's numeric id.
    pub fn chain_id(&self) -> (r: u64)
        ensures
            r == id_of(*self),
    {
        match self {
            Chain::EthMainnet => CHAIN_ETH,
            Chain::EthSepolia => CHAIN_ETH_SEPOLIA,
            Chain::BaseMainnet => CHAIN_BASE,
            Chain::BaseSepolia => CHAIN_BASE_TESTNET,
            Chain::BeraTestnet => CHAIN_BERA_TESTNET,
            Chain::BlastMainnet => CHAIN_BLAST,
            Chain::AbstractTestnet => CHAIN_ABS_TESTNET,
            Chain::UniTestnet => CHAIN_UNI_TESTNET,
        }
    }

    /// The chain names offered to users.
    pub fn options() -> (r: Vec<&'static str>)
        ensures
            r@.map_values(|s: &str| s@) == option_names(),
    {
        let r = vec![
            "ethereum",
            "sepolia",
            "base",
            "base-testnet",
            "bera",
            "blast",
            "abstract",
            "uni-testnet",
        ];
        assert(r@.map_values(|s: &str| s@) =~= option_names());
        r
    }

    /// The supported chain with the given id, or an error naming the id.
    pub fn try_from(value: u64) -> (r: Result<Chain, String>)
        ensures
            lookup_result(r, chain_with_id(value), unknown_id_message(value)),
    {
        if value == CHAIN_ETH {
            Ok(Chain::EthMainnet)
        } else if value == CHAIN_ETH_SEPOLIA {
            Ok(Chain::EthSepolia)
        } else if value == CHAIN_BASE {
            Ok(Chain::BaseMainnet)
        } else if value == CHAIN_BASE_TESTNET {
            Ok(Chain::BaseSepolia)
        } else if value == CHAIN_BERA_TESTNET {
            Ok(Chain::BeraTestnet)
        } else if value == CHAIN_BLAST {
            Ok(Chain::BlastMainnet)
        } else if value == CHAIN_ABS_TESTNET {
            Ok(Chain::AbstractTestnet)
        } else if value == CHAIN_UNI_TESTNET {
            Ok(Chain::UniTestnet)
        } else {
            let mut msg = String::from_str("Unsupported chain id: ");
            let digits = u64_text(value);
            msg.append(digits.as_str());
            Err(msg)
        }
    }

    /// The supported chain that an already lowercased name or alias denotes.
    pub fn from_lowercase_name(name: &String) -> (r: Option<Chain>)
        ensures
            r == chain_named(name@),
    {
        if same_text(name, "eth-mainnet") || same_text(name, "ethereum") || same_text(name, "eth") {
            Some(Chain::EthMainnet)
        } else if same_text(name, "eth-sepolia") || same_text(name, "sepolia") {
            Some(Chain::EthSepolia)
        } else if same_text(name, "base-mainnet") || same_text(name, "base") {
            Some(Chain::BaseMainnet)
        } else if same_text(name, "base-sepolia") || same_text(name, "base-testnet") {
            Some(Chain::BaseSepolia)
        } else if same_text(name, "bera-testnet") || same_text(name, "bera") {
            Some(Chain::BeraTestnet)
        } else if same_text(name, "blast-mainnet") || same_text(name, "blast") {
            Some(Chain::BlastMainnet)
        } else if same_text(name, "abstract-testnet") || same_text(name, "abstract") {
            Some(Chain::AbstractTestnet)
        } else if same_text(name, "uni-testnet") {
            Some(Chain::UniTestnet)
        } else {
            None
        }
    }

    /// Parses a chain from a decimal chain id, or else from a name or alias
    /// in any letter case.
    pub fn from_name_or_id(s: &str) -> (r: Result<Chain, String>)
        ensures
            parse_result(r, s@),
    {
        match parse_u64(s) {
            Some(id) => Chain::try_from(id),
            None => {
                let lower = to_lowercase(s);
                match Chain::from_lowercase_name(&lower) {
                    Some(c) => Ok(c),
                    None => {
                        let mut msg = String::from_str("Unsupported chain name: ");
                        msg.append(s);
                        msg.append(". Valid options are: ");
                        let names = join_comma(&Chain::options());
                        msg.append(names.as_str());
                        Err(msg)
                    },
                }
            },
        }
    }
}

impl Default for Chain {
    fn default() -> (r: Chain)
        ensures
            r == Chain::EthMainnet,
    {
        Chain::EthMainnet
    }
}

impl std::str::FromStr for Chain {
    type Err = String;

    fn from_str(s: &str) -> Result<Chain, String> {
        Chain::from_name_or_id(s)
    }
}

/// The short name shown for a chain id in graph listings, `Unknown` for an
/// id without one.
pub open spec fn listed_name(id: u64) -> Seq<char> {
    if id == CHAIN_ETH {
        "eth"@
    } else if id == CHAIN_ETH_SEPOLIA {
        "eth_testnet"@
    } else if id == CHAIN_BASE {
        "base"@
    } else if id == CHAIN_BASE_TESTNET {
        "base_testnet"@
    } else if id == CHAIN_BERA_TESTNET {
        "bera_testnet"@
    } else if id == CHAIN_BERA_MAINNET {
        "bera"@
    } else if id == CHAIN_BLAST {
        "blast"@
    } else if id == CHAIN_ABS_TESTNET {
        "abs_testnet"@
    } else if id == CHAIN_ABS_MAINNET {
        "abstract"@
    } else if id == CHAIN_UNI_TESTNET {
        "uni_testnet"@
    } else if id == CHAIN_UNI_MAINNET {
        "unichain"@
    } else if id == CHAIN_MONAD_TESTNET {
        "monad_testnet"@
    } else {
        "Unknown"@
    }
}

/// The short name of a chain id as shown in graph listings.
pub fn listed_chain_name(id: u64) -> (r: &'static str)
    ensures
        r@ == listed_name(id),
{
    if id == CHAIN_ETH {
        "eth"
    } else if id == CHAIN_ETH_SEPOLIA {
        "eth_testnet"
    } else if id == CHAIN_BASE {
        "base"
    } else if id == CHAIN_BASE_TESTNET {
        "base_testnet"
    } else if id == CHAIN_BERA_TESTNET {
        "bera_testnet"
    } else if id == CHAIN_BERA_MAINNET {
        "bera"
    } else if id == CHAIN_BLAST {
        "blast"
    } else if id == CHAIN_ABS_TESTNET {
        "abs_testnet"
    } else if id == CHAIN_ABS_MAINNET {
        "abstract"
    } else if id == CHAIN_UNI_TESTNET {
        "uni_testnet"
    } else if id == CHAIN_UNI_MAINNET {
        "unichain"
    } else if id == CHAIN_MONAD_TESTNET {
        "monad_testnet"
    } else {
        "Unknown"
    }
}

/// The chain column of a graph listing: the short name, then the id in
/// parentheses.
pub fn chain_column(id: u64) -> (r: String)
    ensures
        r@ == listed_name(id) + " ("@ + decimal_text(id as nat) + ")"@,
{
    let mut r = String::from_str(listed_chain_name(id));
    r.append(" (");
    let digits = u64_text(id);
    r.append(digits.as_str());
    r.append(")");
    r
}

} // verus!
