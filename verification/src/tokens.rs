//! Tokens, chain addresses, and the hardcoded decimals lookup.

use vstd::prelude::*;
use vstd::string::StringExecFns;
use crate::text::str_eq;

verus! {

/// A 20-byte chain address, held as plain bytes.
#[derive(Clone, Copy, Debug)]
pub struct ChainAddress {
    pub bytes: [u8; 20],
}

/// The mathematical content of a `Token`.
#[verifier::ext_equal]
pub struct TokenModel {
    pub symbol: Seq<char>,
    pub address: Seq<u8>,
    pub decimals: u32,
}

/// One asset: its symbol, its chain address, and its decimal count. Immutable
/// once loaded; the decimal count is known a priori, never looked up on chain.
#[derive(Debug)]
pub struct Token {
    pub symbol: String,
    pub address: ChainAddress,
    pub decimals: u32,
}

impl View for Token {
    type V = TokenModel;

    open spec fn view(&self) -> TokenModel {
        TokenModel {
            symbol: self.symbol@,
            address: self.address.bytes@,
            decimals: self.decimals,
        }
    }
}

impl DeepView for Token {
    type V = TokenModel;

    open spec fn deep_view(&self) -> TokenModel {
        self.view()
    }
}

impl Clone for Token {
    fn clone(&self) -> (r: Token)
        ensures
            r@ == self@,
    {
        let r = Token {
            symbol: self.symbol.clone(),
            address: self.address,
            decimals: self.decimals,
        };
        proof {
            assert(r@ =~= self@);
        }
        r
    }
}

/// The hardcoded decimals table: the monitored assets carry 18 decimals, the
/// reference stablecoin 6; every other symbol is unknown.
pub open spec fn spec_decimals_for_symbol(symbol: Seq<char>) -> Option<u32> {
    if symbol == "WETH"@ || symbol == "WMATIC"@ || symbol == "DAI"@ {
        Some(18u32)
    } else if symbol == "USDC"@ {
        Some(6u32)
    } else {
        None
    }
}

/// Looks a symbol up in the hardcoded decimals table.
pub fn decimals_for_symbol(symbol: &str) -> (r: Option<u32>)
    ensures
        r == spec_decimals_for_symbol(symbol@),
{
    if str_eq(symbol, "WETH") || str_eq(symbol, "WMATIC") || str_eq(symbol, "DAI") {
        Some(18)
    } else if str_eq(symbol, "USDC") {
        Some(6)
    } else {
        None
    }
}

/// The mathematical content of a `ConfigError`.
#[verifier::ext_equal]
pub enum ConfigErrorModel {
    UnknownTokenDecimals { symbol: Seq<char> },
}

/// A fatal startup configuration fault. The process reports it and exits
/// before any network or store activity.
#[derive(Debug)]
pub enum ConfigError {
    /// A monitored symbol has no entry in the hardcoded decimals table.
    UnknownTokenDecimals { symbol: String },
}

impl View for ConfigError {
    type V = ConfigErrorModel;

    open spec fn view(&self) -> ConfigErrorModel {
        match self {
            ConfigError::UnknownTokenDecimals { symbol } => ConfigErrorModel::UnknownTokenDecimals {
                symbol: symbol@,
            },
        }
    }
}

impl ConfigError {
    /// A human-readable description of the fault.
    pub fn message(&self) -> (r: String)
        ensures
            self@ matches ConfigErrorModel::UnknownTokenDecimals { symbol } ==> r@ == "decimals for token "@
                + symbol + " are not defined"@,
    {
        match self {
            ConfigError::UnknownTokenDecimals { symbol } => String::from_str(
                "decimals for token ",
            ).concat(symbol.as_str()).concat(" are not defined"),
        }
    }
}

/// Builds a monitored token from its symbol and address: succeeds exactly
/// when the symbol has a hardcoded decimals entry, and fails with the
/// configuration error naming the symbol otherwise.
pub fn build_token(symbol: String, address: ChainAddress) -> (r: Result<Token, ConfigError>)
    ensures
        r is Ok <==> spec_decimals_for_symbol(symbol@) is Some,
        r matches Ok(t) ==> t@ == (TokenModel {
            symbol: symbol@,
            address: address.bytes@,
            decimals: spec_decimals_for_symbol(symbol@)->Some_0,
        }),
        r matches Err(e) ==> e@ == (ConfigErrorModel::UnknownTokenDecimals { symbol: symbol@ }),
{
    match decimals_for_symbol(symbol.as_str()) {
        Some(d) => Ok(Token { symbol, address, decimals: d }),
        None => Err(ConfigError::UnknownTokenDecimals { symbol }),
    }
}

} // verus!
