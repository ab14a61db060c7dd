//! The immutable run configuration, built once at startup.

use vstd::prelude::*;
use crate::amounts::{FixedDecimal, MAX_AMOUNT_UNITS, MAX_DECIMALS};
use crate::tokens::{build_token, spec_decimals_for_symbol, ChainAddress, ConfigError,
    ConfigErrorModel, Token, TokenModel};

verus! {

/// The mathematical content of a `Config`.
#[verifier::ext_equal]
pub struct ConfigModel {
    pub tokens: Seq<TokenModel>,
    pub reference: TokenModel,
    pub trade_units: u128,
    pub min_profit: FixedDecimal,
    pub source_a_name: Seq<char>,
    pub source_b_name: Seq<char>,
}

impl ConfigModel {
    /// Well-formedness: the trade size and the threshold are denominated in
    /// the reference asset, and both stay within the supported ranges.
    pub open spec fn wf(self) -> bool {
        &&& self.reference.decimals <= MAX_DECIMALS
        &&& self.trade_units <= MAX_AMOUNT_UNITS
        &&& self.min_profit.scale == self.reference.decimals
    }
}

/// Everything the poll loop needs, loaded once at startup and immutable for
/// the process lifetime: the monitored tokens in their configured order, the
/// reference token, the trade size and minimum-profit threshold (both in the
/// reference asset), and the display names of the two price sources.
#[derive(Debug)]
pub struct Config {
    pub tokens: Vec<Token>,
    pub reference: Token,
    pub trade_units: u128,
    pub min_profit: FixedDecimal,
    pub source_a_name: String,
    pub source_b_name: String,
}

impl Config {
    /// Checks the well-formedness the monitor's functions require, so an
    /// unverified caller can test it before entering the poll loop.
    pub fn is_well_formed(&self) -> (r: bool)
        ensures
            r == self@.wf(),
    {
        self.reference.decimals <= MAX_DECIMALS && self.trade_units <= MAX_AMOUNT_UNITS
            && self.min_profit.scale == self.reference.decimals
    }
}

impl View for Config {
    type V = ConfigModel;

    open spec fn view(&self) -> ConfigModel {
        ConfigModel {
            tokens: self.tokens.deep_view(),
            reference: self.reference@,
            trade_units: self.trade_units,
            min_profit: self.min_profit,
            source_a_name: self.source_a_name@,
            source_b_name: self.source_b_name@,
        }
    }
}

/// Builds the monitored token list from `(symbol, address)` entries, in their
/// configured order. Succeeds exactly when every symbol has a hardcoded
/// decimals entry; the first unknown symbol fails the whole load with the
/// configuration error naming it, so the process stops before any network or
/// store activity.
pub fn load_tokens(entries: &Vec<(String, ChainAddress)>) -> (r: Result<Vec<Token>, ConfigError>)
    ensures
        r is Ok <==> (forall|i: int|
            0 <= i < entries@.len() ==> spec_decimals_for_symbol(
                #[trigger] entries@[i].0@,
            ) is Some),
        r matches Ok(ts) ==> ts.deep_view().len() == entries@.len() && (forall|i: int|
            0 <= i < entries@.len() ==> #[trigger] ts.deep_view()[i] == (TokenModel {
                symbol: entries@[i].0@,
                address: entries@[i].1.bytes@,
                decimals: spec_decimals_for_symbol(entries@[i].0@)->Some_0,
            })),
        r matches Err(e) ==> exists|i: int|
            0 <= i < entries@.len() && spec_decimals_for_symbol(#[trigger] entries@[i].0@) is None
                && (forall|j: int|
                0 <= j < i ==> spec_decimals_for_symbol(#[trigger] entries@[j].0@) is Some) && e@
                == (ConfigErrorModel::UnknownTokenDecimals { symbol: entries@[i].0@ }),
{
    let mut out: Vec<Token> = Vec::new();
    let mut i: usize = 0;
    while i < entries.len()
        invariant
            i <= entries@.len(),
            out.deep_view().len() == i,
            forall|j: int|
                0 <= j < i ==> spec_decimals_for_symbol(#[trigger] entries@[j].0@) is Some,
            forall|j: int|
                0 <= j < i ==> #[trigger] out.deep_view()[j] == (TokenModel {
                    symbol: entries@[j].0@,
                    address: entries@[j].1.bytes@,
                    decimals: spec_decimals_for_symbol(entries@[j].0@)->Some_0,
                }),
        decreases entries@.len() - i,
    {
        let symbol = entries[i].0.clone();
        let address = entries[i].1;
        match build_token(symbol, address) {
            Ok(t) => {
                let ghost before = out.deep_view();
                let ghost tm = t@;
                out.push(t);
                proof {
                    assert forall|j: int| 0 <= j < i + 1 implies #[trigger] out.deep_view()[j]
                        == (TokenModel {
                        symbol: entries@[j].0@,
                        address: entries@[j].1.bytes@,
                        decimals: spec_decimals_for_symbol(entries@[j].0@)->Some_0,
                    }) by {
                        if j < i {
                            assert(out.deep_view()[j] == before[j]);
                        } else {
                            assert(out.deep_view()[j] == tm);
                        }
                    }
                }
            },
            Err(e) => {
                return Err(e);
            },
        }
        i = i + 1;
    }
    Ok(out)
}

} // verus!
