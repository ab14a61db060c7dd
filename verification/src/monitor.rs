//! The pair monitor: one round trip per direction, two directions per pair.
//!
//! A direction sells the reference asset for the token on its buy source and
//! sells the proceeds back on its sell source. The two outside quote calls of
//! a direction are performed by the caller; their outcomes come back in as a
//! `DirectionEvents` value, and everything decided from them is verified
//! here: a failed first leg skips the direction (a soft failure), a failed
//! second leg is fatal for the cycle, and a completed round trip yields one
//! Observation and, exactly when the profit strictly exceeds the threshold,
//! one Opportunity. Timestamps are not part of these records: the store
//! stamps rows at write time.

use vstd::prelude::*;
use crate::amounts::{normalize, FixedDecimal, MAX_AMOUNT_UNITS};
use crate::config::{Config, ConfigModel};
use crate::evaluator::{is_opportunity, spec_is_opportunity};
use crate::quotes::{QuoteFailure, QuoteFailureModel, QuoteRequest, SourceId};
use crate::text::{pair_label, spec_pair_label};
use crate::tokens::{Token, TokenModel};

verus! {

/// A trade direction: which source the round trip buys the token on. The
/// other source is where it sells the token back for the reference asset.
#[derive(Clone, Copy, PartialEq, Eq, Structural, Debug)]
pub enum Direction {
    BuyOnA,
    BuyOnB,
}

pub open spec fn spec_buy_source(dir: Direction) -> SourceId {
    match dir {
        Direction::BuyOnA => SourceId::A,
        Direction::BuyOnB => SourceId::B,
    }
}

pub open spec fn spec_sell_source(dir: Direction) -> SourceId {
    match dir {
        Direction::BuyOnA => SourceId::B,
        Direction::BuyOnB => SourceId::A,
    }
}

/// The source a direction buys the token on.
pub fn buy_source(dir: Direction) -> (s: SourceId)
    ensures
        s == spec_buy_source(dir),
{
    match dir {
        Direction::BuyOnA => SourceId::A,
        Direction::BuyOnB => SourceId::B,
    }
}

/// The source a direction sells the token back on.
pub fn sell_source(dir: Direction) -> (s: SourceId)
    ensures
        s == spec_sell_source(dir),
{
    match dir {
        Direction::BuyOnA => SourceId::B,
        Direction::BuyOnB => SourceId::A,
    }
}

pub open spec fn spec_source_name(cfg: ConfigModel, s: SourceId) -> Seq<char> {
    match s {
        SourceId::A => cfg.source_a_name,
        SourceId::B => cfg.source_b_name,
    }
}

/// The configured display name of a source.
pub fn source_name(cfg: &Config, s: SourceId) -> (r: String)
    ensures
        r@ == spec_source_name(cfg@, s),
{
    match s {
        SourceId::A => cfg.source_a_name.clone(),
        SourceId::B => cfg.source_b_name.clone(),
    }
}

/// The first leg of a direction: sell the configured trade amount of the
/// reference asset for the token, on the direction's buy source.
pub fn first_leg_request(cfg: &Config, token: &Token, dir: Direction) -> (r: QuoteRequest)
    ensures
        r.source == spec_buy_source(dir),
        r.amount_in == cfg@.trade_units,
        r.path@.len() == 2,
        r.path@[0].bytes@ == cfg@.reference.address,
        r.path@[1].bytes@ == token@.address,
{
    let mut path: Vec<crate::tokens::ChainAddress> = Vec::new();
    path.push(cfg.reference.address);
    path.push(token.address);
    QuoteRequest { source: buy_source(dir), amount_in: cfg.trade_units, path }
}

/// The second leg of a direction: sell the token amount the first leg
/// yielded back for the reference asset, on the direction's sell source.
pub fn second_leg_request(cfg: &Config, token: &Token, dir: Direction, first_out: u128) -> (r:
    QuoteRequest)
    ensures
        r.source == spec_sell_source(dir),
        r.amount_in == first_out,
        r.path@.len() == 2,
        r.path@[0].bytes@ == token@.address,
        r.path@[1].bytes@ == cfg@.reference.address,
{
    let mut path: Vec<crate::tokens::ChainAddress> = Vec::new();
    path.push(token.address);
    path.push(cfg.reference.address);
    QuoteRequest { source: sell_source(dir), amount_in: first_out, path }
}

/// The mathematical content of a `DirectionEvents`.
#[verifier::ext_equal]
pub enum DirectionEventsModel {
    FirstLegFailed { failure: QuoteFailureModel },
    SecondLegFailed { first_out: u128, failure: QuoteFailureModel },
    Completed { first_out: u128, second_out: u128 },
}

/// What the two quote calls of one direction yielded, as observed by the
/// caller that performed them.
#[derive(Debug)]
pub enum DirectionEvents {
    /// The first leg failed.
    FirstLegFailed { failure: QuoteFailure },
    /// The first leg yielded `first_out` token units; the second leg failed.
    SecondLegFailed { first_out: u128, failure: QuoteFailure },
    /// Both legs answered.
    Completed { first_out: u128, second_out: u128 },
}

impl View for DirectionEvents {
    type V = DirectionEventsModel;

    open spec fn view(&self) -> DirectionEventsModel {
        match self {
            DirectionEvents::FirstLegFailed { failure } => DirectionEventsModel::FirstLegFailed {
                failure: failure@,
            },
            DirectionEvents::SecondLegFailed {
                first_out,
                failure,
            } => DirectionEventsModel::SecondLegFailed {
                first_out: *first_out,
                failure: failure@,
            },
            DirectionEvents::Completed { first_out, second_out } => DirectionEventsModel::Completed {
                first_out: *first_out,
                second_out: *second_out,
            },
        }
    }
}

impl Clone for DirectionEvents {
    fn clone(&self) -> (r: DirectionEvents)
        ensures
            r@ == self@,
    {
        match self {
            DirectionEvents::FirstLegFailed { failure } => DirectionEvents::FirstLegFailed {
                failure: failure.clone(),
            },
            DirectionEvents::SecondLegFailed { first_out, failure } => DirectionEvents::SecondLegFailed {
                first_out: *first_out,
                failure: failure.clone(),
            },
            DirectionEvents::Completed { first_out, second_out } => DirectionEvents::Completed {
                first_out: *first_out,
                second_out: *second_out,
            },
        }
    }
}

/// The profit arithmetic accepts every completed round trip whose final
/// amount fits the signed difference; the caller checks the bound when it
/// converts the raw chain amount.
pub open spec fn spec_events_wf(ev: DirectionEventsModel) -> bool {
    ev matches DirectionEventsModel::Completed { second_out, .. } ==> second_out
        <= MAX_AMOUNT_UNITS
}

impl DirectionEvents {
    /// Checks the amount bound the profit arithmetic requires, so an
    /// unverified caller can test it before handing the events over.
    pub fn is_well_formed(&self) -> (r: bool)
        ensures
            r == spec_events_wf(self@),
    {
        match self {
            DirectionEvents::Completed { first_out: _, second_out } => *second_out
                <= MAX_AMOUNT_UNITS,
            _ => true,
        }
    }
}

/// The mathematical content of an `Observation`.
#[verifier::ext_equal]
pub struct ObservationModel {
    pub token_pair: Seq<char>,
    pub buy_source: Seq<char>,
    pub sell_source: Seq<char>,
    pub profit: FixedDecimal,
}

/// One audit-trail record: a completed round trip and its profit in
/// reference-asset units. Always produced, one per direction per pair per
/// cycle; immutable once written. The store stamps it at write time.
#[derive(Debug)]
pub struct Observation {
    pub token_pair: String,
    pub buy_source: String,
    pub sell_source: String,
    pub profit: FixedDecimal,
}

impl View for Observation {
    type V = ObservationModel;

    open spec fn view(&self) -> ObservationModel {
        ObservationModel {
            token_pair: self.token_pair@,
            buy_source: self.buy_source@,
            sell_source: self.sell_source@,
            profit: self.profit,
        }
    }
}

/// The mathematical content of an `Opportunity`.
#[verifier::ext_equal]
pub struct OpportunityModel {
    pub buy_source: Seq<char>,
    pub sell_source: Seq<char>,
    pub token_pair: Seq<char>,
    pub amount_in: FixedDecimal,
    pub amount_out: FixedDecimal,
    pub profit: FixedDecimal,
}

/// One flagged record: an observation whose profit strictly exceeded the
/// threshold, with the trade size and final amount in reference-asset units.
/// Each opportunity corresponds to exactly one observation of the same cycle
/// with the same profit.
#[derive(Debug)]
pub struct Opportunity {
    pub buy_source: String,
    pub sell_source: String,
    pub token_pair: String,
    pub amount_in: FixedDecimal,
    pub amount_out: FixedDecimal,
    pub profit: FixedDecimal,
}

impl View for Opportunity {
    type V = OpportunityModel;

    open spec fn view(&self) -> OpportunityModel {
        OpportunityModel {
            buy_source: self.buy_source@,
            sell_source: self.sell_source@,
            token_pair: self.token_pair@,
            amount_in: self.amount_in,
            amount_out: self.amount_out,
            profit: self.profit,
        }
    }
}

/// The mathematical content of a `DirectionOutcome`.
#[verifier::ext_equal]
pub enum DirectionOutcomeModel {
    Skipped { token_pair: Seq<char>, direction: Direction, failure: QuoteFailureModel },
    Recorded { observation: ObservationModel, opportunity: Option<OpportunityModel> },
    Fatal { token_pair: Seq<char>, direction: Direction, failure: QuoteFailureModel },
}

/// What one direction of one pair produced in a cycle.
#[derive(Debug)]
pub enum DirectionOutcome {
    /// The first leg failed: the direction is skipped with a warning and no
    /// record; the rest of the cycle goes on.
    Skipped { token_pair: String, direction: Direction, failure: QuoteFailure },
    /// Both legs answered: the Observation, and the Opportunity exactly when
    /// the profit strictly exceeds the threshold.
    Recorded { observation: Observation, opportunity: Option<Opportunity> },
    /// The second leg failed: fatal, the cycle stops here.
    Fatal { token_pair: String, direction: Direction, failure: QuoteFailure },
}

impl View for DirectionOutcome {
    type V = DirectionOutcomeModel;

    open spec fn view(&self) -> DirectionOutcomeModel {
        match self {
            DirectionOutcome::Skipped { token_pair, direction, failure } => DirectionOutcomeModel::Skipped {
                token_pair: token_pair@,
                direction: *direction,
                failure: failure@,
            },
            DirectionOutcome::Recorded { observation, opportunity } => DirectionOutcomeModel::Recorded {
                observation: observation@,
                opportunity: match opportunity {
                    Some(o) => Some(o@),
                    None => None,
                },
            },
            DirectionOutcome::Fatal { token_pair, direction, failure } => DirectionOutcomeModel::Fatal {
                token_pair: token_pair@,
                direction: *direction,
                failure: failure@,
            },
        }
    }
}

impl DeepView for DirectionOutcome {
    type V = DirectionOutcomeModel;

    open spec fn deep_view(&self) -> DirectionOutcomeModel {
        self.view()
    }
}

/// The profit of a completed round trip, normalized to the reference asset:
/// the final amount less the trade amount, in smallest units, at the
/// reference scale.
pub open spec fn spec_profit(trade_units: u128, second_out: u128, decimals: u32) -> FixedDecimal {
    FixedDecimal { units: (second_out - trade_units) as i128, scale: decimals }
}

/// The observation a completed direction records.
pub open spec fn spec_observation(
    cfg: ConfigModel,
    token: TokenModel,
    dir: Direction,
    second_out: u128,
) -> ObservationModel {
    ObservationModel {
        token_pair: spec_pair_label(token.symbol, cfg.reference.symbol),
        buy_source: spec_source_name(cfg, spec_buy_source(dir)),
        sell_source: spec_source_name(cfg, spec_sell_source(dir)),
        profit: spec_profit(cfg.trade_units, second_out, cfg.reference.decimals),
    }
}

/// The opportunity a sufficiently profitable direction records.
pub open spec fn spec_opportunity(
    cfg: ConfigModel,
    token: TokenModel,
    dir: Direction,
    second_out: u128,
) -> OpportunityModel {
    OpportunityModel {
        buy_source: spec_source_name(cfg, spec_buy_source(dir)),
        sell_source: spec_source_name(cfg, spec_sell_source(dir)),
        token_pair: spec_pair_label(token.symbol, cfg.reference.symbol),
        amount_in: FixedDecimal { units: cfg.trade_units as i128, scale: cfg.reference.decimals },
        amount_out: FixedDecimal { units: second_out as i128, scale: cfg.reference.decimals },
        profit: spec_profit(cfg.trade_units, second_out, cfg.reference.decimals),
    }
}

/// What one direction produces from its quote events: a skip on a failed
/// first leg, a fatal stop on a failed second leg, and otherwise the
/// observation together with the opportunity exactly when the profit
/// strictly exceeds the configured threshold.
pub open spec fn spec_check_direction(
    cfg: ConfigModel,
    token: TokenModel,
    dir: Direction,
    ev: DirectionEventsModel,
) -> DirectionOutcomeModel {
    match ev {
        DirectionEventsModel::FirstLegFailed { failure } => DirectionOutcomeModel::Skipped {
            token_pair: spec_pair_label(token.symbol, cfg.reference.symbol),
            direction: dir,
            failure,
        },
        DirectionEventsModel::SecondLegFailed { first_out, failure } => DirectionOutcomeModel::Fatal {
            token_pair: spec_pair_label(token.symbol, cfg.reference.symbol),
            direction: dir,
            failure,
        },
        DirectionEventsModel::Completed { first_out, second_out } => {
            let observation = spec_observation(cfg, token, dir, second_out);
            DirectionOutcomeModel::Recorded {
                observation,
                opportunity: if spec_is_opportunity(observation.profit, cfg.min_profit) {
                    Some(spec_opportunity(cfg, token, dir, second_out))
                } else {
                    None
                },
            }
        },
    }
}

/// Runs one direction's bookkeeping over the quote events its caller
/// observed.
pub fn check_direction(cfg: &Config, token: &Token, dir: Direction, ev: DirectionEvents) -> (r:
    DirectionOutcome)
    requires
        cfg@.wf(),
        spec_events_wf(ev@),
    ensures
        r@ == spec_check_direction(cfg@, token@, dir, ev@),
        r@ matches DirectionOutcomeModel::Recorded { observation, opportunity } ==> (opportunity
            is Some <==> observation.profit.units > cfg@.min_profit.units),
{
    proof {
        match ev@ {
            DirectionEventsModel::Completed { second_out, .. } => {
                crate::amounts::lemma_same_scale_gt(
                    spec_profit(cfg@.trade_units, second_out, cfg@.reference.decimals),
                    cfg@.min_profit,
                );
            },
            _ => {},
        }
    }
    let pair = pair_label(token.symbol.as_str(), cfg.reference.symbol.as_str());
    match ev {
        DirectionEvents::FirstLegFailed { failure } => {
            let r = DirectionOutcome::Skipped { token_pair: pair, direction: dir, failure };
            proof {
                assert(r@ =~= spec_check_direction(cfg@, token@, dir, ev@));
            }
            r
        },
        DirectionEvents::SecondLegFailed { first_out: _, failure } => {
            let r = DirectionOutcome::Fatal { token_pair: pair, direction: dir, failure };
            proof {
                assert(r@ =~= spec_check_direction(cfg@, token@, dir, ev@));
            }
            r
        },
        DirectionEvents::Completed { first_out: _, second_out } => {
            let profit_units: i128 = (second_out as i128) - (cfg.trade_units as i128);
            let profit = normalize(profit_units, cfg.reference.decimals);
            let buy_name = source_name(cfg, buy_source(dir));
            let sell_name = source_name(cfg, sell_source(dir));
            let opportunity: Option<Opportunity> = if is_opportunity(profit, cfg.min_profit) {
                Some(
                    Opportunity {
                        buy_source: buy_name.clone(),
                        sell_source: sell_name.clone(),
                        token_pair: pair.clone(),
                        amount_in: normalize(cfg.trade_units as i128, cfg.reference.decimals),
                        amount_out: normalize(second_out as i128, cfg.reference.decimals),
                        profit,
                    },
                )
            } else {
                None
            };
            let observation = Observation {
                token_pair: pair,
                buy_source: buy_name,
                sell_source: sell_name,
                profit,
            };
            let r = DirectionOutcome::Recorded { observation, opportunity };
            proof {
                assert(r@ =~= spec_check_direction(cfg@, token@, dir, ev@));
            }
            r
        },
    }
}

/// A quote result is an unsigned count of smallest units, so the final
/// amount every recorded opportunity carries is never negative.
pub proof fn lemma_recorded_amount_out_nonnegative(
    cfg: ConfigModel,
    token: TokenModel,
    dir: Direction,
    ev: DirectionEventsModel,
)
    requires
        spec_events_wf(ev),
    ensures
        spec_check_direction(cfg, token, dir, ev) matches DirectionOutcomeModel::Recorded {
            observation: _,
            opportunity: Some(p),
        } ==> p.amount_out.units >= 0,
{
}

/// The mathematical content of a `PairEvents`.
#[verifier::ext_equal]
pub struct PairEventsModel {
    pub buy_on_a: DirectionEventsModel,
    pub buy_on_b: DirectionEventsModel,
}

impl PairEventsModel {
    pub open spec fn wf(self) -> bool {
        spec_events_wf(self.buy_on_a) && spec_events_wf(self.buy_on_b)
    }
}

/// The quote events of both directions of one pair, in the order they run:
/// the buy-on-A direction first, then the buy-on-B direction.
#[derive(Debug)]
pub struct PairEvents {
    pub buy_on_a: DirectionEvents,
    pub buy_on_b: DirectionEvents,
}

impl View for PairEvents {
    type V = PairEventsModel;

    open spec fn view(&self) -> PairEventsModel {
        PairEventsModel { buy_on_a: self.buy_on_a@, buy_on_b: self.buy_on_b@ }
    }
}

impl DeepView for PairEvents {
    type V = PairEventsModel;

    open spec fn deep_view(&self) -> PairEventsModel {
        self.view()
    }
}

impl Clone for PairEvents {
    fn clone(&self) -> (r: PairEvents)
        ensures
            r@ == self@,
    {
        let r = PairEvents { buy_on_a: self.buy_on_a.clone(), buy_on_b: self.buy_on_b.clone() };
        proof {
            assert(r@ =~= self@);
        }
        r
    }
}

/// What one pair produces in a cycle: the buy-on-A direction first, then —
/// unless that direction stopped the cycle — the buy-on-B direction. A
/// skipped first direction does not keep the second from running.
pub open spec fn spec_check_pair(cfg: ConfigModel, token: TokenModel, ev: PairEventsModel) -> Seq<
    DirectionOutcomeModel,
> {
    let first = spec_check_direction(cfg, token, Direction::BuyOnA, ev.buy_on_a);
    if first is Fatal {
        seq![first]
    } else {
        seq![first, spec_check_direction(cfg, token, Direction::BuyOnB, ev.buy_on_b)]
    }
}

/// Runs both directions of one pair over the events its caller observed,
/// in order, stopping after a fatal first direction.
pub fn check_pair(cfg: &Config, token: &Token, ev: PairEvents) -> (r: Vec<DirectionOutcome>)
    requires
        cfg@.wf(),
        ev@.wf(),
    ensures
        r.deep_view() == spec_check_pair(cfg@, token@, ev@),
{
    let PairEvents { buy_on_a, buy_on_b } = ev;
    let mut r: Vec<DirectionOutcome> = Vec::new();
    let first = check_direction(cfg, token, Direction::BuyOnA, buy_on_a);
    let first_fatal = match &first {
        DirectionOutcome::Fatal { .. } => true,
        _ => false,
    };
    r.push(first);
    if !first_fatal {
        let second = check_direction(cfg, token, Direction::BuyOnB, buy_on_b);
        r.push(second);
        proof {
            assert(r.deep_view() =~= spec_check_pair(cfg@, token@, ev@));
        }
    } else {
        proof {
            assert(r.deep_view() =~= spec_check_pair(cfg@, token@, ev@));
        }
    }
    r
}

} // verus!
