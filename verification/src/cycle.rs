//! One poll cycle: the pair monitor run across the configured tokens.
//!
//! A cycle walks the monitored tokens in their configured order and runs both
//! directions of each pair, the buy-on-A direction first. A fatal outcome (a
//! failed second quote leg) stops the cycle at that point; everything decided
//! before it stands. The caller performs the outside work between cycles
//! (the durable writes, the warning lines, the sleep) and feeds the quote
//! outcomes in as events.

use vstd::prelude::*;
use crate::config::{Config, ConfigModel};
use crate::monitor::{check_pair, spec_check_direction, spec_check_pair, Direction,
    DirectionOutcome, DirectionOutcomeModel, ObservationModel, OpportunityModel, PairEvents,
    PairEventsModel};

verus! {

/// The outcomes a cycle produces from pair `i` on: each pair's outcomes in
/// order, cut short at the first fatal one.
pub open spec fn spec_run_cycle(
    cfg: ConfigModel,
    events: Seq<PairEventsModel>,
    i: int,
) -> Seq<DirectionOutcomeModel>
    decreases cfg.tokens.len() - i,
{
    if i < 0 || i >= cfg.tokens.len() || events.len() != cfg.tokens.len() {
        Seq::empty()
    } else {
        let po = spec_check_pair(cfg, cfg.tokens[i], events[i]);
        if po.last() is Fatal {
            po
        } else {
            po + spec_run_cycle(cfg, events, i + 1)
        }
    }
}

/// Runs one whole cycle over the events the caller observed, one
/// `PairEvents` per configured token, in order.
pub fn run_cycle(cfg: &Config, events: &Vec<PairEvents>) -> (r: Vec<DirectionOutcome>)
    requires
        cfg@.wf(),
        events.deep_view().len() == cfg@.tokens.len(),
        forall|k: int|
            0 <= k < events.deep_view().len() ==> (#[trigger] events.deep_view()[k]).wf(),
    ensures
        r.deep_view() == spec_run_cycle(cfg@, events.deep_view(), 0),
{
    let ghost em = events.deep_view();
    let mut out: Vec<DirectionOutcome> = Vec::new();
    let mut i: usize = 0;
    let n = cfg.tokens.len();
    while i < n
        invariant
            cfg@.wf(),
            i <= n,
            n == cfg@.tokens.len(),
            em == events.deep_view(),
            em.len() == n,
            forall|k: int| 0 <= k < em.len() ==> (#[trigger] em[k]).wf(),
            spec_run_cycle(cfg@, em, 0) == out.deep_view() + spec_run_cycle(cfg@, em, i as int),
        decreases n - i,
    {
        let ev = events[i].clone();
        let token = &cfg.tokens[i];
        proof {
            assert(token@ == cfg@.tokens[i as int]);
            assert(ev@ == em[i as int]);
        }
        let mut po = check_pair(cfg, token, ev);
        let last_fatal = match &po[po.len() - 1] {
            DirectionOutcome::Fatal { .. } => true,
            _ => false,
        };
        proof {
            assert(po.deep_view().last() == po@[po@.len() - 1]@);
            assert(last_fatal == (spec_check_pair(cfg@, cfg@.tokens[i as int], em[i as int]).last()
                is Fatal));
        }
        let ghost out_before = out.deep_view();
        out.append(&mut po);
        proof {
            assert(out.deep_view() =~= out_before + spec_check_pair(
                cfg@,
                cfg@.tokens[i as int],
                em[i as int],
            ));
        }
        if last_fatal {
            proof {
                assert(spec_run_cycle(cfg@, em, i as int) == spec_check_pair(
                    cfg@,
                    cfg@.tokens[i as int],
                    em[i as int],
                ));
            }
            return out;
        }
        i = i + 1;
        proof {
            assert(spec_run_cycle(cfg@, em, i - 1) == spec_check_pair(
                cfg@,
                cfg@.tokens[i - 1],
                em[i - 1],
            ) + spec_run_cycle(cfg@, em, i as int));
            assert(spec_run_cycle(cfg@, em, 0) =~= out.deep_view() + spec_run_cycle(
                cfg@,
                em,
                i as int,
            ));
        }
    }
    proof {
        assert(spec_run_cycle(cfg@, em, i as int) =~= Seq::<DirectionOutcomeModel>::empty());
        assert(out.deep_view() =~= spec_run_cycle(cfg@, em, 0));
    }
    out
}

/// The observations a sequence of outcomes carries, in order.
pub open spec fn observations_of(outs: Seq<DirectionOutcomeModel>) -> Seq<ObservationModel>
    decreases outs.len(),
{
    if outs.len() == 0 {
        Seq::empty()
    } else {
        let rest = observations_of(outs.drop_first());
        match outs.first() {
            DirectionOutcomeModel::Recorded { observation, .. } => seq![observation] + rest,
            _ => rest,
        }
    }
}

/// The opportunities a sequence of outcomes carries, in order.
pub open spec fn opportunities_of(outs: Seq<DirectionOutcomeModel>) -> Seq<OpportunityModel>
    decreases outs.len(),
{
    if outs.len() == 0 {
        Seq::empty()
    } else {
        let rest = opportunities_of(outs.drop_first());
        match outs.first() {
            DirectionOutcomeModel::Recorded { opportunity: Some(p), .. } => seq![p] + rest,
            _ => rest,
        }
    }
}

/// Round-trip determinism: the cycle outcome — in particular the observation
/// sequence, its profit values and its order (pairs in configured order, the
/// buy-on-A direction before the buy-on-B direction of each pair) — is a
/// function of the configuration and the quote events alone, so two cycles
/// over equal inputs produce equal records.
pub proof fn lemma_cycle_deterministic(
    cfg1: ConfigModel,
    cfg2: ConfigModel,
    events1: Seq<PairEventsModel>,
    events2: Seq<PairEventsModel>,
)
    requires
        cfg1 == cfg2,
        events1 == events2,
    ensures
        spec_run_cycle(cfg1, events1, 0) == spec_run_cycle(cfg2, events2, 0),
        observations_of(spec_run_cycle(cfg1, events1, 0)) == observations_of(
            spec_run_cycle(cfg2, events2, 0),
        ),
        opportunities_of(spec_run_cycle(cfg1, events1, 0)) == opportunities_of(
            spec_run_cycle(cfg2, events2, 0),
        ),
{
}

/// An opportunity record agrees with an observation record: same profit,
/// same pair, same sources.
pub open spec fn opportunity_matches(b: ObservationModel, p: OpportunityModel) -> bool {
    &&& b.profit == p.profit
    &&& b.token_pair == p.token_pair
    &&& b.buy_source == p.buy_source
    &&& b.sell_source == p.sell_source
}

/// A recorded outcome never carries an opportunity that disagrees with its
/// own observation.
pub open spec fn outcome_consistent(o: DirectionOutcomeModel) -> bool {
    o matches DirectionOutcomeModel::Recorded { observation, opportunity } ==> match opportunity {
        Some(p) => opportunity_matches(observation, p),
        None => true,
    }
}

pub proof fn lemma_direction_outcome_consistent(
    cfg: ConfigModel,
    token: crate::tokens::TokenModel,
    dir: Direction,
    ev: crate::monitor::DirectionEventsModel,
)
    ensures
        outcome_consistent(spec_check_direction(cfg, token, dir, ev)),
{
}

/// Every outcome a cycle produces is consistent: its opportunity, where one
/// exists, agrees with its observation.
pub proof fn lemma_cycle_outcomes_consistent(
    cfg: ConfigModel,
    events: Seq<PairEventsModel>,
    i: int,
)
    ensures
        forall|j: int|
            0 <= j < spec_run_cycle(cfg, events, i).len() ==> outcome_consistent(
                #[trigger] spec_run_cycle(cfg, events, i)[j],
            ),
    decreases cfg.tokens.len() - i,
{
    if i < 0 || i >= cfg.tokens.len() || events.len() != cfg.tokens.len() {
    } else {
        let po = spec_check_pair(cfg, cfg.tokens[i], events[i]);
        lemma_direction_outcome_consistent(cfg, cfg.tokens[i], Direction::BuyOnA, events[i].buy_on_a);
        lemma_direction_outcome_consistent(cfg, cfg.tokens[i], Direction::BuyOnB, events[i].buy_on_b);
        if po.last() is Fatal {
        } else {
            lemma_cycle_outcomes_consistent(cfg, events, i + 1);
            let rest = spec_run_cycle(cfg, events, i + 1);
            assert forall|j: int|
                0 <= j < spec_run_cycle(cfg, events, i).len() implies outcome_consistent(
                #[trigger] spec_run_cycle(cfg, events, i)[j],
            ) by {
                if j < po.len() {
                    assert(spec_run_cycle(cfg, events, i)[j] == po[j]);
                } else {
                    assert(spec_run_cycle(cfg, events, i)[j] == rest[j - po.len()]);
                }
            }
        }
    }
}

/// Some observation among the outcomes agrees with the opportunity `p`.
pub open spec fn has_matching_observation(
    outs: Seq<DirectionOutcomeModel>,
    p: OpportunityModel,
) -> bool {
    exists|j: int|
        0 <= j < observations_of(outs).len() && opportunity_matches(
            #[trigger] observations_of(outs)[j],
            p,
        )
}

/// Every opportunity among a sequence of consistent outcomes has a matching
/// observation there: same profit, same pair, same sources.
pub proof fn lemma_opportunities_have_observations(outs: Seq<DirectionOutcomeModel>)
    requires
        forall|j: int| 0 <= j < outs.len() ==> outcome_consistent(#[trigger] outs[j]),
    ensures
        forall|k: int|
            0 <= k < opportunities_of(outs).len() ==> has_matching_observation(
                outs,
                #[trigger] opportunities_of(outs)[k],
            ),
    decreases outs.len(),
{
    if outs.len() == 0 {
    } else {
        let tail = outs.drop_first();
        assert forall|j: int| 0 <= j < tail.len() implies outcome_consistent(
            #[trigger] tail[j],
        ) by {
            assert(tail[j] == outs[j + 1]);
        }
        lemma_opportunities_have_observations(tail);
        let obss = observations_of(outs);
        let opps = opportunities_of(outs);
        let tobss = observations_of(tail);
        let topps = opportunities_of(tail);
        assert forall|k: int| 0 <= k < opps.len() implies has_matching_observation(
            outs,
            #[trigger] opps[k],
        ) by {
            match outs.first() {
                DirectionOutcomeModel::Recorded { observation, opportunity } => {
                    assert(obss == seq![observation] + tobss);
                    assert(obss[0] == observation);
                    match opportunity {
                        Some(p) => {
                            assert(opps == seq![p] + topps);
                            if k == 0 {
                                assert(outcome_consistent(outs[0]));
                                assert(opportunity_matches(obss[0], opps[0]));
                            } else {
                                assert(opps[k] == topps[k - 1]);
                                assert(has_matching_observation(tail, topps[k - 1]));
                                let j0 = choose|j: int|
                                    0 <= j < tobss.len() && opportunity_matches(
                                        #[trigger] tobss[j],
                                        topps[k - 1],
                                    );
                                assert(obss[j0 + 1] == tobss[j0]);
                                assert(opportunity_matches(obss[j0 + 1], opps[k]));
                            }
                        },
                        None => {
                            assert(opps == topps);
                            assert(has_matching_observation(tail, topps[k]));
                            let j0 = choose|j: int|
                                0 <= j < tobss.len() && opportunity_matches(
                                    #[trigger] tobss[j],
                                    topps[k],
                                );
                            assert(obss[j0 + 1] == tobss[j0]);
                            assert(opportunity_matches(obss[j0 + 1], opps[k]));
                        },
                    }
                },
                _ => {
                    assert(obss == tobss);
                    assert(opps == topps);
                    assert(has_matching_observation(tail, topps[k]));
                    let j0 = choose|j: int|
                        0 <= j < tobss.len() && opportunity_matches(#[trigger] tobss[j], topps[k]);
                    assert(opportunity_matches(obss[j0], opps[k]));
                },
            }
        }
    }
}

/// Every opportunity a cycle produces has a matching observation produced in
/// the same cycle: same profit, same pair, same sources.
pub proof fn lemma_cycle_opportunities_have_observations(
    cfg: ConfigModel,
    events: Seq<PairEventsModel>,
)
    ensures
        forall|k: int|
            0 <= k < opportunities_of(spec_run_cycle(cfg, events, 0)).len()
                ==> has_matching_observation(
                spec_run_cycle(cfg, events, 0),
                #[trigger] opportunities_of(spec_run_cycle(cfg, events, 0))[k],
            ),
{
    lemma_cycle_outcomes_consistent(cfg, events, 0);
    lemma_opportunities_have_observations(spec_run_cycle(cfg, events, 0));
}

} // verus!
