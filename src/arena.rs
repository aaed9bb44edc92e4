//! The combat and mating engine: one encounter between two creatures,
//! resolved round by round.

use vstd::prelude::*;

use crate::creatures::{items_needed, mating_cost, Creature, Creatures, IDGiver};
use crate::dna::MAX_GENES;
use crate::eval::{eval_condition, evaluate, PerformableAction};
use crate::rng::RngState;
use crate::stats::{bump, bumped, EncounterStats, GlobalStatistics};
use crate::{FEEDER_MEAL_ENERGY, MAX_GENE_VALUE, VICTORY_ENERGY};

verus! {

/// Whether a fight goes on.
#[derive(Debug, PartialEq, Eq, Copy, Clone, Structural)]
pub enum FightStatus {
    End,
    Continue,
}

/// One side's odds in a round: chance to hit in percent, damage multiplier
/// in percent, and share of the mating cost in percent.
#[derive(Debug, PartialEq, Eq, Copy, Clone, Structural)]
pub struct CreatureChance {
    pub chance_to_hit: usize,
    pub dmg_multiplier: usize,
    pub mating_share: usize,
}

/// A round's odds: the chance to mate in percent and each side's odds.
#[derive(Debug, PartialEq, Eq, Copy, Clone, Structural)]
pub struct Chances {
    pub chance_to_mate: usize,
    pub p1: CreatureChance,
    pub p2: CreatureChance,
}

/// The category an action counts as in the outcome table.
#[derive(Debug, PartialEq, Eq, Copy, Clone, Structural)]
pub enum Category {
    Attack,
    Defend,
    Mate,
    Other,
}

pub open spec fn category_spec(a: PerformableAction) -> Category {
    match a {
        PerformableAction::Attack(_) => Category::Attack,
        PerformableAction::Defend(_) => Category::Defend,
        PerformableAction::Mate => Category::Mate,
        _ => Category::Other,
    }
}

pub fn category(a: PerformableAction) -> (r: Category)
    ensures
        r == category_spec(a),
{
    match a {
        PerformableAction::Attack(_) => Category::Attack,
        PerformableAction::Defend(_) => Category::Defend,
        PerformableAction::Mate => Category::Mate,
        _ => Category::Other,
    }
}

pub open spec fn side(hit: usize, mult: usize, share: usize) -> CreatureChance {
    CreatureChance { chance_to_hit: hit, dmg_multiplier: mult, mating_share: share }
}

/// The outcome table, by the two sides' categories.
pub open spec fn outcome(c1: Category, c2: Category) -> Chances {
    match (c1, c2) {
        (Category::Attack, Category::Attack) => Chances { chance_to_mate: 0, p1: side(75, 50, 0), p2: side(75, 50, 0) },
        (Category::Attack, Category::Defend) | (Category::Defend, Category::Attack) => Chances {
            chance_to_mate: 0,
            p1: side(25, 25, 0),
            p2: side(25, 25, 0),
        },
        (Category::Attack, Category::Mate) => Chances { chance_to_mate: 50, p1: side(50, 75, 70), p2: side(0, 0, 30) },
        (Category::Attack, _) => Chances { chance_to_mate: 0, p1: side(100, 100, 0), p2: side(0, 0, 0) },
        (Category::Defend, Category::Mate) => Chances { chance_to_mate: 25, p1: side(0, 0, 70), p2: side(0, 0, 30) },
        (Category::Mate, Category::Mate) => Chances { chance_to_mate: 100, p1: side(0, 0, 50), p2: side(0, 0, 50) },
        (Category::Mate, Category::Attack) => Chances { chance_to_mate: 50, p1: side(0, 0, 30), p2: side(50, 75, 70) },
        (Category::Mate, Category::Defend) => Chances { chance_to_mate: 25, p1: side(0, 0, 30), p2: side(0, 0, 70) },
        (Category::Mate, _) => Chances { chance_to_mate: 75, p1: side(0, 0, 0), p2: side(0, 0, 100) },
        (_, Category::Attack) => Chances { chance_to_mate: 0, p1: side(0, 0, 0), p2: side(100, 100, 0) },
        (_, Category::Mate) => Chances { chance_to_mate: 75, p1: side(0, 0, 100), p2: side(0, 0, 0) },
        _ => Chances { chance_to_mate: 0, p1: side(0, 0, 0), p2: side(0, 0, 0) },
    }
}

/// Whether every figure of the odds is a percentage.
pub open spec fn chances_ok(c: Chances) -> bool {
    &&& c.chance_to_mate <= 100
    &&& c.p1.chance_to_hit <= 100 && c.p1.dmg_multiplier <= 100 && c.p1.mating_share <= 100
    &&& c.p2.chance_to_hit <= 100 && c.p2.dmg_multiplier <= 100 && c.p2.mating_share <= 100
}

fn chance(hit: usize, mult: usize, share: usize) -> (r: CreatureChance)
    ensures
        r == side(hit, mult, share),
{
    CreatureChance { chance_to_hit: hit, dmg_multiplier: mult, mating_share: share }
}

/// Looks the pair of actions up in the outcome table.
pub fn damage_matrix(p1_act: PerformableAction, p2_act: PerformableAction) -> (r: Chances)
    ensures
        r == outcome(category_spec(p1_act), category_spec(p2_act)),
        chances_ok(r),
{
    match (category(p1_act), category(p2_act)) {
        (Category::Attack, Category::Attack) => Chances { chance_to_mate: 0, p1: chance(75, 50, 0), p2: chance(75, 50, 0) },
        (Category::Attack, Category::Defend) | (Category::Defend, Category::Attack) => Chances {
            chance_to_mate: 0,
            p1: chance(25, 25, 0),
            p2: chance(25, 25, 0),
        },
        (Category::Attack, Category::Mate) => Chances { chance_to_mate: 50, p1: chance(50, 75, 70), p2: chance(0, 0, 30) },
        (Category::Attack, _) => Chances { chance_to_mate: 0, p1: chance(100, 100, 0), p2: chance(0, 0, 0) },
        (Category::Defend, Category::Mate) => Chances { chance_to_mate: 25, p1: chance(0, 0, 70), p2: chance(0, 0, 30) },
        (Category::Mate, Category::Mate) => Chances { chance_to_mate: 100, p1: chance(0, 0, 50), p2: chance(0, 0, 50) },
        (Category::Mate, Category::Attack) => Chances { chance_to_mate: 50, p1: chance(0, 0, 30), p2: chance(50, 75, 70) },
        (Category::Mate, Category::Defend) => Chances { chance_to_mate: 25, p1: chance(0, 0, 30), p2: chance(0, 0, 70) },
        (Category::Mate, _) => Chances { chance_to_mate: 75, p1: chance(0, 0, 0), p2: chance(0, 0, 100) },
        (_, Category::Attack) => Chances { chance_to_mate: 0, p1: chance(0, 0, 0), p2: chance(100, 100, 0) },
        (_, Category::Mate) => Chances { chance_to_mate: 75, p1: chance(0, 0, 100), p2: chance(0, 0, 0) },
        _ => Chances { chance_to_mate: 0, p1: chance(0, 0, 0), p2: chance(0, 0, 0) },
    }
}

/// Whether an action is carried out on its own: signal, eat, take, wait
/// or flee.
pub open spec fn stands_alone(act: PerformableAction) -> bool {
    act is Signal || act is Eat || act is Take || act is Wait || act is Flee
}

/// Whether an action is carried out on its own (see `stands_alone`).
pub fn not_attack_mate_defend(act: PerformableAction) -> (r: bool)
    ensures
        r == stands_alone(act),
{
    match act {
        PerformableAction::Signal(_) | PerformableAction::Eat | PerformableAction::Take | PerformableAction::Wait
        | PerformableAction::Flee => true,
        _ => false,
    }
}

/// The most damage a side with multiplier `m` deals: `m * 6 / 100`, at least one.
pub open spec fn max_damage(m: usize) -> int {
    let d = (m * 6) / 100;
    if d >= 1 {
        d as int
    } else {
        1
    }
}

impl CreatureChance {
    /// The damage that rolls give: a hit when `hit_roll` is at most the
    /// chance to hit, then `dmg_roll` (or 1 when the most damage is 1).
    pub open spec fn damage_spec(self, hit_roll: int, dmg_roll: int) -> int {
        if hit_roll <= self.chance_to_hit {
            if max_damage(self.dmg_multiplier) <= 1 {
                1
            } else {
                dmg_roll
            }
        } else {
            0
        }
    }

    /// Settles this side's damage from its two rolls.
    pub fn damage_from_rolls(&self, hit_roll: usize, dmg_roll: usize) -> (r: usize)
        requires
            self.dmg_multiplier <= 100,
        ensures
            r == self.damage_spec(hit_roll as int, dmg_roll as int),
    {
        if hit_roll <= self.chance_to_hit {
            let max_dmg = (self.dmg_multiplier * 6) / 100;
            if max_dmg <= 1 {
                1
            } else {
                dmg_roll
            }
        } else {
            0
        }
    }

    /// Rolls this side's damage: a hit when a roll of 1 to 100 is at most
    /// the chance to hit, dealing 1 to the most damage, both included.
    pub fn damage(&self, rng: &mut RngState) -> (r: usize)
        requires
            self.dmg_multiplier <= 100,
        ensures
            exists|hit_roll: int, dmg_roll: int|
                1 <= hit_roll <= 100 && 1 <= dmg_roll <= max_damage(self.dmg_multiplier) && r
                    == #[trigger] self.damage_spec(hit_roll, dmg_roll),
            r == 0 || 1 <= r <= max_damage(self.dmg_multiplier),
            self.chance_to_hit == 0 ==> r == 0,
            self.chance_to_hit >= 100 ==> r >= 1,
    {
        let hit_roll = rng.uniform(1, 100);
        let max_dmg = (self.dmg_multiplier * 6) / 100;
        let dmg_roll = if max_dmg <= 1 {
            1
        } else {
            rng.uniform(1, max_dmg)
        };
        self.damage_from_rolls(hit_roll, dmg_roll)
    }
}

/// Which side acts first: the cheaper thinker; on equal costs a fair coin,
/// drawn only then.
pub fn first_mover(p1_cost: usize, p2_cost: usize, rng: &mut RngState) -> (r: bool)
    ensures
        p1_cost < p2_cost ==> r,
        p2_cost < p1_cost ==> !r,
{
    if p1_cost < p2_cost {
        true
    } else if p2_cost < p1_cost {
        false
    } else {
        rng.rand_bool()
    }
}

/// The cost of a decision: its productive and skipped reads, saturating.
pub open spec fn cost_of(icount: usize, skipped: usize) -> usize {
    if icount + skipped <= usize::MAX {
        (icount + skipped) as usize
    } else {
        usize::MAX
    }
}

/// Whether two creature values differ at most in energy.
pub open spec fn same_but_energy(a: Creature, b: Creature) -> bool {
    &&& a.id == b.id
    &&& a.generation == b.generation
    &&& a.signal == b.signal
    &&& a.last_action == b.last_action
    &&& a.parents == b.parents
    &&& a.stats == b.stats
    &&& a.dna == b.dna
    &&& a.inv == b.inv
    &&& a.thought_cycle == b.thought_cycle
}

/// Whether one side's damage `d` is one that its odds allow.
pub open spec fn damage_allowed(c: CreatureChance, d: int) -> bool {
    &&& 0 <= d <= max_damage(c.dmg_multiplier)
    &&& c.chance_to_hit == 0 ==> d == 0
    &&& c.chance_to_hit >= 100 ==> d >= 1
}

/// What an encounter leaves: the creatures that walk away (children that
/// were born, then the parents that survived) and its counters.
pub struct EncounterResult {
    pub survivors: Vec<Creature>,
    pub stats: EncounterStats,
}

/// One fight between two creatures, owned for its duration.
pub struct Encounter {
    pub p1: Creature,
    pub p2: Creature,
    pub stats: EncounterStats,
    pub children: Vec<Creature>,
    pub max_rounds: usize,
    pub mutation_rate_ppm: u32,
    pub p1_action: PerformableAction,
    pub p2_action: PerformableAction,
}

impl Encounter {
    pub open spec fn wf(&self) -> bool {
        &&& self.p1.wf()
        &&& self.p2.wf()
        &&& forall|i: int| 0 <= i < self.children@.len() ==> (#[trigger] self.children@[i]).wf()
            && self.children@[i].alive_spec()
        &&& self.stats.rounds <= self.max_rounds
        &&& self.max_rounds >= 1
    }

    /// An encounter of at most `max_rounds` rounds (at least one).
    pub fn new(p1: Creature, p2: Creature, max_rounds: usize, mutation_rate_ppm: u32) -> (r: Encounter)
        requires
            p1.wf(),
            p2.wf(),
        ensures
            r.wf(),
            r.max_rounds == if max_rounds == 0 { 1 } else { max_rounds },
            r.p1 == p1,
            r.p2 == p2,
            r.children@.len() == 0,
            r.stats == (EncounterStats { children_born: 0, feeders_eaten: 0, kills: 0, rounds: 0, mutations: 0 }),
    {
        Encounter {
            p1,
            p2,
            stats: EncounterStats::new(),
            children: Vec::new(),
            max_rounds: if max_rounds == 0 {
                1
            } else {
                max_rounds
            },
            mutation_rate_ppm,
            p1_action: PerformableAction::NoAction,
            p2_action: PerformableAction::NoAction,
        }
    }

    /// Both sides pull their next decision and evaluate it against the
    /// other, both from the state before the round; returns the costs.
    fn decide_and_eval(&mut self) -> (r: (usize, usize))
        requires
            old(self).wf(),
        ensures
            final(self).wf(),
            final(self).stats == old(self).stats,
            final(self).max_rounds == old(self).max_rounds,
            final(self).children == old(self).children,
            ({
                let d1 = old(self).p1.thought_cycle.thoughts@[old(self).p1.thought_cycle.cursor as int];
                let d2 = old(self).p2.thought_cycle.thoughts@[old(self).p2.thought_cycle.cursor as int];
                &&& r.0 == cost_of(d1.icount, d1.skipped)
                &&& r.1 == cost_of(d2.icount, d2.skipped)
                &&& exists|roll: nat| roll <= MAX_GENE_VALUE && final(self).p1_action == eval_condition(
                    final(self).p1,
                    final(self).p2,
                    roll,
                    d1.tree,
                )
                &&& exists|roll: nat| roll <= MAX_GENE_VALUE && final(self).p2_action == eval_condition(
                    final(self).p2,
                    final(self).p1,
                    roll,
                    d2.tree,
                )
            }),
    {
        let d1 = self.p1.next_decision();
        let d2 = self.p2.next_decision();
        self.p1_action = evaluate(&self.p1, &self.p2, &d1.tree);
        self.p2_action = evaluate(&self.p2, &self.p1, &d2.tree);
        let c1 = if d1.icount <= usize::MAX - d1.skipped {
            d1.icount + d1.skipped
        } else {
            usize::MAX
        };
        let c2 = if d2.icount <= usize::MAX - d2.skipped {
            d2.icount + d2.skipped
        } else {
            usize::MAX
        };
        (c1, c2)
    }

    /// The cheaper thinker acts first (see `first_mover`).
    fn execute_round(&mut self, rng: &mut RngState, id_giver: &mut IDGiver, p1_cost: usize, p2_cost: usize) -> (r:
        FightStatus)
        requires
            old(self).wf(),
            old(id_giver).next_id_to_give_out > 0,
        ensures
            final(self).wf(),
            final(self).stats.rounds == old(self).stats.rounds,
            final(self).stats.kills == old(self).stats.kills,
            final(self).stats.feeders_eaten == old(self).stats.feeders_eaten,
            final(self).max_rounds == old(self).max_rounds,
            final(id_giver).next_id_to_give_out >= old(id_giver).next_id_to_give_out,
            r == FightStatus::End ==> stands_alone(old(self).p1_action) || stands_alone(
                old(self).p2_action,
            ),
    {
        if first_mover(p1_cost, p2_cost, rng) {
            self.do_round(rng, id_giver)
        } else {
            self.do_swapped_round(rng, id_giver)
        }
    }

    fn swap_players(&mut self)
        requires
            old(self).wf(),
        ensures
            final(self).wf(),
            final(self).p1 == old(self).p2,
            final(self).p2 == old(self).p1,
            final(self).p1_action == old(self).p2_action,
            final(self).p2_action == old(self).p1_action,
            final(self).stats == old(self).stats,
            final(self).children == old(self).children,
            final(self).max_rounds == old(self).max_rounds,
            final(self).mutation_rate_ppm == old(self).mutation_rate_ppm,
    {
        std::mem::swap(&mut self.p1, &mut self.p2);
        let a = self.p1_action;
        self.p1_action = self.p2_action;
        self.p2_action = a;
    }

    fn do_swapped_round(&mut self, rng: &mut RngState, id_giver: &mut IDGiver) -> (r: FightStatus)
        requires
            old(self).wf(),
            old(id_giver).next_id_to_give_out > 0,
        ensures
            final(self).wf(),
            final(self).stats.rounds == old(self).stats.rounds,
            final(self).stats.kills == old(self).stats.kills,
            final(self).stats.feeders_eaten == old(self).stats.feeders_eaten,
            final(self).max_rounds == old(self).max_rounds,
            final(id_giver).next_id_to_give_out >= old(id_giver).next_id_to_give_out,
            r == FightStatus::End ==> stands_alone(old(self).p1_action) || stands_alone(
                old(self).p2_action,
            ),
    {
        self.swap_players();
        let result = self.do_round(rng, id_giver);
        self.swap_players();
        result
    }

    /// Mating, with `p1` the side acting first and `roll` (1 to 100) drawn
    /// against the chance: never above the chance or with a dead side; a
    /// feeder dies instead; otherwise both sides must afford their shares,
    /// the second side's share paid first, and nobody pays anything unless
    /// both can pay in full. The child comes from `mate_with`.
    pub fn try_mating(
        &mut self,
        rng: &mut RngState,
        id_giver: &mut IDGiver,
        roll: usize,
        mating_chance: usize,
        first_share: usize,
        second_share: usize,
    ) -> (r: Option<Creature>)
        requires
            old(self).wf(),
            first_share <= 100,
            second_share <= 100,
            old(id_giver).next_id_to_give_out > 0,
        ensures
            final(self).wf(),
            final(self).stats.rounds == old(self).stats.rounds,
            final(self).stats.children_born == old(self).stats.children_born,
            final(self).stats.kills == old(self).stats.kills,
            final(self).stats.feeders_eaten == old(self).stats.feeders_eaten,
            final(self).children == old(self).children,
            final(self).max_rounds == old(self).max_rounds,
            final(self).p1_action == old(self).p1_action,
            final(self).p2_action == old(self).p2_action,
            final(id_giver).next_id_to_give_out >= old(id_giver).next_id_to_give_out,
            r is Some ==> r->Some_0.wf() && r->Some_0.alive_spec(),
            r is Some ==> items_needed(old(self).p2.inv@, mating_cost(first_share as nat)) is Some
                && items_needed(old(self).p1.inv@, mating_cost(second_share as nat)) is Some,
            roll > mating_chance || !old(self).p1.alive_spec() || !old(self).p2.alive_spec() ==> r is None
                && final(self).p1 == old(self).p1 && final(self).p2 == old(self).p2 && *final(id_giver) == *old(
                id_giver),
            roll <= mating_chance && old(self).p1.alive_spec() && old(self).p2.alive_spec() && (
            old(self).p1.is_feeder_spec() || old(self).p2.is_feeder_spec()) ==> r is None && *final(id_giver)
                == *old(id_giver) && (old(self).p1.is_feeder_spec() ==> final(self).p1.energy == 0) && (old(
                self).p2.is_feeder_spec() ==> final(self).p2.energy == 0),
            ({
                let k2 = items_needed(old(self).p2.inv@, mating_cost(first_share as nat));
                let k1 = items_needed(old(self).p1.inv@, mating_cost(second_share as nat));
                roll <= mating_chance && old(self).p1.alive_spec() && old(self).p2.alive_spec()
                    && !old(self).p1.is_feeder_spec() && !old(self).p2.is_feeder_spec() && k1 is Some && k2 is Some
                    ==> final(self).p2.inv@ == old(self).p2.inv@.subrange(0, old(self).p2.inv@.len() - k2->Some_0)
                    && final(self).p1.inv@ == old(self).p1.inv@.subrange(0, old(self).p1.inv@.len() - k1->Some_0)
            }),
            (items_needed(old(self).p2.inv@, mating_cost(first_share as nat)) is None || items_needed(
                old(self).p1.inv@,
                mating_cost(second_share as nat),
            ) is None) ==> r is None && final(self).p1.inv == old(self).p1.inv && final(self).p2.inv
                == old(self).p2.inv && *final(id_giver) == *old(id_giver),
    {
        if roll > mating_chance || self.p2.dead() || self.p1.dead() {
            return None;
        }
        if self.p2.is_feeder() || self.p1.is_feeder() {
            if self.p2.is_feeder() {
                self.p2.kill();
            }
            if self.p1.is_feeder() {
                self.p1.kill();
            }
            return None;
        }
        if self.p2.mating_items(first_share).is_none() || self.p1.mating_items(second_share).is_none() {
            return None;
        }
        let paid2 = self.p2.pay_for_mating(first_share);
        let paid1 = self.p1.pay_for_mating(second_share);
        if !(paid1 && paid2) {
            return None;
        }
        if self.p1.dna.0.len() >= MAX_GENES || self.p2.dna.0.len() >= MAX_GENES || !id_giver.has_room() {
            return None;
        }
        let (maybe_child, mutated) = self.p1.mate_with(&mut self.p2, id_giver, rng, self.mutation_rate_ppm);
        if mutated {
            self.stats.mutations = bump(self.stats.mutations);
        }
        match maybe_child {
            Err(_) => None,
            Ok(child) => Some(child),
        }
    }

    /// Each side's damage goes to the other side: `p2` loses `d1`, `p1`
    /// loses `d2`, never below zero; nothing else changes.
    pub fn apply_damage(&mut self, d1: usize, d2: usize)
        requires
            old(self).wf(),
        ensures
            final(self).wf(),
            final(self).p2.energy == crate::creatures::lost(old(self).p2.energy, d1),
            final(self).p1.energy == crate::creatures::lost(old(self).p1.energy, d2),
            same_but_energy(final(self).p1, old(self).p1),
            same_but_energy(final(self).p2, old(self).p2),
            final(self).children == old(self).children,
            final(self).stats == old(self).stats,
            final(self).max_rounds == old(self).max_rounds,
            final(self).mutation_rate_ppm == old(self).mutation_rate_ppm,
            final(self).p1_action == old(self).p1_action,
            final(self).p2_action == old(self).p2_action,
    {
        self.p2.lose_energy(d1);
        self.p1.lose_energy(d2);
    }

    /// Carries out the actions that stand on their own, `p1`'s first; a
    /// carried-out action that ends the fight stops the round there.
    pub fn carry_out_actions(&mut self) -> (r: FightStatus)
        requires
            old(self).wf(),
        ensures
            final(self).wf(),
            final(self).children == old(self).children,
            final(self).stats == old(self).stats,
            final(self).max_rounds == old(self).max_rounds,
            final(self).p1_action == old(self).p1_action,
            final(self).p2_action == old(self).p2_action,
            r == FightStatus::End ==> stands_alone(old(self).p1_action) || stands_alone(
                old(self).p2_action,
            ),
            !stands_alone(old(self).p1_action) && !stands_alone(old(self).p2_action) ==> r
                == FightStatus::Continue && final(self).p1 == old(self).p1 && final(self).p2 == old(self).p2,
    {
        if not_attack_mate_defend(self.p1_action) {
            let a = self.p1_action;
            if let FightStatus::End = self.p1.carryout(&mut self.p2, a) {
                return FightStatus::End;
            }
        }
        if not_attack_mate_defend(self.p2_action) {
            let a = self.p2_action;
            if let FightStatus::End = self.p2.carryout(&mut self.p1, a) {
                return FightStatus::End;
            }
        }
        FightStatus::Continue
    }

    /// One round with `p1` acting first: damage (each side's to the other),
    /// mating, then the actions carried out on their own.
    fn do_round(&mut self, rng: &mut RngState, id_giver: &mut IDGiver) -> (r: FightStatus)
        requires
            old(self).wf(),
            old(id_giver).next_id_to_give_out > 0,
        ensures
            final(self).wf(),
            final(self).stats.rounds == old(self).stats.rounds,
            final(self).stats.kills == old(self).stats.kills,
            final(self).stats.feeders_eaten == old(self).stats.feeders_eaten,
            final(self).max_rounds == old(self).max_rounds,
            final(id_giver).next_id_to_give_out >= old(id_giver).next_id_to_give_out,
            r == FightStatus::End ==> stands_alone(old(self).p1_action) || stands_alone(
                old(self).p2_action,
            ),
            ({
                let c = outcome(category_spec(old(self).p1_action), category_spec(old(self).p2_action));
                c.chance_to_mate == 0 ==> final(self).children == old(self).children
                    && final(self).stats.children_born == old(self).stats.children_born
            }),
            ({
                let c = outcome(category_spec(old(self).p1_action), category_spec(old(self).p2_action));
                (c.chance_to_mate == 0 && !stands_alone(old(self).p1_action) && !stands_alone(
                    old(self).p2_action,
                )) ==> r == FightStatus::Continue && same_but_energy(final(self).p1, old(self).p1)
                    && same_but_energy(final(self).p2, old(self).p2) && (exists|d1: int, d2: int|
                    damage_allowed(c.p1, d1) && damage_allowed(c.p2, d2) && final(self).p2.energy
                        == #[trigger] crate::creatures::lost(old(self).p2.energy, d1 as usize) && final(self).p1.energy
                        == #[trigger] crate::creatures::lost(old(self).p1.energy, d2 as usize))
            }),
    {
        let chances = damage_matrix(self.p1_action, self.p2_action);
        let p1_dmg = chances.p1.damage(rng);
        let p2_dmg = chances.p2.damage(rng);
        self.apply_damage(p1_dmg, p2_dmg);
        let ghost mid = *self;
        let roll = rng.uniform(1, 100);
        let maybe_child = self.try_mating(
            rng,
            id_giver,
            roll,
            chances.chance_to_mate,
            chances.p2.mating_share,
            chances.p1.mating_share,
        );
        if let Some(child) = maybe_child {
            self.children.push(child);
            self.stats.children_born = bump(self.stats.children_born);
        }
        let r = self.carry_out_actions();
        proof {
            let c = outcome(category_spec(old(self).p1_action), category_spec(old(self).p2_action));
            if c.chance_to_mate == 0 && !stands_alone(old(self).p1_action) && !stands_alone(old(self).p2_action) {
                assert(mid.p1 == self.p1 && mid.p2 == self.p2);
                assert(damage_allowed(c.p1, p1_dmg as int));
                assert(damage_allowed(c.p2, p2_dmg as int));
                assert(self.p2.energy == crate::creatures::lost(old(self).p2.energy, (p1_dmg as int) as usize));
                assert(self.p1.energy == crate::creatures::lost(old(self).p1.energy, (p2_dmg as int) as usize));
            }
        }
        r
    }

    /// Fights up to `max_rounds` rounds, each pulling both sides' next
    /// decisions, resolving them and recording what each side did; stops
    /// early when a round ends the fight. `Continue` means the round budget
    /// ran out.
    pub fn fight(&mut self, rng: &mut RngState, id_giver: &mut IDGiver) -> (r: FightStatus)
        requires
            old(self).wf(),
            old(self).stats.rounds == 0,
            old(self).stats.kills == 0,
            old(self).stats.feeders_eaten == 0,
            old(id_giver).next_id_to_give_out > 0,
        ensures
            final(self).wf(),
            final(self).max_rounds == old(self).max_rounds,
            1 <= final(self).stats.rounds <= final(self).max_rounds,
            r == FightStatus::Continue ==> final(self).stats.rounds == final(self).max_rounds,
            final(self).stats.rounds < final(self).max_rounds ==> r == FightStatus::End,
            final(self).stats.kills == 0,
            final(self).stats.feeders_eaten == 0,
            final(id_giver).next_id_to_give_out >= old(id_giver).next_id_to_give_out,
    {
        let mut round: usize = 0;
        while round < self.max_rounds
            invariant
                self.wf(),
                self.max_rounds == old(self).max_rounds,
                round <= self.max_rounds,
                self.max_rounds >= 1,
                self.stats.rounds == round,
                self.stats.kills == 0,
                self.stats.feeders_eaten == 0,
                id_giver.next_id_to_give_out >= old(id_giver).next_id_to_give_out,
                old(id_giver).next_id_to_give_out > 0,
            decreases self.max_rounds - round,
        {
            self.stats.rounds = self.stats.rounds + 1;
            round = round + 1;
            let (p1_cost, p2_cost) = self.decide_and_eval();
            if let FightStatus::End = self.execute_round(rng, id_giver, p1_cost, p2_cost) {
                return FightStatus::End;
            }
            self.p1.last_action = self.p1_action;
            self.p2.last_action = self.p2_action;
        }
        FightStatus::Continue
    }

    /// Settles a finished fight. A lone surviving parent wins: it takes
    /// the loser's top item and either eats the feeder (a small energy gain,
    /// a meal, its last action waiting) or counts a kill (a larger gain, a
    /// kill and a survived encounter). Two surviving parents both count a
    /// survived encounter and forget their last action. The survivors are
    /// the children, then the parents alive at the end.
    pub fn conclude(self) -> (r: EncounterResult)
        requires
            self.wf(),
        ensures
            forall|i: int| 0 <= i < r.survivors@.len() ==> (#[trigger] r.survivors@[i]).wf()
                && r.survivors@[i].alive_spec(),
            forall|i: int| 0 <= i < self.children@.len() ==> r.survivors@[i] == #[trigger] self.children@[i],
            r.stats.rounds == self.stats.rounds,
            r.stats.children_born == self.stats.children_born,
            !self.p1.alive_spec() && !self.p2.alive_spec() ==> r.survivors@ == self.children@ && r.stats
                == self.stats,
            self.p1.alive_spec() && self.p2.alive_spec() ==> ({
                let a = r.survivors@[self.children@.len() as int];
                let b = r.survivors@[self.children@.len() + 1int];
                &&& r.survivors@.len() == self.children@.len() + 2
                &&& r.stats == self.stats
                &&& a.id == self.p1.id && b.id == self.p2.id
                &&& a.stats.survived == bumped(self.p1.stats.survived)
                &&& b.stats.survived == bumped(self.p2.stats.survived)
                &&& a.last_action == PerformableAction::NoAction && b.last_action == PerformableAction::NoAction
                &&& a.inv == self.p1.inv && b.inv == self.p2.inv
            }),
            self.p1.alive_spec() != self.p2.alive_spec() ==> ({
                let (w, l) = if self.p1.alive_spec() { (self.p1, self.p2) } else { (self.p2, self.p1) };
                let v = r.survivors@[self.children@.len() as int];
                &&& r.survivors@.len() == self.children@.len() + 1
                &&& v.id == w.id
                &&& r.stats.kills + r.stats.feeders_eaten == self.stats.kills + self.stats.feeders_eaten + 1
                    || (self.stats.kills == usize::MAX || self.stats.feeders_eaten == usize::MAX)
                &&& l.inv@.len() > 0 ==> v.inv@ == crate::creatures::with_item(w.inv@, l.inv@.last())
                &&& l.inv@.len() == 0 ==> v.inv@ == w.inv@
                &&& l.is_feeder_spec() ==> r.stats.feeders_eaten == bumped(self.stats.feeders_eaten)
                    && r.stats.kills == self.stats.kills && v.stats.eaten == bumped(w.stats.eaten)
                    && v.last_action == PerformableAction::Wait
                &&& !l.is_feeder_spec() ==> r.stats.kills == bumped(self.stats.kills) && r.stats.feeders_eaten
                    == self.stats.feeders_eaten && v.stats.kills == bumped(w.stats.kills) && v.stats.survived
                    == bumped(w.stats.survived)
            }),
    {
        let Encounter { mut p1, mut p2, children, mut stats, .. } = self;
        let mut survivors = children;
        if p1.alive() && p2.dead() {
            Encounter::victory(&mut p1, &mut p2, &mut stats);
            survivors.push(p1);
        } else if p1.dead() && p2.alive() {
            Encounter::victory(&mut p2, &mut p1, &mut stats);
            survivors.push(p2);
        } else if p1.alive() && p2.alive() {
            p1.survived_encounter();
            p2.survived_encounter();
            survivors.push(p1);
            survivors.push(p2);
        }
        EncounterResult { survivors, stats }
    }

    /// Runs the fight, then settles it (see `fight` and `conclude`).
    pub fn run(self, rng: &mut RngState, id_giver: &mut IDGiver) -> (r: EncounterResult)
        requires
            self.wf(),
            self.stats.rounds == 0,
            self.stats.kills == 0,
            self.stats.feeders_eaten == 0,
            old(id_giver).next_id_to_give_out > 0,
        ensures
            1 <= r.stats.rounds <= self.max_rounds,
            r.stats.kills + r.stats.feeders_eaten <= 1,
            forall|i: int| 0 <= i < r.survivors@.len() ==> (#[trigger] r.survivors@[i]).wf()
                && r.survivors@[i].alive_spec(),
            final(id_giver).next_id_to_give_out >= old(id_giver).next_id_to_give_out,
    {
        let mut enc = self;
        enc.fight(rng, id_giver);
        enc.conclude()
    }

    /// The winner takes the loser's top item; a feeder is eaten (a small
    /// energy gain, and the winner's last action becomes waiting), anyone
    /// else is killed (a larger gain, a kill and a survived encounter).
    fn victory(winner: &mut Creature, loser: &mut Creature, stats: &mut EncounterStats)
        requires
            old(winner).wf(),
            old(winner).alive_spec(),
        ensures
            final(winner).wf(),
            final(winner).alive_spec(),
            final(winner).id == old(winner).id,
            final(stats).rounds == old(stats).rounds,
            final(stats).children_born == old(stats).children_born,
            old(loser).inv@.len() > 0 ==> final(winner).inv@ == crate::creatures::with_item(
                old(winner).inv@,
                old(loser).inv@.last(),
            ),
            old(loser).inv@.len() == 0 ==> final(winner).inv@ == old(winner).inv@,
            old(loser).is_feeder_spec() ==> final(stats).feeders_eaten == bumped(old(stats).feeders_eaten)
                && final(stats).kills == old(stats).kills && final(winner).stats.eaten == bumped(
                old(winner).stats.eaten,
            ) && final(winner).last_action == PerformableAction::Wait,
            !old(loser).is_feeder_spec() ==> final(stats).kills == bumped(old(stats).kills) && final(stats).feeders_eaten == old(stats).feeders_eaten && final(winner).stats.kills == bumped(
                old(winner).stats.kills,
            ) && final(winner).stats.survived == bumped(old(winner).stats.survived),
    {
        winner.steal_from(loser);
        if loser.is_feeder() {
            stats.feeders_eaten = bump(stats.feeders_eaten);
            winner.has_eaten();
            winner.gain_energy(FEEDER_MEAL_ENERGY);
            winner.last_action = PerformableAction::Wait;
        } else {
            winner.gain_energy(VICTORY_ENERGY);
            winner.has_killed();
            stats.kills = bump(stats.kills);
            winner.survived_encounter();
        }
    }
}

/// One event of the population loop: feeders are topped up, a creature and
/// an opponent (a creature or a feeder) are drawn, they fight with the given
/// round budget, the encounter is counted, and the survivors and children
/// rejoin the population.
pub fn population_event(
    pop: &mut Creatures,
    rng: &mut RngState,
    stats: &mut GlobalStatistics,
    max_rounds: usize,
    mutation_rate_ppm: u32,
)
    requires
        old(pop).wf(),
        old(pop).creatures@.len() >= 2,
        old(pop).creatures@.len() + old(pop).feeder_count <= usize::MAX,
        old(pop).id_giver.next_id_to_give_out > 0,
    ensures
        final(pop).id_giver.next_id_to_give_out >= old(pop).id_giver.next_id_to_give_out,
        final(pop).wf(),
        final(pop).max_pop_size == old(pop).max_pop_size,
        final(stats).encounters == bumped(old(stats).encounters),
        final(stats).rounds >= old(stats).rounds,
{
    pop.refill_feeders();
    let p1 = pop.random_creature();
    let p2 = pop.random_creature_or_feeder();
    let encounter = Encounter::new(p1, p2, max_rounds, mutation_rate_ppm);
    let result = encounter.run(rng, &mut pop.id_giver);
    stats.absorb(result.stats);
    pop.absorb_all(result.survivors);
}

} // verus!
