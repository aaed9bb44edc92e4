use evofighters::arena::{damage_matrix, population_event, not_attack_mate_defend, CreatureChance, Encounter, FightStatus};
use evofighters::ast::{ActorType, Action, BinOp, Condition, Value};
use evofighters::creatures::{Creature, CreatureID, Creatures, DeserializableCreature, IDGiver};
use evofighters::dna::{Gene, DNA, STOP_CODON};
use evofighters::eval::{evaluate, evaluate_with_roll, PerformableAction};
use evofighters::lex::{Attribute, DamageType, Item, Signal};
use evofighters::parsing::{decode, Decision, Failure, Parser, Thought};
use evofighters::rng::RngState;
use evofighters::simplify::{cycle_detect, simplify, ThoughtCycle};
use evofighters::stats::{CreatureStats, EncounterStats, GlobalStatistics};
use evofighters::{DEFAULT_ENERGY, MAX_THINKING_STEPS};

fn decision(tree: Condition, offset: usize, icount: usize, skipped: usize) -> Decision {
    Decision { tree, offset, icount, skipped }
}

#[test]
fn split_by_thread_divides_evenly() {
    let id_giver = IDGiver::new(14, 1);
    let creats = Creatures {
        id_giver,
        rng: RngState::default_seed(),
        feeder_count: 3,
        max_pop_size: 10,
        creatures: vec![
            Creature::seed_creature(CreatureID(1)),
            Creature::seed_creature(CreatureID(3)),
            Creature::seed_creature(CreatureID(5)),
            Creature::seed_creature(CreatureID(7)),
            Creature::seed_creature(CreatureID(9)),
            Creature::seed_creature(CreatureID(11)),
            Creature::seed_creature(CreatureID(13)),
        ],
    };
    let mut res = creats.split_by_thread(3);
    assert_eq!(res.len(), 3);
    let one = res.remove(0);
    let two = res.remove(0);
    let three = res.remove(0);
    assert_eq!(one.creatures.len(), 3);
    assert_eq!(one.creatures[0].id, CreatureID(1));
    assert_eq!(one.creatures[1].id, CreatureID(3));
    assert_eq!(one.creatures[2].id, CreatureID(5));
    assert_eq!(one.max_pop_size, 4);
    assert_eq!(one.feeder_count, 1);
    assert_eq!(one.id_giver.next_id_to_give_out, 14);
    assert_eq!(one.id_giver.modulus, 3);

    assert_eq!(two.creatures.len(), 2);
    assert_eq!(two.creatures[0].id, CreatureID(7));
    assert_eq!(two.creatures[1].id, CreatureID(9));
    assert_eq!(two.max_pop_size, 3);
    assert_eq!(two.feeder_count, 1);
    assert_eq!(two.id_giver.next_id_to_give_out, 15);
    assert_eq!(two.id_giver.modulus, 3);

    assert_eq!(three.creatures.len(), 2);
    assert_eq!(three.creatures[0].id, CreatureID(11));
    assert_eq!(three.creatures[1].id, CreatureID(13));
    assert_eq!(three.max_pop_size, 3);
    assert_eq!(three.feeder_count, 1);
    assert_eq!(three.id_giver.next_id_to_give_out, 16);
    assert_eq!(three.id_giver.modulus, 3);
}

#[test]
fn seed_genome_decodes_to_always_mate() {
    let dna = DNA::seed();
    let t = decode(&dna, 0);
    assert_eq!(t, Thought::Dec(decision(Condition::Always(Action::Mate), 2, 2, 0)));
    let t2 = decode(&dna, 2);
    assert_eq!(t2, Thought::Dec(decision(Condition::Always(Action::Flee), 0, 2, 1)));
}

#[test]
fn seed_cycle_is_mate_then_flee() {
    let dna = DNA::seed();
    let mut tc = cycle_detect(&dna).unwrap();
    assert_eq!(tc.thoughts.len(), 2);
    assert_eq!(tc.cycle_offset, 0);
    assert_eq!(tc.thoughts[0].tree, Condition::Always(Action::Mate));
    assert_eq!(tc.thoughts[1].tree, Condition::Always(Action::Flee));
    let mut trees = Vec::new();
    for _ in 0..5 {
        trees.push(tc.next().tree);
    }
    assert_eq!(trees[0], Condition::Always(Action::Mate));
    assert_eq!(trees[1], Condition::Always(Action::Flee));
    assert_eq!(trees[2], Condition::Always(Action::Mate));
    assert_eq!(trees[4], Condition::Always(Action::Mate));
}

#[test]
fn decoding_twice_gives_identical_results() {
    let dna = DNA::from_codons(vec![3, 2, 5, 0, 9, 1, 4, 7, 0, 2, 6, 1, 8, -1, 0, 0, 7]);
    for off in 0..dna.len() {
        assert_eq!(decode(&dna, off), decode(&dna, off));
    }
}

#[test]
fn all_stop_genome_runs_out_of_budget() {
    let dna = DNA(vec![Gene::new(), Gene::new()]);
    match decode(&dna, 0) {
        Thought::Ind(ind) => {
            assert_eq!(ind.reason, Failure::TookTooLong);
            assert_eq!(ind.icount + ind.skipped, MAX_THINKING_STEPS + 1);
        }
        Thought::Dec(_) => panic!("a genome of stop codons gave a decision"),
    }
    assert_eq!(cycle_detect(&dna).err(), Some(Failure::DNAEmpty));
}

#[test]
fn budget_is_never_exceeded_by_a_decision() {
    let genomes: Vec<Vec<i8>> = vec![
        vec![0, 2, -1, 0, 8],
        vec![1, 0, 5, 0, 3, 0, 9, 2, 7, 0],
        vec![2, 2, 0, 3, 1, 7, 8, 4, 0, 1, 2, 3],
        vec![-5, -5, 100, 100, 0, -9, 4],
    ];
    for g in genomes {
        let dna = DNA::from_codons(g);
        for off in 0..dna.len() {
            match decode(&dna, off) {
                Thought::Dec(d) => assert!(d.icount + d.skipped <= MAX_THINKING_STEPS),
                Thought::Ind(i) => assert!(
                    i.reason == Failure::ParseTreeTooDeep
                        || (i.reason == Failure::TookTooLong && i.icount + i.skipped == MAX_THINKING_STEPS + 1)
                ),
            }
        }
    }
}

#[test]
fn endless_subconditions_are_too_deep() {
    let dna = DNA::from_codons(vec![0, 0, 0, 0, 0]);
    match decode(&dna, 0) {
        Thought::Ind(ind) => assert_eq!(ind.reason, Failure::ParseTreeTooDeep),
        Thought::Dec(_) => panic!("an endless nesting gave a decision"),
    }
    assert_eq!(cycle_detect(&dna).err(), Some(Failure::ParseTreeTooDeep));
}

#[test]
fn skipped_codons_are_counted() {
    // 9 names no condition, so it is skipped; then Always, Signal, Blue.
    let dna = DNA::from_codons(vec![9, 0, 5, 3, -1]);
    assert_eq!(
        decode(&dna, 0),
        Thought::Dec(decision(Condition::Always(Action::Signal(Signal::Blue)), 4, 3, 1))
    );
}

#[test]
fn range_compare_decodes() {
    // InRange, Literal 4, Me Energy, Other Kills, Attack Ice, Defend Fire.
    let dna = DNA::from_codons(vec![1, 0, 4, 2, 0, 3, 3, 1, 1, 3, 0]);
    let expected = Condition::RangeCompare {
        value: Value::Literal(4),
        bound_a: Value::Me(Attribute::Energy),
        bound_b: Value::Other(Attribute::Kills),
        affirmed: Action::Attack(DamageType::Ice),
        denied: Action::Defend(DamageType::Fire),
    };
    assert_eq!(decode(&dna, 0), Thought::Dec(decision(expected, 11, 11, 0)));
}

#[test]
fn feeder_always_waits_at_a_cost_above_budget() {
    let mut feeder = Creature::feeder();
    for _ in 0..4 {
        let d = feeder.next_decision();
        assert_eq!(d.tree, Condition::Always(Action::Wait));
        assert_eq!(d.skipped, MAX_THINKING_STEPS + 1);
        assert!(d.icount + d.skipped > MAX_THINKING_STEPS);
    }
    let mut p = Parser::feeder_new();
    match p.next() {
        Thought::Dec(d) => {
            assert_eq!(d.tree, Condition::Always(Action::Wait));
            assert_eq!(d.skipped, MAX_THINKING_STEPS + 1);
        }
        Thought::Ind(_) => panic!("the feeder failed to decide"),
    }
    let tc = ThoughtCycle::feeder();
    assert_eq!(tc.len(), 1);
}

#[test]
fn attack_against_attack_table_entry() {
    let a = PerformableAction::Attack(DamageType::Fire);
    let b = PerformableAction::Attack(DamageType::Ice);
    let c = damage_matrix(a, b);
    assert_eq!(c.chance_to_mate, 0);
    assert_eq!(c.p1, CreatureChance { chance_to_hit: 75, dmg_multiplier: 50, mating_share: 0 });
    assert_eq!(c.p2, CreatureChance { chance_to_hit: 75, dmg_multiplier: 50, mating_share: 0 });
    let mut rng = RngState::default_seed();
    let mut hits = 0;
    for _ in 0..2000 {
        let d = c.p1.damage(&mut rng);
        assert!(d <= 3);
        if d > 0 {
            hits += 1;
            assert!(d >= 1);
        }
    }
    assert!(hits > 1300 && hits < 1700);
}

#[test]
fn outcome_table_entries() {
    let atk = PerformableAction::Attack(DamageType::Fire);
    let def = PerformableAction::Defend(DamageType::Ice);
    assert_eq!(damage_matrix(atk, def).p1.chance_to_hit, 25);
    assert_eq!(damage_matrix(def, atk).p2.dmg_multiplier, 25);
    let am = damage_matrix(atk, PerformableAction::Mate);
    assert_eq!((am.chance_to_mate, am.p1.chance_to_hit, am.p1.dmg_multiplier, am.p1.mating_share), (50, 50, 75, 70));
    assert_eq!((am.p2.chance_to_hit, am.p2.mating_share), (0, 30));
    assert_eq!(damage_matrix(atk, PerformableAction::Wait).p1.chance_to_hit, 100);
    assert_eq!(damage_matrix(PerformableAction::Eat, atk).p2.dmg_multiplier, 100);
    assert_eq!(damage_matrix(def, PerformableAction::Mate).chance_to_mate, 25);
    let mm = damage_matrix(PerformableAction::Mate, PerformableAction::Mate);
    assert_eq!((mm.chance_to_mate, mm.p1.mating_share, mm.p2.mating_share), (100, 50, 50));
    let mw = damage_matrix(PerformableAction::Mate, PerformableAction::Wait);
    assert_eq!((mw.chance_to_mate, mw.p1.mating_share, mw.p2.mating_share), (75, 0, 100));
    let wm = damage_matrix(PerformableAction::Flee, PerformableAction::Mate);
    assert_eq!((wm.chance_to_mate, wm.p1.mating_share, wm.p2.mating_share), (75, 100, 0));
    let md = damage_matrix(PerformableAction::Mate, def);
    assert_eq!((md.chance_to_mate, md.p1.mating_share, md.p2.mating_share), (25, 30, 70));
    let ww = damage_matrix(PerformableAction::Wait, PerformableAction::Signal(Signal::Red));
    assert_eq!((ww.chance_to_mate, ww.p1.chance_to_hit, ww.p2.chance_to_hit), (0, 0, 0));
    assert!(not_attack_mate_defend(PerformableAction::Flee));
    assert!(!not_attack_mate_defend(def));
    assert!(!not_attack_mate_defend(PerformableAction::NoAction));
}

#[test]
fn simplifier_folds_literals_and_keeps_evaluation() {
    let tree = Condition::BinCompare {
        operation: BinOp::LT,
        lhs: Value::Literal(3),
        rhs: Value::Literal(5),
        affirmed: Action::Subcondition(Box::new(Condition::Always(Action::Eat))),
        denied: Action::Flee,
    };
    assert_eq!(simplify(tree.duplicate()), Condition::Always(Action::Eat));
    let nested = Condition::Always(Action::Subcondition(Box::new(Condition::ActionCompare {
        actor_type: ActorType::Other,
        action: Action::Mate,
        affirmed: Action::Take,
        denied: Action::Take,
    })));
    assert_eq!(simplify(nested.duplicate()), Condition::Always(Action::Take));
    let ranged = Condition::RangeCompare {
        value: Value::Literal(9),
        bound_a: Value::Literal(10),
        bound_b: Value::Literal(2),
        affirmed: Action::Wait,
        denied: Action::Mate,
    };
    assert_eq!(simplify(ranged.duplicate()), Condition::Always(Action::Wait));
    let me = Creature::seed_creature(CreatureID(4));
    let other = Creature::feeder();
    let dynamic = Condition::RangeCompare {
        value: Value::Me(Attribute::Energy),
        bound_a: Value::Random,
        bound_b: Value::Other(Attribute::Signal),
        affirmed: Action::Subcondition(Box::new(Condition::Always(Action::Attack(DamageType::Ice)))),
        denied: Action::Signal(Signal::Orange),
    };
    for t in [tree, nested, ranged, dynamic] {
        for roll in 0..9 {
            let before = evaluate_with_roll(&me, &other, roll, &t);
            let after = evaluate_with_roll(&me, &other, roll, &simplify(t.duplicate()));
            assert_eq!(before, after);
        }
        assert_eq!(evaluate(&me, &other, &t), evaluate(&me, &other, &simplify(t.duplicate())));
    }
}

#[test]
fn evaluation_reads_attributes() {
    let mut me = Creature::seed_creature(CreatureID(8));
    me.add_item(Item::BetterFood);
    let other = Creature::feeder();
    assert_eq!(me.attr(Attribute::Energy), DEFAULT_ENERGY);
    assert_eq!(me.attr(Attribute::TopItem), 3);
    assert_eq!(other.attr(Attribute::Signal), 6);
    let t = Condition::BinCompare {
        operation: BinOp::GT,
        lhs: Value::Me(Attribute::TopItem),
        rhs: Value::Other(Attribute::TopItem),
        affirmed: Action::Mate,
        denied: Action::Flee,
    };
    assert_eq!(evaluate_with_roll(&me, &other, 0, &t), PerformableAction::Mate);
    let last = Condition::ActionCompare {
        actor_type: ActorType::Me,
        action: Action::Wait,
        affirmed: Action::Eat,
        denied: Action::Take,
    };
    assert_eq!(evaluate_with_roll(&me, &other, 0, &last), PerformableAction::Take);
    me.last_action = PerformableAction::Wait;
    assert_eq!(evaluate_with_roll(&me, &other, 0, &last), PerformableAction::Eat);
}

#[test]
fn child_genome_is_at_most_one_gene_longer() {
    let mother = DNA::from_codons(vec![0, 2, -1, 0, 8, 1, 1, 1, 1, 1, 2, 2, 2, 2, 2]);
    let father = DNA::from_codons(vec![0, 7, -1, -1, -1]);
    let mut rng = RngState::new(1, 2, 3, 4);
    for _ in 0..300 {
        let (child, _) = DNA::combine(&mother, &father, &mut rng, 500_000);
        assert!(child.0.len() <= 4);
        let (plain, mutated) = DNA::combine(&mother, &father, &mut rng, 0);
        assert!(!mutated);
        assert_eq!(plain.0.len(), 3);
        assert!(plain.0[0] == mother.0[0] || plain.0[0] == father.0[0]);
    }
}

#[test]
fn crossover_stops_at_a_pair_of_blank_genes() {
    let mother = DNA(vec![Gene::mate_then_flee(), Gene::new(), Gene::always_wait()]);
    let father = DNA(vec![Gene::always_wait()]);
    let mut rng = RngState::default_seed();
    let (child, mutated) = DNA::combine(&mother, &father, &mut rng, 0);
    assert!(!mutated);
    assert_eq!(child.0.len(), 1);
}

#[test]
fn failed_payment_takes_nothing() {
    let mut c = Creature::seed_creature(CreatureID(2));
    c.add_item(Item::Food);
    c.add_item(Item::GoodFood);
    // half of the cost is 20; the items are worth 2 and 4
    assert!(!c.pay_for_mating(50));
    assert_eq!(c.inv, vec![Item::Food, Item::GoodFood]);
    assert_eq!(c.mating_items(50), None);
    // a tenth is 4: the top item covers it
    assert!(c.pay_for_mating(10));
    assert_eq!(c.inv, vec![Item::Food]);
    assert!(c.pay_for_mating(0));
    assert_eq!(c.inv, vec![Item::Food]);
}

#[test]
fn full_payment_pops_from_the_top() {
    let mut c = Creature::seed_creature(CreatureID(2));
    c.add_item(Item::ExcellentFood);
    c.add_item(Item::ExcellentFood);
    c.add_item(Item::BetterFood);
    c.add_item(Item::Food);
    assert_eq!(c.inv.len(), 3);
    // 30 percent is 12: 6 from the top item, then 8
    assert_eq!(c.mating_items(30), Some(2));
    assert!(c.pay_for_mating(30));
    assert_eq!(c.inv, vec![Item::ExcellentFood]);
}

#[test]
fn creature_energy_and_items() {
    let mut c = Creature::seed_creature(CreatureID(5));
    c.lose_energy(15);
    assert_eq!(c.energy(), 25);
    c.eat(Item::ExcellentFood);
    assert_eq!(c.energy(), 37);
    c.gain_energy(100);
    assert_eq!(c.energy(), DEFAULT_ENERGY);
    c.lose_energy(1000);
    assert_eq!(c.energy(), 0);
    assert!(c.dead());
    let mut f = Creature::feeder();
    assert!(f.alive());
    assert_eq!(f.pop_item(), Some(Item::Food));
    assert!(f.dead());
    let mut thief = Creature::seed_creature(CreatureID(6));
    let mut victim = Creature::feeder();
    thief.steal_from(&mut victim);
    assert_eq!(thief.top_item(), Some(Item::Food));
    assert_eq!(victim.top_item(), None);
}

#[test]
fn carryout_signal_eat_take() {
    let mut a = Creature::seed_creature(CreatureID(1));
    let mut b = Creature::seed_creature(CreatureID(2));
    b.add_item(Item::GoodFood);
    assert_eq!(a.carryout(&mut b, PerformableAction::Signal(Signal::Purple)), FightStatus::Continue);
    assert_eq!(a.signal, Some(Signal::Purple));
    assert_eq!(a.carryout(&mut b, PerformableAction::Take), FightStatus::Continue);
    assert_eq!(a.inv, vec![Item::GoodFood]);
    assert!(b.inv.is_empty());
    a.lose_energy(10);
    assert_eq!(a.carryout(&mut b, PerformableAction::Eat), FightStatus::Continue);
    assert_eq!(a.energy(), 36);
    a.kill();
    assert_eq!(a.carryout(&mut b, PerformableAction::Wait), FightStatus::End);
    let mut f = Creature::feeder();
    assert_eq!(f.carryout(&mut b, PerformableAction::Flee), FightStatus::Continue);
}

#[test]
fn ids_are_never_reused() {
    let mut g = IDGiver::unthreaded();
    assert_eq!(g.next_creature_id(), CreatureID(1));
    assert_eq!(g.next_creature_id(), CreatureID(2));
    let givers = IDGiver::per_thread(3);
    assert_eq!(givers.len(), 3);
    assert_eq!(givers[2].next_id_to_give_out, 3);
    assert_eq!(givers[0].modulus, 3);
    assert!(CreatureID::feeder().is_feeder());
    assert!(!CreatureID(7).is_feeder());
    assert_eq!(CreatureID::parents_to_u32((CreatureID(0), CreatureID(0))), 0);
    assert_eq!(CreatureID::parents_to_u32((CreatureID(1), CreatureID(1))), 1 ^ 65537);
}

#[test]
fn genome_basics() {
    let dna = DNA::from_codons(vec![1, 2, 3, 4, 5, 6, 7]);
    assert_eq!(dna.0.len(), 2);
    assert_eq!(dna.len(), 10);
    assert_eq!(dna.0[1].iter(), vec![6, 7, STOP_CODON, STOP_CODON, STOP_CODON]);
    assert!(dna.valid());
    assert!(!DNA(vec![]).valid());
    assert!(!DNA(vec![Gene::new()]).valid());
    assert_eq!(DNA::from_codons(vec![]).0.len(), 1);
    assert!(Gene::always_wait().valid());
    assert!(Gene::new().invalid());
    let mut it = dna.base_stream(9);
    assert_eq!(it.next_codon(), STOP_CODON);
    assert_eq!(it.next_codon(), 1);
    assert_eq!(it.offset(), 1);
}

#[test]
fn hashes_depend_on_seed_and_genome() {
    let a = DNA::seed();
    let b = DNA::feeder();
    assert_ne!(a.hash(), b.hash());
    assert_ne!(a.seeded_hash(1), a.seeded_hash(2));
    assert_eq!(a.hash(), a.seeded_hash(17));
    assert_eq!(a.hash(), DNA::seed().hash());
}

#[test]
fn random_draws_stay_in_range() {
    let mut rng = RngState::default_seed();
    for _ in 0..500 {
        let x = rng.uniform(3, 7);
        assert!((3..=7).contains(&x));
        let y = rng.rand_range(2, 5);
        assert!((2..5).contains(&y));
        assert_eq!(rng.rand_range(4, 4), 4);
    }
    assert!(rng.rand_weighted_bool(1));
    let mut child = rng.spawn();
    assert!(child.uniform(0, 1) <= 1);
}

#[test]
fn gene_mutation_changes_little() {
    let mut rng = RngState::new(9, 9, 9, 9);
    for _ in 0..200 {
        let mut g = Gene::mate_then_flee();
        let born = g.mutate(&mut rng);
        if let Some(new_gene) = born {
            assert_eq!(g, Gene::mate_then_flee());
            assert!(new_gene.0.iter().filter(|&&c| c != STOP_CODON).count() <= 1);
        }
        assert!(g.0.iter().all(|&c| (-1..=8).contains(&c)));
    }
}

#[test]
fn encounter_between_seeds_ends_sanely() {
    let mut rng = RngState::default_seed();
    let mut ids = IDGiver::new(100, 1);
    let mut a = Creature::seed_creature(CreatureID(1));
    let mut b = Creature::seed_creature(CreatureID(2));
    for _ in 0..3 {
        a.add_item(Item::ExcellentFood);
        b.add_item(Item::ExcellentFood);
    }
    let enc = Encounter::new(a, b, 50, 100_000);
    let result = enc.run(&mut rng, &mut ids);
    assert!(result.stats.rounds >= 1 && result.stats.rounds <= 50);
    assert!(result.survivors.len() <= 2 + result.stats.children_born);
    let mut g = GlobalStatistics::new();
    g.absorb(result.stats);
    assert_eq!(g.encounters, 1);
    assert_eq!(g.rounds, result.stats.rounds);
}

#[test]
fn encounter_with_feeder_and_attacker() {
    let mut rng = RngState::default_seed();
    let mut ids = IDGiver::new(100, 1);
    let attacker = Creature::new(CreatureID(3), DNA::from_codons(vec![0, 1, 0, -1, -1]), 1, (CreatureID(1), CreatureID(2))).unwrap();
    let enc = Encounter::new(attacker, Creature::feeder(), 0, 0);
    assert_eq!(enc.max_rounds, 1);
    let result = enc.run(&mut rng, &mut ids);
    assert_eq!(result.stats.rounds, 1);
    assert_eq!(result.stats.feeders_eaten, 1);
    assert_eq!(result.survivors.len(), 1);
    assert_eq!(result.survivors[0].stats.eaten, 1);
    assert_eq!(result.survivors[0].top_item(), Some(Item::Food));
    let s = EncounterStats::new();
    assert_eq!(s.rounds, 0);
    assert_eq!(CreatureStats::new().kills, 0);
}

#[test]
fn stored_creature_is_restored() {
    let stored = DeserializableCreature {
        dna: DNA::seed(),
        inv: vec![Item::Food],
        energy: 12,
        generation: 3,
        signal: None,
        last_action: PerformableAction::Wait,
        id: CreatureID(42),
        parents: (CreatureID(1), CreatureID(2)),
        stats: CreatureStats::new(),
    };
    let c = stored.into_creature().unwrap();
    assert_eq!(c.id, CreatureID(42));
    assert_eq!(c.energy(), 12);
    assert_eq!(c.thought_cycle.len(), 2);
    let bad = DeserializableCreature {
        dna: DNA(vec![Gene::new()]),
        inv: vec![],
        energy: 1,
        generation: 0,
        signal: None,
        last_action: PerformableAction::NoAction,
        id: CreatureID(43),
        parents: (CreatureID(0), CreatureID(0)),
        stats: CreatureStats::new(),
    };
    assert_eq!(bad.into_creature().err().map(|_| ()), Some(()));
}

#[test]
fn population_takes_back_creatures() {
    let mut pop = Creatures::new(4);
    assert_eq!(pop.len(), 4);
    let c = pop.random_creature();
    assert_eq!(pop.len(), 3);
    pop.absorb(c);
    assert_eq!(pop.len(), 4);
    pop.absorb(Creature::feeder());
    assert_eq!(pop.feeder_count(), 1);
    let mut dead = Creature::seed_creature(CreatureID(99));
    dead.kill();
    pop.absorb(dead);
    assert_eq!(pop.len(), 4);
    pop.shuffle();
    assert_eq!(pop.len(), 4);
    let mut small = Creatures::new(1);
    small.max_pop_size = 5;
    small.refill_feeders();
    assert_eq!(small.feeder_count(), 4);
    let _ = small.random_creature_or_feeder();
    assert_eq!(small.len() + small.feeder_count(), 4);
}

#[test]
fn population_event_counts_an_encounter() {
    let mut pop = Creatures::new(6);
    let mut rng = RngState::new(5, 6, 7, 8);
    let mut stats = GlobalStatistics::new();
    for _ in 0..20 {
        if pop.len() < 2 {
            break;
        }
        population_event(&mut pop, &mut rng, &mut stats, 30, 100_000);
    }
    assert!(stats.encounters >= 1);
    assert!(stats.rounds >= stats.encounters);
    assert_eq!(pop.max_pop_size, 6);
}

#[test]
fn cycle_replays_the_decode_stream() {
    let genomes: Vec<Vec<i8>> = vec![
        vec![0, 2, -1, 0, 8],
        vec![4, 9, 0, 5, 1, 0, 7, 0, 4, 0, 6, 0, 8, 0, 3],
        vec![1, 0, 4, 2, 0, 3, 3, 1, 1, 3, 0, 0, 7, -1, 0, 6, 5, 2],
        vec![7, 0, 4, 0, 8, 4, 0, 2, 3, 1, 0, 0, 7, 0, 2],
        vec![6, 2, 7, 8, 0, 4, 0, 5, 6, 0, 9, 9, 3, 0, 1, 1, 2, 1],
    ];
    for g in genomes {
        let dna = DNA::from_codons(g);
        let mut tc = match cycle_detect(&dna) {
            Ok(tc) => tc,
            Err(_) => continue,
        };
        let mut offset = 0;
        for _ in 0..60 {
            let raw = match decode(&dna, offset) {
                Thought::Dec(d) => d,
                Thought::Ind(_) => panic!("a cached genome failed to decode"),
            };
            let cached = tc.next();
            assert_eq!(cached.tree, simplify(raw.tree.duplicate()));
            assert_eq!(cached.offset, raw.offset);
            assert_eq!(cached.icount, raw.icount);
            assert_eq!(cached.skipped, raw.skipped);
            offset = raw.offset;
        }
    }
}

#[test]
fn per_thread_populations_share_out_identifiers() {
    let parts = Creatures::per_thread(2, 6);
    assert_eq!(parts.len(), 2);
    assert_eq!(parts[0].len(), 3);
    assert_eq!(parts[1].len(), 3);
    let mut ids: Vec<u64> = parts.iter().flat_map(|p| p.creatures.iter().map(|c| c.id.0)).collect();
    ids.sort();
    ids.dedup();
    assert_eq!(ids.len(), 6);
    assert!(!ids.contains(&0));
}

#[test]
fn mutation_from_given_draws() {
    let base = Gene([0, 2, -1, 0, 8]);
    let mut g = base;
    assert_eq!(g.apply_mutation(1, 0, 0, 0, 1), None);
    assert_eq!(g, Gene([8, 0, -1, 2, 0]));
    let mut g = base;
    assert_eq!(g.apply_mutation(2, 0, 0, 0, 1), None);
    assert_eq!(g, Gene::new());
    let mut g = base;
    assert_eq!(g.apply_mutation(3, 2, 0, 5, 1), Some(Gene([-1, -1, 5, -1, -1])));
    assert_eq!(g, base);
    let mut g = base;
    assert_eq!(g.apply_mutation(4, 4, 0, 0, 2), None);
    assert_eq!(g, Gene([0, 2, -1, 0, 0]));
    let mut g = base;
    assert_eq!(g.apply_mutation(5, 0, 4, 0, 1), None);
    assert_eq!(g, Gene([8, 2, -1, 0, 0]));
}

#[test]
fn damage_and_flee_from_given_rolls() {
    let c = CreatureChance { chance_to_hit: 75, dmg_multiplier: 50, mating_share: 0 };
    assert_eq!(c.damage_from_rolls(76, 2), 0);
    assert_eq!(c.damage_from_rolls(75, 3), 3);
    let weak = CreatureChance { chance_to_hit: 25, dmg_multiplier: 25, mating_share: 0 };
    assert_eq!(weak.damage_from_rolls(1, 1), 1);
    let mut a = Creature::seed_creature(CreatureID(1));
    assert_eq!(a.resolve_flee(5, 5, 3), FightStatus::Continue);
    assert_eq!(a.energy(), DEFAULT_ENERGY);
    assert_eq!(a.resolve_flee(6, 5, 3), FightStatus::End);
    assert_eq!(a.energy(), DEFAULT_ENERGY - 3);
}

#[test]
fn damage_goes_to_the_other_side() {
    let a = Creature::seed_creature(CreatureID(1));
    let b = Creature::seed_creature(CreatureID(2));
    let mut enc = Encounter::new(a, b, 10, 0);
    enc.apply_damage(3, 1);
    assert_eq!(enc.p2.energy(), DEFAULT_ENERGY - 3);
    assert_eq!(enc.p1.energy(), DEFAULT_ENERGY - 1);
    let mut rng = RngState::default_seed();
    assert!(evofighters::arena::first_mover(2, 101, &mut rng));
    assert!(!evofighters::arena::first_mover(101, 2, &mut rng));
}

#[test]
fn conclusion_of_two_survivors() {
    let a = Creature::seed_creature(CreatureID(1));
    let b = Creature::seed_creature(CreatureID(2));
    let enc = Encounter::new(a, b, 10, 0);
    let r = enc.conclude();
    assert_eq!(r.survivors.len(), 2);
    assert_eq!(r.survivors[0].stats.survived, 1);
    assert_eq!(r.survivors[1].last_action, PerformableAction::NoAction);
}

#[test]
fn mating_needs_both_sides_to_pay() {
    let mut a = Creature::seed_creature(CreatureID(1));
    let mut b = Creature::seed_creature(CreatureID(2));
    a.add_item(Item::Food);
    b.add_item(Item::ExcellentFood);
    b.add_item(Item::ExcellentFood);
    b.add_item(Item::ExcellentFood);
    let mut enc = Encounter::new(a, b, 10, 0);
    let mut rng = RngState::default_seed();
    let mut ids = IDGiver::new(50, 1);
    // p2 pays 50 percent (20), p1 pays 50 percent (20) but holds only 2
    let child = enc.try_mating(&mut rng, &mut ids, 1, 100, 50, 50);
    assert!(child.is_none());
    assert_eq!(enc.p1.inv, vec![Item::Food]);
    assert_eq!(enc.p2.inv.len(), 3);
    assert_eq!(ids.next_id_to_give_out, 50);
    // a roll above the chance never mates
    enc.p1.add_item(Item::ExcellentFood);
    enc.p1.add_item(Item::ExcellentFood);
    assert!(enc.try_mating(&mut rng, &mut ids, 80, 75, 50, 50).is_none());
    assert_eq!(enc.p1.inv.len(), 3);
    // both can pay: the seed genomes breed a living child
    // p2 pays 20 with its three items, p1 pays 12 with its two top items
    let child = enc.try_mating(&mut rng, &mut ids, 1, 100, 50, 30);
    assert!(child.is_some());
    assert_eq!(enc.p2.inv.len(), 0);
    assert_eq!(enc.p1.inv, vec![Item::Food]);
    assert_eq!(ids.next_id_to_give_out, 51);
}
