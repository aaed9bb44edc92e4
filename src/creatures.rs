//! Creatures: a genome, its cached thought cycle, an inventory, energy and
//! lifetime counters; and the identifiers they are known by.

use vstd::prelude::*;

use crate::arena::FightStatus;
use crate::dna::DNA;
use crate::eval::PerformableAction;
use crate::lex::{Attribute, Item, Signal, TokenKind};
use crate::ast::{Action, Condition};
use crate::parsing::{decode_spec, read_token, scan, Cursor, Decision, Failure, Parsed, Thought};
use crate::rng::RngState;
use crate::simplify::{cycle_detect, orbit, stream_thought, ThoughtCycle};
use crate::stats::{bump, bumped, CreatureStats};
use crate::{DEFAULT_ENERGY, MATING_COST, MAX_INV_SIZE};

verus! {

/// A creature's identifier; 0 is the feeder's.
#[derive(Debug, Copy, Clone, PartialEq, Eq, Structural)]
pub struct CreatureID(pub u64);

impl CreatureID {
    pub fn feeder() -> (r: CreatureID)
        ensures
            r.0 == 0,
    {
        CreatureID(0)
    }

    pub fn is_feeder(&self) -> (r: bool)
        ensures
            r == (self.0 == 0),
    {
        self.0 == 0
    }

    /// Folds a pair of parent identifiers into one word.
    pub fn parents_to_u32(parents: (CreatureID, CreatureID)) -> (r: u32)
        ensures
            r == (((parents.0.0 ^ (parents.0.0 >> 16u64)) as u32) ^ ((parents.1.0 ^ (parents.1.0 << 16u64)) as u32)),
    {
        let p1 = parents.0.0;
        let p2 = parents.1.0;
        let p1_prime: u32 = (p1 ^ (p1 >> 16u64)) as u32;
        let p2_prime: u32 = (p2 ^ (p2 << 16u64)) as u32;
        p1_prime ^ p2_prime
    }
}

/// Hands out creature identifiers: `start`, `start + modulus`, and so on,
/// so that givers with the same modulus and different starts never clash.
#[derive(Copy, Clone, Debug)]
pub struct IDGiver {
    pub next_id_to_give_out: u64,
    pub modulus: u64,
}

impl IDGiver {
    pub fn new(start: u64, modulus: u64) -> (r: IDGiver)
        ensures
            r.next_id_to_give_out == start,
            r.modulus == modulus,
    {
        IDGiver { next_id_to_give_out: start, modulus }
    }

    /// A single giver: 1, 2, 3, ...
    pub fn unthreaded() -> (r: IDGiver)
        ensures
            r.next_id_to_give_out == 1,
            r.modulus == 1,
    {
        IDGiver::new(1, 1)
    }

    /// One giver per thread, starting at 1 to `num_threads`, each stepping
    /// by `num_threads`; none ever gives out the feeder's 0.
    pub fn per_thread(num_threads: usize) -> (r: Vec<IDGiver>)
        requires
            num_threads > 0,
            num_threads < u64::MAX,
        ensures
            r@.len() == num_threads,
            forall|i: int| 0 <= i < num_threads ==> (#[trigger] r@[i]).next_id_to_give_out == i + 1
                && r@[i].modulus == num_threads,
    {
        let nt = num_threads as u64;
        let mut v: Vec<IDGiver> = Vec::new();
        let mut i: u64 = 1;
        while i <= nt
            invariant
                1 <= i <= nt + 1,
                nt == num_threads,
                nt < u64::MAX,
                v@.len() == i - 1,
                forall|j: int| 0 <= j < i - 1 ==> (#[trigger] v@[j]).next_id_to_give_out == j + 1
                    && v@[j].modulus == nt,
            decreases nt + 1 - i,
        {
            v.push(IDGiver::new(i, nt));
            i += 1;
        }
        v
    }

    /// Splits this giver into `num_threads` givers that go on from its next
    /// identifier without clashing.
    pub fn into_threads(self, num_threads: usize) -> (r: Vec<IDGiver>)
        requires
            self.next_id_to_give_out + num_threads <= u64::MAX,
        ensures
            r@.len() == num_threads,
            forall|i: int| 0 <= i < num_threads ==> (#[trigger] r@[i]).next_id_to_give_out
                == self.next_id_to_give_out + i && r@[i].modulus == num_threads,
    {
        let nt = num_threads as u64;
        let mut v: Vec<IDGiver> = Vec::new();
        let mut i: u64 = 0;
        while i < nt
            invariant
                i <= nt,
                nt == num_threads,
                self.next_id_to_give_out + nt <= u64::MAX,
                v@.len() == i,
                forall|j: int| 0 <= j < i ==> (#[trigger] v@[j]).next_id_to_give_out == self.next_id_to_give_out
                    + j && v@[j].modulus == nt,
            decreases nt - i,
        {
            v.push(IDGiver::new(i + self.next_id_to_give_out, nt));
            i += 1;
        }
        v
    }

    /// Whether another identifier can be handed out.
    pub open spec fn has_room_spec(&self) -> bool {
        self.next_id_to_give_out + self.modulus <= u64::MAX
    }

    pub fn has_room(&self) -> (r: bool)
        ensures
            r == self.has_room_spec(),
    {
        self.next_id_to_give_out <= u64::MAX - self.modulus
    }

    /// The next identifier; the giver moves on by its modulus.
    pub fn next_creature_id(&mut self) -> (r: CreatureID)
        requires
            old(self).has_room_spec(),
        ensures
            r.0 == old(self).next_id_to_give_out,
            final(self).next_id_to_give_out == old(self).next_id_to_give_out + old(self).modulus,
            final(self).modulus == old(self).modulus,
    {
        let id = self.next_id_to_give_out;
        self.next_id_to_give_out = self.next_id_to_give_out + self.modulus;
        CreatureID(id)
    }
}

/// The share of the mating cost that `share` percent comes to, rounded to
/// the nearest whole.
pub open spec fn mating_cost(share: nat) -> int {
    ((MATING_COST * share + 50) / 100) as int
}

/// How many items from the top of `inv`, each worth twice its tier, it
/// takes to pay `cost`; none if all of them are not enough.
pub open spec fn items_needed(inv: Seq<Item>, cost: int) -> Option<nat>
    decreases inv.len(),
{
    if cost <= 0 {
        Some(0)
    } else if inv.len() == 0 {
        None
    } else {
        match items_needed(inv.drop_last(), cost - 2 * inv.last().value_spec()) {
            Some(k) => Some(k + 1),
            None => None,
        }
    }
}

/// An inventory after adding `item`: kept only where there is room.
pub open spec fn with_item(inv: Seq<Item>, item: Item) -> Seq<Item> {
    if inv.len() < MAX_INV_SIZE {
        inv.push(item)
    } else {
        inv
    }
}

/// Energy after a gain: capped at the default energy.
pub open spec fn gained(energy: usize, amount: usize) -> usize {
    if energy + amount <= DEFAULT_ENERGY {
        (energy + amount) as usize
    } else {
        DEFAULT_ENERGY
    }
}

/// Energy after a loss: never below zero.
pub open spec fn lost(energy: usize, amount: usize) -> usize {
    if energy >= amount {
        (energy - amount) as usize
    } else {
        0
    }
}

/// The seed genome decodes to always mate from offset 0, stopping at 2.
proof fn lemma_seed_first(c: Seq<i8>)
    requires
        c =~= seq![0i8, 2, -1i8, 0, 8],
    ensures
        decode_spec(c, 0) is Dec,
        decode_spec(c, 0).offset_spec() == 2,
        decode_spec(c, 0) == Thought::Dec(
            Decision { tree: Condition::Always(Action::Mate), offset: 2, icount: 2, skipped: 0 },
        ),
{
    let st0 = Cursor { pos: 0, icount: 0, skipped: 0 };
    let st1 = Cursor { pos: 1, icount: 1, skipped: 0 };
    let st2 = Cursor { pos: 2, icount: 2, skipped: 0 };
    assert(c.len() == 5 && c[0] == 0 && c[1] == 2);
    assert((1int % 5) == 1 && (2int % 5) == 2);
    assert(scan(c, TokenKind::Condition, st1, 0) == Parsed::Done(0u8, st1));
    assert(read_token(c, TokenKind::Condition, st0) == Parsed::Done(0u8, st1));
    assert(scan(c, TokenKind::Action, st2, 2) == Parsed::Done(2u8, st2));
    assert(read_token(c, TokenKind::Action, st1) == Parsed::Done(2u8, st2));
    assert(crate::parsing::parse_action_spec(c, st1, 0, 100) == Parsed::Done(crate::ast::Action::Mate, st2));
    assert(crate::parsing::parse_condition_spec(c, st0, 0, 101) == Parsed::Done(
        crate::ast::Condition::Always(crate::ast::Action::Mate),
        st2,
    ));
    reveal(decode_spec);
}

/// The seed genome decodes to always flee from offset 2 (skipping the stop
/// codon), back to 0.
proof fn lemma_seed_second(c: Seq<i8>)
    requires
        c =~= seq![0i8, 2, -1i8, 0, 8],
    ensures
        decode_spec(c, 2) is Dec,
        decode_spec(c, 2).offset_spec() == 0,
        decode_spec(c, 2) == Thought::Dec(
            Decision { tree: Condition::Always(Action::Flee), offset: 0, icount: 2, skipped: 1 },
        ),
{
    let st0 = Cursor { pos: 2, icount: 0, skipped: 0 };
    let st1 = Cursor { pos: 3, icount: 1, skipped: 0 };
    let st1s = Cursor { pos: 4, icount: 1, skipped: 1 };
    let st2 = Cursor { pos: 0, icount: 2, skipped: 1 };
    assert(c.len() == 5 && c[2] == -1 && c[3] == 0 && c[4] == 8);
    assert((3int % 5) == 3 && (4int % 5) == 4 && (5int % 5) == 0);
    assert(scan(c, TokenKind::Condition, st1s, 0) == Parsed::Done(0u8, st1s));
    assert(scan(c, TokenKind::Condition, st1, -1i8) == Parsed::Done(0u8, st1s));
    assert(read_token(c, TokenKind::Condition, st0) == Parsed::Done(0u8, st1s));
    assert(scan(c, TokenKind::Action, st2, 8) == Parsed::Done(8u8, st2));
    assert(read_token(c, TokenKind::Action, st1s) == Parsed::Done(8u8, st2));
    assert(crate::parsing::parse_action_spec(c, st1s, 0, 100) == Parsed::Done(crate::ast::Action::Flee, st2));
    assert(crate::parsing::parse_condition_spec(c, st0, 0, 101) == Parsed::Done(
        crate::ast::Condition::Always(crate::ast::Action::Flee),
        st2,
    ));
    reveal(decode_spec);
}

/// The seed genome's stream alternates between offsets 0 and 2 and never
/// fails.
proof fn lemma_seed_stream(c: Seq<i8>)
    requires
        c =~= seq![0i8, 2, -1i8, 0, 8],
    ensures
        forall|j: nat| (#[trigger] stream_thought(c, j)) is Dec,
        orbit(c, 0) == 0,
        orbit(c, 1) == 2,
        orbit(c, 2) == 0,
{
    lemma_seed_first(c);
    lemma_seed_second(c);
    assert forall|j: nat| (#[trigger] stream_thought(c, j)) is Dec by {
        lemma_seed_orbit(c, j);
    }
    assert(orbit(c, 0) == 0);
    assert(orbit(c, 1) == 2);
    assert(orbit(c, 2) == 0);
}

proof fn lemma_seed_orbit(c: Seq<i8>, j: nat)
    requires
        c.len() == 5,
        decode_spec(c, 0) is Dec,
        decode_spec(c, 2) is Dec,
        decode_spec(c, 0).offset_spec() == 2,
        decode_spec(c, 2).offset_spec() == 0,
    ensures
        orbit(c, j) == 0 || orbit(c, j) == 2,
    decreases j,
{
    if j > 0 {
        lemma_seed_orbit(c, (j - 1) as nat);
        assert(2int % 5 == 2 && 0int % 5 == 0);
    }
}

/// Whether a genome gives a thought cycle: it is valid and its decode
/// stream never fails.
pub open spec fn gives_cycle(dna: DNA) -> bool {
    dna.valid_spec() && forall|j: nat| (#[trigger] stream_thought(dna.codons(), j)) is Dec
}

/// Why a genome gives no thought cycle: `DNAEmpty` for an invalid genome,
/// else the reason of the first failing decode of its stream.
pub open spec fn refusal(dna: DNA, f: Failure) -> bool {
    (!dna.valid_spec() && f == Failure::DNAEmpty) || (dna.valid_spec() && exists|j: nat|
        (#[trigger] stream_thought(dna.codons(), j)) is Ind && stream_thought(dna.codons(), j)->Ind_0.reason == f
            && forall|i: nat| i < j ==> (#[trigger] stream_thought(dna.codons(), i)) is Dec)
}

/// A creature taking part in the simulation.
#[derive(Debug)]
pub struct Creature {
    pub id: CreatureID,
    pub generation: usize,
    pub signal: Option<Signal>,
    pub last_action: PerformableAction,
    pub parents: (CreatureID, CreatureID),
    pub stats: CreatureStats,
    pub dna: DNA,
    pub inv: Vec<Item>,
    pub energy: usize,
    pub thought_cycle: ThoughtCycle,
}

impl Creature {
    pub open spec fn wf(&self) -> bool {
        &&& self.dna.wf()
        &&& self.thought_cycle.wf()
    }

    pub open spec fn is_feeder_spec(&self) -> bool {
        self.id.0 == 0
    }

    pub open spec fn alive_spec(&self) -> bool {
        self.energy > 0 && (!self.is_feeder_spec() || self.inv@.len() > 0)
    }

    /// The number an attribute reads for this creature.
    pub open spec fn attr_spec(&self, attr: Attribute) -> nat {
        match attr {
            Attribute::Energy => self.energy as nat,
            Attribute::Signal => match self.signal {
                Some(s) => s.value_spec(),
                None => 0,
            },
            Attribute::Generation => self.generation as nat,
            Attribute::Kills => self.stats.kills as nat,
            Attribute::Survived => self.stats.survived as nat,
            Attribute::NumChildren => self.stats.num_children as nat,
            Attribute::TopItem => if self.inv@.len() > 0 {
                self.inv@.last().value_spec()
            } else {
                0
            },
        }
    }

    /// A creature born from `dna`, if its thought cycle can be computed.
    pub fn new(id: CreatureID, dna: DNA, generation: usize, parents: (CreatureID, CreatureID)) -> (r: Result<
        Creature,
        Failure,
    >)
        requires
            dna.wf(),
        ensures
            r is Ok ==> {
                let c = r->Ok_0;
                &&& c.wf()
                &&& c.thought_cycle.caches(dna.codons())
                &&& c.thought_cycle.cursor == 0
                &&& c.dna.0@ == dna.0@
                &&& c.id == id
                &&& c.generation == generation
                &&& c.parents == parents
                &&& c.energy == DEFAULT_ENERGY
                &&& c.inv@.len() == 0
                &&& c.signal is None
                &&& c.last_action == PerformableAction::NoAction
                &&& c.stats == (CreatureStats { kills: 0, num_children: 0, survived: 0, eaten: 0 })
            },
            gives_cycle(dna) ==> r is Ok,
            r is Err ==> refusal(dna, r->Err_0),
    {
        let thought_cycle = match cycle_detect(&dna) {
            Ok(tc) => tc,
            Err(f) => return Err(f),
        };
        Ok(
            Creature {
                dna,
                inv: Vec::new(),
                energy: DEFAULT_ENERGY,
                thought_cycle,
                generation,
                signal: None,
                last_action: PerformableAction::NoAction,
                id,
                parents,
                stats: CreatureStats::new(),
            },
        )
    }

    /// A creature of the seed genome, generation 0, with no parents; its
    /// thought cycle is that of the seed genome (always mate, then always
    /// flee).
    pub fn seed_creature(id: CreatureID) -> (r: Creature)
        ensures
            r.wf(),
            r.thought_cycle.caches(r.dna.codons()),
            r.dna.codons() == seq![0i8, 2, -1i8, 0, 8],
            r.thought_cycle.thoughts@.len() == 2,
            r.thought_cycle.thoughts@[0] == (Decision {
                tree: Condition::Always(Action::Mate),
                offset: 2,
                icount: 2,
                skipped: 0,
            }),
            r.thought_cycle.thoughts@[1] == (Decision {
                tree: Condition::Always(Action::Flee),
                offset: 0,
                icount: 2,
                skipped: 1,
            }),
            r.thought_cycle.cycle_offset == 0,
            r.thought_cycle.cursor == 0,
            r.signal is None,
            r.last_action == PerformableAction::NoAction,
            r.stats == (CreatureStats { kills: 0, num_children: 0, survived: 0, eaten: 0 }),
            r.id == id,
            r.generation == 0,
            r.energy == DEFAULT_ENERGY,
            r.inv@.len() == 0,
            r.parents == (CreatureID(0), CreatureID(0)),
    {
        let dna = DNA::seed();
        proof {
            let c = dna.codons();
            assert(c =~= seq![0i8, 2, -1i8, 0, 8]);
            lemma_seed_stream(c);
            assert(!dna.0@[0].is_blank());
        }
        let thought_cycle = match cycle_detect(&dna) {
            Ok(tc) => tc,
            Err(_) => {
                proof {
                    lemma_seed_stream(dna.codons());
                }
                vstd::pervasive::unreached()
            },
        };
        proof {
            let c = dna.codons();
            lemma_seed_stream(c);
            let n = thought_cycle.thoughts@.len();
            let mu = thought_cycle.cycle_offset as nat;
            if n >= 3 {
                assert(orbit(c, 0) != orbit(c, 2));
            }
            assert(orbit(c, 0) == 0);
            if n == 1 {
                assert(orbit(c, 1) == orbit(c, 0));
            }
            assert(n == 2);
            if mu == 1 {
                assert(orbit(c, 2) == orbit(c, 1));
            }
            lemma_seed_first(c);
            lemma_seed_second(c);
            reveal(crate::simplify::simplify_spec);
            assert(stream_thought(c, 0) == decode_spec(c, 0));
            assert(stream_thought(c, 1) == decode_spec(c, 2));
            assert(crate::simplify::fold_action(Action::Mate) == Action::Mate);
            assert(crate::simplify::fold_condition(Condition::Always(Action::Mate)) == Condition::Always(Action::Mate));
            assert(crate::simplify::unwrap_action(Action::Mate) == Action::Mate);
            assert(crate::simplify::unwrap_condition(Condition::Always(Action::Mate)) == Condition::Always(Action::Mate));
            assert(crate::simplify::fold_action(Action::Flee) == Action::Flee);
            assert(crate::simplify::fold_condition(Condition::Always(Action::Flee)) == Condition::Always(Action::Flee));
            assert(crate::simplify::unwrap_action(Action::Flee) == Action::Flee);
            assert(crate::simplify::unwrap_condition(Condition::Always(Action::Flee)) == Condition::Always(Action::Flee));
            assert(crate::simplify::simplify_spec(Condition::Always(Action::Mate)) == Condition::Always(Action::Mate));
            assert(crate::simplify::simplify_spec(Condition::Always(Action::Flee)) == Condition::Always(Action::Flee));
            assert(thought_cycle.thoughts@[0] == crate::simplify::simplified(stream_thought(c, 0)->Dec_0));
            assert(thought_cycle.thoughts@[1] == crate::simplify::simplified(stream_thought(c, 1)->Dec_0));
        }
        Creature {
            inv: Vec::new(),
            energy: DEFAULT_ENERGY,
            thought_cycle,
            dna,
            generation: 0,
            signal: None,
            last_action: PerformableAction::NoAction,
            id,
            parents: (CreatureID(0), CreatureID(0)),
            stats: CreatureStats::new(),
        }
    }

    /// The feeder: identifier 0, one food item, one energy, a green signal,
    /// and the fixed always-wait thought cycle.
    pub fn feeder() -> (r: Creature)
        ensures
            r.wf(),
            r.is_feeder_spec(),
            r.energy == 1,
            r.inv@ == seq![Item::Food],
            r.signal == Some(Signal::Green),
            r.last_action == PerformableAction::NoAction,
            r.thought_cycle.thoughts@ == ThoughtCycle::feeder_thoughts(),
            r.thought_cycle.cycle_offset == 0,
    {
        let r = Creature {
            id: CreatureID::feeder(),
            dna: DNA::feeder(),
            inv: vec![Item::Food],
            energy: 1,
            thought_cycle: ThoughtCycle::feeder(),
            generation: 0,
            signal: Some(Signal::Green),
            last_action: PerformableAction::NoAction,
            parents: (CreatureID(0), CreatureID(0)),
            stats: CreatureStats::new(),
        };
        assert(r.inv@ =~= seq![Item::Food]);
        r
    }

    /// The hash of the genome, seeded from the parents.
    pub fn hash(&self) -> (r: u32)
        requires
            self.dna.wf(),
        ensures
            r == crate::dna::xxh32_of(
                crate::dna::bytes_of(self.dna.codons()),
                (((self.parents.0.0 ^ (self.parents.0.0 >> 16u64)) as u32) ^ ((self.parents.1.0 ^ (
                self.parents.1.0 << 16u64)) as u32)),
            ),
    {
        self.dna.seeded_hash(CreatureID::parents_to_u32(self.parents))
    }

    /// The next decision of the creature's thought cycle.
    pub fn next_decision(&mut self) -> (r: Decision)
        requires
            old(self).wf(),
        ensures
            final(self).wf(),
            r == old(self).thought_cycle.thoughts@[old(self).thought_cycle.cursor as int],
            final(self).thought_cycle.cursor == old(self).thought_cycle.advance(
                old(self).thought_cycle.cursor as nat,
            ),
            final(self).thought_cycle.thoughts@ == old(self).thought_cycle.thoughts@,
            final(self).thought_cycle.cycle_offset == old(self).thought_cycle.cycle_offset,
            final(self).dna == old(self).dna,
            final(self).inv == old(self).inv,
            final(self).energy == old(self).energy,
            final(self).id == old(self).id,
            final(self).parents == old(self).parents,
            final(self).stats == old(self).stats,
            final(self).signal == old(self).signal,
            final(self).generation == old(self).generation,
            final(self).last_action == old(self).last_action,
    {
        self.thought_cycle.next()
    }

    pub fn is_feeder(&self) -> (r: bool)
        ensures
            r == self.is_feeder_spec(),
    {
        self.id.is_feeder()
    }

    /// The number an attribute reads: energy, signal colour (0 for none),
    /// generation, kills, encounters survived, children, or the top item's
    /// tier (0 for none).
    pub fn attr(&self, attr: Attribute) -> (r: usize)
        ensures
            r == self.attr_spec(attr),
    {
        match attr {
            Attribute::Energy => self.energy,
            Attribute::Signal => match self.signal {
                Some(sig) => sig.value(),
                None => 0,
            },
            Attribute::Generation => self.generation,
            Attribute::Kills => self.stats.kills,
            Attribute::Survived => self.stats.survived,
            Attribute::NumChildren => self.stats.num_children,
            Attribute::TopItem => match self.top_item() {
                Some(item) => item.value(),
                None => 0,
            },
        }
    }

    pub fn has_items(&self) -> (r: bool)
        ensures
            r == (self.inv@.len() > 0),
    {
        self.inv.len() > 0
    }

    /// Adds an item if the inventory has room; otherwise the item is lost.
    pub fn add_item(&mut self, item: Item)
        ensures
            final(self).generation == old(self).generation,
            final(self).parents == old(self).parents,
            final(self).inv@ == with_item(old(self).inv@, item),
            final(self).energy == old(self).energy,
            final(self).id == old(self).id,
            final(self).dna == old(self).dna,
            final(self).thought_cycle == old(self).thought_cycle,
            final(self).stats == old(self).stats,
            final(self).signal == old(self).signal,
            final(self).last_action == old(self).last_action,
    {
        if self.inv.len() < MAX_INV_SIZE {
            self.inv.push(item)
        }
    }

    /// Counts a survived encounter and forgets the last action.
    pub fn survived_encounter(&mut self)
        ensures
            final(self).signal == old(self).signal,
            final(self).generation == old(self).generation,
            final(self).parents == old(self).parents,
            final(self).stats.survived == bumped(old(self).stats.survived),
            final(self).stats.kills == old(self).stats.kills,
            final(self).stats.eaten == old(self).stats.eaten,
            final(self).stats.num_children == old(self).stats.num_children,
            final(self).last_action == PerformableAction::NoAction,
            final(self).energy == old(self).energy,
            final(self).inv == old(self).inv,
            final(self).id == old(self).id,
            final(self).dna == old(self).dna,
            final(self).thought_cycle == old(self).thought_cycle,
    {
        self.stats.survived = bump(self.stats.survived);
        self.last_action = PerformableAction::NoAction;
    }

    pub fn set_signal(&mut self, signal: Signal)
        ensures
            final(self).stats == old(self).stats,
            final(self).last_action == old(self).last_action,
            final(self).generation == old(self).generation,
            final(self).parents == old(self).parents,
            final(self).signal == Some(signal),
            final(self).energy == old(self).energy,
            final(self).inv == old(self).inv,
            final(self).id == old(self).id,
            final(self).dna == old(self).dna,
            final(self).thought_cycle == old(self).thought_cycle,
    {
        self.signal = Some(signal)
    }

    /// Takes the top item off the inventory.
    pub fn pop_item(&mut self) -> (r: Option<Item>)
        ensures
            final(self).generation == old(self).generation,
            final(self).parents == old(self).parents,
            old(self).inv@.len() == 0 ==> r is None && final(self).inv@ == old(self).inv@,
            old(self).inv@.len() > 0 ==> r == Some(old(self).inv@.last()) && final(self).inv@
                == old(self).inv@.drop_last(),
            final(self).energy == old(self).energy,
            final(self).id == old(self).id,
            final(self).dna == old(self).dna,
            final(self).thought_cycle == old(self).thought_cycle,
            final(self).stats == old(self).stats,
            final(self).signal == old(self).signal,
            final(self).last_action == old(self).last_action,
    {
        let r = self.inv.pop();
        proof {
            if old(self).inv@.len() > 0 {
                assert(self.inv@ =~= old(self).inv@.drop_last());
            }
        }
        r
    }

    /// The top item, if any.
    pub fn top_item(&self) -> (r: Option<Item>)
        ensures
            self.inv@.len() == 0 ==> r is None,
            self.inv@.len() > 0 ==> r == Some(self.inv@.last()),
    {
        if self.inv.len() > 0 {
            Some(self.inv[self.inv.len() - 1])
        } else {
            None
        }
    }

    /// Eats an item: three energy per tier, capped at the default energy.
    pub fn eat(&mut self, item: Item)
        ensures
            final(self).generation == old(self).generation,
            final(self).parents == old(self).parents,
            final(self).energy == gained(old(self).energy, (3 * item.value_spec()) as usize),
            final(self).inv == old(self).inv,
            final(self).id == old(self).id,
            final(self).dna == old(self).dna,
            final(self).thought_cycle == old(self).thought_cycle,
            final(self).stats == old(self).stats,
            final(self).signal == old(self).signal,
            final(self).last_action == old(self).last_action,
    {
        let energy_gain = 3 * item.value();
        self.gain_energy(energy_gain)
    }

    pub fn dead(&self) -> (r: bool)
        ensures
            r == !self.alive_spec(),
    {
        !self.alive()
    }

    /// Alive: energy left, and for the feeder its item too.
    pub fn alive(&self) -> (r: bool)
        ensures
            r == self.alive_spec(),
    {
        self.energy > 0 && (!self.is_feeder() || self.has_items())
    }

    /// Takes the other creature's top item, if any, keeping it if there is room.
    pub fn steal_from(&mut self, other: &mut Creature)
        ensures
            final(self).generation == old(self).generation,
            final(self).parents == old(self).parents,
            final(self).signal == old(self).signal,
            final(other).generation == old(other).generation,
            final(other).parents == old(other).parents,
            final(other).signal == old(other).signal,
            old(other).inv@.len() == 0 ==> final(other).inv@ == old(other).inv@ && final(self).inv@ == old(self).inv@,
            old(other).inv@.len() > 0 ==> final(other).inv@ == old(other).inv@.drop_last() && final(self).inv@
                == with_item(old(self).inv@, old(other).inv@.last()),
            final(self).energy == old(self).energy,
            final(other).energy == old(other).energy,
            final(self).id == old(self).id,
            final(other).id == old(other).id,
            final(self).dna == old(self).dna,
            final(other).dna == old(other).dna,
            final(self).thought_cycle == old(self).thought_cycle,
            final(other).thought_cycle == old(other).thought_cycle,
            final(self).stats == old(self).stats,
            final(other).stats == old(other).stats,
            final(self).last_action == old(self).last_action,
            final(other).last_action == old(other).last_action,
    {
        if let Some(item) = other.pop_item() {
            self.add_item(item)
        }
    }

    pub fn energy(&self) -> (r: usize)
        ensures
            r == self.energy,
    {
        self.energy
    }

    /// Loses energy, never below zero.
    pub fn lose_energy(&mut self, amount: usize)
        ensures
            final(self).generation == old(self).generation,
            final(self).parents == old(self).parents,
            final(self).energy == lost(old(self).energy, amount),
            final(self).inv == old(self).inv,
            final(self).id == old(self).id,
            final(self).dna == old(self).dna,
            final(self).thought_cycle == old(self).thought_cycle,
            final(self).stats == old(self).stats,
            final(self).signal == old(self).signal,
            final(self).last_action == old(self).last_action,
    {
        self.energy = if self.energy >= amount {
            self.energy - amount
        } else {
            0
        };
    }

    /// Gains energy, capped at the default energy.
    pub fn gain_energy(&mut self, amount: usize)
        ensures
            final(self).generation == old(self).generation,
            final(self).parents == old(self).parents,
            final(self).energy == gained(old(self).energy, amount),
            final(self).inv == old(self).inv,
            final(self).id == old(self).id,
            final(self).dna == old(self).dna,
            final(self).thought_cycle == old(self).thought_cycle,
            final(self).stats == old(self).stats,
            final(self).signal == old(self).signal,
            final(self).last_action == old(self).last_action,
    {
        self.energy = if self.energy <= DEFAULT_ENERGY && amount <= DEFAULT_ENERGY - self.energy {
            self.energy + amount
        } else {
            DEFAULT_ENERGY
        };
    }

    /// Sets energy to zero.
    pub fn kill(&mut self)
        ensures
            final(self).signal == old(self).signal,
            final(self).generation == old(self).generation,
            final(self).parents == old(self).parents,
            final(self).energy == 0,
            final(self).inv == old(self).inv,
            final(self).id == old(self).id,
            final(self).dna == old(self).dna,
            final(self).thought_cycle == old(self).thought_cycle,
            final(self).stats == old(self).stats,
            final(self).last_action == old(self).last_action,
    {
        self.energy = 0;
    }

    pub fn has_eaten(&mut self)
        ensures
            final(self).signal == old(self).signal,
            final(self).generation == old(self).generation,
            final(self).parents == old(self).parents,
            final(self).stats.eaten == bumped(old(self).stats.eaten),
            final(self).stats.kills == old(self).stats.kills,
            final(self).stats.survived == old(self).stats.survived,
            final(self).stats.num_children == old(self).stats.num_children,
            final(self).energy == old(self).energy,
            final(self).inv == old(self).inv,
            final(self).id == old(self).id,
            final(self).dna == old(self).dna,
            final(self).thought_cycle == old(self).thought_cycle,
            final(self).last_action == old(self).last_action,
    {
        self.stats.eaten = bump(self.stats.eaten);
    }

    pub fn has_killed(&mut self)
        ensures
            final(self).signal == old(self).signal,
            final(self).generation == old(self).generation,
            final(self).parents == old(self).parents,
            final(self).stats.kills == bumped(old(self).stats.kills),
            final(self).stats.eaten == old(self).stats.eaten,
            final(self).stats.survived == old(self).stats.survived,
            final(self).stats.num_children == old(self).stats.num_children,
            final(self).energy == old(self).energy,
            final(self).inv == old(self).inv,
            final(self).id == old(self).id,
            final(self).dna == old(self).dna,
            final(self).thought_cycle == old(self).thought_cycle,
            final(self).last_action == old(self).last_action,
    {
        self.stats.kills = bump(self.stats.kills);
    }

    /// How many items from the top it takes to pay `share` percent of the
    /// mating cost; none if the whole inventory is not enough.
    pub fn mating_items(&self, share: usize) -> (r: Option<usize>)
        requires
            share <= 100,
        ensures
            r is Some <==> items_needed(self.inv@, mating_cost(share as nat)) is Some,
            r is Some ==> r->Some_0 == items_needed(self.inv@, mating_cost(share as nat))->Some_0,
            r is Some ==> r->Some_0 <= self.inv@.len(),
    {
        let ghost inv0 = self.inv@;
        let ghost cost0 = mating_cost(share as nat);
        let mut cost: i64 = ((MATING_COST * share + 50) / 100) as i64;
        let mut i: usize = self.inv.len();
        assert(inv0.subrange(0, i as int) =~= inv0);
        assert(cost as int == cost0);
        while cost > 0 && i > 0
            invariant
                i <= inv0.len(),
                self.inv@ == inv0,
                -8 <= cost <= 40,
                items_needed(inv0, cost0) == match items_needed(inv0.subrange(0, i as int), cost as int) {
                    Some(k) => Some(k + (inv0.len() - i) as nat),
                    None => None::<nat>,
                },
            decreases i,
        {
            let item = self.inv[i - 1];
            proof {
                assert(inv0.subrange(0, i as int).drop_last() =~= inv0.subrange(0, i - 1));
            }
            cost = cost - 2 * item.value() as i64;
            i = i - 1;
        }
        if cost > 0 {
            None
        } else {
            Some(self.inv.len() - i)
        }
    }

    /// Pays `share` percent of the mating cost with items from the top of
    /// the inventory, each worth twice its tier. All or nothing: when the
    /// items cannot cover the cost, nothing is taken.
    pub fn pay_for_mating(&mut self, share: usize) -> (r: bool)
        requires
            share <= 100,
        ensures
            final(self).generation == old(self).generation,
            final(self).parents == old(self).parents,
            r == items_needed(old(self).inv@, mating_cost(share as nat)) is Some,
            r ==> final(self).inv@ == old(self).inv@.subrange(
                0,
                old(self).inv@.len() - items_needed(old(self).inv@, mating_cost(share as nat))->Some_0,
            ),
            !r ==> final(self).inv@ == old(self).inv@,
            final(self).energy == old(self).energy,
            final(self).id == old(self).id,
            final(self).dna == old(self).dna,
            final(self).thought_cycle == old(self).thought_cycle,
            final(self).stats == old(self).stats,
            final(self).signal == old(self).signal,
            final(self).last_action == old(self).last_action,
    {
        let ghost inv0 = self.inv@;
        let k = match self.mating_items(share) {
            Some(k) => k,
            None => return false,
        };
        let target = self.inv.len() - k;
        let mut n: usize = self.inv.len();
        assert(self.inv@ =~= inv0.subrange(0, n as int));
        while n > target
            invariant
                target <= n <= inv0.len(),
                self.inv@ == inv0.subrange(0, n as int),
                self.energy == old(self).energy,
                self.id == old(self).id,
                self.dna == old(self).dna,
                self.thought_cycle == old(self).thought_cycle,
                self.stats == old(self).stats,
                self.signal == old(self).signal,
                self.generation == old(self).generation,
                self.parents == old(self).parents,
                self.last_action == old(self).last_action,
            decreases n,
        {
            self.inv.pop();
            n = n - 1;
            assert(self.inv@ =~= inv0.subrange(0, n as int));
        }
        true
    }

    /// Mates with `other`: the two genomes are combined (with a chance of
    /// mutation) into a child of the next generation, which lives if its
    /// genome gives a thought cycle; then both parents count a child. The
    /// second result says whether the child's genome mutated.
    pub fn mate_with(
        &mut self,
        other: &mut Creature,
        id_giver: &mut IDGiver,
        rng: &mut RngState,
        mutation_rate_ppm: u32,
    ) -> (r: (Result<Creature, Failure>, bool))
        requires
            old(self).dna.0@.len() < crate::dna::MAX_GENES,
            old(other).dna.0@.len() < crate::dna::MAX_GENES,
            old(id_giver).has_room_spec(),
        ensures
            r.0 is Ok ==> r.0->Ok_0.energy == DEFAULT_ENERGY && r.0->Ok_0.inv@.len() == 0,
            r.0 is Ok ==> r.0->Ok_0.wf() && r.0->Ok_0.parents == (old(self).id, old(other).id) && r.0->Ok_0.id.0
                == old(id_giver).next_id_to_give_out && r.0->Ok_0.generation == bumped(
                if old(self).generation >= old(other).generation {
                    old(self).generation
                } else {
                    old(other).generation
                },
            ),
            r.0 is Ok ==> final(self).stats.num_children == bumped(old(self).stats.num_children)
                && final(other).stats.num_children == bumped(old(other).stats.num_children),
            r.0 is Err ==> final(self).stats == old(self).stats && final(other).stats == old(other).stats,
            final(self).stats.kills == old(self).stats.kills,
            final(self).stats.survived == old(self).stats.survived,
            final(self).stats.eaten == old(self).stats.eaten,
            final(other).stats.kills == old(other).stats.kills,
            final(other).stats.survived == old(other).stats.survived,
            final(other).stats.eaten == old(other).stats.eaten,
            final(self).energy == old(self).energy,
            final(other).energy == old(other).energy,
            final(self).inv == old(self).inv,
            final(other).inv == old(other).inv,
            final(self).id == old(self).id,
            final(other).id == old(other).id,
            final(self).dna == old(self).dna,
            final(other).dna == old(other).dna,
            final(self).thought_cycle == old(self).thought_cycle,
            final(other).thought_cycle == old(other).thought_cycle,
            final(self).last_action == old(self).last_action,
            final(other).last_action == old(other).last_action,
            final(id_giver).modulus == old(id_giver).modulus,
            final(id_giver).next_id_to_give_out == old(id_giver).next_id_to_give_out + old(id_giver).modulus,
    {
        let (child_dna, mutated) = DNA::combine(&self.dna, &other.dna, rng, mutation_rate_ppm);
        let generation = bump(
            if self.generation >= other.generation {
                self.generation
            } else {
                other.generation
            },
        );
        let maybe_child = Creature::new(id_giver.next_creature_id(), child_dna, generation, (self.id, other.id));
        if maybe_child.is_ok() {
            self.stats.num_children = bump(self.stats.num_children);
            other.stats.num_children = bump(other.stats.num_children);
        }
        (maybe_child, mutated)
    }

    /// Settles a flee attempt from its rolls: it succeeds when the other's
    /// roll is under this creature's, and the fleer then takes `dmg` and
    /// ends the fight; otherwise nothing changes and the fight goes on.
    pub fn resolve_flee(&mut self, my_roll: usize, other_roll: usize, dmg: usize) -> (r: FightStatus)
        ensures
            other_roll < my_roll ==> r == FightStatus::End && final(self).energy == lost(old(self).energy, dmg)
                && final(self).inv == old(self).inv && final(self).signal == old(self).signal && final(self).id
                == old(self).id && final(self).dna == old(self).dna && final(self).thought_cycle == old(
                self).thought_cycle && final(self).stats == old(self).stats && final(self).last_action == old(
                self).last_action && final(self).generation == old(self).generation && final(self).parents == old(
                self).parents,
            other_roll >= my_roll ==> r == FightStatus::Continue && *final(self) == *old(self),
    {
        if other_roll < my_roll {
            self.lose_energy(dmg);
            FightStatus::End
        } else {
            FightStatus::Continue
        }
    }

    /// Carries out an action other than attacking, defending or mating:
    /// signal, eat the top item, take the other's top item, wait, or try to
    /// flee. The feeder does nothing; a dead creature ends the fight. A
    /// flee succeeds when the other's roll (below its energy) is under this
    /// creature's; it then takes up to four damage and ends the fight.
    pub fn carryout(&mut self, other: &mut Creature, action: PerformableAction) -> (r: FightStatus)
        requires
            old(self).dna.wf(),
            old(other).dna.wf(),
        ensures
            old(self).is_feeder_spec() ==> r == FightStatus::Continue && *final(self) == *old(self) && *final(other)
                == *old(other),
            !old(self).is_feeder_spec() && !old(self).alive_spec() ==> r == FightStatus::End && *final(self)
                == *old(self) && *final(other) == *old(other),
            !(action is Take) ==> *final(other) == *old(other),
            final(other).energy == old(other).energy,
            final(other).id == old(other).id,
            final(other).dna == old(other).dna,
            final(other).thought_cycle == old(other).thought_cycle,
            final(other).stats == old(other).stats,
            final(other).signal == old(other).signal,
            final(other).last_action == old(other).last_action,
            final(other).generation == old(other).generation,
            final(other).parents == old(other).parents,
            final(self).dna == old(self).dna,
            final(self).thought_cycle == old(self).thought_cycle,
            final(self).id == old(self).id,
            final(self).stats == old(self).stats,
            final(self).last_action == old(self).last_action,
            final(self).generation == old(self).generation,
            final(self).parents == old(self).parents,
            !(action is Signal) ==> final(self).signal == old(self).signal,
            !old(self).is_feeder_spec() && old(self).alive_spec() ==> match action {
                PerformableAction::Signal(sig) => r == FightStatus::Continue && final(self).signal == Some(sig)
                    && final(self).energy == old(self).energy && final(self).inv == old(self).inv,
                PerformableAction::Eat => r == FightStatus::Continue && if old(self).inv@.len() > 0 {
                    final(self).inv@ == old(self).inv@.drop_last() && final(self).energy == gained(
                        old(self).energy,
                        (3 * old(self).inv@.last().value_spec()) as usize,
                    )
                } else {
                    final(self).inv@ == old(self).inv@ && final(self).energy == old(self).energy
                },
                PerformableAction::Take => r == FightStatus::Continue && final(self).energy == old(self).energy
                    && if old(other).inv@.len() > 0 {
                    final(other).inv@ == old(other).inv@.drop_last() && final(self).inv@ == with_item(
                        old(self).inv@,
                        old(other).inv@.last(),
                    )
                } else {
                    final(other).inv@ == old(other).inv@ && final(self).inv@ == old(self).inv@
                },
                PerformableAction::Flee => (r == FightStatus::Continue ==> *final(self) == *old(self)) && (r
                    == FightStatus::End ==> final(self).inv == old(self).inv && final(self).energy <= old(
                    self).energy && final(self).energy + 4 >= old(self).energy),
                _ => r == FightStatus::Continue && *final(self) == *old(self),
            },
    {
        if self.is_feeder() {
            return FightStatus::Continue;
        }
        if self.dead() {
            return FightStatus::End;
        }
        match action {
            PerformableAction::Signal(sig) => self.set_signal(sig),
            PerformableAction::Eat => match self.pop_item() {
                Some(item) => {
                    self.eat(item);
                },
                None => {},
            },
            PerformableAction::Take => match other.pop_item() {
                Some(item) => {
                    self.add_item(item);
                },
                None => {},
            },
            PerformableAction::Flee => {
                let mut rng = RngState::from_creatures(self, other);
                let my_roll = rng.rand_range(0, self.energy);
                let other_roll = rng.rand_range(0, other.energy);
                let dmg = rng.uniform(0, 4);
                return self.resolve_flee(my_roll, other_roll, dmg);
            },
            _ => {},
        }
        FightStatus::Continue
    }
}

/// A creature as stored, without its thought cycle, which is derived from
/// the genome when the creature is restored.
pub struct DeserializableCreature {
    pub dna: DNA,
    pub inv: Vec<Item>,
    pub energy: usize,
    pub generation: usize,
    pub signal: Option<Signal>,
    pub last_action: PerformableAction,
    pub id: CreatureID,
    pub parents: (CreatureID, CreatureID),
    pub stats: CreatureStats,
}

impl DeserializableCreature {
    /// Restores the creature, computing its thought cycle again; a genome
    /// that gives none fails with the reason.
    pub fn into_creature(self) -> (r: Result<Creature, Failure>)
        requires
            self.dna.wf(),
        ensures
            r is Ok ==> r->Ok_0.wf() && r->Ok_0.thought_cycle.caches(self.dna.codons()) && r->Ok_0.id == self.id
                && r->Ok_0.energy == self.energy && r->Ok_0.inv == self.inv && r->Ok_0.parents == self.parents
                && r->Ok_0.stats == self.stats && r->Ok_0.generation == self.generation && r->Ok_0.dna == self.dna
                && r->Ok_0.signal == self.signal && r->Ok_0.last_action == self.last_action
                && r->Ok_0.thought_cycle.cursor == 0,
            gives_cycle(self.dna) ==> r is Ok,
            r is Err ==> refusal(self.dna, r->Err_0),
    {
        let DeserializableCreature { dna, inv, energy, generation, signal, last_action, id, parents, stats } = self;
        let thought_cycle = match cycle_detect(&dna) {
            Ok(tc) => tc,
            Err(f) => return Err(f),
        };
        Ok(Creature { dna, inv, thought_cycle, energy, generation, signal, last_action, id, parents, stats })
    }
}

/// A population: living creatures, a count of feeders standing by, and
/// the generator and identifier giver that the population draws on.
pub struct Creatures {
    pub creatures: Vec<Creature>,
    pub max_pop_size: usize,
    pub feeder_count: usize,
    pub rng: RngState,
    pub id_giver: IDGiver,
}

impl Creatures {
    pub open spec fn wf(&self) -> bool {
        forall|i: int| 0 <= i < self.creatures@.len() ==> (#[trigger] self.creatures@[i]).wf()
    }

    /// A population of `max_pop_size` seed creatures with fresh identifiers.
    pub fn from_pieces(id_giver: IDGiver, max_pop_size: usize, rng: RngState) -> (r: Creatures)
        requires
            id_giver.next_id_to_give_out + max_pop_size * id_giver.modulus <= u64::MAX,
        ensures
            r.wf(),
            r.creatures@.len() == max_pop_size,
            r.max_pop_size == max_pop_size,
            r.feeder_count == 0,
            r.id_giver.modulus == id_giver.modulus,
    {
        let mut idgv = id_giver;
        let mut creatures: Vec<Creature> = Vec::new();
        let mut i: usize = 0;
        while i < max_pop_size
            invariant
                i <= max_pop_size,
                idgv.modulus == id_giver.modulus,
                idgv.next_id_to_give_out == id_giver.next_id_to_give_out + i * id_giver.modulus,
                id_giver.next_id_to_give_out + max_pop_size * id_giver.modulus <= u64::MAX,
                creatures@.len() == i,
                forall|j: int| 0 <= j < i ==> (#[trigger] creatures@[j]).wf(),
            decreases max_pop_size - i,
        {
            proof {
                assert(i * id_giver.modulus + id_giver.modulus <= max_pop_size * id_giver.modulus) by (nonlinear_arith)
                    requires i < max_pop_size;
            }
            creatures.push(Creature::seed_creature(idgv.next_creature_id()));
            i += 1;
            proof {
                assert(i * id_giver.modulus == (i - 1) * id_giver.modulus + id_giver.modulus) by (nonlinear_arith);
            }
        }
        Creatures { creatures, max_pop_size, feeder_count: 0, rng, id_giver: idgv }
    }

    /// A single population of seed creatures.
    pub fn new(max_pop_size: usize) -> (r: Creatures)
        requires
            max_pop_size < u64::MAX,
        ensures
            r.wf(),
            r.creatures@.len() == max_pop_size,
            r.max_pop_size == max_pop_size,
            r.feeder_count == 0,
    {
        Creatures::from_pieces(IDGiver::unthreaded(), max_pop_size, RngState::default_seed())
    }

    /// One population per thread, each of `max_pop_size / num_threads`
    /// seed creatures, with its own generator and identifier giver.
    pub fn per_thread(num_threads: usize, max_pop_size: usize) -> (r: Vec<Creatures>)
        requires
            num_threads > 0,
            max_pop_size % num_threads == 0,
            max_pop_size + num_threads < u64::MAX,
        ensures
            r@.len() == num_threads,
            forall|i: int| 0 <= i < num_threads ==> (#[trigger] r@[i]).wf() && r@[i].creatures@.len()
                == max_pop_size / num_threads && r@[i].id_giver.modulus == num_threads,
    {
        let pop_per_thread = max_pop_size / num_threads;
        let mut rng = RngState::default_seed();
        let givers = IDGiver::per_thread(num_threads);
        let mut parts: Vec<Creatures> = Vec::new();
        let mut i: usize = 0;
        proof {
            assert(pop_per_thread * num_threads <= max_pop_size) by (nonlinear_arith)
                requires pop_per_thread == max_pop_size / num_threads, num_threads > 0;
        }
        while i < num_threads
            invariant
                i <= num_threads,
                givers@.len() == num_threads,
                pop_per_thread == max_pop_size / num_threads,
                pop_per_thread * num_threads <= max_pop_size,
                max_pop_size + num_threads < u64::MAX,
                forall|j: int| 0 <= j < num_threads ==> (#[trigger] givers@[j]).next_id_to_give_out == j + 1
                    && givers@[j].modulus == num_threads,
                parts@.len() == i,
                forall|j: int| 0 <= j < i ==> (#[trigger] parts@[j]).wf() && parts@[j].creatures@.len()
                    == pop_per_thread && parts@[j].id_giver.modulus == num_threads,
            decreases num_threads - i,
        {
            let giver = givers[i];
            proof {
                assert(giver.next_id_to_give_out + pop_per_thread * giver.modulus <= u64::MAX) by (nonlinear_arith)
                    requires
                        giver.next_id_to_give_out == i + 1,
                        giver.modulus == num_threads,
                        i < num_threads,
                        pop_per_thread * num_threads <= max_pop_size,
                        max_pop_size + num_threads < u64::MAX;
            }
            parts.push(Creatures::from_pieces(giver, pop_per_thread, rng.spawn()));
            i += 1;
        }
        parts
    }

    /// Living creatures.
    pub fn len(&self) -> (r: usize)
        ensures
            r == self.creatures@.len(),
    {
        self.creatures.len()
    }

    pub fn feeder_count(&self) -> (r: usize)
        ensures
            r == self.feeder_count,
    {
        self.feeder_count
    }

    /// When creatures and feeders fall short of the maximum, the feeder
    /// count is set to the shortfall.
    pub fn refill_feeders(&mut self)
        ensures
            final(self).id_giver == old(self).id_giver,
            final(self).creatures == old(self).creatures,
            old(self).creatures@.len() + old(self).feeder_count < old(self).max_pop_size ==> final(self).feeder_count
                == old(self).max_pop_size - (old(self).feeder_count + old(self).creatures@.len()),
            old(self).creatures@.len() + old(self).feeder_count >= old(self).max_pop_size ==> final(self).feeder_count == old(self).feeder_count,
            final(self).max_pop_size == old(self).max_pop_size,
    {
        if self.creatures.len() < self.max_pop_size && self.feeder_count < self.max_pop_size - self.creatures.len() {
            self.feeder_count = self.max_pop_size - (self.feeder_count + self.creatures.len());
        }
    }

    /// Takes a creature chosen at random out of the population.
    pub fn random_creature(&mut self) -> (r: Creature)
        requires
            old(self).wf(),
            old(self).creatures@.len() > 0,
        ensures
            final(self).id_giver == old(self).id_giver,
            final(self).wf(),
            r.wf(),
            final(self).creatures@.len() == old(self).creatures@.len() - 1,
            final(self).feeder_count == old(self).feeder_count,
            final(self).max_pop_size == old(self).max_pop_size,
    {
        let index = self.rng.rand_range(0, self.creatures.len());
        self.creatures.swap_remove(index)
    }

    /// Takes a creature or, at the feeders' share of the odds, a feeder.
    pub fn random_creature_or_feeder(&mut self) -> (r: Creature)
        requires
            old(self).wf(),
            old(self).creatures@.len() + old(self).feeder_count > 0,
            old(self).creatures@.len() + old(self).feeder_count <= usize::MAX,
        ensures
            final(self).id_giver == old(self).id_giver,
            final(self).wf(),
            r.wf(),
            final(self).creatures@.len() + final(self).feeder_count == old(self).creatures@.len()
                + old(self).feeder_count - 1,
            final(self).max_pop_size == old(self).max_pop_size,
    {
        let index = self.rng.rand_range(0, self.creatures.len() + self.feeder_count);
        if index < self.creatures.len() {
            self.creatures.swap_remove(index)
        } else {
            self.feeder_count = self.feeder_count - 1;
            Creature::feeder()
        }
    }

    /// Takes back a creature after an encounter: the dead are dropped, a
    /// living feeder goes back to the feeder count.
    pub fn absorb(&mut self, creature: Creature)
        requires
            old(self).wf(),
            creature.wf(),
        ensures
            final(self).id_giver == old(self).id_giver,
            final(self).wf(),
            final(self).max_pop_size == old(self).max_pop_size,
            !creature.alive_spec() ==> final(self).creatures@ == old(self).creatures@ && final(self).feeder_count
                == old(self).feeder_count,
            creature.alive_spec() && creature.is_feeder_spec() ==> final(self).feeder_count == bumped(
                old(self).feeder_count,
            ) && final(self).creatures@ == old(self).creatures@,
            creature.alive_spec() && !creature.is_feeder_spec() ==> final(self).creatures@ == old(self).creatures@.push(creature) && final(self).feeder_count == old(self).feeder_count,
    {
        if creature.dead() {
        } else if creature.is_feeder() {
            self.feeder_count = bump(self.feeder_count);
        } else {
            self.creatures.push(creature);
        }
    }

    /// Takes back every creature of `creats`.
    pub fn absorb_all(&mut self, creats: Vec<Creature>)
        requires
            old(self).wf(),
            forall|i: int| 0 <= i < creats@.len() ==> (#[trigger] creats@[i]).wf(),
        ensures
            final(self).id_giver == old(self).id_giver,
            final(self).wf(),
            final(self).max_pop_size == old(self).max_pop_size,
    {
        let mut creats = creats;
        while creats.len() > 0
            invariant
                self.wf(),
                self.max_pop_size == old(self).max_pop_size,
                self.id_giver == old(self).id_giver,
                forall|i: int| 0 <= i < creats@.len() ==> (#[trigger] creats@[i]).wf(),
            decreases creats@.len(),
        {
            let c = creats.remove(0);
            self.absorb(c);
        }
    }

    /// Shuffles the creatures.
    pub fn shuffle(&mut self)
        ensures
            final(self).creatures@.to_multiset() == old(self).creatures@.to_multiset(),
    {
        self.rng.shuffle(&mut self.creatures)
    }

    /// Splits the population into `num_threads` parts: creatures, maximum
    /// size and feeders divided as evenly as possible, the first parts
    /// taking the remainders, creatures kept in order, each part with its
    /// own generator and a share of the identifier space.
    pub fn split_by_thread(self, num_threads: usize) -> (r: Vec<Creatures>)
        requires
            num_threads > 0,
            self.id_giver.next_id_to_give_out + num_threads <= u64::MAX,
        ensures
            r@.len() == num_threads,
            forall|i: int| 0 <= i < num_threads ==> (#[trigger] r@[i]).id_giver.next_id_to_give_out
                == self.id_giver.next_id_to_give_out + i && r@[i].id_giver.modulus == num_threads,
            forall|i: int| 0 <= i < num_threads ==> (#[trigger] r@[i]).max_pop_size == self.max_pop_size
                / num_threads + if i < self.max_pop_size % num_threads { 1int } else { 0 },
            forall|i: int| 0 <= i < num_threads ==> (#[trigger] r@[i]).feeder_count == self.feeder_count
                / num_threads + if i < self.feeder_count % num_threads { 1int } else { 0 },
            forall|i: int| 0 <= i < num_threads ==> (#[trigger] r@[i]).creatures@ == self.creatures@.subrange(
                chunk_start(i, self.creatures@.len() as int, num_threads as int),
                chunk_start(i + 1, self.creatures@.len() as int, num_threads as int),
            ),
    {
        let Creatures { creatures, max_pop_size, feeder_count, rng, id_giver } = self;
        let mut creatures = creatures;
        let mut rng = rng;
        let pop_rem = max_pop_size % num_threads;
        let pop_div = max_pop_size / num_threads;
        let creat_rem = creatures.len() % num_threads;
        let creat_div = creatures.len() / num_threads;
        let feed_rem = feeder_count % num_threads;
        let feed_div = feeder_count / num_threads;
        let givers = id_giver.into_threads(num_threads);
        let mut parts: Vec<Creatures> = Vec::new();
        let mut i: usize = 0;
        proof {
            assert(pop_div + 1 <= max_pop_size || pop_rem == 0) by (nonlinear_arith)
                requires pop_div == max_pop_size / num_threads, pop_rem == max_pop_size % num_threads, num_threads > 0;
            assert(feed_div + 1 <= feeder_count || feed_rem == 0) by (nonlinear_arith)
                requires feed_div == feeder_count / num_threads, feed_rem == feeder_count % num_threads, num_threads > 0;
            let n = creatures@.len();
            assert(creat_div + 1 <= n || creat_rem == 0) by (nonlinear_arith)
                requires creat_div == n / (num_threads as nat), creat_rem == n % (num_threads as nat), num_threads > 0;
        }
        let ghost n0 = creatures@.len();
        let ghost orig = creatures@;
        assert(creatures@ =~= orig.subrange(chunk_start(0, n0 as int, num_threads as int), n0 as int));
        while i < num_threads
            invariant
                i <= num_threads,
                givers@.len() == num_threads,
                parts@.len() == i,
                pop_rem < num_threads,
                feed_rem < num_threads,
                pop_div + 1 <= max_pop_size || pop_rem == 0,
                feed_div + 1 <= feeder_count || feed_rem == 0,
                creat_div + 1 <= n0 || creat_rem == 0,
                n0 <= usize::MAX,
                pop_div == max_pop_size / num_threads,
                pop_rem == max_pop_size % num_threads,
                feed_div == feeder_count / num_threads,
                feed_rem == feeder_count % num_threads,
                forall|j: int| 0 <= j < num_threads ==> (#[trigger] givers@[j]).next_id_to_give_out
                    == id_giver.next_id_to_give_out + j && givers@[j].modulus == num_threads,
                forall|j: int| 0 <= j < i ==> (#[trigger] parts@[j]).id_giver == givers@[j],
                orig == self.creatures@,
                n0 == orig.len(),
                creat_div == n0 / (num_threads as nat),
                creat_rem == n0 % (num_threads as nat),
                creatures@ == orig.subrange(chunk_start(i as int, n0 as int, num_threads as int), n0 as int),
                forall|j: int| 0 <= j < i ==> (#[trigger] parts@[j]).creatures@ == orig.subrange(
                    chunk_start(j, n0 as int, num_threads as int),
                    chunk_start(j + 1, n0 as int, num_threads as int),
                ),
                forall|j: int| 0 <= j < i ==> (#[trigger] parts@[j]).max_pop_size == pop_div + if j < pop_rem {
                    1int
                } else {
                    0
                },
                forall|j: int| 0 <= j < i ==> (#[trigger] parts@[j]).feeder_count == feed_div + if j < feed_rem {
                    1int
                } else {
                    0
                },
            decreases num_threads - i,
        {
            let take = if i >= creat_rem {
                creat_div
            } else {
                creat_div + 1
            };
            let ghost start = chunk_start(i as int, n0 as int, num_threads as int);
            proof {
                lemma_chunk_bounds(i as int, n0 as int, num_threads as int);
                assert(start + take == chunk_start(i + 1, n0 as int, num_threads as int));
            }
            let mut chunk: Vec<Creature> = Vec::new();
            let mut k: usize = 0;
            while k < take
                invariant
                    k <= take,
                    n0 == orig.len(),
                    start + take <= n0,
                    0 <= start,
                    chunk@ == orig.subrange(start, start + k),
                    creatures@ == orig.subrange(start + k, n0 as int),
                decreases take - k,
            {
                chunk.push(creatures.remove(0));
                k += 1;
                assert(chunk@ =~= orig.subrange(start, start + k));
                assert(creatures@ =~= orig.subrange(start + k, n0 as int));
            }
            parts.push(
                Creatures {
                    max_pop_size: if i >= pop_rem {
                        pop_div
                    } else {
                        pop_div + 1
                    },
                    feeder_count: if i >= feed_rem {
                        feed_div
                    } else {
                        feed_div + 1
                    },
                    rng: rng.spawn(),
                    id_giver: givers[i],
                    creatures: chunk,
                },
            );
            i += 1;
        }
        parts
    }
}

/// Where part `i` of `n` creatures split into `parts` parts starts: the
/// first `n % parts` parts hold one creature more than the others.
pub open spec fn chunk_start(i: int, n: int, parts: int) -> int {
    i * (n / parts) + if i < n % parts { i } else { n % parts }
}

/// Consecutive parts follow one another and end at the last creature.
proof fn lemma_chunk_bounds(i: int, n: int, parts: int)
    requires
        0 <= i < parts,
        0 <= n,
    ensures
        0 <= chunk_start(i, n, parts),
        chunk_start(i + 1, n, parts) == chunk_start(i, n, parts) + (n / parts) + if i < n % parts { 1int } else { 0 },
        chunk_start(i + 1, n, parts) <= n,
{
    let d = n / parts;
    let m = n % parts;
    assert(n == parts * d + m && 0 <= m < parts && d >= 0) by (nonlinear_arith)
        requires d == n / parts, m == n % parts, parts > 0, n >= 0;
    assert(i * d >= 0 && (i + 1) * d == i * d + d) by (nonlinear_arith)
        requires i >= 0, d >= 0;
    assert((i + 1) * d <= parts * d) by (nonlinear_arith)
        requires i + 1 <= parts, d >= 0;
}

/// A stored population, its creatures without thought cycles.
pub struct DeserializableCreatures {
    pub creatures: Vec<DeserializableCreature>,
    pub max_pop_size: usize,
    pub feeder_count: usize,
}

impl DeserializableCreatures {
    /// Restores the population; identifiers go on after the largest stored
    /// one. A creature whose genome gives no thought cycle fails the whole.
    pub fn into_creatures(self) -> (r: Result<Creatures, Failure>)
        requires
            forall|i: int| 0 <= i < self.creatures@.len() ==> (#[trigger] self.creatures@[i]).dna.wf(),
            forall|i: int| 0 <= i < self.creatures@.len() ==> (#[trigger] self.creatures@[i]).id.0 < u64::MAX,
        ensures
            r is Ok ==> r->Ok_0.wf() && r->Ok_0.creatures@.len() == self.creatures@.len() && r->Ok_0.max_pop_size
                == self.max_pop_size && r->Ok_0.feeder_count == self.feeder_count && r->Ok_0.id_giver.modulus == 1
                && forall|i: int| 0 <= i < self.creatures@.len() ==> (#[trigger] self.creatures@[i]).id.0
                < r->Ok_0.id_giver.next_id_to_give_out,
            (forall|i: int| 0 <= i < self.creatures@.len() ==> gives_cycle(#[trigger] self.creatures@[i].dna)) ==> r is Ok,
            r is Err ==> exists|i: int| 0 <= i < self.creatures@.len() && refusal(#[trigger] self.creatures@[i].dna, r->Err_0),
    {
        let DeserializableCreatures { creatures: stored, max_pop_size, feeder_count } = self;
        let ghost all = stored@;
        let mut max_id: u64 = 0;
        let mut i: usize = 0;
        while i < stored.len()
            invariant
                i <= stored@.len(),
                stored@ == all,
                forall|j: int| 0 <= j < all.len() ==> (#[trigger] all[j]).id.0 < u64::MAX,
                forall|j: int| 0 <= j < i ==> (#[trigger] all[j]).id.0 <= max_id,
                max_id < u64::MAX,
            decreases stored@.len() - i,
        {
            if stored[i].id.0 > max_id {
                max_id = stored[i].id.0;
            }
            i += 1;
        }
        let mut stored = stored;
        let mut creatures: Vec<Creature> = Vec::new();
        assert(stored@ =~= all.subrange(0, all.len() as int));
        while stored.len() > 0
            invariant
                forall|j: int| 0 <= j < stored@.len() ==> (#[trigger] stored@[j]).dna.wf(),
                forall|j: int| 0 <= j < creatures@.len() ==> (#[trigger] creatures@[j]).wf(),
                creatures@.len() + stored@.len() == all.len(),
                stored@ == all.subrange(creatures@.len() as int, all.len() as int),
                all == self.creatures@,
            decreases stored@.len(),
        {
            let d = stored.remove(0);
            let ghost at = creatures@.len() as int;
            assert(all[at] == d);
            match d.into_creature() {
                Ok(c) => creatures.push(c),
                Err(f) => {
                    assert(refusal(all[at].dna, f));
                    assert(!gives_cycle(all[at].dna));
                    return Err(f);
                },
            }
            assert(stored@ =~= all.subrange(creatures@.len() as int, all.len() as int));
        }
        Ok(
            Creatures {
                creatures,
                max_pop_size,
                feeder_count,
                rng: RngState::default_seed(),
                id_giver: IDGiver::new(max_id + 1, 1),
            },
        )
    }
}

} // verus!
