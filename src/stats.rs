//! Counters kept per creature, per encounter and for a whole simulation.

use vstd::prelude::*;

verus! {

/// A counter raised by one, staying at the largest value once there.
pub open spec fn bumped(x: usize) -> usize {
    if x < usize::MAX {
        (x + 1) as usize
    } else {
        x
    }
}

/// Raises a counter by one, saturating.
pub fn bump(x: usize) -> (r: usize)
    ensures
        r == bumped(x),
{
    if x < usize::MAX {
        x + 1
    } else {
        x
    }
}

/// Two counters added, saturating.
pub open spec fn added(x: usize, y: usize) -> usize {
    if x + y <= usize::MAX {
        (x + y) as usize
    } else {
        usize::MAX
    }
}

fn saturating_sum(x: usize, y: usize) -> (r: usize)
    ensures
        r == added(x, y),
{
    if x <= usize::MAX - y {
        x + y
    } else {
        usize::MAX
    }
}

/// Totals over a whole simulation.
#[derive(Copy, Clone, Debug)]
pub struct GlobalStatistics {
    pub children_born: usize,
    pub feeders_eaten: usize,
    pub kills: usize,
    pub rounds: usize,
    pub encounters: usize,
    pub mutations: usize,
}

/// Lifetime counters of one creature.
#[derive(Copy, Clone, Debug, PartialEq, Eq, Structural)]
pub struct CreatureStats {
    pub kills: usize,
    pub num_children: usize,
    pub survived: usize,
    pub eaten: usize,
}

/// What happened in one encounter.
#[derive(Copy, Clone, Debug, PartialEq, Eq, Structural)]
pub struct EncounterStats {
    pub children_born: usize,
    pub feeders_eaten: usize,
    pub kills: usize,
    pub rounds: usize,
    pub mutations: usize,
}

impl CreatureStats {
    pub fn new() -> (r: CreatureStats)
        ensures
            r == (CreatureStats { kills: 0, num_children: 0, survived: 0, eaten: 0 }),
    {
        CreatureStats { kills: 0, num_children: 0, survived: 0, eaten: 0 }
    }
}

impl EncounterStats {
    pub fn new() -> (r: EncounterStats)
        ensures
            r == (EncounterStats { children_born: 0, feeders_eaten: 0, kills: 0, rounds: 0, mutations: 0 }),
    {
        EncounterStats { children_born: 0, feeders_eaten: 0, kills: 0, rounds: 0, mutations: 0 }
    }
}

impl GlobalStatistics {
    /// All counters at zero.
    pub fn new() -> (r: GlobalStatistics)
        ensures
            r.children_born == 0,
            r.feeders_eaten == 0,
            r.kills == 0,
            r.rounds == 0,
            r.encounters == 0,
            r.mutations == 0,
    {
        GlobalStatistics { children_born: 0, feeders_eaten: 0, kills: 0, rounds: 0, encounters: 0, mutations: 0 }
    }

    /// Adds one encounter's counters to the totals and counts the encounter;
    /// the totals saturate.
    pub fn absorb(&mut self, s: EncounterStats)
        ensures
            final(self).children_born == added(old(self).children_born, s.children_born),
            final(self).feeders_eaten == added(old(self).feeders_eaten, s.feeders_eaten),
            final(self).kills == added(old(self).kills, s.kills),
            final(self).rounds == added(old(self).rounds, s.rounds),
            final(self).mutations == added(old(self).mutations, s.mutations),
            final(self).encounters == bumped(old(self).encounters),
    {
        self.children_born = saturating_sum(self.children_born, s.children_born);
        self.feeders_eaten = saturating_sum(self.feeders_eaten, s.feeders_eaten);
        self.kills = saturating_sum(self.kills, s.kills);
        self.rounds = saturating_sum(self.rounds, s.rounds);
        self.mutations = saturating_sum(self.mutations, s.mutations);
        self.encounters = bump(self.encounters);
    }
}

} // verus!
