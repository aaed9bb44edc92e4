//! Genomes: genes of five codons, read as one circular codon stream.

use vstd::prelude::*;

use std::hash::Hasher;
use twox_hash::XxHash32;

use crate::rng::RngState;
use crate::MAX_GENE_VALUE;

verus! {

/// The codon that carries no information.
pub const STOP_CODON: i8 = -1;

/// Codons in a gene.
pub const GENE_LENGTH: usize = 5;

/// Most genes a genome may hold, so that its codon count fits a `usize`.
pub const MAX_GENES: usize = usize::MAX / 16;

/// Number of codons that can be drawn when a mutation writes one: the stop
/// codon and every token value up to the largest.
pub const CODON_CHOICES: usize = 10;

/// A fixed run of codons.
#[derive(Debug, Copy, Clone, PartialEq, Eq)]
pub struct Gene(pub [i8; 5]);

impl Gene {
    /// Whether every codon of the gene is the stop codon.
    pub open spec fn is_blank(self) -> bool {
        forall|i: int| 0 <= i < 5 ==> #[trigger] self.0@[i] == STOP_CODON
    }

    /// A gene of stop codons only.
    pub fn new() -> (r: Gene)
        ensures
            r.is_blank(),
            r == Gene([STOP_CODON, STOP_CODON, STOP_CODON, STOP_CODON, STOP_CODON]),
    {
        Gene([STOP_CODON, STOP_CODON, STOP_CODON, STOP_CODON, STOP_CODON])
    }

    /// The seed gene: always mate, then always flee.
    pub fn mate_then_flee() -> (r: Gene)
        ensures
            r.0@ == seq![0i8, 2, STOP_CODON, 0, 8],
    {
        let r = Gene([0, 2, STOP_CODON, 0, 8]);
        assert(r.0@ =~= seq![0i8, 2, STOP_CODON, 0, 8]);
        r
    }

    /// The feeder gene: always wait.
    pub fn always_wait() -> (r: Gene)
        ensures
            r.0@ == seq![0i8, 7, STOP_CODON, STOP_CODON, STOP_CODON],
    {
        let r = Gene([0, 7, STOP_CODON, STOP_CODON, STOP_CODON]);
        assert(r.0@ =~= seq![0i8, 7, STOP_CODON, STOP_CODON, STOP_CODON]);
        r
    }

    /// Whether the gene codes anything.
    pub fn valid(&self) -> (r: bool)
        ensures
            r == !self.is_blank(),
    {
        !self.invalid()
    }

    /// Whether the gene is all stop codons.
    pub fn invalid(&self) -> (r: bool)
        ensures
            r == self.is_blank(),
    {
        let mut i: usize = 0;
        while i < GENE_LENGTH
            invariant
                i <= 5,
                forall|j: int| 0 <= j < i ==> #[trigger] self.0@[j] == STOP_CODON,
            decreases 5 - i,
        {
            if self.0[i] != STOP_CODON {
                return false;
            }
            i += 1;
        }
        true
    }

    /// Sets every codon to the stop codon.
    pub fn clear(&mut self)
        ensures
            final(self).is_blank(),
    {
        *self = Gene::new();
    }

    /// The codons of the gene, in order.
    pub fn iter(&self) -> (r: Vec<i8>)
        ensures
            r@ == self.0@,
    {
        let mut v: Vec<i8> = Vec::new();
        let mut i: usize = 0;
        while i < GENE_LENGTH
            invariant
                i <= 5,
                v@ == self.0@.subrange(0, i as int),
            decreases 5 - i,
        {
            v.push(self.0[i]);
            i += 1;
            assert(v@ =~= self.0@.subrange(0, i as int));
        }
        assert(self.0@.subrange(0, 5) =~= self.0@);
        v
    }

    /// Applies one mutation, chosen by `choice`: 1 reverses the codons,
    /// 2 clears the gene, 3 leaves it and returns a new blank gene with
    /// `value` at `i`, 4 raises the codon at `i` by `inc` modulo the codon
    /// range, 5 swaps the codons at `i` and `j`.
    pub fn apply_mutation(&mut self, choice: usize, i: usize, j: usize, value: i8, inc: usize) -> (r: Option<Gene>)
        requires
            1 <= choice <= 5,
            i < 5,
            j < 5,
            STOP_CODON <= value <= MAX_GENE_VALUE,
            1 <= inc <= 2,
        ensures
            mutation_applied(*old(self), *final(self), r, choice as int, i as int, j as int, value, inc as int),
    {
        if choice == 1 {
            let g = self.0;
            *self = Gene([g[4], g[3], g[2], g[1], g[0]]);
            assert(self.0@ =~= old(self).0@.reverse());
            None
        } else if choice == 2 {
            self.clear();
            None
        } else if choice == 3 {
            let mut new_gene = Gene::new();
            new_gene.0[i] = value;
            assert(new_gene.0@ =~= blank_codons().update(i as int, value));
            Some(new_gene)
        } else if choice == 4 {
            let shifted: u32 = (self.0[i] as i32 + 1 + inc as i32 + 130) as u32;
            let new_base: i8 = (shifted % 10) as i8 - 1;
            proof {
                let v: int = self.0@[i as int] as int + 1 + inc;
                assert((v + 130) % 10 == v % 10) by (nonlinear_arith);
            }
            self.0[i] = new_base;
            assert(self.0@ =~= old(self).0@.update(i as int, bump(old(self).0@[i as int], inc as int)));
            None
        } else {
            let a = self.0[i];
            let b = self.0[j];
            self.0[i] = b;
            self.0[j] = a;
            assert(self.0@ =~= swapped(old(self).0@, i as int, j as int));
            None
        }
    }

    /// Mutates the gene in one of five ways, chosen at random with its
    /// positions, value and increment (see `apply_mutation`); a new codon is
    /// drawn from the stop codon up to the largest token value.
    pub fn mutate(&mut self, rng: &mut RngState) -> (r: Option<Gene>)
        ensures
            gene_mutated(*old(self), *final(self), r),
            codons_in_range(*old(self)) ==> codons_in_range(*final(self)),
            r is Some ==> codons_in_range(r->Some_0) && *final(self) == *old(self),
    {
        let choice = rng.uniform(1, 5);
        let i = rng.rand_range(0, GENE_LENGTH);
        let j = rng.rand_range(0, GENE_LENGTH);
        let value = rng.rand_range(0, CODON_CHOICES) as i8 - 1;
        let inc = rng.uniform(1, 2);
        let r = self.apply_mutation(choice, i, j, value, inc);
        proof {
            if choice == 4 {
                let x = old(self).0@[i as int] as int;
                assert(0 <= (x + 1 + inc) % 10 < 10) by (nonlinear_arith);
            }
            if choice == 1 && codons_in_range(*old(self)) {
                assert forall|k: int| 0 <= k < 5 implies STOP_CODON <= #[trigger] self.0@[k] <= MAX_GENE_VALUE by {
                    assert(self.0@[k] == old(self).0@[4 - k]);
                }
            }
            assert(mutation_applied(*old(self), *self, r, choice as int, i as int, j as int, value, inc as int));
        }
        r
    }
}

/// Whether a gene mutation with draws in range turns `before` into
/// `after`, with `born` the new gene if one is made.
pub open spec fn gene_mutated(before: Gene, after: Gene, born: Option<Gene>) -> bool {
    exists|choice: int, i: int, j: int, value: i8, inc: int|
        1 <= choice <= 5 && 0 <= i < 5 && 0 <= j < 5 && STOP_CODON <= value <= MAX_GENE_VALUE && 1 <= inc <= 2
            && #[trigger] mutation_applied(before, after, born, choice, i, j, value, inc)
}

/// The gene list after the gene at `i` became `g`, with `born` put in
/// before it if a new gene was made.
pub open spec fn gene_slot_result(genes: Seq<Gene>, i: int, g: Gene, born: Option<Gene>) -> Seq<Gene> {
    match born {
        Some(b) => genes.update(i, g).insert(i, b),
        None => genes.update(i, g),
    }
}

/// What one genome mutation may do: swap two genes, double one, delete
/// one, or mutate one gene (which may put a new gene before it).
pub open spec fn genome_mutation(before: Seq<Gene>, after: Seq<Gene>) -> bool {
    ||| exists|i: int, j: int| 0 <= i < before.len() && 0 <= j < before.len() && after == #[trigger] swapped(before, i, j)
    ||| exists|i: int| 0 <= i < before.len() && after == #[trigger] before.insert(i, before[i])
    ||| exists|i: int| 0 <= i < before.len() && after == #[trigger] before.remove(i)
    ||| exists|i: int, g: Gene, born: Option<Gene>|
        0 <= i < before.len() && gene_mutated(before[i], g, born) && after == #[trigger] gene_slot_result(
            before,
            i,
            g,
            born,
        )
}

/// A blank gene's codons.
pub open spec fn blank_codons() -> Seq<i8> {
    seq![STOP_CODON, STOP_CODON, STOP_CODON, STOP_CODON, STOP_CODON]
}

/// Whether every codon of a gene lies between the stop codon and the
/// largest token value.
pub open spec fn codons_in_range(g: Gene) -> bool {
    forall|k: int| 0 <= k < 5 ==> STOP_CODON <= #[trigger] g.0@[k] <= MAX_GENE_VALUE
}

/// What one mutation with the given choice and draws does to a gene.
pub open spec fn mutation_applied(
    before: Gene,
    after: Gene,
    born: Option<Gene>,
    choice: int,
    i: int,
    j: int,
    value: i8,
    inc: int,
) -> bool {
    if choice == 1 {
        after.0@ == before.0@.reverse() && born is None
    } else if choice == 2 {
        after.is_blank() && born is None
    } else if choice == 3 {
        after == before && born is Some && born->Some_0.0@ == blank_codons().update(i, value)
    } else if choice == 4 {
        after.0@ == before.0@.update(i, bump(before.0@[i], inc)) && born is None
    } else {
        after.0@ == swapped(before.0@, i, j) && born is None
    }
}

/// A codon raised by `inc`, modulo the codon range that runs from the stop
/// codon to the largest token value.
pub open spec fn bump(x: i8, inc: int) -> i8 {
    (((x as int + 1 + inc) % 10) - 1) as i8
}

/// A sequence with two of its entries exchanged.
pub open spec fn swapped<A>(s: Seq<A>, i: int, j: int) -> Seq<A> {
    s.update(i, s[j]).update(j, s[i])
}


/// A genome: the genes that encode a creature's behaviour.
#[derive(Debug, Clone)]
pub struct DNA(pub Vec<Gene>);

/// Relies on twox_hash's `XxHash32` (`with_seed`, `Hasher::write`,
/// `Hasher::finish`): the digest depends on the bytes and the seed alone.
pub uninterp spec fn xxh32_of(data: Seq<u8>, seed: u32) -> u32;

/// Relies on twox_hash's `XxHash32`: the 32-bit xxHash of `data` with `seed`.
#[verifier::external_body]
fn xxh32(data: &Vec<u8>, seed: u32) -> (r: u32)
    ensures
        r == xxh32_of(data@, seed),
{
    let mut hasher = XxHash32::with_seed(seed);
    hasher.write(data.as_slice());
    hasher.finish() as u32
}

/// The codons of a gene sequence, read gene after gene.
pub open spec fn codons_of(genes: Seq<Gene>) -> Seq<i8> {
    Seq::new((5 * genes.len()) as nat, |p: int| genes[p / 5].0@[p % 5])
}

/// The bytes that a codon sequence hashes as.
pub open spec fn bytes_of(c: Seq<i8>) -> Seq<u8> {
    c.map_values(|x: i8| x as u8)
}

/// The gene at `i`, or a blank gene past the end.
pub open spec fn gene_or_blank(genes: Seq<Gene>, i: int) -> Gene {
    if 0 <= i < genes.len() {
        genes[i]
    } else {
        Gene([STOP_CODON, STOP_CODON, STOP_CODON, STOP_CODON, STOP_CODON])
    }
}

/// Whether `child` is a crossover of `mother` and `father`: each of its
/// genes is the parent gene at the same place (a blank gene past a parent's
/// end), and it stops where both parents' genes are blank, or at the end of
/// the longer parent.
pub open spec fn crossover_of(mother: Seq<Gene>, father: Seq<Gene>, child: Seq<Gene>) -> bool {
    &&& child.len() <= if mother.len() >= father.len() { mother.len() } else { father.len() }
    &&& forall|i: int| 0 <= i < child.len() ==> (#[trigger] child[i] == gene_or_blank(mother, i)
        || child[i] == gene_or_blank(father, i))
    &&& forall|i: int| 0 <= i < child.len() ==> !(#[trigger] gene_or_blank(mother, i).is_blank()
        && gene_or_blank(father, i).is_blank())
    &&& (gene_or_blank(mother, child.len() as int).is_blank() && gene_or_blank(
        father,
        child.len() as int,
    ).is_blank())
}

impl DNA {
    /// The genome's codons as one sequence.
    pub open spec fn codons(self) -> Seq<i8> {
        codons_of(self.0@)
    }

    /// Whether the genome's codon count fits the machine.
    pub open spec fn wf(self) -> bool {
        self.0@.len() <= MAX_GENES
    }

    /// A genome is valid when it has a gene and some gene codes something.
    pub open spec fn valid_spec(self) -> bool {
        self.0@.len() > 0 && exists|i: int| 0 <= i < self.0@.len() && !(#[trigger] self.0@[i]).is_blank()
    }

    /// The feeder's genome: always wait.
    pub fn feeder() -> (r: DNA)
        ensures
            r.0@.len() == 1,
            r.0@[0].0@ == seq![0i8, 7, STOP_CODON, STOP_CODON, STOP_CODON],
    {
        DNA(vec![Gene::always_wait()])
    }

    /// The seed genome: always mate, then always flee.
    pub fn seed() -> (r: DNA)
        ensures
            r.0@.len() == 1,
            r.0@[0].0@ == seq![0i8, 2, STOP_CODON, 0, 8],
    {
        DNA(vec![Gene::mate_then_flee()])
    }

    /// Number of codons in the genome.
    pub fn len(&self) -> (r: usize)
        requires
            self.wf(),
        ensures
            r == self.codons().len(),
    {
        self.0.len() * GENE_LENGTH
    }

    /// The codon at position `p`.
    pub fn codon(&self, p: usize) -> (r: i8)
        requires
            self.wf(),
            p < self.codons().len(),
        ensures
            r == self.codons()[p as int],
    {
        proof {
            assert(p / 5 < self.0@.len()) by (nonlinear_arith)
                requires
                    p < 5 * self.0@.len(),
            ;
        }
        self.0[p / GENE_LENGTH].0[p % GENE_LENGTH]
    }

    /// A circular codon stream starting at `offset`.
    pub fn base_stream(&self, offset: usize) -> (r: DNAIter)
        requires
            self.wf(),
            self.0@.len() > 0,
        ensures
            r.wf(),
            r.dna.0@ == self.0@,
            r.offset == offset as int % self.codons().len() as int,
            r.dna_len == self.codons().len(),
    {
        DNAIter::new(self.duplicate(), offset)
    }

    /// A copy of the genome.
    pub fn duplicate(&self) -> (r: DNA)
        ensures
            r.0@ == self.0@,
    {
        let mut genes: Vec<Gene> = Vec::new();
        let mut i: usize = 0;
        while i < self.0.len()
            invariant
                i <= self.0@.len(),
                genes@ == self.0@.subrange(0, i as int),
            decreases self.0@.len() - i,
        {
            genes.push(self.0[i]);
            i += 1;
            assert(genes@ =~= self.0@.subrange(0, i as int));
        }
        assert(genes@ =~= self.0@);
        DNA(genes)
    }

    /// Whether the genome is valid.
    pub fn valid(&self) -> (r: bool)
        ensures
            r == self.valid_spec(),
    {
        let mut i: usize = 0;
        while i < self.0.len()
            invariant
                i <= self.0@.len(),
                forall|j: int| 0 <= j < i ==> (#[trigger] self.0@[j]).is_blank(),
            decreases self.0@.len() - i,
        {
            if self.0[i].valid() {
                return true;
            }
            i += 1;
        }
        false
    }

    /// The genome's hash with seed 17.
    pub fn hash(&self) -> (r: u32)
        requires
            self.wf(),
        ensures
            r == xxh32_of(bytes_of(self.codons()), 17),
    {
        self.seeded_hash(17)
    }

    /// The xxHash of the genome's codons, read as bytes, with `seed`.
    pub fn seeded_hash(&self, seed: u32) -> (r: u32)
        requires
            self.wf(),
        ensures
            r == xxh32_of(bytes_of(self.codons()), seed),
    {
        let n = self.len();
        let mut bytes: Vec<u8> = Vec::new();
        let mut p: usize = 0;
        while p < n
            invariant
                self.wf(),
                n == self.codons().len(),
                p <= n,
                bytes@ == bytes_of(self.codons()).subrange(0, p as int),
            decreases n - p,
        {
            let c = self.codon(p);
            bytes.push(c as u8);
            p += 1;
            assert(bytes@ =~= bytes_of(self.codons()).subrange(0, p as int));
        }
        assert(bytes@ =~= bytes_of(self.codons()));
        xxh32(&bytes, seed)
    }

    /// Builds a genome from codons, five to a gene, the last gene padded with
    /// stop codons; no codons give one blank gene.
    pub fn from_codons(other: Vec<i8>) -> (r: DNA)
        requires
            other@.len() <= MAX_GENES,
        ensures
            r.wf(),
            r.0@.len() > 0,
            r.codons().len() >= other@.len(),
            r.codons().len() < other@.len() + 5 || (other@.len() == 0 && r.0@.len() == 1),
            forall|p: int| 0 <= p < other@.len() ==> r.codons()[p] == other@[p],
            forall|p: int| other@.len() <= p < r.codons().len() ==> r.codons()[p] == STOP_CODON,
    {
        let n = other.len();
        let mut genes: Vec<Gene> = Vec::new();
        let mut start: usize = 0;
        while start < n || start == 0
            invariant
                n == other@.len(),
                n <= MAX_GENES,
                start == 5 * genes@.len(),
                start <= n + 4 || (n == 0 && genes@.len() == 1),
                forall|p: int| 0 <= p < start && p < n ==> codons_of(genes@)[p] == other@[p],
                forall|p: int| n <= p < start ==> codons_of(genes@)[p] == STOP_CODON,
            decreases n + 5 - start,
        {
            let mut g = Gene::new();
            let mut k: usize = 0;
            while k < GENE_LENGTH
                invariant
                    k <= 5,
                    n == other@.len(),
                    n <= MAX_GENES,
                    start < n || start == 0,
                    forall|j: int| 0 <= j < k && start + j < n ==> g.0@[j] == other@[start + j],
                    forall|j: int| 0 <= j < 5 && (j >= k || start + j >= n) ==> g.0@[j] == STOP_CODON,
                decreases 5 - k,
            {
                if start + k < n {
                    g.0[k] = other[start + k];
                }
                k += 1;
            }
            let ghost old_genes = genes@;
            genes.push(g);
            proof {
                assert forall|p: int| 0 <= p < start + 5 && p < n implies codons_of(genes@)[p] == other@[p] by {
                    if p < start {
                        assert(p / 5 < old_genes.len()) by (nonlinear_arith)
                            requires p < start, start == 5 * old_genes.len(), 0 <= p;
                        assert(genes@[p / 5] == old_genes[p / 5]);
                    } else {
                        assert(p / 5 == old_genes.len() && p % 5 == p - start) by (nonlinear_arith)
                            requires start <= p < start + 5, start == 5 * old_genes.len();
                    }
                }
                assert forall|p: int| n <= p < start + 5 implies codons_of(genes@)[p] == STOP_CODON by {
                    if p < start {
                        assert(p / 5 < old_genes.len()) by (nonlinear_arith)
                            requires p < start, start == 5 * old_genes.len(), 0 <= p;
                        assert(genes@[p / 5] == old_genes[p / 5]);
                    } else {
                        assert(p / 5 == old_genes.len() && p % 5 == p - start) by (nonlinear_arith)
                            requires start <= p < start + 5, start == 5 * old_genes.len();
                    }
                }
            }
            start = start + GENE_LENGTH;
        }
        DNA(genes)
    }
}

impl DNA {
    /// Breeds a child genome: walks both parents gene by gene, a blank gene
    /// standing in past a parent's end, takes each gene from one parent by
    /// a fair coin, and stops where both parents' genes are blank. With a
    /// chance of `mutation_rate_ppm` in a million the child then mutates.
    /// The second result says whether it did. The child is not validated.
    pub fn combine(mother: &DNA, father: &DNA, rng: &mut RngState, mutation_rate_ppm: u32) -> (r: (DNA, bool))
        requires
            mother.0@.len() < MAX_GENES,
            father.0@.len() < MAX_GENES,
        ensures
            r.0.wf(),
            r.0.0@.len() <= (if mother.0@.len() >= father.0@.len() {
                mother.0@.len()
            } else {
                father.0@.len()
            }) + 1,
            !r.1 ==> crossover_of(mother.0@, father.0@, r.0.0@),
            r.1 ==> exists|c: Seq<Gene>| #[trigger] crossover_of(mother.0@, father.0@, c) && (c == r.0.0@
                || genome_mutation(c, r.0.0@)),
            mutation_rate_ppm == 0 ==> !r.1,
    {
        let ghost m = mother.0@;
        let ghost f = father.0@;
        let longest = if mother.0.len() >= father.0.len() {
            mother.0.len()
        } else {
            father.0.len()
        };
        let mut child_genes: Vec<Gene> = Vec::new();
        let mut i: usize = 0;
        loop
            invariant
                m == mother.0@,
                f == father.0@,
                longest == if m.len() >= f.len() { m.len() } else { f.len() },
                i <= longest,
                child_genes@.len() == i,
                forall|j: int| 0 <= j < i ==> (#[trigger] child_genes@[j] == gene_or_blank(m, j) || child_genes@[j]
                    == gene_or_blank(f, j)),
                forall|j: int| 0 <= j < i ==> !(#[trigger] gene_or_blank(m, j).is_blank() && gene_or_blank(
                    f,
                    j,
                ).is_blank()),
            ensures
                child_genes@.len() == i,
                i <= longest,
                gene_or_blank(m, i as int).is_blank() && gene_or_blank(f, i as int).is_blank(),
            decreases longest - i,
        {
            let gene1 = if i < mother.0.len() {
                mother.0[i]
            } else {
                Gene::new()
            };
            let gene2 = if i < father.0.len() {
                father.0[i]
            } else {
                Gene::new()
            };
            if gene1.invalid() && gene2.invalid() {
                break;
            }
            child_genes.push(if rng.rand_bool() {
                gene1
            } else {
                gene2
            });
            i += 1;
        }
        let mut mutated = false;
        let ghost crossed = child_genes@;
        if mutation_rate_ppm > 0 && rng.rand_range(0, 1_000_000) < mutation_rate_ppm as usize {
            DNA::mutate(&mut child_genes, rng, mutation_rate_ppm);
            mutated = true;
        }
        proof {
            assert(crossover_of(mother.0@, father.0@, crossed));
        }
        (DNA(child_genes), mutated)
    }

    /// Mutates a gene list: rarely, at a chance that grows with the
    /// mutation rate, the whole genome (swap, double or delete a gene);
    /// otherwise one gene chosen at random, which may add a new gene next
    /// to it. An empty list is left as it is.
    fn mutate(genes: &mut Vec<Gene>, rng: &mut RngState, mutation_rate_ppm: u32)
        requires
            mutation_rate_ppm > 0,
        ensures
            final(genes)@.len() <= old(genes)@.len() + 1,
            old(genes)@.len() == 0 ==> final(genes)@ == old(genes)@,
            old(genes)@.len() > 0 ==> genome_mutation(old(genes)@, final(genes)@),
    {
        if genes.len() == 0 {
            return ;
        }
        let odds: u64 = 10_000_000_000u64 / mutation_rate_ppm as u64;
        let n: u32 = if odds > u32::MAX as u64 {
            u32::MAX
        } else {
            odds as u32
        };
        if rng.rand_weighted_bool(n) {
            DNA::genome_level_mutation(genes, rng)
        } else {
            let ghost before = genes@;
            let index = rng.rand_range(0, genes.len());
            let mut gene = genes[index];
            let born = gene.mutate(rng);
            genes.set(index, gene);
            if let Some(new_gene) = born {
                genes.insert(index, new_gene)
            }
            proof {
                assert(gene_mutated(before[index as int], gene, born));
                assert(genes@ == gene_slot_result(before, index as int, gene, born));
            }
        }
    }

    /// Swaps two genes, doubles one, or deletes one, chosen at random.
    fn genome_level_mutation(genome: &mut Vec<Gene>, rng: &mut RngState)
        requires
            old(genome)@.len() > 0,
        ensures
            final(genome)@.len() <= old(genome)@.len() + 1,
            genome_mutation(old(genome)@, final(genome)@),
    {
        let choice = rng.uniform(1, 3);
        if choice == 1 {
            let i1 = rng.rand_range(0, genome.len());
            let i2 = rng.rand_range(0, genome.len());
            let g1 = genome[i1];
            let g2 = genome[i2];
            genome.set(i1, g2);
            genome.set(i2, g1);
            assert(genome@ =~= swapped(old(genome)@, i1 as int, i2 as int));
        } else if choice == 2 {
            let i = rng.rand_range(0, genome.len());
            let gene = genome[i];
            genome.insert(i, gene);
            assert(genome@ == old(genome)@.insert(i as int, old(genome)@[i as int]));
        } else {
            let i = rng.rand_range(0, genome.len());
            genome.remove(i);
            assert(genome@ == old(genome)@.remove(i as int));
        }
    }
}

/// A circular reader over a genome's codons.
pub struct DNAIter {
    pub dna: DNA,
    pub offset: usize,
    pub dna_len: usize,
}

impl DNAIter {
    /// Whether the reader's position lies in the genome.
    pub open spec fn wf(&self) -> bool {
        &&& self.dna.wf()
        &&& self.dna_len == self.dna.codons().len()
        &&& self.dna_len > 0
        &&& self.offset < self.dna_len
    }

    pub fn new(dna: DNA, offset: usize) -> (r: DNAIter)
        requires
            dna.wf(),
            dna.0@.len() > 0,
        ensures
            r.wf(),
            r.dna.0@ == dna.0@,
            r.offset == offset as int % dna.codons().len() as int,
    {
        let len = dna.len();
        DNAIter { dna, offset: offset % len, dna_len: len }
    }

    /// Position of the next codon.
    pub fn offset(&self) -> (r: usize)
        ensures
            r == self.offset,
    {
        self.offset
    }

    /// Reads the next codon and moves on, wrapping at the end.
    pub fn next_codon(&mut self) -> (r: i8)
        requires
            old(self).wf(),
        ensures
            final(self).wf(),
            final(self).dna.0@ == old(self).dna.0@,
            r == old(self).dna.codons()[old(self).offset as int],
            final(self).offset == (old(self).offset + 1) % old(self).dna_len as int,
    {
        let r = self.dna.codon(self.offset);
        proof {
            if self.offset + 1 < self.dna_len {
                vstd::arithmetic::div_mod::lemma_small_mod((self.offset + 1) as nat, self.dna_len as nat);
            } else {
                vstd::arithmetic::div_mod::lemma_mod_self_0(self.dna_len as int);
            }
        }
        self.offset = if self.offset + 1 == self.dna_len {
            0
        } else {
            self.offset + 1
        };
        r
    }
}

} // verus!
