//! The organism lifecycle engine: one organism's mutable state and the
//! per-frame advance that sequences movement, energy drain, aging, mutation
//! and energy-gated reproduction.

use vstd::prelude::*;

use rand::Rng;

use crate::genetics::apply_gene;
use crate::genetics::bodies_view;
use crate::genetics::default_attributes_v;
use crate::genetics::fold_genes;
use crate::genetics::lemma_fold_genes_take_step;
use crate::genetics::Attribute;
use crate::genetics::AttributeType;
use crate::genetics::AttributeV;
use crate::genetics::Genome;
use crate::geometry::blueprint_ok;
use crate::geometry::Body;
use crate::geometry::BodySquare;
use crate::geometry::GridVec2;
use crate::geometry::Vec2;
use crate::num::clamp_i128_to_isize;
use crate::num::clamp_i64;
use crate::num::clamp_isize;
use crate::num::lemma_tdiv_bound;
use crate::num::sat_add_i64;
use crate::num::sat_add_isize;
use crate::num::tdiv;
use crate::num::tdiv_i128;
use crate::num::UNIT;

verus! {

/// The status an organism reports after a frame: terminal once `Dead`.
#[derive(Debug, PartialEq, Eq, Structural, Clone, Copy)]
pub enum OrganismState {
    Alive,
    Dead,
}

/// One organism: identity, genome, current vitals, grid location, the current
/// body geometry, the index of the current body state, and the attribute set
/// derived from the genome at construction.
#[derive(Debug)]
pub struct Organism {
    pub id: isize,
    pub genome: Genome,
    pub energy: isize,
    pub age: isize,
    pub location: GridVec2,
    pub body_squares: Body,
    pub current_body_state: isize,
    pub attributes: Attribute,
}

/// Relies on `rand::thread_rng` and `rand::Rng::gen_range`: a uniform draw
/// from `lo..hi`, which panics only on an empty range.
#[verifier::external_body]
fn random_in_range(lo: i64, hi: i64) -> (r: i64)
    requires
        lo < hi,
    ensures
        lo <= r < hi,
{
    rand::thread_rng().gen_range(lo..hi)
}

/// The two attribute sets agree on every scalar field; only the body states
/// may differ.
pub open spec fn same_scalars(a: AttributeV, b: AttributeV) -> bool {
    &&& b.max_energy == a.max_energy
    &&& b.max_age == a.max_age
    &&& b.max_size == a.max_size
    &&& b.reproduction_rate == a.reproduction_rate
    &&& b.mutation_rate == a.mutation_rate
    &&& b.puberty_age == a.puberty_age
    &&& b.metabolism == a.metabolism
}

/// `new` is `old` plus an independent perturbation of strictly less than one
/// unit on this axis, saturating at the fixed-point range: exactly the
/// interval of values `clamp_i64(old_c + d)` reaches for `-UNIT <= d < UNIT`.
pub open spec fn perturbed_coord(old_c: int, new_c: int) -> bool {
    clamp_i64(old_c - UNIT as int) <= new_c <= clamp_i64(old_c + UNIT as int - 1)
}

/// Each axis of `b` is a perturbation of the same axis of `a`.
pub open spec fn perturbed_square(a: BodySquare, b: BodySquare) -> bool {
    perturbed_coord(a.position.x as int, b.position.x as int) && perturbed_coord(
        a.position.y as int,
        b.position.y as int,
    )
}

/// `b` has the same squares as `a`, each position perturbed independently.
pub open spec fn perturbed_body(a: Seq<BodySquare>, b: Seq<BodySquare>) -> bool {
    b.len() == a.len() && forall|i: int| 0 <= i < a.len() ==> perturbed_square(a[i], #[trigger] b[i])
}

/// `b` is `a` with every body's every square perturbed in place.
pub open spec fn perturbed_states(a: Seq<Seq<BodySquare>>, b: Seq<Seq<BodySquare>>) -> bool {
    b.len() == a.len() && forall|i: int| 0 <= i < a.len() ==> perturbed_body(a[i], #[trigger] b[i])
}

/// `new` is `old` plus a jitter of −1 or 0, saturating at the grid range.
pub open spec fn jittered_coord(old_c: int, new_c: int) -> bool {
    clamp_isize(old_c - 1) <= new_c <= clamp_isize(old_c)
}

/// What reproduction builds from a parent: same identity and genome, half the
/// parent's energy (truncated toward zero), age zero, the parent's location
/// jittered by −1 or 0 per axis, the parent's current body, the first body
/// state current, and the parent's attributes with freshly perturbed body
/// states.
pub open spec fn offspring_of(parent: Organism, c: Organism) -> bool {
    &&& c.id == parent.id
    &&& c.genome@ == parent.genome@
    &&& c.energy as int == tdiv(parent.energy as int, 2)
    &&& c.age == 0
    &&& jittered_coord(parent.location.x as int, c.location.x as int)
    &&& jittered_coord(parent.location.y as int, c.location.y as int)
    &&& c.body_squares@ == parent.body_squares@
    &&& c.current_body_state == 0
    &&& same_scalars(parent.attributes@, c.attributes@)
    &&& perturbed_states(parent.attributes@.body_states, c.attributes@.body_states)
}

/// A coordinate plus an independent uniform perturbation in one unit around
/// it.
fn perturb_coord_exec(c: i64) -> (r: i64)
    ensures
        perturbed_coord(c as int, r as int),
{
    let d = random_in_range(-UNIT, UNIT);
    sat_add_i64(c, d)
}

/// Half of `e`, truncated toward zero.
fn halved(e: isize) -> (r: isize)
    ensures
        r as int == tdiv(e as int, 2),
{
    proof {
        lemma_tdiv_bound(e as int, 2, isize::MAX as int);
    }
    let h = tdiv_i128(e as i128, 2);
    h as isize
}

/// The body state the movement computation pairs the current body with: the
/// entry at the current index, falling back to the first entry when the index
/// is out of range.
pub open spec fn movement_target(o: Organism) -> Seq<BodySquare> {
    let bs = o.attributes@.body_states;
    if 0 <= o.current_body_state < bs.len() {
        bs[o.current_body_state as int]
    } else {
        bs[0]
    }
}

/// The body-state index after one frame: one further, wrapping to zero after
/// the last entry, and resetting to zero from an out-of-range index.
pub open spec fn cycled_state(o: Organism) -> int {
    if 0 <= o.current_body_state && o.current_body_state + 1 < o.attributes@.body_states.len() {
        o.current_body_state + 1
    } else {
        0
    }
}

/// The energy one frame costs: metabolism times the number of body squares,
/// truncated to whole energy units.
pub open spec fn frame_drain(o: Organism) -> int {
    clamp_isize(tdiv((o.attributes.metabolism as int) * (o.body_squares@.len() as int), UNIT as int))
}

/// The organism's energy once this frame's drain is charged.
pub open spec fn energy_after_drain(o: Organism) -> int {
    clamp_isize(o.energy as int - frame_drain(o))
}

/// Every proposed body state connects to `body`.
pub open spec fn all_states_fit(body: Seq<BodySquare>, states: Seq<Seq<BodySquare>>) -> bool {
    forall|i: int| 0 <= i < states.len() ==> blueprint_ok(body, #[trigger] states[i])
}

/// The outcome of one frame, beyond the movement and body-state cycling that
/// always happen: starvation and old age are terminal and skip every later
/// step; otherwise the organism ages, may mutate, and emits an offspring only
/// when the reproduction roll passed and every candidate body state connects
/// to the parent's current body, charging the parent the offspring's energy.
/// An aborted or unrolled reproduction leaves the parent's energy at the
/// drained value.
pub open spec fn frame_verdict(
    o: Organism,
    n: Organism,
    st: OrganismState,
    child: Option<Organism>,
) -> bool {
    let e1 = energy_after_drain(o);
    if e1 <= 0 {
        &&& st == OrganismState::Dead
        &&& child is None
        &&& n.energy == e1
        &&& n.age == o.age
        &&& n.attributes@ == o.attributes@
    } else if o.age + 1 >= o.attributes.max_age {
        &&& st == OrganismState::Dead
        &&& child is None
        &&& n.energy == e1
        &&& n.age == o.age + 1
        &&& n.attributes@ == o.attributes@
    } else {
        &&& st == OrganismState::Alive
        &&& n.age == o.age + 1
        &&& perturbed_states(o.attributes@.body_states, n.attributes@.body_states)
        &&& match child {
            Some(c) => {
                &&& c.id == o.id
                &&& c.genome@ == o.genome@
                &&& c.age == 0
                &&& c.current_body_state == 0
                &&& c.energy as int == tdiv(e1, 2)
                &&& c.body_squares@ == o.body_squares@
                &&& jittered_coord(n.location.x as int, c.location.x as int)
                &&& jittered_coord(n.location.y as int, c.location.y as int)
                &&& same_scalars(n.attributes@, c.attributes@)
                &&& perturbed_states(n.attributes@.body_states, c.attributes@.body_states)
                &&& all_states_fit(o.body_squares@, c.attributes@.body_states)
                &&& n.energy == e1 - tdiv(e1, 2)
            },
            None => n.energy == e1,
        }
    }
}

/// A coordinate interval always contains its own center.
proof fn lemma_perturbed_states_reflexive(s: Seq<Seq<BodySquare>>)
    ensures
        perturbed_states(s, s),
{
    assert forall|i: int| 0 <= i < s.len() implies perturbed_body(s[i], #[trigger] s[i]) by {
        assert forall|k: int| 0 <= k < s[i].len() implies perturbed_square(
            s[i][k],
            #[trigger] s[i][k],
        ) by {
        }
    }
}

/// How many squares the movement computation pairs up: the shorter of the two
/// bodies.
pub open spec fn pair_limit(cur: Seq<BodySquare>, nxt: Seq<BodySquare>) -> int {
    if cur.len() <= nxt.len() {
        cur.len() as int
    } else {
        nxt.len() as int
    }
}

/// The sum over the first `n` square pairs of the x displacement, each
/// truncated toward zero to whole units.
pub open spec fn displacement_sum_x(cur: Seq<BodySquare>, nxt: Seq<BodySquare>, n: int) -> int
    decreases n,
{
    if n <= 0 {
        0
    } else {
        displacement_sum_x(cur, nxt, n - 1) + tdiv(
            nxt[n - 1].position.x - cur[n - 1].position.x,
            UNIT as int,
        )
    }
}

/// The sum over the first `n` square pairs of the y displacement, each
/// truncated toward zero to whole units.
pub open spec fn displacement_sum_y(cur: Seq<BodySquare>, nxt: Seq<BodySquare>, n: int) -> int
    decreases n,
{
    if n <= 0 {
        0
    } else {
        displacement_sum_y(cur, nxt, n - 1) + tdiv(
            nxt[n - 1].position.y - cur[n - 1].position.y,
            UNIT as int,
        )
    }
}

/// The x component of the whole-organism displacement: the summed truncated
/// per-pair displacement, scaled by −2 and clamped to the grid range.
pub open spec fn movement_x(cur: Seq<BodySquare>, nxt: Seq<BodySquare>) -> int {
    clamp_isize(-2 * displacement_sum_x(cur, nxt, pair_limit(cur, nxt)))
}

/// The y component of the whole-organism displacement.
pub open spec fn movement_y(cur: Seq<BodySquare>, nxt: Seq<BodySquare>) -> int {
    clamp_isize(-2 * displacement_sum_y(cur, nxt, pair_limit(cur, nxt)))
}

impl Organism {
    /// The displacement an organism gains from the change of its body shape:
    /// squares are paired by index (truncating to the shorter body), each
    /// pair's displacement is truncated toward zero to whole units, and the
    /// sum is scaled by a fixed factor of −2, so net internal motion moves the
    /// organism in the opposite direction.
    pub fn calculate_movement(current_body: &Body, new_body: &Body) -> (r: GridVec2)
        ensures
            r.x as int == movement_x(current_body@, new_body@),
            r.y as int == movement_y(current_body@, new_body@),
    {
        let nc: usize = current_body.square_count();
        let nn: usize = new_body.square_count();
        let n: usize = if nc <= nn {
            nc
        } else {
            nn
        };
        let mut sx: i128 = 0;
        let mut sy: i128 = 0;
        let mut i: usize = 0;
        while i < n
            invariant
                n == pair_limit(current_body@, new_body@),
                n <= current_body@.len() && n <= new_body@.len(),
                i <= n,
                sx == displacement_sum_x(current_body@, new_body@, i as int),
                sy == displacement_sum_y(current_body@, new_body@, i as int),
                -((i as int) * 36028797018963968) <= sx <= (i as int) * 36028797018963968,
                -((i as int) * 36028797018963968) <= sy <= (i as int) * 36028797018963968,
            decreases n - i,
        {
            let c = current_body.square_at(i);
            let x = new_body.square_at(i);
            let dx: i128 = x.position.x as i128 - c.position.x as i128;
            let dy: i128 = x.position.y as i128 - c.position.y as i128;
            proof {
                lemma_tdiv_bound(dx as int, UNIT as int, 36028797018963968);
                lemma_tdiv_bound(dy as int, UNIT as int, 36028797018963968);
            }
            let tx = tdiv_i128(dx, UNIT as i128);
            let ty = tdiv_i128(dy, UNIT as i128);
            sx = sx + tx;
            sy = sy + ty;
            i = i + 1;
        }
        proof {
            assert((n as int) * 36028797018963968 <= 0xFFFF_FFFF_FFFF_FFFF * 36028797018963968);
        }
        GridVec2 { x: clamp_i128_to_isize(-2 * sx), y: clamp_i128_to_isize(-2 * sy) }
    }

    /// Folds every gene of the genome onto the current attributes, left to
    /// right in genome order: scalar deltas are added (saturating), and
    /// body-state payloads are appended. Called exactly once per organism, at
    /// construction: a second call would apply every delta again.
    pub fn apply_gene_effects(&mut self)
        ensures
            final(self).attributes@ == fold_genes(old(self).attributes@, old(self).genome@),
            final(self).id == old(self).id,
            final(self).genome == old(self).genome,
            final(self).energy == old(self).energy,
            final(self).age == old(self).age,
            final(self).location == old(self).location,
            final(self).body_squares@ == old(self).body_squares@,
            final(self).current_body_state == old(self).current_body_state,
    {
        let n: usize = self.genome.genes.len();
        let mut i: usize = 0;
        while i < n
            invariant
                n == self.genome.genes@.len(),
                i <= n,
                self.genome == old(self).genome,
                self.id == old(self).id,
                self.energy == old(self).energy,
                self.age == old(self).age,
                self.location == old(self).location,
                self.body_squares@ == old(self).body_squares@,
                self.current_body_state == old(self).current_body_state,
                self.attributes@ == fold_genes(old(self).attributes@, old(self).genome@.take(i as int)),
            decreases n - i,
        {
            proof {
                lemma_fold_genes_take_step(old(self).attributes@, old(self).genome@, i as int);
            }
            let effect = self.genome.genes[i].attribute_type.clone();
            match effect {
                AttributeType::MaxEnergy(v) => {
                    self.attributes.max_energy = sat_add_isize(self.attributes.max_energy, v);
                },
                AttributeType::MaxAge(v) => {
                    self.attributes.max_age = sat_add_isize(self.attributes.max_age, v);
                },
                AttributeType::MaxSize(v) => {
                    self.attributes.max_size = sat_add_isize(self.attributes.max_size, v);
                },
                AttributeType::ReproductionRate(v) => {
                    self.attributes.reproduction_rate = sat_add_i64(
                        self.attributes.reproduction_rate,
                        v,
                    );
                },
                AttributeType::MutationRate(v) => {
                    self.attributes.mutation_rate = sat_add_i64(self.attributes.mutation_rate, v);
                },
                AttributeType::PubertyAge(v) => {
                    self.attributes.puberty_age = sat_add_isize(self.attributes.puberty_age, v);
                },
                AttributeType::BodyStates(mut bodies) => {
                    let ghost appended = bodies_view(bodies@);
                    let ghost before = self.attributes@.body_states;
                    self.attributes.body_states.append(&mut bodies);
                    proof {
                        assert(self.attributes@.body_states =~= before + appended);
                    }
                },
                AttributeType::Metabolism(v) => {
                    self.attributes.metabolism = sat_add_i64(self.attributes.metabolism, v);
                },
            }
            proof {
                assert(self.attributes@ == apply_gene(
                    fold_genes(old(self).attributes@, old(self).genome@.take(i as int)),
                    old(self).genome@[i as int],
                ));
            }
            i = i + 1;
        }
        proof {
            assert(old(self).genome@.take(n as int) =~= old(self).genome@);
        }
    }

    /// Geometry-only mutation: replaces every body state with a fresh body
    /// whose squares sit at the previous positions plus an independent uniform
    /// perturbation of strictly less than one unit per axis. Gene values and
    /// scalar attributes are untouched.
    fn mutate(&mut self)
        ensures
            same_scalars(old(self).attributes@, final(self).attributes@),
            perturbed_states(
                old(self).attributes@.body_states,
                final(self).attributes@.body_states,
            ),
            final(self).id == old(self).id,
            final(self).genome == old(self).genome,
            final(self).energy == old(self).energy,
            final(self).age == old(self).age,
            final(self).location == old(self).location,
            final(self).body_squares@ == old(self).body_squares@,
            final(self).current_body_state == old(self).current_body_state,
    {
        let n: usize = self.attributes.body_states.len();
        let mut new_states: Vec<Body> = Vec::new();
        let mut i: usize = 0;
        while i < n
            invariant
                self == old(self),
                n == self.attributes.body_states@.len(),
                i <= n,
                new_states@.len() == i,
                forall|k: int|
                    0 <= k < i ==> perturbed_body(
                        self.attributes.body_states@[k]@,
                        #[trigger] new_states@[k]@,
                    ),
            decreases n - i,
        {
            let body = &self.attributes.body_states[i];
            let m: usize = body.square_count();
            let mut nb = Body::new();
            let mut j: usize = 0;
            while j < m
                invariant
                    m == body@.len(),
                    j <= m,
                    nb@.len() == j,
                    forall|k: int| 0 <= k < j ==> perturbed_square(body@[k], #[trigger] nb@[k]),
                decreases m - j,
            {
                let sq = body.square_at(j);
                let nx = perturb_coord_exec(sq.position.x);
                let ny = perturb_coord_exec(sq.position.y);
                nb.add_square(BodySquare { position: Vec2 { x: nx, y: ny } });
                j = j + 1;
            }
            new_states.push(nb);
            i = i + 1;
        }
        self.attributes.body_states = new_states;
        proof {
            assert(perturbed_states(
                old(self).attributes@.body_states,
                self.attributes@.body_states,
            ));
        }
    }

    /// Creates an organism from a genome: attributes start from the defaults,
    /// every gene's effect is applied once, and the body is a copy of the
    /// first derived body state. The genome must contribute at least one body
    /// state.
    pub fn new(id: isize, genome: Genome) -> (o: Organism)
        requires
            fold_genes(default_attributes_v(), genome@).body_states.len() > 0,
        ensures
            o.id == id,
            o.genome@ == genome@,
            o.energy == 1000,
            o.age == 0,
            o.location.x == 0 && o.location.y == 0,
            o.current_body_state == 0,
            o.attributes@ == fold_genes(default_attributes_v(), genome@),
            o.body_squares@ == o.attributes@.body_states[0],
    {
        let attributes = Attribute::default_attributes();
        let mut organism = Organism {
            id,
            genome,
            energy: 1000,
            age: 0,
            location: GridVec2 { x: 0, y: 0 },
            body_squares: Body::new(),
            current_body_state: 0,
            attributes,
        };
        organism.apply_gene_effects();
        let first = organism.attributes.body_states[0].clone();
        organism.body_squares = first;
        organism
    }

    /// Builds a candidate offspring: same id and genome, half the parent's
    /// current energy, age zero, the parent's location jittered by −1 or 0
    /// per axis, the parent's current body, the first body state current, and
    /// the parent's attributes independently mutated.
    pub fn reproduce(&self) -> (c: Organism)
        ensures
            offspring_of(*self, c),
    {
        let dx = random_in_range(-1, 1);
        let dy = random_in_range(-1, 1);
        let lx = clamp_i128_to_isize(self.location.x as i128 + dx as i128);
        let ly = clamp_i128_to_isize(self.location.y as i128 + dy as i128);
        let energy = halved(self.energy);
        let mut offspring = Organism {
            id: self.id,
            genome: self.genome.clone(),
            energy,
            age: 0,
            location: GridVec2 { x: lx, y: ly },
            body_squares: self.body_squares.clone(),
            current_body_state: 0,
            attributes: self.attributes.clone(),
        };
        offspring.mutate();
        offspring
    }

    /// Advances the organism by one frame: movement from the current body
    /// against the current body-state entry, body-state cycling, energy drain,
    /// the starvation and old-age death checks, a mutation roll, and an
    /// energy-gated, validity-gated reproduction roll. Returns the new life
    /// status and the offspring, if one was emitted.
    ///
    /// A non-empty body-state list is a construction invariant; an organism
    /// this old or with this many body states could not arise from frames
    /// advanced one at a time.
    #[verifier::loop_isolation(false)]
    pub fn next_frame(&mut self) -> (r: (OrganismState, Option<Organism>))
        requires
            old(self).attributes.body_states@.len() > 0,
            old(self).attributes.body_states@.len() <= isize::MAX as int,
            old(self).age < isize::MAX,
        ensures
            final(self).id == old(self).id,
            final(self).genome@ == old(self).genome@,
            final(self).body_squares@ == old(self).body_squares@,
            final(self).location.x as int == clamp_isize(
                old(self).location.x + movement_x(
                    old(self).body_squares@,
                    movement_target(*old(self)),
                ),
            ),
            final(self).location.y as int == clamp_isize(
                old(self).location.y + movement_y(
                    old(self).body_squares@,
                    movement_target(*old(self)),
                ),
            ),
            final(self).current_body_state as int == cycled_state(*old(self)),
            same_scalars(old(self).attributes@, final(self).attributes@),
            frame_verdict(*old(self), *final(self), r.0, r.1),
    {
        // movement against the body-state entry at the current index (the
        // first entry when the index is out of range)
        let n_states: usize = self.attributes.body_states.len();
        let idx: usize = if self.current_body_state >= 0 && (self.current_body_state as usize)
            < n_states {
            self.current_body_state as usize
        } else {
            0
        };
        let ds = Self::calculate_movement(&self.body_squares, &self.attributes.body_states[idx]);
        self.location.x = clamp_i128_to_isize(self.location.x as i128 + ds.x as i128);
        self.location.y = clamp_i128_to_isize(self.location.y as i128 + ds.y as i128);
        // body-state cycling
        if self.current_body_state >= 0 && (self.current_body_state as usize) + 1 < n_states {
            self.current_body_state = self.current_body_state + 1;
        } else {
            self.current_body_state = 0;
        }
        // energy drain
        let nsq: usize = self.body_squares.square_count();
        proof {
            assert(-0x8000_0000_0000_0000_0000_0000_0000_0000
                < (self.attributes.metabolism as int) * (nsq as int)
                < 0x8000_0000_0000_0000_0000_0000_0000_0000) by (nonlinear_arith)
                requires
                    -0x8000_0000_0000_0000 <= self.attributes.metabolism as int
                        <= 0x7FFF_FFFF_FFFF_FFFF,
                    0 <= nsq as int <= 0xFFFF_FFFF_FFFF_FFFF,
            ;
        }
        let prod: i128 = (self.attributes.metabolism as i128) * (nsq as i128);
        let drain = clamp_i128_to_isize(tdiv_i128(prod, UNIT as i128));
        let e1 = clamp_i128_to_isize(self.energy as i128 - drain as i128);
        self.energy = e1;
        // starvation check: terminal, nothing further runs
        if self.energy <= 0 {
            return (OrganismState::Dead, None);
        }
        // aging and the old-age check
        self.age = self.age + 1;
        if self.age >= self.attributes.max_age {
            return (OrganismState::Dead, None);
        }
        // mutation roll
        let roll = random_in_range(0, UNIT);
        if roll < self.attributes.mutation_rate {
            self.mutate();
        } else {
            proof {
                lemma_perturbed_states_reflexive(self.attributes@.body_states);
            }
        }
        // reproduction roll; the candidate is built either way, so that its
        // validity could be pre-checked
        let roll2 = random_in_range(0, UNIT);
        let will_reproduce = roll2 < self.attributes.reproduction_rate;
        let offspring = self.reproduce();
        if will_reproduce {
            // validity gate: every candidate body state must connect to the
            // parent's current body, else the birth is silently aborted with
            // no energy charged
            let n_bodies: usize = offspring.attributes.body_states.len();
            let ghost mid = *self;
            let mut i: usize = 0;
            while i < n_bodies
                invariant
                    *self == mid,
                    n_bodies == offspring.attributes.body_states@.len(),
                    i <= n_bodies,
                    forall|k: int|
                        0 <= k < i ==> blueprint_ok(
                            self.body_squares@,
                            #[trigger] offspring.attributes@.body_states[k],
                        ),
                decreases n_bodies - i,
            {
                if !self.body_squares.check_blueprint_validity(
                    offspring.attributes.body_states[i].squares(),
                ) {
                    return (OrganismState::Alive, None);
                }
                i = i + 1;
            }
            // accepted: charge the parent the offspring's energy
            proof {
                vstd::arithmetic::div_mod::lemma_div_pos_is_pos(self.energy as int, 2);
                vstd::arithmetic::div_mod::lemma_div_nonincreasing(self.energy as int, 2);
            }
            self.energy = self.energy - offspring.energy;
            return (OrganismState::Alive, Some(offspring));
        }
        (OrganismState::Alive, None)
    }
}

} // verus!
