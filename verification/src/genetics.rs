//! Genes and attributes: a gene is a named, typed additive modifier; an
//! attribute set is the numeric and structural state derived by folding every
//! gene of a genome onto fixed defaults.
//!
//! Rates (reproduction, mutation, metabolism) are fixed-point integers with
//! [`crate::num::UNIT`] subdivisions per unit; the defaults of 0.1 are stored
//! as `100`.

use vstd::prelude::*;

use crate::geometry::Body;
use crate::geometry::BodySquare;
use crate::num::clamp_i64;
use crate::num::clamp_isize;
use crate::num::sat_add_i64;
use crate::num::sat_add_isize;

verus! {

/// One gene effect: an additive delta to a single attribute, or a list of
/// body states to append. Exactly one variant is active per instance.
#[derive(Debug, PartialEq)]
pub enum AttributeType {
    MaxEnergy(isize),
    MaxAge(isize),
    MaxSize(isize),
    ReproductionRate(i64),
    MutationRate(i64),
    PubertyAge(isize),
    BodyStates(Vec<Body>),
    Metabolism(i64),
}

/// The mathematical value of an [`AttributeType`].
#[verifier::ext_equal]
pub enum AttributeTypeV {
    MaxEnergy(int),
    MaxAge(int),
    MaxSize(int),
    ReproductionRate(int),
    MutationRate(int),
    PubertyAge(int),
    BodyStates(Seq<Seq<BodySquare>>),
    Metabolism(int),
}

/// The views of a sequence of bodies.
pub open spec fn bodies_view(bodies: Seq<Body>) -> Seq<Seq<BodySquare>> {
    bodies.map_values(|b: Body| b@)
}

impl View for AttributeType {
    type V = AttributeTypeV;

    open spec fn view(&self) -> AttributeTypeV {
        match self {
            AttributeType::MaxEnergy(v) => AttributeTypeV::MaxEnergy(*v as int),
            AttributeType::MaxAge(v) => AttributeTypeV::MaxAge(*v as int),
            AttributeType::MaxSize(v) => AttributeTypeV::MaxSize(*v as int),
            AttributeType::ReproductionRate(v) => AttributeTypeV::ReproductionRate(*v as int),
            AttributeType::MutationRate(v) => AttributeTypeV::MutationRate(*v as int),
            AttributeType::PubertyAge(v) => AttributeTypeV::PubertyAge(*v as int),
            AttributeType::BodyStates(bodies) => AttributeTypeV::BodyStates(bodies_view(bodies@)),
            AttributeType::Metabolism(v) => AttributeTypeV::Metabolism(*v as int),
        }
    }
}

/// A gene: identity, a redundant scalar value, and one effect payload.
/// Immutable once created.
#[derive(Debug, PartialEq)]
pub struct Gene {
    pub id: isize,
    pub name: String,
    pub value: isize,
    pub attribute_type: AttributeType,
}

/// The mathematical value of a [`Gene`].
pub struct GeneV {
    pub id: int,
    pub name: Seq<char>,
    pub value: int,
    pub attribute_type: AttributeTypeV,
}

impl View for Gene {
    type V = GeneV;

    open spec fn view(&self) -> GeneV {
        GeneV {
            id: self.id as int,
            name: self.name@,
            value: self.value as int,
            attribute_type: self.attribute_type@,
        }
    }
}

/// An ordered list of genes. Order does not affect the scalar part of the
/// fold result; it fixes the order of appended body states.
#[derive(Debug, PartialEq)]
pub struct Genome {
    pub genes: Vec<Gene>,
}

impl View for Genome {
    type V = Seq<GeneV>;

    open spec fn view(&self) -> Seq<GeneV> {
        self.genes@.map_values(|g: Gene| g@)
    }
}

/// An organism's effective numeric profile, derived once at construction by
/// folding every gene's effect onto the defaults.
#[derive(Debug, PartialEq)]
pub struct Attribute {
    pub max_energy: isize,
    pub max_age: isize,
    pub max_size: isize,
    pub reproduction_rate: i64,
    pub mutation_rate: i64,
    pub puberty_age: isize,
    pub body_states: Vec<Body>,
    pub metabolism: i64,
}

/// The mathematical value of an [`Attribute`].
#[verifier::ext_equal]
pub struct AttributeV {
    pub max_energy: int,
    pub max_age: int,
    pub max_size: int,
    pub reproduction_rate: int,
    pub mutation_rate: int,
    pub puberty_age: int,
    pub body_states: Seq<Seq<BodySquare>>,
    pub metabolism: int,
}

impl View for Attribute {
    type V = AttributeV;

    open spec fn view(&self) -> AttributeV {
        AttributeV {
            max_energy: self.max_energy as int,
            max_age: self.max_age as int,
            max_size: self.max_size as int,
            reproduction_rate: self.reproduction_rate as int,
            mutation_rate: self.mutation_rate as int,
            puberty_age: self.puberty_age as int,
            body_states: bodies_view(self.body_states@),
            metabolism: self.metabolism as int,
        }
    }
}

/// The fixed default attribute values every organism starts from.
pub open spec fn default_attributes_v() -> AttributeV {
    AttributeV {
        max_energy: 1000,
        max_age: 1000,
        max_size: 1000,
        reproduction_rate: 100,
        mutation_rate: 100,
        puberty_age: 100,
        body_states: Seq::empty(),
        metabolism: 100,
    }
}

/// One gene's effect on an attribute set: a saturating additive delta to the
/// named scalar, or body states appended in order.
pub open spec fn apply_gene(a: AttributeV, g: GeneV) -> AttributeV {
    match g.attribute_type {
        AttributeTypeV::MaxEnergy(v) => AttributeV { max_energy: clamp_isize(a.max_energy + v), ..a },
        AttributeTypeV::MaxAge(v) => AttributeV { max_age: clamp_isize(a.max_age + v), ..a },
        AttributeTypeV::MaxSize(v) => AttributeV { max_size: clamp_isize(a.max_size + v), ..a },
        AttributeTypeV::ReproductionRate(v) => AttributeV {
            reproduction_rate: clamp_i64(a.reproduction_rate + v),
            ..a
        },
        AttributeTypeV::MutationRate(v) => AttributeV {
            mutation_rate: clamp_i64(a.mutation_rate + v),
            ..a
        },
        AttributeTypeV::PubertyAge(v) => AttributeV { puberty_age: clamp_isize(a.puberty_age + v), ..a },
        AttributeTypeV::BodyStates(bs) => AttributeV { body_states: a.body_states + bs, ..a },
        AttributeTypeV::Metabolism(v) => AttributeV { metabolism: clamp_i64(a.metabolism + v), ..a },
    }
}

/// The left-to-right fold of a genome's effects onto an attribute set.
pub open spec fn fold_genes(a: AttributeV, genes: Seq<GeneV>) -> AttributeV
    decreases genes.len(),
{
    if genes.len() == 0 {
        a
    } else {
        apply_gene(fold_genes(a, genes.drop_last()), genes.last())
    }
}

/// Unrolls one step of [`fold_genes`] at the front of the remaining genes.
pub proof fn lemma_fold_genes_take_step(a: AttributeV, genes: Seq<GeneV>, i: int)
    requires
        0 <= i < genes.len(),
    ensures
        fold_genes(a, genes.take(i + 1)) == apply_gene(fold_genes(a, genes.take(i)), genes[i]),
{
    assert(genes.take(i + 1).drop_last() =~= genes.take(i));
    assert(genes.take(i + 1).last() == genes[i]);
}

impl Attribute {
    /// The fixed default attribute values every organism starts from.
    pub fn default_attributes() -> (a: Attribute)
        ensures
            a@ == default_attributes_v(),
    {
        let a = Attribute {
            max_energy: 1000,
            max_age: 1000,
            max_size: 1000,
            reproduction_rate: 100,
            mutation_rate: 100,
            puberty_age: 100,
            body_states: Vec::new(),
            metabolism: 100,
        };
        proof {
            assert(a@.body_states =~= default_attributes_v().body_states);
        }
        a
    }
}

/// A deep copy of a sequence of bodies.
pub fn clone_bodies(bodies: &Vec<Body>) -> (r: Vec<Body>)
    ensures
        bodies_view(r@) == bodies_view(bodies@),
{
    let n: usize = bodies.len();
    let mut r: Vec<Body> = Vec::new();
    let mut i: usize = 0;
    while i < n
        invariant
            n == bodies@.len(),
            i <= n,
            r@.len() == i,
            forall|k: int| 0 <= k < i ==> #[trigger] r@[k]@ == bodies@[k]@,
        decreases n - i,
    {
        r.push(bodies[i].clone());
        i = i + 1;
    }
    proof {
        assert(bodies_view(r@) =~= bodies_view(bodies@));
    }
    r
}

impl Clone for AttributeType {
    /// A deep copy with the same effect payload.
    fn clone(&self) -> (r: Self)
        ensures
            r@ == self@,
    {
        match self {
            AttributeType::MaxEnergy(v) => AttributeType::MaxEnergy(*v),
            AttributeType::MaxAge(v) => AttributeType::MaxAge(*v),
            AttributeType::MaxSize(v) => AttributeType::MaxSize(*v),
            AttributeType::ReproductionRate(v) => AttributeType::ReproductionRate(*v),
            AttributeType::MutationRate(v) => AttributeType::MutationRate(*v),
            AttributeType::PubertyAge(v) => AttributeType::PubertyAge(*v),
            AttributeType::BodyStates(bodies) => AttributeType::BodyStates(clone_bodies(bodies)),
            AttributeType::Metabolism(v) => AttributeType::Metabolism(*v),
        }
    }
}

impl Clone for Gene {
    /// A deep copy with the same identity and effect.
    fn clone(&self) -> (r: Self)
        ensures
            r@ == self@,
    {
        Gene {
            id: self.id,
            name: self.name.clone(),
            value: self.value,
            attribute_type: self.attribute_type.clone(),
        }
    }
}

impl Clone for Genome {
    /// A deep copy with the same genes in the same order.
    fn clone(&self) -> (r: Self)
        ensures
            r@ == self@,
    {
        let n: usize = self.genes.len();
        let mut genes: Vec<Gene> = Vec::new();
        let mut i: usize = 0;
        while i < n
            invariant
                n == self.genes@.len(),
                i <= n,
                genes@.len() == i,
                forall|k: int| 0 <= k < i ==> #[trigger] genes@[k]@ == self.genes@[k]@,
            decreases n - i,
        {
            genes.push(self.genes[i].clone());
            i = i + 1;
        }
        proof {
            assert(genes@.map_values(|g: Gene| g@) =~= self.genes@.map_values(|g: Gene| g@));
        }
        Genome { genes }
    }
}

impl Clone for Attribute {
    /// A deep copy with the same scalar values and body states.
    fn clone(&self) -> (r: Self)
        ensures
            r@ == self@,
    {
        Attribute {
            max_energy: self.max_energy,
            max_age: self.max_age,
            max_size: self.max_size,
            reproduction_rate: self.reproduction_rate,
            mutation_rate: self.mutation_rate,
            puberty_age: self.puberty_age,
            body_states: clone_bodies(&self.body_states),
            metabolism: self.metabolism,
        }
    }
}

} // verus!
