//! Laws of gene folding: the fold of a genome onto the defaults equals the
//! defaults plus the sum of every scalar delta with body states concatenated
//! in genome order, the scalar result is independent of gene order, and a
//! second fold is never a no-op while some scalar delta sum is nonzero.
//!
//! Saturation breaks exact additivity, so each law assumes that no
//! intermediate fold value leaves its field's machine range.

use vstd::assert_multisets_equal;
use vstd::prelude::*;

use crate::genetics::apply_gene;
use crate::genetics::default_attributes_v;
use crate::genetics::fold_genes;
use crate::genetics::AttributeTypeV;
use crate::genetics::AttributeV;
use crate::genetics::GeneV;
use crate::geometry::BodySquare;

verus! {

/// One scalar attribute field.
#[derive(PartialEq, Eq, Structural)]
pub enum ScalarField {
    MaxEnergy,
    MaxAge,
    MaxSize,
    ReproductionRate,
    MutationRate,
    PubertyAge,
    Metabolism,
}

/// The named scalar field of an attribute set.
pub open spec fn scalar_of(fld: ScalarField, a: AttributeV) -> int {
    match fld {
        ScalarField::MaxEnergy => a.max_energy,
        ScalarField::MaxAge => a.max_age,
        ScalarField::MaxSize => a.max_size,
        ScalarField::ReproductionRate => a.reproduction_rate,
        ScalarField::MutationRate => a.mutation_rate,
        ScalarField::PubertyAge => a.puberty_age,
        ScalarField::Metabolism => a.metabolism,
    }
}

/// The delta a gene contributes to the named scalar field: zero unless the
/// gene's effect targets that field.
pub open spec fn scalar_delta(fld: ScalarField, g: GeneV) -> int {
    match fld {
        ScalarField::MaxEnergy => match g.attribute_type {
            AttributeTypeV::MaxEnergy(v) => v,
            _ => 0,
        },
        ScalarField::MaxAge => match g.attribute_type {
            AttributeTypeV::MaxAge(v) => v,
            _ => 0,
        },
        ScalarField::MaxSize => match g.attribute_type {
            AttributeTypeV::MaxSize(v) => v,
            _ => 0,
        },
        ScalarField::ReproductionRate => match g.attribute_type {
            AttributeTypeV::ReproductionRate(v) => v,
            _ => 0,
        },
        ScalarField::MutationRate => match g.attribute_type {
            AttributeTypeV::MutationRate(v) => v,
            _ => 0,
        },
        ScalarField::PubertyAge => match g.attribute_type {
            AttributeTypeV::PubertyAge(v) => v,
            _ => 0,
        },
        ScalarField::Metabolism => match g.attribute_type {
            AttributeTypeV::Metabolism(v) => v,
            _ => 0,
        },
    }
}

/// The body states a gene contributes: empty unless its effect is a
/// body-state list.
pub open spec fn gene_states(g: GeneV) -> Seq<Seq<BodySquare>> {
    match g.attribute_type {
        AttributeTypeV::BodyStates(bs) => bs,
        _ => Seq::empty(),
    }
}

/// The sum of the named scalar field's deltas over a genome.
pub open spec fn delta_sum(fld: ScalarField, gs: Seq<GeneV>) -> int
    decreases gs.len(),
{
    if gs.len() == 0 {
        0
    } else {
        delta_sum(fld, gs.drop_last()) + scalar_delta(fld, gs.last())
    }
}

/// The concatenation, in genome order, of every body-state list a genome
/// contributes.
pub open spec fn concat_states(gs: Seq<GeneV>) -> Seq<Seq<BodySquare>>
    decreases gs.len(),
{
    if gs.len() == 0 {
        Seq::empty()
    } else {
        concat_states(gs.drop_last()) + gene_states(gs.last())
    }
}

/// One gene's effect with exact (unsaturated) addition.
pub open spec fn apply_gene_exact(a: AttributeV, g: GeneV) -> AttributeV {
    AttributeV {
        max_energy: a.max_energy + scalar_delta(ScalarField::MaxEnergy, g),
        max_age: a.max_age + scalar_delta(ScalarField::MaxAge, g),
        max_size: a.max_size + scalar_delta(ScalarField::MaxSize, g),
        reproduction_rate: a.reproduction_rate + scalar_delta(ScalarField::ReproductionRate, g),
        mutation_rate: a.mutation_rate + scalar_delta(ScalarField::MutationRate, g),
        puberty_age: a.puberty_age + scalar_delta(ScalarField::PubertyAge, g),
        body_states: a.body_states + gene_states(g),
        metabolism: a.metabolism + scalar_delta(ScalarField::Metabolism, g),
    }
}

/// The fold of a genome with exact (unsaturated) addition.
pub open spec fn fold_exact(a: AttributeV, gs: Seq<GeneV>) -> AttributeV
    decreases gs.len(),
{
    if gs.len() == 0 {
        a
    } else {
        apply_gene_exact(fold_exact(a, gs.drop_last()), gs.last())
    }
}

/// Every scalar field of the attribute set lies within its machine range.
pub open spec fn attr_in_range(a: AttributeV) -> bool {
    &&& isize::MIN as int <= a.max_energy <= isize::MAX as int
    &&& isize::MIN as int <= a.max_age <= isize::MAX as int
    &&& isize::MIN as int <= a.max_size <= isize::MAX as int
    &&& i64::MIN as int <= a.reproduction_rate <= i64::MAX as int
    &&& i64::MIN as int <= a.mutation_rate <= i64::MAX as int
    &&& isize::MIN as int <= a.puberty_age <= isize::MAX as int
    &&& i64::MIN as int <= a.metabolism <= i64::MAX as int
}

/// No intermediate value of the exact fold leaves its field's machine range.
pub open spec fn fold_exact_in_range(a: AttributeV, gs: Seq<GeneV>) -> bool
    decreases gs.len(),
{
    if gs.len() == 0 {
        attr_in_range(a)
    } else {
        fold_exact_in_range(a, gs.drop_last()) && attr_in_range(fold_exact(a, gs))
    }
}

/// While no intermediate value saturates, the saturating fold agrees with the
/// exact one.
pub proof fn lemma_fold_genes_exact(a: AttributeV, gs: Seq<GeneV>)
    requires
        fold_exact_in_range(a, gs),
    ensures
        fold_genes(a, gs) == fold_exact(a, gs),
    decreases gs.len(),
{
    if gs.len() > 0 {
        lemma_fold_genes_exact(a, gs.drop_last());
        let x = fold_exact(a, gs.drop_last());
        let g = gs.last();
        assert(apply_gene(x, g) =~= apply_gene_exact(x, g));
    }
}

/// Each scalar field of the exact fold is the starting value plus the sum of
/// that field's deltas.
pub proof fn lemma_fold_exact_sum(fld: ScalarField, a: AttributeV, gs: Seq<GeneV>)
    ensures
        scalar_of(fld, fold_exact(a, gs)) == scalar_of(fld, a) + delta_sum(fld, gs),
    decreases gs.len(),
{
    if gs.len() > 0 {
        lemma_fold_exact_sum(fld, a, gs.drop_last());
    }
}

/// The body states of the exact fold are the starting ones plus the genome's
/// contributions, concatenated in genome order.
pub proof fn lemma_fold_exact_states(a: AttributeV, gs: Seq<GeneV>)
    ensures
        fold_exact(a, gs).body_states == a.body_states + concat_states(gs),
    decreases gs.len(),
{
    if gs.len() == 0 {
        assert(fold_exact(a, gs).body_states =~= a.body_states + concat_states(gs));
    } else {
        lemma_fold_exact_states(a, gs.drop_last());
        assert(fold_exact(a, gs).body_states =~= a.body_states + concat_states(gs));
    }
}

/// Removing one gene removes exactly its delta from the sum.
proof fn lemma_delta_sum_remove(fld: ScalarField, gs: Seq<GeneV>, i: int)
    requires
        0 <= i < gs.len(),
    ensures
        delta_sum(fld, gs.remove(i)) == delta_sum(fld, gs) - scalar_delta(fld, gs[i]),
    decreases gs.len(),
{
    if i == gs.len() - 1 {
        assert(gs.remove(i) =~= gs.drop_last());
    } else {
        assert(gs.remove(i).drop_last() =~= gs.drop_last().remove(i));
        assert(gs.remove(i).last() == gs.last());
        lemma_delta_sum_remove(fld, gs.drop_last(), i);
    }
}

/// Two genomes with the same genes in any order have the same delta sums.
pub proof fn lemma_delta_sum_permutation(fld: ScalarField, gs1: Seq<GeneV>, gs2: Seq<GeneV>)
    requires
        gs1.to_multiset() == gs2.to_multiset(),
    ensures
        delta_sum(fld, gs1) == delta_sum(fld, gs2),
    decreases gs1.len(),
{
    broadcast use vstd::seq_lib::group_to_multiset_ensures;
    broadcast use vstd::multiset::group_multiset_axioms;

    if gs1.len() == 0 {
        assert(gs2.to_multiset().len() == 0);
    } else {
        let x = gs1.last();
        assert(gs1.contains(x)) by {
            assert(gs1[gs1.len() - 1] == x);
        }
        assert(gs2.to_multiset().count(x) > 0);
        assert(gs2.contains(x));
        let j = choose|j: int| 0 <= j < gs2.len() && gs2[j] == x;
        lemma_delta_sum_remove(fld, gs2, j);
        assert(gs1 =~= gs1.drop_last().push(x));
        assert(gs1.drop_last().push(x).to_multiset() =~= gs1.drop_last().to_multiset().insert(x));
        assert(gs2.remove(j).to_multiset() =~= gs2.to_multiset().remove(x));
        assert_multisets_equal!(gs1.drop_last().to_multiset(), gs2.remove(j).to_multiset(), e => {
            assert(gs1.drop_last().to_multiset().insert(x).count(e)
                == gs2.to_multiset().count(e));
        });
        lemma_delta_sum_permutation(fld, gs1.drop_last(), gs2.remove(j));
    }
}

/// Law: folding a genome onto the defaults yields the defaults plus the sum
/// of every scalar delta, with body states exactly the concatenation of the
/// appended lists in genome order; reordering the genes changes no scalar
/// field. Holds while no intermediate fold value saturates.
pub proof fn lemma_fold_order_independent(gs1: Seq<GeneV>, gs2: Seq<GeneV>)
    requires
        gs1.to_multiset() == gs2.to_multiset(),
        fold_exact_in_range(default_attributes_v(), gs1),
        fold_exact_in_range(default_attributes_v(), gs2),
    ensures
        forall|fld: ScalarField| #[trigger]
            scalar_of(fld, fold_genes(default_attributes_v(), gs1)) == scalar_of(
                fld,
                default_attributes_v(),
            ) + delta_sum(fld, gs1),
        forall|fld: ScalarField| #[trigger]
            scalar_of(fld, fold_genes(default_attributes_v(), gs1)) == scalar_of(
                fld,
                fold_genes(default_attributes_v(), gs2),
            ),
        fold_genes(default_attributes_v(), gs1).body_states == concat_states(gs1),
{
    let d = default_attributes_v();
    lemma_fold_genes_exact(d, gs1);
    lemma_fold_genes_exact(d, gs2);
    lemma_fold_exact_states(d, gs1);
    assert(d.body_states + concat_states(gs1) =~= concat_states(gs1));
    assert forall|fld: ScalarField| #[trigger]
        scalar_of(fld, fold_genes(d, gs1)) == scalar_of(fld, d) + delta_sum(fld, gs1) by {
        lemma_fold_exact_sum(fld, d, gs1);
    }
    assert forall|fld: ScalarField| #[trigger]
        scalar_of(fld, fold_genes(d, gs1)) == scalar_of(fld, fold_genes(d, gs2)) by {
        lemma_fold_exact_sum(fld, d, gs1);
        lemma_fold_exact_sum(fld, d, gs2);
        lemma_delta_sum_permutation(fld, gs1, gs2);
    }
}

/// Law: folding a genome's effects is not idempotent. A second fold adds
/// every scalar delta again, so while some scalar field's delta sum is
/// nonzero (and nothing saturates), folding twice never equals folding once.
pub proof fn lemma_fold_twice_differs(fld: ScalarField, gs: Seq<GeneV>)
    requires
        delta_sum(fld, gs) != 0,
        fold_exact_in_range(default_attributes_v(), gs),
        fold_exact_in_range(fold_genes(default_attributes_v(), gs), gs),
    ensures
        fold_genes(fold_genes(default_attributes_v(), gs), gs) != fold_genes(
            default_attributes_v(),
            gs,
        ),
{
    let d = default_attributes_v();
    lemma_fold_genes_exact(d, gs);
    lemma_fold_exact_sum(fld, d, gs);
    let once = fold_genes(d, gs);
    lemma_fold_genes_exact(once, gs);
    lemma_fold_exact_sum(fld, once, gs);
    assert(scalar_of(fld, fold_genes(once, gs)) != scalar_of(fld, once));
}

} // verus!
