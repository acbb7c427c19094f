use organism_sim::genetics::Attribute;
use organism_sim::genetics::AttributeType;
use organism_sim::genetics::Gene;
use organism_sim::genetics::Genome;
use organism_sim::geometry::Body;
use organism_sim::geometry::BodySquare;
use organism_sim::geometry::Vec2;
use organism_sim::organism::Organism;

fn square(x: i64, y: i64) -> BodySquare {
    BodySquare { position: Vec2 { x, y } }
}

fn body_of(points: &[(i64, i64)]) -> Body {
    let mut b = Body::new();
    for &(x, y) in points {
        b.add_square(square(x, y));
    }
    b
}

fn gene(id: isize, name: &str, attribute_type: AttributeType) -> Gene {
    Gene { id, name: String::from(name), value: 0, attribute_type }
}

fn one_of_each(order: &[usize]) -> Genome {
    let make = |k: usize| -> Gene {
        match k {
            0 => gene(0, "energy", AttributeType::MaxEnergy(50)),
            1 => gene(1, "age", AttributeType::MaxAge(-100)),
            2 => gene(2, "size", AttributeType::MaxSize(7)),
            3 => gene(3, "reproduction", AttributeType::ReproductionRate(250)),
            4 => gene(4, "mutation", AttributeType::MutationRate(-40)),
            5 => gene(5, "puberty", AttributeType::PubertyAge(20)),
            6 => gene(6, "metabolism", AttributeType::Metabolism(900)),
            _ => gene(
                7,
                "states",
                AttributeType::BodyStates(vec![body_of(&[(0, 0)]), body_of(&[(1000, 0)])]),
            ),
        }
    };
    Genome { genes: order.iter().map(|&k| make(k)).collect() }
}

fn check_scalars(a: &Attribute) {
    assert_eq!(a.max_energy, 1050);
    assert_eq!(a.max_age, 900);
    assert_eq!(a.max_size, 1007);
    assert_eq!(a.reproduction_rate, 350);
    assert_eq!(a.mutation_rate, 60);
    assert_eq!(a.puberty_age, 120);
    assert_eq!(a.metabolism, 1000);
}

#[test]
fn attribute_folding_adds_every_delta() {
    let org = Organism::new(1, one_of_each(&[0, 1, 2, 3, 4, 5, 6, 7]));
    check_scalars(&org.attributes);
    // body states keep genome order
    assert_eq!(org.attributes.body_states.len(), 2);
    assert_eq!(org.attributes.body_states[0], body_of(&[(0, 0)]));
    assert_eq!(org.attributes.body_states[1], body_of(&[(1000, 0)]));
    // the current body is a copy of the first body state
    assert_eq!(org.body_squares, body_of(&[(0, 0)]));
    assert_eq!(org.energy, 1000);
    assert_eq!(org.age, 0);
    assert_eq!(org.location.x, 0);
    assert_eq!(org.location.y, 0);
    assert_eq!(org.current_body_state, 0);
}

#[test]
fn attribute_folding_is_order_independent_on_scalars() {
    let reordered = Organism::new(1, one_of_each(&[7, 6, 5, 4, 3, 2, 1, 0]));
    check_scalars(&reordered.attributes);
    let shuffled = Organism::new(1, one_of_each(&[3, 0, 7, 5, 1, 6, 2, 4]));
    check_scalars(&shuffled.attributes);
}

#[test]
fn body_states_concatenate_in_genome_order() {
    let genes = vec![
        gene(1, "first", AttributeType::BodyStates(vec![body_of(&[(0, 0)])])),
        gene(2, "second", AttributeType::BodyStates(vec![
            body_of(&[(1000, 0)]),
            body_of(&[(2000, 0)]),
        ])),
    ];
    let org = Organism::new(1, Genome { genes });
    assert_eq!(org.attributes.body_states.len(), 3);
    assert_eq!(org.attributes.body_states[0], body_of(&[(0, 0)]));
    assert_eq!(org.attributes.body_states[1], body_of(&[(1000, 0)]));
    assert_eq!(org.attributes.body_states[2], body_of(&[(2000, 0)]));
}

#[test]
fn scalar_addition_saturates() {
    let genes = vec![
        gene(1, "states", AttributeType::BodyStates(vec![body_of(&[(0, 0)])])),
        gene(2, "huge", AttributeType::MaxEnergy(isize::MAX)),
        gene(3, "tiny", AttributeType::MaxAge(isize::MIN)),
    ];
    let org = Organism::new(1, Genome { genes });
    assert_eq!(org.attributes.max_energy, isize::MAX);
    assert_eq!(org.attributes.max_age, isize::MIN + 1000);
}

#[test]
fn applying_gene_effects_twice_doubles_every_delta() {
    // the fold is not idempotent: it runs exactly once, in the constructor,
    // and a second run applies every delta again
    let genes = vec![
        gene(1, "states", AttributeType::BodyStates(vec![body_of(&[(0, 0)])])),
        gene(2, "energy", AttributeType::MaxEnergy(50)),
    ];
    let mut org = Organism::new(1, Genome { genes });
    assert_eq!(org.attributes.max_energy, 1050);
    assert_eq!(org.attributes.body_states.len(), 1);
    org.apply_gene_effects();
    assert_eq!(org.attributes.max_energy, 1100);
    assert_eq!(org.attributes.body_states.len(), 2);
}

#[test]
fn defaults_stand_without_matching_genes() {
    let genes = vec![gene(1, "states", AttributeType::BodyStates(vec![body_of(&[(0, 0)])]))];
    let org = Organism::new(1, Genome { genes });
    assert_eq!(org.attributes.max_energy, 1000);
    assert_eq!(org.attributes.max_age, 1000);
    assert_eq!(org.attributes.max_size, 1000);
    assert_eq!(org.attributes.reproduction_rate, 100);
    assert_eq!(org.attributes.mutation_rate, 100);
    assert_eq!(org.attributes.puberty_age, 100);
    assert_eq!(org.attributes.metabolism, 100);
}
