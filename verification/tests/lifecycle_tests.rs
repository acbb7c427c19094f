use organism_sim::genetics::AttributeType;
use organism_sim::genetics::Gene;
use organism_sim::genetics::Genome;
use organism_sim::geometry::Body;
use organism_sim::geometry::BodySquare;
use organism_sim::geometry::Vec2;
use organism_sim::organism::Organism;
use organism_sim::organism::OrganismState;
use organism_sim::world::GridExtent;
use organism_sim::world::World;

fn square(x: i64, y: i64) -> BodySquare {
    BodySquare { position: Vec2 { x, y } }
}

fn body_of(points: &[(i64, i64)]) -> Body {
    let mut b = Body::new();
    for &(x, y) in points {
        b.add_square(square(x, y));
    }
    b
}

fn gene(id: isize, name: &str, attribute_type: AttributeType) -> Gene {
    Gene { id, name: String::from(name), value: 0, attribute_type }
}

/// A genome whose organisms behave deterministically: one body state of one
/// square at the origin, and mutation and reproduction rates forced to zero.
fn quiet_genome(extra: Vec<Gene>) -> Genome {
    let mut genes = vec![
        gene(1, "states", AttributeType::BodyStates(vec![body_of(&[(0, 0)])])),
        gene(2, "no mutation", AttributeType::MutationRate(-100)),
        gene(3, "no reproduction", AttributeType::ReproductionRate(-100)),
    ];
    genes.extend(extra);
    Genome { genes }
}

#[test]
fn starvation_reports_dead_with_no_offspring() {
    // metabolism 0.1 + 1.9 = 2.0; one square; energy set to
    // metabolism * body size - 1 = 1
    let mut org = Organism::new(1, quiet_genome(vec![gene(4, "hungry", AttributeType::Metabolism(1900))]));
    org.energy = 1;
    let (state, child) = org.next_frame();
    assert_eq!(state, OrganismState::Dead);
    assert!(child.is_none());
    assert_eq!(org.energy, -1);
    // death was decided before aging, mutation and reproduction
    assert_eq!(org.age, 0);
    assert_eq!(org.attributes.body_states.len(), 1);
}

#[test]
fn exact_metabolic_budget_survives_one_more_frame() {
    let mut org = Organism::new(1, quiet_genome(vec![gene(4, "hungry", AttributeType::Metabolism(1900))]));
    org.energy = 3;
    let (state, child) = org.next_frame();
    assert_eq!(state, OrganismState::Alive);
    assert!(child.is_none());
    assert_eq!(org.energy, 1);
    assert_eq!(org.age, 1);
    let (state, child) = org.next_frame();
    assert_eq!(state, OrganismState::Dead);
    assert!(child.is_none());
    assert_eq!(org.energy, -1);
}

#[test]
fn aging_is_terminal_after_exactly_one_more_frame() {
    let mut org = Organism::new(1, quiet_genome(vec![]));
    assert_eq!(org.attributes.max_age, 1000);
    org.age = 999;
    let (state, child) = org.next_frame();
    assert_eq!(state, OrganismState::Dead);
    assert!(child.is_none());
    assert_eq!(org.age, 1000);
}

#[test]
fn frame_before_max_age_stays_alive() {
    let mut org = Organism::new(1, quiet_genome(vec![]));
    org.age = 998;
    let (state, _) = org.next_frame();
    assert_eq!(state, OrganismState::Alive);
    assert_eq!(org.age, 999);
}

#[test]
fn reproduction_aborts_when_no_candidate_body_fits() {
    // reproduction rate 0.1 + 0.9 = 1.0: the roll always passes; the parent's
    // current body is emptied, so the offspring's one-square body state can
    // never be adjacent to it and every birth is aborted
    let genes = vec![
        gene(1, "states", AttributeType::BodyStates(vec![body_of(&[(0, 0)])])),
        gene(2, "no mutation", AttributeType::MutationRate(-100)),
        gene(3, "always reproduce", AttributeType::ReproductionRate(900)),
    ];
    let mut org = Organism::new(1, Genome { genes });
    org.body_squares = Body::new();
    let energy_before: isize = org.energy;
    let (state, child) = org.next_frame();
    assert_eq!(state, OrganismState::Alive);
    assert!(child.is_none());
    // the aborted offspring's cost was never charged; an empty body also
    // drains nothing
    assert_eq!(org.energy, energy_before);
}

#[test]
fn reproduction_emits_offspring_and_charges_parent() {
    // a one-square body at the origin: any perturbation of less than one unit
    // per axis stays within sqrt(2) < 1.5 units, so the candidate always fits
    let genes = vec![
        gene(1, "states", AttributeType::BodyStates(vec![body_of(&[(0, 0)])])),
        gene(2, "no mutation", AttributeType::MutationRate(-100)),
        gene(3, "always reproduce", AttributeType::ReproductionRate(900)),
    ];
    let mut org = Organism::new(7, Genome { genes });
    let (state, child) = org.next_frame();
    assert_eq!(state, OrganismState::Alive);
    let child = child.expect("a fitting candidate must be emitted");
    // energy after drain was 1000 (0.1 * 1 truncates to 0); half to the child
    assert_eq!(child.energy, 500);
    assert_eq!(org.energy, 500);
    assert_eq!(child.id, 7);
    assert_eq!(child.age, 0);
    assert_eq!(child.current_body_state, 0);
    assert_eq!(child.genome, org.genome);
    assert_eq!(child.body_squares, org.body_squares);
    // location jitter is -1 or 0 per axis around the parent
    assert!(org.location.x - 1 <= child.location.x && child.location.x <= org.location.x);
    assert!(org.location.y - 1 <= child.location.y && child.location.y <= org.location.y);
    // the child's body states were freshly perturbed by strictly less than
    // one unit per axis
    assert_eq!(child.attributes.body_states.len(), 1);
    let squares = child.attributes.body_states[0].squares();
    assert_eq!(squares.len(), 1);
    assert!(-1000 <= squares[0].position.x && squares[0].position.x < 1000);
    assert!(-1000 <= squares[0].position.y && squares[0].position.y < 1000);
}

#[test]
fn body_state_index_cycles_with_wraparound() {
    let genes = vec![
        gene(1, "states", AttributeType::BodyStates(vec![
            body_of(&[(0, 0)]),
            body_of(&[(0, 0)]),
            body_of(&[(0, 0)]),
        ])),
        gene(2, "no mutation", AttributeType::MutationRate(-100)),
        gene(3, "no reproduction", AttributeType::ReproductionRate(-100)),
    ];
    let mut org = Organism::new(1, Genome { genes });
    assert_eq!(org.current_body_state, 0);
    org.next_frame();
    assert_eq!(org.current_body_state, 1);
    org.next_frame();
    assert_eq!(org.current_body_state, 2);
    org.next_frame();
    assert_eq!(org.current_body_state, 0);
}

#[test]
fn out_of_range_body_state_index_resets() {
    let mut org = Organism::new(1, quiet_genome(vec![]));
    org.current_body_state = 5;
    let (state, _) = org.next_frame();
    assert_eq!(state, OrganismState::Alive);
    assert_eq!(org.current_body_state, 0);
}

#[test]
fn movement_displaces_the_organism() {
    // current body at the origin, first body state one unit to the right:
    // the displacement is (-2, 0)
    let mut org = Organism::new(1, quiet_genome(vec![]));
    org.body_squares = body_of(&[(0, 0)]);
    org.attributes.body_states = vec![body_of(&[(1000, 0)])];
    let (state, _) = org.next_frame();
    assert_eq!(state, OrganismState::Alive);
    assert_eq!(org.location.x, -2);
    assert_eq!(org.location.y, 0);
}

#[test]
fn metabolism_drains_per_square() {
    // default metabolism 0.1 over a ten-square body drains one unit per frame
    let genes = vec![
        gene(1, "states", AttributeType::BodyStates(vec![body_of(&[
            (0, 0), (1000, 0), (2000, 0), (3000, 0), (4000, 0),
            (0, 1000), (1000, 1000), (2000, 1000), (3000, 1000), (4000, 1000),
        ])])),
        gene(2, "no mutation", AttributeType::MutationRate(-100)),
        gene(3, "no reproduction", AttributeType::ReproductionRate(-100)),
    ];
    let mut org = Organism::new(1, Genome { genes });
    assert_eq!(org.energy, 1000);
    org.next_frame();
    assert_eq!(org.energy, 999);
    org.next_frame();
    assert_eq!(org.energy, 998);
}

#[test]
fn world_driver_appends_offspring_and_evicts_dead() {
    let genes = vec![
        gene(1, "states", AttributeType::BodyStates(vec![body_of(&[(0, 0)])])),
        gene(2, "no mutation", AttributeType::MutationRate(-100)),
        gene(3, "always reproduce", AttributeType::ReproductionRate(900)),
    ];
    let mut world = World {
        organisms: vec![Organism::new(1, Genome { genes })],
        size: GridExtent { x: 100, y: 100 },
    };
    let mut newborn: Vec<Organism> = Vec::new();
    let mut i: usize = 0;
    while i < world.organisms.len() {
        let (state, child) = world.organisms[i].next_frame();
        if let Some(c) = child {
            newborn.push(c);
        }
        if let OrganismState::Dead = state {
            world.organisms.remove(i);
        } else {
            i += 1;
        }
    }
    world.organisms.extend(newborn);
    assert_eq!(world.organisms.len(), 2);
}
