use organism_sim::geometry::Body;
use organism_sim::geometry::BodySquare;
use organism_sim::geometry::GridVec2;
use organism_sim::geometry::Vec2;
use organism_sim::organism::Organism;

fn square(x: i64, y: i64) -> BodySquare {
    BodySquare { position: Vec2 { x, y } }
}

fn body_of(points: &[(i64, i64)]) -> Body {
    let mut b = Body::new();
    for &(x, y) in points {
        b.add_square(square(x, y));
    }
    b
}

#[test]
fn adjacency_at_unit_distance() {
    let body = body_of(&[(0, 0)]);
    assert!(body.check_blueprint_validity(&[square(1000, 0)]));
}

#[test]
fn adjacency_at_two_units() {
    let body = body_of(&[(0, 0)]);
    assert!(!body.check_blueprint_validity(&[square(2000, 0)]));
}

#[test]
fn adjacency_diagonal_within_threshold() {
    let body = body_of(&[(0, 0)]);
    // sqrt(2) < 1.5: a diagonal unit step is adjacent
    assert!(body.check_blueprint_validity(&[square(1000, 1000)]));
    // sqrt(1 + 1.21) > 1.5 fails only past the threshold; 1.1 units on one
    // axis alone stays adjacent
    assert!(body.check_blueprint_validity(&[square(1100, 0)]));
    assert!(!body.check_blueprint_validity(&[square(1100, 1100)]));
}

#[test]
fn empty_proposal_is_vacuously_valid() {
    let body = body_of(&[(0, 0)]);
    assert!(body.check_blueprint_validity(&[]));
    let empty = Body::new();
    assert!(empty.check_blueprint_validity(&[]));
}

#[test]
fn proposal_against_empty_body_fails() {
    let empty = Body::new();
    assert!(!empty.check_blueprint_validity(&[square(0, 0)]));
}

#[test]
fn one_valid_square_among_many() {
    let body = body_of(&[(0, 0), (1000, 0)]);
    assert!(body.check_blueprint_validity(&[square(2000, 0)]));
    assert!(!body.check_blueprint_validity(&[square(2000, 0), square(0, 3000)]));
}

#[test]
fn movement_sign() {
    let cur = body_of(&[(0, 0)]);
    let nxt = body_of(&[(1000, 0)]);
    let ds = Organism::calculate_movement(&cur, &nxt);
    assert_eq!(ds, GridVec2 { x: -2, y: 0 });
}

#[test]
fn movement_truncates_toward_zero() {
    let cur = body_of(&[(0, 0)]);
    let nxt = body_of(&[(1500, -2500)]);
    let ds = Organism::calculate_movement(&cur, &nxt);
    assert_eq!(ds, GridVec2 { x: -2, y: 4 });
}

#[test]
fn movement_pairs_truncate_to_shorter_body() {
    let cur = body_of(&[(0, 0), (0, 0)]);
    let nxt = body_of(&[(1000, 0)]);
    let ds = Organism::calculate_movement(&cur, &nxt);
    assert_eq!(ds, GridVec2 { x: -2, y: 0 });
}

#[test]
fn movement_sums_pairs() {
    let cur = body_of(&[(0, 0), (500, 500)]);
    let nxt = body_of(&[(1000, 0), (1500, -1500)]);
    // deltas: (1, 0) and (1, -2); sum (2, -2); scaled by -2: (-4, 4)
    let ds = Organism::calculate_movement(&cur, &nxt);
    assert_eq!(ds, GridVec2 { x: -4, y: 4 });
}
