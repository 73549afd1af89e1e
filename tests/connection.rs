use physics_engine::connection::{get_spring_connection_positions, ConnectionComponent};
use physics_engine::intersections::distinct_roots;

#[test]
fn connection_positions_of_present_bodies() {
    let positions = [Some((0, 1)), None, Some((5, -2))];
    let c = ConnectionComponent { entity1: 2, entity2: 0 };
    assert_eq!(get_spring_connection_positions(&c, &positions), Some(((5, -2), (0, 1))));
}

#[test]
fn connection_to_a_body_without_position_has_none() {
    let positions = [Some(1.5), None, Some(2.5)];
    let c = ConnectionComponent { entity1: 0, entity2: 1 };
    assert_eq!(get_spring_connection_positions(&c, &positions), None);
}

#[test]
fn connection_to_a_missing_body_has_none() {
    let positions = [Some('a'), Some('b')];
    let c = ConnectionComponent { entity1: 1, entity2: 7 };
    assert_eq!(get_spring_connection_positions(&c, &positions), None);
    let c = ConnectionComponent { entity1: 9, entity2: 0 };
    assert_eq!(get_spring_connection_positions(&c, &positions), None);
}

#[test]
fn distinct_roots_keep_the_last_root_of_each_key() {
    let entries = vec![(1570796, 1.0), (0, 2.0), (1570796, 3.0), (4712388, 4.0)];
    let roots = distinct_roots(&entries);
    assert_eq!(roots.len(), 3);
    assert_eq!(roots[&1570796], 3.0);
    assert_eq!(roots[&0], 2.0);
    assert_eq!(roots[&4712388], 4.0);
}

#[test]
fn distinct_roots_of_nothing_is_empty() {
    let entries: Vec<(i64, f64)> = Vec::new();
    assert!(distinct_roots(&entries).is_empty());
}
