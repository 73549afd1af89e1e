use physics_engine::shapes::{
    spring_mesh_indices, Circle, CollisionMethod, NGon, ShapeKind, Slope, Square,
};

#[test]
fn square_mesh_is_two_triangles() {
    assert_eq!(Square.get_mesh_indices(), vec![0, 1, 2, 0, 3, 2]);
}

#[test]
fn slope_mesh_is_one_triangle() {
    assert_eq!(Slope::new().get_mesh_indices(), vec![0, 1, 2]);
}

#[test]
fn pentagon_mesh_is_a_fan_from_the_first_vertex() {
    let pentagon: NGon<5> = NGon;
    assert_eq!(pentagon.get_mesh_indices(), vec![0, 1, 2, 0, 2, 3, 0, 3, 4]);
    let triangle: NGon<3> = NGon;
    assert_eq!(triangle.get_mesh_indices(), vec![0, 1, 2]);
}

#[test]
fn circle_mesh_is_a_thirty_sided_fan() {
    let indices = Circle.get_mesh_indices();
    assert_eq!(indices.len(), 3 * 28);
    assert_eq!(&indices[..6], &[0, 1, 2, 0, 2, 3]);
    assert_eq!(&indices[81..], &[0, 28, 29]);
}

#[test]
fn polygons_with_few_vertices_use_their_vertices() {
    let octagon: NGon<8> = NGon;
    assert!(octagon.uses_vertices());
    let decagon: NGon<10> = NGon;
    assert!(!decagon.uses_vertices());
}

#[test]
fn spring_mesh_covers_the_ribbon() {
    let indices = spring_mesh_indices(1);
    let n = 20;
    assert_eq!(indices.len(), 3 * (2 * n - 1));
    assert_eq!(&indices[..9], &[3, 1, 0, 2, 3, 0, 5, 3, 2]);
    let tail = &indices[indices.len() - 6..];
    assert_eq!(tail, &[38, 39, 36, 40, 39, 38]);
    assert!(indices.iter().all(|&i| i <= 2 * n as u32));
}

#[test]
fn spring_mesh_grows_with_coil_count() {
    let indices = spring_mesh_indices(3);
    assert_eq!(indices.len(), 3 * (2 * 60 - 1));
    assert_eq!(&indices[indices.len() - 3..], &[120, 119, 118]);
}

#[test]
fn polygon_sides_of_each_kind() {
    assert_eq!(ShapeKind::Circle.polygon_sides(), None);
    assert_eq!(ShapeKind::Square.polygon_sides(), Some(4));
    assert_eq!(ShapeKind::Spring.polygon_sides(), Some(4));
    assert_eq!(ShapeKind::Triangle.polygon_sides(), Some(3));
    assert_eq!(ShapeKind::Pentagon.polygon_sides(), Some(5));
    assert_eq!(ShapeKind::Hexagon.polygon_sides(), Some(6));
    assert_eq!(ShapeKind::Heptagon.polygon_sides(), Some(7));
    assert_eq!(ShapeKind::Octagon.polygon_sides(), Some(8));
    assert!(ShapeKind::Circle.is_round());
    assert!(!ShapeKind::Spring.is_round());
}

#[test]
fn collision_method_depends_on_roundness_only() {
    let c = ShapeKind::Circle;
    let p = ShapeKind::Pentagon;
    let s = ShapeKind::Spring;
    assert_eq!(c.collision_method(&c), CollisionMethod::Ellipses);
    assert_eq!(c.collision_method(&p), CollisionMethod::EllipsePolygon);
    assert_eq!(p.collision_method(&c), CollisionMethod::EllipsePolygon);
    assert_eq!(p.collision_method(&s), CollisionMethod::Polygons);
    assert_eq!(s.collision_method(&p), CollisionMethod::Polygons);
}
