use vstd::prelude::*;

verus! {

/// The shapes a body can take. Vertices of every polygonal kind lie in the
/// unit square centred on the origin and are ordered counter-clockwise.
#[derive(Debug, Clone, Copy, PartialEq, Eq, Structural)]
pub enum ShapeKind {
    /// A coiled spring; it collides as a square.
    Spring,
    /// A circle, or an ellipse once width and height differ.
    Circle,
    Square,
    Triangle,
    Pentagon,
    Hexagon,
    Heptagon,
    Octagon,
}

/// How the narrow phase decides whether two shapes overlap.
#[derive(Debug, Clone, Copy, PartialEq, Eq, Structural)]
pub enum CollisionMethod {
    /// Separating axes along the edge normals of both polygons.
    Polygons,
    /// Intersection of two exact ellipse outlines.
    Ellipses,
    /// Separating axes along the polygon's edge normals plus the axis from the
    /// ellipse towards the polygon's nearest vertex.
    EllipsePolygon,
}

/// Whether a shape of kind `k` is bounded by an exact curve rather than by edges.
pub open spec fn is_round(k: ShapeKind) -> bool {
    k == ShapeKind::Circle
}

/// The number of edges of the polygon that stands for `k` in collision tests.
pub open spec fn sides_of(k: ShapeKind) -> nat {
    match k {
        ShapeKind::Spring => 4,
        ShapeKind::Circle => 0,
        ShapeKind::Square => 4,
        ShapeKind::Triangle => 3,
        ShapeKind::Pentagon => 5,
        ShapeKind::Hexagon => 6,
        ShapeKind::Heptagon => 7,
        ShapeKind::Octagon => 8,
    }
}

/// The test that decides whether shapes of kinds `a` and `b` overlap.
pub open spec fn method_for(a: ShapeKind, b: ShapeKind) -> CollisionMethod {
    if is_round(a) && is_round(b) {
        CollisionMethod::Ellipses
    } else if is_round(a) || is_round(b) {
        CollisionMethod::EllipsePolygon
    } else {
        CollisionMethod::Polygons
    }
}

impl ShapeKind {
    /// Whether this kind is bounded by an exact curve (a circle or an ellipse).
    pub fn is_round(&self) -> (r: bool)
        ensures
            r == is_round(*self),
    {
        matches!(self, ShapeKind::Circle)
    }

    /// The number of edges of the polygon used in collision tests, or `None`
    /// for a round shape, which is tested by its exact outline.
    pub fn polygon_sides(&self) -> (r: Option<u8>)
        ensures
            is_round(*self) <==> r is None,
            r matches Some(n) ==> n == sides_of(*self) && n >= 3,
    {
        match self {
            ShapeKind::Spring => Some(4),
            ShapeKind::Circle => None,
            ShapeKind::Square => Some(4),
            ShapeKind::Triangle => Some(3),
            ShapeKind::Pentagon => Some(5),
            ShapeKind::Hexagon => Some(6),
            ShapeKind::Heptagon => Some(7),
            ShapeKind::Octagon => Some(8),
        }
    }

    /// The narrow-phase test for a shape of this kind against one of kind `other`.
    pub fn collision_method(&self, other: &ShapeKind) -> (r: CollisionMethod)
        ensures
            r == method_for(*self, *other),
    {
        let a = self.is_round();
        let b = other.is_round();
        if a && b {
            CollisionMethod::Ellipses
        } else if a || b {
            CollisionMethod::EllipsePolygon
        } else {
            CollisionMethod::Polygons
        }
    }
}

/// The narrow-phase test chosen for a pair of shapes does not depend on the
/// order of the pair: both orders run the same kind of test.
pub proof fn lemma_collision_method_symmetric(a: ShapeKind, b: ShapeKind)
    ensures
        method_for(a, b) == method_for(b, a),
{
}

/// Triangle `t` of a list that holds three vertex indices per triangle.
pub open spec fn triangle_at<A>(s: Seq<A>, t: int) -> (A, A, A) {
    (s[3 * t], s[3 * t + 1], s[3 * t + 2])
}

/// Whether `s` lists, three indices per triangle, the fan of `n - 2`
/// triangles that join vertex 0 to each edge `(t + 1, t + 2)` of an `n`-gon.
pub open spec fn is_fan(s: Seq<u16>, n: int) -> bool {
    &&& s.len() == 3 * (n - 2)
    &&& forall|t: int|
        0 <= t < n - 2 ==> #[trigger] triangle_at(s, t) == (0u16, (t + 1) as u16, (t + 2) as u16)
}

/// Triangle `t` of the ribbon that outlines a spring drawn with `n` segments:
/// vertices alternate between the top curve (even) and the bottom curve (odd).
pub open spec fn spring_triangle(n: int, t: int) -> (u32, u32, u32) {
    if t % 2 == 1 {
        let i = (t + 1) / 2;
        ((2 * i) as u32, (2 * i + 1) as u32, (2 * i - 2) as u32)
    } else if t / 2 < n - 1 {
        let i = t / 2;
        ((2 * i + 3) as u32, (2 * i + 1) as u32, (2 * i) as u32)
    } else {
        ((2 * n) as u32, (2 * n - 1) as u32, (2 * n - 2) as u32)
    }
}

/// Whether `s` lists, three indices per triangle, the `2n - 1` triangles of a
/// spring ribbon drawn with `n` segments.
pub open spec fn is_spring_ribbon(s: Seq<u32>, n: int) -> bool {
    &&& s.len() == 3 * (2 * n - 1)
    &&& forall|t: int| 0 <= t < 2 * n - 1 ==> #[trigger] triangle_at(s, t) == spring_triangle(n, t)
}

/// The number of segments a spring with `coil_count` coils is drawn with.
pub open spec fn spring_segments(coil_count: int) -> int {
    20 * coil_count
}

/// The axis-aligned unit square.
#[derive(Debug, Clone, Copy)]
pub struct Square;

impl Square {
    /// The two triangles of the square, as indices into its four corners.
    pub fn get_mesh_indices(&self) -> (r: Vec<u16>)
        ensures
            r@ == seq![0u16, 1, 2, 0, 3, 2],
    {
        let r: Vec<u16> = vec![0, 1, 2, 0, 3, 2];
        assert(r@ =~= seq![0u16, 1, 2, 0, 3, 2]);
        r
    }
}

/// A regular polygon with `N` vertices.
#[derive(Debug, Clone, Copy)]
pub struct NGon<const N: u8>;

impl<const N: u8> NGon<N> {
    /// Whether bounding boxes and point tests go through the vertices; with
    /// ten or more vertices the polygon is treated as its circumscribed circle.
    pub fn uses_vertices(&self) -> (r: bool)
        ensures
            r == (N < 10),
    {
        N < 10
    }

    /// The triangles of the polygon, fanned out from its first vertex.
    pub fn get_mesh_indices(&self) -> (r: Vec<u16>)
        requires
            N >= 3,
        ensures
            is_fan(r@, N as int),
            forall|k: int| 0 <= k < r@.len() ==> r@[k] < N,
    {
        let count: u8 = N - 2;
        let mut r: Vec<u16> = Vec::with_capacity(3 * (count as usize));
        let mut i: u8 = 0;
        while i < count
            invariant
                count == N - 2,
                i <= count,
                r@.len() == 3 * i,
                forall|k: int| 0 <= k < r@.len() ==> r@[k] < N,
                forall|t: int|
                    0 <= t < i ==> #[trigger] triangle_at(r@, t) == (
                        0u16,
                        (t + 1) as u16,
                        (t + 2) as u16,
                    ),
            decreases count - i,
        {
            let ghost before = r@;
            r.push(0);
            r.push(i as u16 + 1);
            r.push(i as u16 + 2);
            assert forall|t: int| 0 <= t < i + 1 implies #[trigger] triangle_at(r@, t) == (
                0u16,
                (t + 1) as u16,
                (t + 2) as u16,
            ) by {
                if t < i {
                    assert(triangle_at(before, t) == triangle_at(r@, t));
                }
            }
            i = i + 1;
        }
        r
    }
}

/// A circle inscribed in the unit square; stretched, an ellipse.
#[derive(Debug, Clone, Copy)]
pub struct Circle;

impl Circle {
    /// The number of vertices of the polygon a circle is drawn as.
    pub const VERTICES: u8 = 30;

    /// The triangles of the polygon the circle is drawn as.
    pub fn get_mesh_indices(&self) -> (r: Vec<u16>)
        ensures
            is_fan(r@, Self::VERTICES as int),
            forall|k: int| 0 <= k < r@.len() ==> r@[k] < Self::VERTICES,
    {
        let polygon: NGon<30> = NGon;
        polygon.get_mesh_indices()
    }
}

/// The triangles of the ribbon a spring with `coil_count` coils is drawn as,
/// over its `2 * segments + 1` outline points.
pub fn spring_mesh_indices(coil_count: u32) -> (r: Vec<u32>)
    requires
        coil_count >= 1,
        2 * spring_segments(coil_count as int) <= u32::MAX,
    ensures
        is_spring_ribbon(r@, spring_segments(coil_count as int)),
        forall|k: int| 0 <= k < r@.len() ==> r@[k] <= 2 * spring_segments(coil_count as int),
{
    let n: u32 = 20 * coil_count;
    let triangles: u32 = 2 * n - 1;
    let mut r: Vec<u32> = Vec::new();
    let mut t: u32 = 0;
    while t < triangles
        invariant
            n == spring_segments(coil_count as int),
            n >= 20,
            2 * n <= u32::MAX,
            triangles == 2 * n - 1,
            t <= triangles,
            r@.len() == 3 * t,
            forall|k: int| 0 <= k < r@.len() ==> r@[k] <= 2 * n,
            forall|u: int| 0 <= u < t ==> #[trigger] triangle_at(r@, u) == spring_triangle(n as int, u),
        decreases triangles - t,
    {
        let ghost before = r@;
        if t % 2 == 1 {
            let i = (t + 1) / 2;
            r.push(2 * i);
            r.push(2 * i + 1);
            r.push(2 * i - 2);
        } else if t / 2 < n - 1 {
            let i = t / 2;
            r.push(2 * i + 3);
            r.push(2 * i + 1);
            r.push(2 * i);
        } else {
            r.push(2 * n);
            r.push(2 * n - 1);
            r.push(2 * n - 2);
        }
        assert forall|u: int| 0 <= u < t + 1 implies #[trigger] triangle_at(r@, u) == spring_triangle(
            n as int,
            u,
        ) by {
            if u < t {
                assert(triangle_at(before, u) == triangle_at(r@, u));
            }
        }
        t = t + 1;
    }
    r
}

/// A right triangle filling the lower-left half of the unit square.
#[derive(Debug, Clone, Copy)]
pub struct Slope {}

impl Slope {
    pub fn new() -> (r: Slope)
        ensures
            r == (Slope {}),
    {
        Slope {}
    }

    /// The single triangle of the slope.
    pub fn get_mesh_indices(&self) -> (r: Vec<u16>)
        ensures
            r@ == seq![0u16, 1, 2],
    {
        let r: Vec<u16> = vec![0, 1, 2];
        assert(r@ =~= seq![0u16, 1, 2]);
        r
    }
}

} // verus!
