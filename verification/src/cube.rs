//! The scene: a cube of eight vertices and twelve edges, its current
//! rotation increments, and the projection and render configuration
//! chosen at construction.
//!
//! Each frame the vertices are rotated in place about X, then Y, then
//! Z — on top of the previous frame's already-rotated geometry, so the
//! spin accumulates — and then reprojected in full; the projected set
//! is index-aligned with the vertices and overwritten every frame.

use vstd::prelude::*;
use vstd::pervasive::VecAdditionalExecFns;
use crate::fixed::{div_trunc, SCALE};
use crate::glyph::{band_glyph, depth_band};
use crate::projection::{
    project_point, project_spec, proj_valid, Projection, RATIO_CAP, PROJ_CAP,
};
use crate::raster::{is_line, line_cells};
use crate::rotation::{rot_a, rot_b, rotate_pair, trig_pair_valid, NORM_CAP};
use crate::terminal::{DrawOp, Terminal};

verus! {

/// Vertices of the cube; fixed for the whole run.
pub const VERTEX_COUNT: usize = 8;

/// Edges of the cube: the two four-cycles and the four struts.
pub const EDGE_COUNT: usize = 12;

/// A vertex in object space (fixed point).
#[derive(Clone, Copy, PartialEq, Eq, Structural, Debug)]
pub struct Point3D {
    pub x: i64,
    pub y: i64,
    pub z: i64,
}

/// A projected vertex in screen space, before centering (fixed point).
#[derive(Clone, Copy, PartialEq, Eq, Structural, Debug)]
pub struct Point2D {
    pub x: i64,
    pub y: i64,
}

/// Per-axis angular increments applied every frame (fixed-point
/// radians). Keyboard input adjusts these; they are never reset.
#[derive(Clone, Copy, PartialEq, Eq, Structural, Debug)]
pub struct Rotation {
    pub x: i64,
    pub y: i64,
    pub z: i64,
}

/// The sine/cosine pairs of one frame's three rotation angles,
/// computed outside and handed in as fixed-point values.
#[derive(Clone, Copy, PartialEq, Eq, Structural, Debug)]
pub struct FrameTrig {
    pub sin_x: i64,
    pub cos_x: i64,
    pub sin_y: i64,
    pub cos_y: i64,
    pub sin_z: i64,
    pub cos_z: i64,
}

impl FrameTrig {
    /// All three pairs stay on or inside the unit circle, which any
    /// truncated scaling of real sine/cosine pairs does.
    pub open spec fn valid(self) -> bool {
        &&& trig_pair_valid(self.sin_x as int, self.cos_x as int)
        &&& trig_pair_valid(self.sin_y as int, self.cos_y as int)
        &&& trig_pair_valid(self.sin_z as int, self.cos_z as int)
    }
}

/// What the renderer paints: vertices with depth glyphs, edges with a
/// neutral glyph, or both.
#[derive(Clone, Copy, PartialEq, Eq, Structural, Debug)]
pub enum RenderMode {
    Vertices,
    Edges,
    Both,
}

/// Whether a mode paints the vertices.
pub open spec fn draws_vertices(m: RenderMode) -> bool {
    m is Vertices || m is Both
}

/// Whether a mode paints the edges.
pub open spec fn draws_edges(m: RenderMode) -> bool {
    m is Edges || m is Both
}

/// The vertex set of the unit cube: `±1` in every axis.
pub open spec fn cube_vertices() -> Seq<Point3D> {
    seq![
        Point3D { x: (-SCALE) as i64, y: (-SCALE) as i64, z: (-SCALE) as i64 },
        Point3D { x: SCALE, y: (-SCALE) as i64, z: (-SCALE) as i64 },
        Point3D { x: SCALE, y: SCALE, z: (-SCALE) as i64 },
        Point3D { x: (-SCALE) as i64, y: SCALE, z: (-SCALE) as i64 },
        Point3D { x: (-SCALE) as i64, y: (-SCALE) as i64, z: SCALE },
        Point3D { x: SCALE, y: (-SCALE) as i64, z: SCALE },
        Point3D { x: SCALE, y: SCALE, z: SCALE },
        Point3D { x: (-SCALE) as i64, y: SCALE, z: SCALE },
    ]
}

/// The edge set of the cube: the back face cycle, the front face
/// cycle, and the four connecting struts.
pub open spec fn cube_edges() -> Seq<(usize, usize)> {
    seq![
        (0usize, 1usize),
        (1usize, 2usize),
        (2usize, 3usize),
        (3usize, 0usize),
        (4usize, 5usize),
        (5usize, 6usize),
        (6usize, 7usize),
        (7usize, 4usize),
        (0usize, 4usize),
        (1usize, 5usize),
        (2usize, 6usize),
        (3usize, 7usize),
    ]
}

/// The scene.
pub struct Cube {
    pub vertices_3d: Vec<Point3D>,
    pub vertices_2d: Vec<Point2D>,
    pub edges: Vec<(usize, usize)>,
    pub rotation: Rotation,
    pub projection: Projection,
    pub x_ratio: i64,
    pub y_ratio: i64,
    pub render_mode: RenderMode,
}

impl Cube {
    /// Well-formedness, established at construction and preserved by
    /// every method: fixed vertex and edge counts, edge endpoints in
    /// bounds and distinct, every vertex within the norm cap, every
    /// projected vertex within the projection cap, and a valid
    /// configuration.
    pub open spec fn wf(self) -> bool {
        &&& self.vertices_3d@.len() == VERTEX_COUNT
        &&& self.vertices_2d@.len() == VERTEX_COUNT
        &&& self.edges@.len() == EDGE_COUNT
        &&& forall|k: int|
            0 <= k < self.edges@.len() ==> (#[trigger] self.edges@[k]).0 < VERTEX_COUNT
                && self.edges@[k].1 < VERTEX_COUNT && self.edges@[k].0 != self.edges@[k].1
        &&& forall|k: int|
            0 <= k < self.vertices_3d@.len() ==> norm_sq(#[trigger] self.vertices_3d@[k])
                <= (NORM_CAP as int) * (NORM_CAP as int)
        &&& forall|k: int|
            0 <= k < self.vertices_2d@.len() ==> -PROJ_CAP <= (
            #[trigger] self.vertices_2d@[k]).x <= PROJ_CAP && -PROJ_CAP
                <= self.vertices_2d@[k].y <= PROJ_CAP
        &&& 0 < self.x_ratio <= RATIO_CAP
        &&& 0 < self.y_ratio <= RATIO_CAP
        &&& proj_valid(self.projection)
    }

    /// The default scene of the program: perspective projection at
    /// camera distance `2.1`, stretch ratios `20` and `10`, both
    /// vertices and edges painted, and gentle autonomous spin.
    pub fn new() -> (c: Cube)
        ensures
            c.wf(),
            c.vertices_3d@ == cube_vertices(),
            c.edges@ == cube_edges(),
            forall|k: int|
                0 <= k < VERTEX_COUNT ==> #[trigger] c.vertices_2d@[k] == (Point2D {
                    x: 0i64,
                    y: 0i64,
                }),
            c.rotation == (Rotation { x: 17_453i64, y: 8_727i64, z: 0i64 }),
            c.projection == (Projection::Perspective { camera_distance: 2_100_000 }),
            c.x_ratio == 20_000_000,
            c.y_ratio == 10_000_000,
            c.render_mode == RenderMode::Both,
    {
        Cube::with_config(
            Projection::Perspective { camera_distance: 2_100_000 },
            20_000_000,
            10_000_000,
            RenderMode::Both,
            Rotation { x: 17_453, y: 8_727, z: 0 },
        )
    }

    /// A scene with the given configuration and the default cube
    /// geometry.
    pub fn with_config(
        projection: Projection,
        x_ratio: i64,
        y_ratio: i64,
        render_mode: RenderMode,
        rotation: Rotation,
    ) -> (c: Cube)
        requires
            proj_valid(projection),
            0 < x_ratio <= RATIO_CAP,
            0 < y_ratio <= RATIO_CAP,
        ensures
            c.wf(),
            c.vertices_3d@ == cube_vertices(),
            c.edges@ == cube_edges(),
            forall|k: int|
                0 <= k < VERTEX_COUNT ==> #[trigger] c.vertices_2d@[k] == (Point2D {
                    x: 0i64,
                    y: 0i64,
                }),
            c.rotation == rotation,
            c.projection == projection,
            c.x_ratio == x_ratio,
            c.y_ratio == y_ratio,
            c.render_mode == render_mode,
    {
        let mut vertices_3d: Vec<Point3D> = Vec::new();
        vertices_3d.push(Point3D { x: -SCALE, y: -SCALE, z: -SCALE });
        vertices_3d.push(Point3D { x: SCALE, y: -SCALE, z: -SCALE });
        vertices_3d.push(Point3D { x: SCALE, y: SCALE, z: -SCALE });
        vertices_3d.push(Point3D { x: -SCALE, y: SCALE, z: -SCALE });
        vertices_3d.push(Point3D { x: -SCALE, y: -SCALE, z: SCALE });
        vertices_3d.push(Point3D { x: SCALE, y: -SCALE, z: SCALE });
        vertices_3d.push(Point3D { x: SCALE, y: SCALE, z: SCALE });
        vertices_3d.push(Point3D { x: -SCALE, y: SCALE, z: SCALE });
        let mut vertices_2d: Vec<Point2D> = Vec::new();
        let mut k: usize = 0;
        while k < VERTEX_COUNT
            invariant
                k <= VERTEX_COUNT,
                vertices_2d@.len() == k,
                forall|m: int|
                    0 <= m < k ==> #[trigger] vertices_2d@[m] == (Point2D { x: 0i64, y: 0i64 }),
            decreases VERTEX_COUNT - k,
        {
            vertices_2d.push(Point2D { x: 0, y: 0 });
            k = k + 1;
        }
        let mut edges: Vec<(usize, usize)> = Vec::new();
        edges.push((0, 1));
        edges.push((1, 2));
        edges.push((2, 3));
        edges.push((3, 0));
        edges.push((4, 5));
        edges.push((5, 6));
        edges.push((6, 7));
        edges.push((7, 4));
        edges.push((0, 4));
        edges.push((1, 5));
        edges.push((2, 6));
        edges.push((3, 7));
        proof {
            assert(vertices_3d@ =~= cube_vertices());
            assert(edges@ =~= cube_edges());
        }
        let c = Cube {
            vertices_3d,
            vertices_2d,
            edges,
            rotation,
            projection,
            x_ratio,
            y_ratio,
            render_mode,
        };
        proof {
            assert forall|m: int| 0 <= m < c.vertices_3d@.len() implies norm_sq(
                #[trigger] c.vertices_3d@[m],
            ) <= (NORM_CAP as int) * (NORM_CAP as int) by {
                assert(norm_sq(c.vertices_3d@[m]) == 3_000_000_000_000) by (nonlinear_arith)
                    requires
                        c.vertices_3d@[m].x == SCALE || c.vertices_3d@[m].x == -SCALE,
                        c.vertices_3d@[m].y == SCALE || c.vertices_3d@[m].y == -SCALE,
                        c.vertices_3d@[m].z == SCALE || c.vertices_3d@[m].z == -SCALE,
                        SCALE == 1_000_000i64,
                        norm_sq(c.vertices_3d@[m]) == (c.vertices_3d@[m].x as int) * (
                        c.vertices_3d@[m].x as int) + (c.vertices_3d@[m].y as int) * (
                        c.vertices_3d@[m].y as int) + (c.vertices_3d@[m].z as int) * (
                        c.vertices_3d@[m].z as int),
                ;
            }
        }
        c
    }
}

/// Squared Euclidean norm of a vertex.
pub open spec fn norm_sq(v: Point3D) -> int {
    (v.x as int) * (v.x as int) + (v.y as int) * (v.y as int) + (v.z as int) * (v.z as int)
}

/// A vertex as a mathematical triple.
pub open spec fn view3(v: Point3D) -> (int, int, int) {
    (v.x as int, v.y as int, v.z as int)
}

/// A projected vertex as a mathematical pair.
pub open spec fn view2(p: Point2D) -> (int, int) {
    (p.x as int, p.y as int)
}

/// Rotation about the X axis: `y` and `z` turn, `x` is fixed.
pub open spec fn rot_x_spec(p: (int, int, int), s: int, c: int) -> (int, int, int) {
    (
        p.0,
        div_trunc(rot_a(p.1, p.2, s, c), SCALE as int),
        div_trunc(rot_b(p.1, p.2, s, c), SCALE as int),
    )
}

/// Rotation about the Y axis: `z` and `x` turn, `y` is fixed.
pub open spec fn rot_y_spec(p: (int, int, int), s: int, c: int) -> (int, int, int) {
    (
        div_trunc(rot_b(p.2, p.0, s, c), SCALE as int),
        p.1,
        div_trunc(rot_a(p.2, p.0, s, c), SCALE as int),
    )
}

/// Rotation about the Z axis: `x` and `y` turn, `z` is fixed.
pub open spec fn rot_z_spec(p: (int, int, int), s: int, c: int) -> (int, int, int) {
    (
        div_trunc(rot_a(p.0, p.1, s, c), SCALE as int),
        div_trunc(rot_b(p.0, p.1, s, c), SCALE as int),
        p.2,
    )
}

/// One frame's rotation: about X, then Y, then Z, each applied to the
/// already-rotated coordinates.
pub open spec fn rotate_frame_spec(p: (int, int, int), t: FrameTrig) -> (int, int, int) {
    rot_z_spec(
        rot_y_spec(rot_x_spec(p, t.sin_x as int, t.cos_x as int), t.sin_y as int, t.cos_y as int),
        t.sin_z as int,
        t.cos_z as int,
    )
}

/// Projection of a vertex triple.
pub open spec fn project3(p: (int, int, int), proj: Projection, xr: int, yr: int) -> (int, int) {
    project_spec(p.0, p.1, p.2, proj, xr, yr)
}

impl Cube {
    /// Rotate every vertex about the X axis by the trig pair `(s, c)`.
    fn rotate_x(&mut self, s: i64, c: i64)
        requires
            old(self).wf(),
            trig_pair_valid(s as int, c as int),
        ensures
            final(self).wf(),
            final(self).vertices_3d@.len() == old(self).vertices_3d@.len(),
            forall|k: int|
                0 <= k < final(self).vertices_3d@.len() ==> view3(#[trigger] final(self).vertices_3d@[k])
                    == rot_x_spec(view3(old(self).vertices_3d@[k]), s as int, c as int)
                    && norm_sq(final(self).vertices_3d@[k]) <= norm_sq(old(self).vertices_3d@[k]),
            final(self).vertices_2d == old(self).vertices_2d,
            final(self).edges == old(self).edges,
            final(self).rotation == old(self).rotation,
            final(self).projection == old(self).projection,
            final(self).x_ratio == old(self).x_ratio,
            final(self).y_ratio == old(self).y_ratio,
            final(self).render_mode == old(self).render_mode,
    {
        let n = self.vertices_3d.len();
        let mut k: usize = 0;
        while k < n
            invariant
                n == self.vertices_3d@.len(),
                k <= n,
                self.wf(),
                trig_pair_valid(s as int, c as int),
                old(self).wf(),
                self.vertices_3d@.len() == old(self).vertices_3d@.len(),
                forall|m: int|
                    0 <= m < k ==> view3(#[trigger] self.vertices_3d@[m]) == rot_x_spec(
                        view3(old(self).vertices_3d@[m]),
                        s as int,
                        c as int,
                    ) && norm_sq(self.vertices_3d@[m]) <= norm_sq(old(self).vertices_3d@[m]),
                forall|m: int|
                    k <= m < n ==> #[trigger] self.vertices_3d@[m] == old(self).vertices_3d@[m],
                self.vertices_2d == old(self).vertices_2d,
                self.edges == old(self).edges,
                self.rotation == old(self).rotation,
                self.projection == old(self).projection,
                self.x_ratio == old(self).x_ratio,
                self.y_ratio == old(self).y_ratio,
                self.render_mode == old(self).render_mode,
            decreases n - k,
        {
            let v = self.vertices_3d[k];
            proof {
                lemma_pair_within_norm(v);
            }
            let r = rotate_pair(v.y, v.z, s, c);
            self.vertices_3d.set(k, Point3D { x: v.x, y: r.0, z: r.1 });
            k = k + 1;
        }
    }

    /// Rotate every vertex about the Y axis by the trig pair `(s, c)`.
    fn rotate_y(&mut self, s: i64, c: i64)
        requires
            old(self).wf(),
            trig_pair_valid(s as int, c as int),
        ensures
            final(self).wf(),
            final(self).vertices_3d@.len() == old(self).vertices_3d@.len(),
            forall|k: int|
                0 <= k < final(self).vertices_3d@.len() ==> view3(#[trigger] final(self).vertices_3d@[k])
                    == rot_y_spec(view3(old(self).vertices_3d@[k]), s as int, c as int)
                    && norm_sq(final(self).vertices_3d@[k]) <= norm_sq(old(self).vertices_3d@[k]),
            final(self).vertices_2d == old(self).vertices_2d,
            final(self).edges == old(self).edges,
            final(self).rotation == old(self).rotation,
            final(self).projection == old(self).projection,
            final(self).x_ratio == old(self).x_ratio,
            final(self).y_ratio == old(self).y_ratio,
            final(self).render_mode == old(self).render_mode,
    {
        let n = self.vertices_3d.len();
        let mut k: usize = 0;
        while k < n
            invariant
                n == self.vertices_3d@.len(),
                k <= n,
                self.wf(),
                trig_pair_valid(s as int, c as int),
                old(self).wf(),
                self.vertices_3d@.len() == old(self).vertices_3d@.len(),
                forall|m: int|
                    0 <= m < k ==> view3(#[trigger] self.vertices_3d@[m]) == rot_y_spec(
                        view3(old(self).vertices_3d@[m]),
                        s as int,
                        c as int,
                    ) && norm_sq(self.vertices_3d@[m]) <= norm_sq(old(self).vertices_3d@[m]),
                forall|m: int|
                    k <= m < n ==> #[trigger] self.vertices_3d@[m] == old(self).vertices_3d@[m],
                self.vertices_2d == old(self).vertices_2d,
                self.edges == old(self).edges,
                self.rotation == old(self).rotation,
                self.projection == old(self).projection,
                self.x_ratio == old(self).x_ratio,
                self.y_ratio == old(self).y_ratio,
                self.render_mode == old(self).render_mode,
            decreases n - k,
        {
            let v = self.vertices_3d[k];
            proof {
                lemma_pair_within_norm(v);
            }
            let r = rotate_pair(v.z, v.x, s, c);
            self.vertices_3d.set(k, Point3D { x: r.1, y: v.y, z: r.0 });
            k = k + 1;
        }
    }

    /// Rotate every vertex about the Z axis by the trig pair `(s, c)`.
    fn rotate_z(&mut self, s: i64, c: i64)
        requires
            old(self).wf(),
            trig_pair_valid(s as int, c as int),
        ensures
            final(self).wf(),
            final(self).vertices_3d@.len() == old(self).vertices_3d@.len(),
            forall|k: int|
                0 <= k < final(self).vertices_3d@.len() ==> view3(#[trigger] final(self).vertices_3d@[k])
                    == rot_z_spec(view3(old(self).vertices_3d@[k]), s as int, c as int)
                    && norm_sq(final(self).vertices_3d@[k]) <= norm_sq(old(self).vertices_3d@[k]),
            final(self).vertices_2d == old(self).vertices_2d,
            final(self).edges == old(self).edges,
            final(self).rotation == old(self).rotation,
            final(self).projection == old(self).projection,
            final(self).x_ratio == old(self).x_ratio,
            final(self).y_ratio == old(self).y_ratio,
            final(self).render_mode == old(self).render_mode,
    {
        let n = self.vertices_3d.len();
        let mut k: usize = 0;
        while k < n
            invariant
                n == self.vertices_3d@.len(),
                k <= n,
                self.wf(),
                trig_pair_valid(s as int, c as int),
                old(self).wf(),
                self.vertices_3d@.len() == old(self).vertices_3d@.len(),
                forall|m: int|
                    0 <= m < k ==> view3(#[trigger] self.vertices_3d@[m]) == rot_z_spec(
                        view3(old(self).vertices_3d@[m]),
                        s as int,
                        c as int,
                    ) && norm_sq(self.vertices_3d@[m]) <= norm_sq(old(self).vertices_3d@[m]),
                forall|m: int|
                    k <= m < n ==> #[trigger] self.vertices_3d@[m] == old(self).vertices_3d@[m],
                self.vertices_2d == old(self).vertices_2d,
                self.edges == old(self).edges,
                self.rotation == old(self).rotation,
                self.projection == old(self).projection,
                self.x_ratio == old(self).x_ratio,
                self.y_ratio == old(self).y_ratio,
                self.render_mode == old(self).render_mode,
            decreases n - k,
        {
            let v = self.vertices_3d[k];
            proof {
                lemma_pair_within_norm(v);
            }
            let r = rotate_pair(v.x, v.y, s, c);
            self.vertices_3d.set(k, Point3D { x: r.0, y: r.1, z: v.z });
            k = k + 1;
        }
    }

    /// Rotate every vertex about X, then Y, then Z.
    fn rotate(&mut self, t: FrameTrig)
        requires
            old(self).wf(),
            t.valid(),
        ensures
            final(self).wf(),
            final(self).vertices_3d@.len() == old(self).vertices_3d@.len(),
            forall|k: int|
                0 <= k < final(self).vertices_3d@.len() ==> view3(#[trigger] final(self).vertices_3d@[k])
                    == rotate_frame_spec(view3(old(self).vertices_3d@[k]), t),
            final(self).vertices_2d == old(self).vertices_2d,
            final(self).edges == old(self).edges,
            final(self).rotation == old(self).rotation,
            final(self).projection == old(self).projection,
            final(self).x_ratio == old(self).x_ratio,
            final(self).y_ratio == old(self).y_ratio,
            final(self).render_mode == old(self).render_mode,
    {
        self.rotate_x(t.sin_x, t.cos_x);
        self.rotate_y(t.sin_y, t.cos_y);
        self.rotate_z(t.sin_z, t.cos_z);
    }

    /// Reproject every vertex, overwriting the projected set in full.
    fn project(&mut self)
        requires
            old(self).wf(),
        ensures
            final(self).wf(),
            final(self).vertices_2d@.len() == old(self).vertices_2d@.len(),
            forall|k: int|
                0 <= k < final(self).vertices_2d@.len() ==> view2(#[trigger] final(self).vertices_2d@[k])
                    == project3(
                    view3(final(self).vertices_3d@[k]),
                    final(self).projection,
                    final(self).x_ratio as int,
                    final(self).y_ratio as int,
                ),
            final(self).vertices_3d == old(self).vertices_3d,
            final(self).edges == old(self).edges,
            final(self).rotation == old(self).rotation,
            final(self).projection == old(self).projection,
            final(self).x_ratio == old(self).x_ratio,
            final(self).y_ratio == old(self).y_ratio,
            final(self).render_mode == old(self).render_mode,
    {
        let n = self.vertices_3d.len();
        let mut k: usize = 0;
        while k < n
            invariant
                n == self.vertices_3d@.len(),
                k <= n,
                self.wf(),
                old(self).wf(),
                self.vertices_2d@.len() == old(self).vertices_2d@.len(),
                forall|m: int|
                    0 <= m < k ==> view2(#[trigger] self.vertices_2d@[m]) == project3(
                        view3(self.vertices_3d@[m]),
                        self.projection,
                        self.x_ratio as int,
                        self.y_ratio as int,
                    ),
                self.vertices_3d == old(self).vertices_3d,
                self.edges == old(self).edges,
                self.rotation == old(self).rotation,
                self.projection == old(self).projection,
                self.x_ratio == old(self).x_ratio,
                self.y_ratio == old(self).y_ratio,
                self.render_mode == old(self).render_mode,
            decreases n - k,
        {
            let v = self.vertices_3d[k];
            proof {
                lemma_coords_within_norm(v);
            }
            let r = project_point(v.x, v.y, v.z, self.projection, self.x_ratio, self.y_ratio);
            self.vertices_2d.set(k, Point2D { x: r.0, y: r.1 });
            k = k + 1;
        }
    }

    /// One frame's update: rotate all vertices, then reproject.
    pub fn update(&mut self, t: FrameTrig)
        requires
            old(self).wf(),
            t.valid(),
        ensures
            final(self).wf(),
            final(self).vertices_3d@.len() == old(self).vertices_3d@.len(),
            final(self).vertices_2d@.len() == old(self).vertices_2d@.len(),
            forall|k: int|
                0 <= k < final(self).vertices_3d@.len() ==> view3(#[trigger] final(self).vertices_3d@[k])
                    == rotate_frame_spec(view3(old(self).vertices_3d@[k]), t),
            forall|k: int|
                0 <= k < final(self).vertices_2d@.len() ==> view2(#[trigger] final(self).vertices_2d@[k])
                    == project3(
                    rotate_frame_spec(view3(old(self).vertices_3d@[k]), t),
                    final(self).projection,
                    final(self).x_ratio as int,
                    final(self).y_ratio as int,
                ),
            final(self).edges == old(self).edges,
            final(self).rotation == old(self).rotation,
            final(self).projection == old(self).projection,
            final(self).x_ratio == old(self).x_ratio,
            final(self).y_ratio == old(self).y_ratio,
            final(self).render_mode == old(self).render_mode,
    {
        self.rotate(t);
        self.project();
    }
}

/// Any pair of coordinates of a vertex within the norm cap is itself
/// within the cap in squared norm.
proof fn lemma_pair_within_norm(v: Point3D)
    requires
        norm_sq(v) <= (NORM_CAP as int) * (NORM_CAP as int),
    ensures
        (v.y as int) * (v.y as int) + (v.z as int) * (v.z as int) <= (NORM_CAP as int) * (
        NORM_CAP as int),
        (v.z as int) * (v.z as int) + (v.x as int) * (v.x as int) <= (NORM_CAP as int) * (
        NORM_CAP as int),
        (v.x as int) * (v.x as int) + (v.y as int) * (v.y as int) <= (NORM_CAP as int) * (
        NORM_CAP as int),
{
    assert((v.x as int) * (v.x as int) >= 0 && (v.y as int) * (v.y as int) >= 0 && (v.z as int)
        * (v.z as int) >= 0) by (nonlinear_arith);
}

/// One frame's paint lists: the vertex ops carry depth glyphs, each
/// edge becomes one rasterized segment of cells (painted with the
/// neutral edge glyph). Both are in unclipped cell space; clipping to
/// the screen happens in [`Terminal::clip`].
pub struct Frame {
    pub vertex_ops: Vec<DrawOp>,
    pub edge_segs: Vec<Vec<(i64, i64)>>,
}

impl Cube {
    /// The paint op of vertex `k`: its projected point centered and
    /// floored to a cell, glyphed by its depth band.
    pub open spec fn vertex_op_spec(self, term: Terminal, k: int) -> DrawOp {
        DrawOp {
            x: term.cell_x_spec(self.vertices_2d@[k].x as int) as i64,
            y: term.cell_y_spec(self.vertices_2d@[k].y as int) as i64,
            glyph: band_glyph(depth_band(self.vertices_3d@[k].z as int)),
        }
    }

    /// The cell of endpoint `which` (0 or 1) of edge `e`.
    pub open spec fn edge_cell_spec(self, term: Terminal, e: int, which: int) -> (int, int) {
        let v = if which == 0 {
            self.edges@[e].0
        } else {
            self.edges@[e].1
        };
        (
            term.cell_x_spec(self.vertices_2d@[v as int].x as int),
            term.cell_y_spec(self.vertices_2d@[v as int].y as int),
        )
    }

    /// Compute everything one frame paints, in order: the vertices
    /// (when the render mode draws them), then one rasterized segment
    /// per edge (when it draws those).
    pub fn render(&self, term: &Terminal) -> (frame: Frame)
        requires
            self.wf(),
        ensures
            frame.vertex_ops@.len() == if draws_vertices(self.render_mode) {
                VERTEX_COUNT as int
            } else {
                0int
            },
            forall|k: int|
                0 <= k < frame.vertex_ops@.len() ==> #[trigger] frame.vertex_ops@[k]
                    == self.vertex_op_spec(*term, k),
            frame.edge_segs@.len() == if draws_edges(self.render_mode) {
                EDGE_COUNT as int
            } else {
                0int
            },
            forall|e: int|
                0 <= e < frame.edge_segs@.len() ==> is_line(
                    (#[trigger] frame.edge_segs@[e])@,
                    self.edge_cell_spec(*term, e, 0).0,
                    self.edge_cell_spec(*term, e, 0).1,
                    self.edge_cell_spec(*term, e, 1).0,
                    self.edge_cell_spec(*term, e, 1).1,
                ),
    {
        let draw_v = matches!(self.render_mode, RenderMode::Vertices | RenderMode::Both);
        let draw_e = matches!(self.render_mode, RenderMode::Edges | RenderMode::Both);
        let mut vertex_ops: Vec<DrawOp> = Vec::new();
        if draw_v {
            let mut k: usize = 0;
            while k < VERTEX_COUNT
                invariant
                    self.wf(),
                    k <= VERTEX_COUNT,
                    vertex_ops@.len() == k,
                    forall|m: int|
                        0 <= m < k ==> #[trigger] vertex_ops@[m] == self.vertex_op_spec(*term, m),
                decreases VERTEX_COUNT - k,
            {
                let p2 = self.vertices_2d[k];
                let c = term.cell(p2.x, p2.y);
                let g = crate::glyph::glyph_for_depth(self.vertices_3d[k].z);
                vertex_ops.push(DrawOp { x: c.0, y: c.1, glyph: g });
                k = k + 1;
            }
        }
        let mut edge_segs: Vec<Vec<(i64, i64)>> = Vec::new();
        if draw_e {
            let mut e: usize = 0;
            while e < EDGE_COUNT
                invariant
                    self.wf(),
                    e <= EDGE_COUNT,
                    edge_segs@.len() == e,
                    forall|m: int|
                        0 <= m < e ==> is_line(
                            (#[trigger] edge_segs@[m])@,
                            self.edge_cell_spec(*term, m, 0).0,
                            self.edge_cell_spec(*term, m, 0).1,
                            self.edge_cell_spec(*term, m, 1).0,
                            self.edge_cell_spec(*term, m, 1).1,
                        ),
                decreases EDGE_COUNT - e,
            {
                let (a, b) = self.edges[e];
                let pa = self.vertices_2d[a];
                let pb = self.vertices_2d[b];
                let ca = term.cell(pa.x, pa.y);
                let cb = term.cell(pb.x, pb.y);
                let seg = line_cells(ca.0, ca.1, cb.0, cb.1);
                edge_segs.push(seg);
                e = e + 1;
            }
        }
        Frame { vertex_ops, edge_segs }
    }
}

/// Each coordinate of a vertex within the norm cap is within the cap.
proof fn lemma_coords_within_norm(v: Point3D)
    requires
        norm_sq(v) <= (NORM_CAP as int) * (NORM_CAP as int),
    ensures
        -NORM_CAP <= v.x <= NORM_CAP,
        -NORM_CAP <= v.y <= NORM_CAP,
        -NORM_CAP <= v.z <= NORM_CAP,
{
    assert(-NORM_CAP <= v.x <= NORM_CAP && -NORM_CAP <= v.y <= NORM_CAP && -NORM_CAP <= v.z
        <= NORM_CAP) by (nonlinear_arith)
        requires
            (v.x as int) * (v.x as int) + (v.y as int) * (v.y as int) + (v.z as int) * (
            v.z as int) <= (NORM_CAP as int) * (NORM_CAP as int),
            NORM_CAP == 2_000_000i64,
    ;
}

} // verus!
