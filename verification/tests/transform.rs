//! Rotation and projection behavior on concrete values.

use termcube::cube::{Cube, FrameTrig, Point2D, Point3D, RenderMode, Rotation};
use termcube::projection::{project_point, Projection};
use termcube::rotation::rotate_pair;
use termcube::fixed::SCALE;

fn unit_trig() -> FrameTrig {
    FrameTrig { sin_x: 0, cos_x: SCALE, sin_y: 0, cos_y: SCALE, sin_z: 0, cos_z: SCALE }
}

#[test]
fn cube_geometry_defaults() {
    let c = Cube::new();
    assert_eq!(c.vertices_3d.len(), 8);
    assert_eq!(c.vertices_3d[0], Point3D { x: -SCALE, y: -SCALE, z: -SCALE });
    assert_eq!(c.vertices_3d[6], Point3D { x: SCALE, y: SCALE, z: SCALE });
    assert_eq!(c.vertices_2d.len(), 8);
    for p in &c.vertices_2d {
        assert_eq!(*p, Point2D { x: 0, y: 0 });
    }
    assert_eq!(c.edges.len(), 12);
    assert_eq!(c.edges[0], (0, 1));
    assert_eq!(c.edges[11], (3, 7));
    assert_eq!(c.rotation, Rotation { x: 17_453, y: 8_727, z: 0 });
    assert_eq!(c.x_ratio, 20_000_000);
    assert_eq!(c.y_ratio, 10_000_000);
}

#[test]
fn edges_are_well_formed() {
    let c = Cube::new();
    for &(i, j) in &c.edges {
        assert!(i < c.vertices_3d.len());
        assert!(j < c.vertices_3d.len());
        assert_ne!(i, j);
    }
}

#[test]
fn rotation_round_trip_exact_pair() {
    // (0.6, 0.8) is an exact unit pair, so rotating forward and back
    // returns the point exactly.
    let (a, b) = rotate_pair(SCALE, 0, 600_000, 800_000);
    assert_eq!((a, b), (800_000, 600_000));
    let (p, q) = rotate_pair(a, b, -600_000, 800_000);
    assert_eq!((p, q), (SCALE, 0));
}

#[test]
fn rotation_round_trip_truncated_pair() {
    // A truncated sine/cosine pair for 0.3 rad: the round trip lands
    // within a few fixed-point units of the original.
    let s = 295_520;
    let c = 955_336;
    let (a, b) = rotate_pair(SCALE, -250_000, s, c);
    assert_eq!((a, b), (1_029_216, 56_686));
    let (p, q) = rotate_pair(a, b, -s, c);
    assert_eq!((p, q), (999_998, -249_999));
    assert!((p - SCALE).abs() <= 8);
    assert!((q - -250_000i64).abs() <= 8);
}

#[test]
fn update_golden_frame() {
    // Rotation increments (pi/180, pi/90, 0), truncated trig pairs;
    // one update moves vertex 0 from (-1, -1, -1) to a position fixed
    // by the rotation formulas.
    let rot = Rotation { x: 17_453, y: 34_907, z: 0 };
    let mut c = Cube::with_config(
        Projection::Perspective { camera_distance: 2_100_000 },
        20_000_000,
        10_000_000,
        RenderMode::Both,
        rot,
    );
    let t = FrameTrig {
        sin_x: 17_452,
        cos_x: 999_847,
        sin_y: 34_899,
        cos_y: 999_390,
        sin_z: 0,
        cos_z: 1_000_000,
    };
    c.update(t);
    assert_eq!(
        c.vertices_3d[0],
        Point3D { x: -1_034_892, y: -982_395, z: -981_779 }
    );
}

#[test]
fn update_identity_trig_projects_only() {
    let mut c = Cube::new();
    c.update(unit_trig());
    assert_eq!(c.vertices_3d[0], Point3D { x: -SCALE, y: -SCALE, z: -SCALE });
    // perspective: x2d = -1 * 20 / (-1 + 2.1) = -18.18...
    assert_eq!(c.vertices_2d[0].x, -18_181_818);
    assert_eq!(c.vertices_2d[0].y, -9_090_909);
}

#[test]
fn projection_one_third() {
    // D = 2.0, vertex (1,1,1), unit ratios: both axes project to 1/3.
    let r = project_point(
        SCALE,
        SCALE,
        SCALE,
        Projection::Perspective { camera_distance: 2_000_000 },
        SCALE,
        SCALE,
    );
    assert_eq!(r, (333_333, 333_333));
}

#[test]
fn projection_epsilon_guard() {
    // z + D is exactly zero: the epsilon takes over.
    let r = project_point(
        SCALE,
        0,
        -2_000_000,
        Projection::Perspective { camera_distance: 2_000_000 },
        SCALE,
        SCALE,
    );
    assert_eq!(r, (10_000_000_000, 0));
}

#[test]
fn projection_orthographic_divide() {
    let r = project_point(SCALE, SCALE, 2_000_000, Projection::Orthographic, SCALE, SCALE);
    assert_eq!(r, (500_000, 500_000));
}

#[test]
fn projection_deterministic_repeat() {
    let args = (
        1_234_567i64,
        -765_432i64,
        444_444i64,
        Projection::Perspective { camera_distance: 2_100_000 },
        20_000_000i64,
        10_000_000i64,
    );
    let r1 = project_point(args.0, args.1, args.2, args.3, args.4, args.5);
    let r2 = project_point(args.0, args.1, args.2, args.3, args.4, args.5);
    assert_eq!(r1, r2);
}
