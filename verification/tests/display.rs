//! Depth glyphs, cell mapping, clipping, and whole-frame rendering.

use termcube::cube::{Cube, FrameTrig, RenderMode, Rotation};
use termcube::fixed::SCALE;
use termcube::glyph::{glyph_for_depth, EDGE_GLYPH};
use termcube::projection::Projection;
use termcube::terminal::{DrawOp, ScreenOp, Terminal};

#[test]
fn glyph_bands_boundaries() {
    assert_eq!(glyph_for_depth(-600_000), '#');
    assert_eq!(glyph_for_depth(-500_001), '#');
    assert_eq!(glyph_for_depth(-500_000), '@');
    assert_eq!(glyph_for_depth(-1), '@');
    assert_eq!(glyph_for_depth(0), '*');
    assert_eq!(glyph_for_depth(499_999), '*');
    assert_eq!(glyph_for_depth(500_000), '.');
    assert_eq!(glyph_for_depth(2_000_000), '.');
}

#[test]
fn glyph_never_denser_with_depth() {
    let density = |c: char| match c {
        '#' => 0,
        '@' => 1,
        '*' => 2,
        _ => 3,
    };
    let mut last = 0;
    for z in (-1_000_000..=1_000_000).step_by(50_000) {
        let d = density(glyph_for_depth(z));
        assert!(d >= last);
        last = d;
    }
}

#[test]
fn cell_mapping_centers_and_floors() {
    let t = Terminal::new(80, 24);
    assert_eq!(t.cell(0, 0), (40, 12));
    // -1.5 maps to floor(-1.5 + 40) = 38
    assert_eq!(t.cell(-1_500_000, 0).0, 38);
    // 1.5 maps to floor(1.5 + 12) = 13
    assert_eq!(t.cell(0, 1_500_000).1, 13);
    // far off screen still maps, just out of range
    assert_eq!(t.cell(-100_000_000_000, 0).0, -99_960);
}

#[test]
fn clip_drops_offscreen_ops() {
    let t = Terminal::new(80, 24);
    let ops = vec![
        DrawOp { x: 0, y: 0, glyph: '#' },
        DrawOp { x: -1, y: 5, glyph: '@' },
        DrawOp { x: 79, y: 23, glyph: '*' },
        DrawOp { x: 80, y: 5, glyph: '.' },
        DrawOp { x: 5, y: 24, glyph: '.' },
    ];
    let clipped = t.clip(&ops);
    assert_eq!(
        clipped,
        vec![
            ScreenOp { x: 0, y: 0, glyph: '#' },
            ScreenOp { x: 79, y: 23, glyph: '*' },
        ]
    );
}

#[test]
fn render_fresh_cube_paints_center() {
    // before any update the projected set is all zeros, so every
    // vertex op sits on the center cell, glyphed by its vertex depth
    let c = Cube::new();
    let term = Terminal::new(80, 24);
    let frame = c.render(&term);
    assert_eq!(frame.vertex_ops.len(), 8);
    for (k, op) in frame.vertex_ops.iter().enumerate() {
        assert_eq!((op.x, op.y), (40, 12));
        let expect = if c.vertices_3d[k].z < 0 { '#' } else { '.' };
        assert_eq!(op.glyph, expect);
    }
    assert_eq!(frame.edge_segs.len(), 12);
    for seg in &frame.edge_segs {
        assert_eq!(seg.len(), 1);
        assert_eq!(seg[0], (40, 12));
    }
}

#[test]
fn render_modes_select_what_is_painted() {
    let rot = Rotation { x: 0, y: 0, z: 0 };
    let proj = Projection::Perspective { camera_distance: 2_100_000 };
    let only_v = Cube::with_config(proj, SCALE, SCALE, RenderMode::Vertices, rot);
    let only_e = Cube::with_config(proj, SCALE, SCALE, RenderMode::Edges, rot);
    let term = Terminal::new(40, 20);
    let fv = only_v.render(&term);
    assert_eq!(fv.vertex_ops.len(), 8);
    assert_eq!(fv.edge_segs.len(), 0);
    let fe = only_e.render(&term);
    assert_eq!(fe.vertex_ops.len(), 0);
    assert_eq!(fe.edge_segs.len(), 12);
}

#[test]
fn render_after_update_draws_edges_between_vertex_cells() {
    let mut c = Cube::new();
    c.update(FrameTrig {
        sin_x: 17_452,
        cos_x: 999_847,
        sin_y: 8_726,
        cos_y: 999_961,
        sin_z: 0,
        cos_z: 1_000_000,
    });
    let term = Terminal::new(80, 24);
    let frame = c.render(&term);
    for (e, seg) in frame.edge_segs.iter().enumerate() {
        let (i, j) = c.edges[e];
        let a = term.cell(c.vertices_2d[i].x, c.vertices_2d[i].y);
        let b = term.cell(c.vertices_2d[j].x, c.vertices_2d[j].y);
        assert_eq!(seg[0], a);
        assert_eq!(*seg.last().unwrap(), b);
        let max_d = ((b.0 - a.0).abs()).max((b.1 - a.1).abs());
        assert_eq!(seg.len() as i64, max_d + 1);
    }
    assert_eq!(EDGE_GLYPH, '*');
}
