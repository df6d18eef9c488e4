use orbital_core::gfx::{
    DrawCall, DrawKind, FrameOp, Gfx, GfxCommand, GfxCommandTypes, GfxError, RenderState, Topology,
};
use orbital_core::scalar::{Color, Point, Scalar};

fn sc(v: f32) -> Scalar {
    Scalar::from_bits(v.to_bits())
}

fn pt(x: f32, y: f32) -> Point {
    Point::new(sc(x), sc(y))
}

fn default_state() -> RenderState {
    RenderState {
        program: 0,
        indices: 0,
        angle: sc(0.0),
        scene_scale: sc(0.5),
        object_scale: sc(1.0),
        translation: pt(0.0, 0.0),
        origin: pt(0.0, 0.0),
    }
}

/// A store with one program, one index list and one vertex of each kind.
fn ready() -> Gfx {
    let mut g = Gfx::new();
    g.add_program("vertex", "fragment");
    g.add_indices(&[0, 1, 2], Topology::TrianglesList);
    g.add_line_vertex(pt(1.0, 2.0));
    g.add_triangle_vertex(pt(1.0, 2.0), Color { r: sc(1.0), g: sc(0.0), b: sc(0.0), a: sc(1.0) });
    g
}

fn draws(ops: &[FrameOp]) -> Vec<DrawCall> {
    ops.iter()
        .map(|op| match op {
            FrameOp::Draw(d) => *d,
            FrameOp::MissingVertices(_) => panic!("draw passed over"),
        })
        .collect()
}

#[test]
fn handles_are_positions_in_order() {
    let mut g = Gfx::new();
    assert_eq!(g.program(1), 0);
    assert_eq!(g.rotate(sc(0.5)), 1);
    assert_eq!(g.scene_scale(sc(0.05)), 2);
    assert_eq!(g.object_scale(sc(2.0)), 3);
    assert_eq!(g.translate(sc(1.0), sc(2.0)), 4);
    assert_eq!(g.origin(sc(3.0), sc(4.0)), 5);
    assert_eq!(g.indices(7), 6);
    assert_eq!(g.line_draw(), 7);
    assert_eq!(g.triangle_draw(), 8);
    assert_eq!(g.command_count(), 9);
    assert_eq!(g.command(0), GfxCommand { flags: 0, command: GfxCommandTypes::Program(1) });
    assert_eq!(g.command(4), GfxCommand { flags: 0, command: GfxCommandTypes::Translate { x: sc(1.0), y: sc(2.0) } });
    assert_eq!(g.command(6), GfxCommand { flags: 0, command: GfxCommandTypes::Indices(7) });
}

#[test]
fn mutating_one_handle_leaves_the_others() {
    let mut g = Gfx::new();
    let a = g.rotate(sc(0.1));
    let b = g.translate(sc(1.0), sc(1.0));
    let c = g.rotate(sc(0.2));
    for k in 0..50 {
        g.change_rotation(a, sc(k as f32));
        g.change_translation(b, pt(k as f32, -(k as f32)));
    }
    assert_eq!(g.command(a).command, GfxCommandTypes::Rotate(sc(49.0)));
    assert_eq!(g.command(b).command, GfxCommandTypes::Translate { x: sc(49.0), y: sc(-49.0) });
    assert_eq!(g.command(c).command, GfxCommandTypes::Rotate(sc(0.2)));
    assert_eq!(g.command_count(), 3);
    g.change_scene_scale(c, sc(0.3));
    g.change_object_scale(a, sc(4.0));
    g.change_origin(b, sc(5.0), sc(6.0));
    assert_eq!(g.command(c).command, GfxCommandTypes::SceneScale(sc(0.3)));
    assert_eq!(g.command(a).command, GfxCommandTypes::ObjectScale(sc(4.0)));
    assert_eq!(g.command(b).command, GfxCommandTypes::Origin { x: sc(5.0), y: sc(6.0) });
}

#[test]
fn change_keeps_the_skip_flag() {
    let mut g = Gfx::new();
    let a = g.rotate(sc(0.1));
    g.skip(a);
    g.change_rotation(a, sc(0.7));
    assert_eq!(g.command(a), GfxCommand { flags: 1, command: GfxCommandTypes::Rotate(sc(0.7)) });
}

#[test]
fn skip_then_unskip_restores_interpretation() {
    let mut g = ready();
    g.rotate(sc(0.25));
    let d = g.triangle_draw();
    let before = g.run().unwrap();
    g.skip(d);
    let skipped = g.run().unwrap();
    assert!(skipped.ops.is_empty());
    g.unskip(d);
    let after = g.run().unwrap();
    assert_eq!(before.ops, after.ops);
    assert_eq!(g.command(d), GfxCommand { flags: 0, command: GfxCommandTypes::TriangleDraw });
}

#[test]
fn skipped_state_command_is_passed_over() {
    let mut g = ready();
    let r = g.rotate(sc(0.25));
    g.line_draw();
    g.skip(r);
    let f = g.run().unwrap();
    assert_eq!(draws(&f.ops)[0].state.angle, sc(0.0));
}

#[test]
fn draws_see_the_latest_state_before_them() {
    let mut g = ready();
    let first = g.rotate(sc(0.5));
    g.triangle_draw();
    let second = g.rotate(sc(1.5));
    g.triangle_draw();
    let f = g.run().unwrap();
    let d = draws(&f.ops);
    assert_eq!(d.len(), 2);
    assert_eq!(d[0].state.angle, sc(0.5));
    assert_eq!(d[1].state.angle, sc(1.5));

    g.change_rotation(first, sc(-1.0));
    g.change_rotation(second, sc(2.0));
    let f = g.run().unwrap();
    let d = draws(&f.ops);
    assert_eq!(d[0].state.angle, sc(-1.0));
    assert_eq!(d[1].state.angle, sc(2.0));
}

#[test]
fn run_starts_from_default_state() {
    let mut g = ready();
    g.line_draw();
    let f = g.run().unwrap();
    assert_eq!(f.ops, vec![FrameOp::Draw(DrawCall { kind: DrawKind::Lines, state: default_state() })]);
}

#[test]
fn run_carries_every_kind_of_state() {
    let mut g = ready();
    g.add_program("v2", "f2");
    g.add_indices(&[0], Topology::LineLoop);
    g.program(1);
    g.indices(1);
    g.rotate(sc(0.3));
    g.scene_scale(sc(0.05));
    g.object_scale(sc(2.0));
    g.translate(sc(10.0), sc(20.0));
    g.origin(sc(0.0), sc(1000.0));
    g.triangle_draw();
    let f = g.run().unwrap();
    let expected = RenderState {
        program: 1,
        indices: 1,
        angle: sc(0.3),
        scene_scale: sc(0.05),
        object_scale: sc(2.0),
        translation: pt(10.0, 20.0),
        origin: pt(0.0, 1000.0),
    };
    assert_eq!(f.ops, vec![FrameOp::Draw(DrawCall { kind: DrawKind::Triangles, state: expected })]);
}

#[test]
fn rebuild_is_asked_once_after_appends() {
    let mut g = Gfx::new();
    g.add_program("v", "f");
    g.add_indices(&[0], Topology::LineLoop);
    assert!(!g.run().unwrap().rebuild_vertices);
    g.add_line_vertex(pt(0.0, 1.0));
    assert!(g.run().unwrap().rebuild_vertices);
    assert!(!g.run().unwrap().rebuild_vertices);
    g.add_triangle_vertex(pt(0.0, 1.0), Color { r: sc(0.1), g: sc(0.2), b: sc(0.3), a: sc(1.0) });
    assert!(g.run().unwrap().rebuild_vertices);
}

#[test]
fn draw_before_any_vertex_is_passed_over() {
    let mut g = Gfx::new();
    g.line_draw();
    g.triangle_draw();
    let f = g.run().unwrap();
    assert!(!f.rebuild_vertices);
    assert_eq!(f.ops, vec![FrameOp::MissingVertices(DrawKind::Lines), FrameOp::MissingVertices(DrawKind::Triangles)]);
}

#[test]
fn missing_vertices_do_not_check_slots() {
    let mut g = Gfx::new();
    g.indices(9);
    g.line_draw();
    assert_eq!(g.run().unwrap().ops, vec![FrameOp::MissingVertices(DrawKind::Lines)]);
}

#[test]
fn indices_slot_out_of_range_is_an_error() {
    let mut g = ready();
    g.line_draw();
    g.indices(3);
    g.program(5);
    g.line_draw();
    assert_eq!(g.run().err(), Some(GfxError::IndicesOutOfRange { command: 3, slot: 3 }));
}

#[test]
fn program_slot_out_of_range_is_an_error() {
    let mut g = ready();
    g.program(2);
    g.triangle_draw();
    assert_eq!(g.run().err(), Some(GfxError::ProgramOutOfRange { command: 1, slot: 2 }));
}

#[test]
fn skipped_draw_with_bad_slot_is_no_error() {
    let mut g = ready();
    g.program(2);
    let d = g.triangle_draw();
    g.skip(d);
    assert!(g.run().unwrap().ops.is_empty());
}

#[test]
fn backing_store_appends() {
    let mut g = Gfx::new();
    assert_eq!(g.line_len(), 0);
    assert_eq!(g.triangle_len(), 0);
    g.add_line_vertex(pt(1.0, 2.0));
    g.add_line_vertex(pt(3.0, 4.0));
    let c = Color { r: sc(0.3), g: sc(0.3), b: sc(0.3), a: sc(1.0) };
    g.add_triangle_vertex(pt(5.0, 6.0), c);
    assert_eq!(g.line_len(), 2);
    assert_eq!(g.triangle_len(), 1);
    assert_eq!(g.line_vertices()[1].position, pt(3.0, 4.0));
    assert_eq!(g.triangle_vertices()[0].color, c);
    assert_eq!(g.add_indices(&[4, 5, 6], Topology::TriangleStrip), 0);
    assert_eq!(g.add_indices(&[1], Topology::LineLoop), 1);
    assert_eq!(g.indices_len(), 2);
    assert_eq!(g.index_list_at(0).indices, vec![4, 5, 6]);
    assert_eq!(g.index_list_at(0).topology, Topology::TriangleStrip);
    assert_eq!(g.add_program("vs", "fs"), 0);
    assert_eq!(g.programs_len(), 1);
    assert_eq!(g.program_source(0).vertex, "vs");
    assert_eq!(g.program_source(0).fragment, "fs");
}
