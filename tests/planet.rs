use orbital_core::gfx::{Gfx, GfxCommandTypes};
use orbital_core::planet::{PlanetHandles, PlanetMeshes};
use orbital_core::scalar::Scalar;

fn sc(v: f32) -> Scalar {
    Scalar::from_bits(v.to_bits())
}

#[test]
fn planet_commands_in_paint_order() {
    let mut g = Gfx::new();
    g.origin(sc(0.0), sc(1000.0));
    let m = PlanetMeshes { horizon: 0, sky: 1, mountains: 2, hills: 3, foreground: 4 };
    let h = PlanetHandles::build(&mut g, m, sc(700.0), sc(650.0));
    assert_eq!(h.mountains_trans, 5);
    assert_eq!(h.hills_trans, 8);
    assert_eq!(g.command_count(), 17);
    let z = sc(0.0);
    let expected = vec![
        GfxCommandTypes::Program(1),
        GfxCommandTypes::Translate { x: z, y: z },
        GfxCommandTypes::Indices(1),
        GfxCommandTypes::TriangleDraw,
        GfxCommandTypes::Translate { x: z, y: sc(700.0) },
        GfxCommandTypes::Indices(2),
        GfxCommandTypes::TriangleDraw,
        GfxCommandTypes::Translate { x: z, y: sc(650.0) },
        GfxCommandTypes::Indices(3),
        GfxCommandTypes::TriangleDraw,
        GfxCommandTypes::Translate { x: z, y: z },
        GfxCommandTypes::Indices(4),
        GfxCommandTypes::TriangleDraw,
        GfxCommandTypes::Program(0),
        GfxCommandTypes::Indices(0),
        GfxCommandTypes::LineDraw,
    ];
    for (k, c) in expected.iter().enumerate() {
        assert_eq!(g.command(k + 1).command, *c);
        assert_eq!(g.command(k + 1).flags, 0);
    }
}
