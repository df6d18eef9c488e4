//! The planet's commands: sky, mountains, hills and foreground filled, the
//! horizon outlined, the mountains and hills each behind a translation that
//! moves with the ship.
use vstd::prelude::*;

use crate::gfx::{fresh, Gfx, GfxCommand, GfxCommandTypes};
use crate::scalar::Scalar;

verus! {

/// The index lists of the planet's meshes.
#[derive(Clone, Copy, PartialEq, Eq, Structural, Debug)]
pub struct PlanetMeshes {
    pub horizon: usize,
    pub sky: usize,
    pub mountains: usize,
    pub hills: usize,
    pub foreground: usize,
}

/// The planet's translations that follow the ship around the planet.
#[derive(Clone, Copy, PartialEq, Eq, Structural, Debug)]
pub struct PlanetHandles {
    pub mountains_trans: usize,
    pub hills_trans: usize,
}

pub open spec fn at_height(y: Scalar) -> GfxCommandTypes {
    GfxCommandTypes::Translate { x: Scalar { bits: 0 }, y }
}

/// The commands the planet appends, in order.
pub open spec fn planet_commands(m: PlanetMeshes, mountains_offset: Scalar, hills_offset: Scalar) -> Seq<
    GfxCommand,
> {
    seq![
        fresh(GfxCommandTypes::Program(1)),
        fresh(at_height(Scalar { bits: 0 })),
        fresh(GfxCommandTypes::Indices(m.sky)),
        fresh(GfxCommandTypes::TriangleDraw),
        fresh(at_height(mountains_offset)),
        fresh(GfxCommandTypes::Indices(m.mountains)),
        fresh(GfxCommandTypes::TriangleDraw),
        fresh(at_height(hills_offset)),
        fresh(GfxCommandTypes::Indices(m.hills)),
        fresh(GfxCommandTypes::TriangleDraw),
        fresh(at_height(Scalar { bits: 0 })),
        fresh(GfxCommandTypes::Indices(m.foreground)),
        fresh(GfxCommandTypes::TriangleDraw),
        fresh(GfxCommandTypes::Program(0)),
        fresh(GfxCommandTypes::Indices(m.horizon)),
        fresh(GfxCommandTypes::LineDraw),
    ]
}

impl PlanetHandles {
    /// Appends the planet's commands with the program for filled geometry:
    /// the sky untranslated, the mountains and hills raised by their
    /// offsets, the foreground untranslated; then the horizon outline with
    /// the program for lines.
    pub fn build(gfx: &mut Gfx, meshes: PlanetMeshes, mountains_offset: Scalar, hills_offset: Scalar) -> (h:
        PlanetHandles)
        requires
            old(gfx).cmds().len() + 16 < usize::MAX,
        ensures
            final(gfx).cmds() == old(gfx).cmds() + planet_commands(meshes, mountains_offset, hills_offset),
            final(gfx).same_store(old(gfx)),
            h.mountains_trans == old(gfx).cmds().len() + 4,
            h.hills_trans == old(gfx).cmds().len() + 7,
    {
        let ghost base = gfx.cmds();
        gfx.program(1);
        gfx.translate(Scalar::zero(), Scalar::zero());
        gfx.indices(meshes.sky);
        gfx.triangle_draw();

        let mountains_trans = gfx.translate(Scalar::zero(), mountains_offset);
        gfx.indices(meshes.mountains);
        gfx.triangle_draw();

        let hills_trans = gfx.translate(Scalar::zero(), hills_offset);
        gfx.indices(meshes.hills);
        gfx.triangle_draw();

        gfx.translate(Scalar::zero(), Scalar::zero());
        gfx.indices(meshes.foreground);
        gfx.triangle_draw();

        gfx.program(0);
        gfx.indices(meshes.horizon);
        gfx.line_draw();
        proof {
            assert(gfx.cmds() =~= base + planet_commands(meshes, mountains_offset, hills_offset));
        }
        PlanetHandles { mountains_trans, hills_trans }
    }
}

} // verus!
