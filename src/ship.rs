//! The player ship's controls and the command-list handles it drives: the
//! flag word that input sets, the decisions of each tick and of the gravity
//! step, and the writing of the ship's pose into the command list.
use vstd::prelude::*;

use crate::gear::{cycled, gear_wf, tick_pose, ticked, GearPose, LandingGearState};
use crate::gfx::{
    fresh, skip_at, skipped, unskip_at, with_payloads, Gfx, GfxCommand, GfxCommandTypes,
};
use crate::scalar::{Point, Scalar};

verus! {

pub const ROTATE_LEFT: u32 = 1;

pub const ROTATE_RIGHT: u32 = 2;

pub const THRUST_ON: u32 = 4;

pub const LANDED: u32 = 8;

/// Bit pattern of 0.05, the scale the ship's geometry is set up with.
pub const SHIP_SCALE_BITS: u32 = 0x3D4C_CCCD;

/// Bit pattern of 3.0, the sideways offset of a gear leg's mount.
pub const GEAR_MOUNT_X_BITS: u32 = 0x4040_0000;

/// Bit pattern of -3.0.
pub const NEG_GEAR_MOUNT_X_BITS: u32 = 0xC040_0000;

/// Bit pattern of -7.0, the downward offset of a gear leg's mount.
pub const GEAR_MOUNT_Y_BITS: u32 = 0xC0E0_0000;

/// Bit pattern of 5.0, the sideways offset of a gear foot.
pub const FOOT_X_BITS: u32 = 0x40A0_0000;

/// Bit pattern of -5.0.
pub const NEG_FOOT_X_BITS: u32 = 0xC0A0_0000;

/// Bit pattern of -12.5, the downward offset of a gear foot.
pub const FOOT_Y_BITS: u32 = 0xC148_0000;

/// Which way the ship turns during a tick.
#[derive(Clone, Copy, PartialEq, Eq, Structural, Debug)]
pub enum Turn {
    Left,
    Right,
    Straight,
}

/// What the gravity step does: pull the ship toward the planet, or set it
/// on the surface with no velocity.
#[derive(Clone, Copy, PartialEq, Eq, Structural, Debug)]
pub enum GravityAction {
    Pull,
    Land,
}

/// The decisions of one tick, for the caller to carry out on the ship's
/// position, velocity and angle.
#[derive(Clone, Copy, PartialEq, Eq, Structural, Debug)]
pub struct TickPlan {
    pub turn: Turn,
    pub thrust: bool,
    pub gear: GearPose,
}

/// The index lists of the ship's meshes.
#[derive(Clone, Copy, PartialEq, Eq, Structural, Debug)]
pub struct ShipMeshes {
    pub fuselage: usize,
    pub exhaust: usize,
    pub left_gear: usize,
    pub right_gear: usize,
    pub left_foot: usize,
    pub right_foot: usize,
}

/// The commands the ship owns in the command list.
#[derive(Clone, Copy, PartialEq, Eq, Structural, Debug)]
pub struct ShipHandles {
    pub program: usize,
    pub scale: usize,
    pub left_gear_rotation: usize,
    pub left_gear_translation: usize,
    pub left_gear_draw: usize,
    pub right_gear_rotation: usize,
    pub right_gear_translation: usize,
    pub right_gear_draw: usize,
    pub left_foot_rotation: usize,
    pub left_foot_translation: usize,
    pub left_foot_draw: usize,
    pub right_foot_rotation: usize,
    pub right_foot_translation: usize,
    pub right_foot_draw: usize,
    pub ship_rotation: usize,
    pub ship_translation: usize,
    pub ship_draw: usize,
    pub exhaust_draw: usize,
}

/// The values a tick writes into the ship's commands.
#[derive(Clone, Copy, PartialEq, Eq, Structural, Debug)]
pub struct ShipPose {
    pub scale: Scalar,
    pub translation: Point,
    pub left_gear_translation: Point,
    pub right_gear_translation: Point,
    pub left_foot_translation: Point,
    pub right_foot_translation: Point,
    pub left_gear_rotation: Scalar,
    pub right_gear_rotation: Scalar,
    pub left_foot_rotation: Scalar,
    pub right_foot_rotation: Scalar,
    pub rotation: Scalar,
}

pub open spec fn has(flags: u32, bit: u32) -> bool {
    flags & bit != 0
}

pub open spec fn scalar_of(bits: u32) -> Scalar {
    Scalar { bits }
}

pub open spec fn translation_of(x: u32, y: u32) -> GfxCommandTypes {
    GfxCommandTypes::Translate { x: scalar_of(x), y: scalar_of(y) }
}

/// The commands the ship appends, in order, before the five draws that
/// start out skipped are flagged.
pub open spec fn ship_commands(m: ShipMeshes) -> Seq<GfxCommand> {
    seq![
        fresh(GfxCommandTypes::Program(1)),
        fresh(GfxCommandTypes::SceneScale(scalar_of(SHIP_SCALE_BITS))),
        fresh(GfxCommandTypes::Indices(m.left_gear)),
        fresh(GfxCommandTypes::Rotate(scalar_of(0))),
        fresh(translation_of(NEG_GEAR_MOUNT_X_BITS, GEAR_MOUNT_Y_BITS)),
        fresh(GfxCommandTypes::TriangleDraw),
        fresh(GfxCommandTypes::Indices(m.right_gear)),
        fresh(GfxCommandTypes::Rotate(scalar_of(0))),
        fresh(translation_of(GEAR_MOUNT_X_BITS, GEAR_MOUNT_Y_BITS)),
        fresh(GfxCommandTypes::TriangleDraw),
        fresh(GfxCommandTypes::Indices(m.left_foot)),
        fresh(GfxCommandTypes::Rotate(scalar_of(0))),
        fresh(translation_of(NEG_FOOT_X_BITS, FOOT_Y_BITS)),
        fresh(GfxCommandTypes::TriangleDraw),
        fresh(GfxCommandTypes::Indices(m.right_foot)),
        fresh(GfxCommandTypes::Rotate(scalar_of(0))),
        fresh(translation_of(FOOT_X_BITS, FOOT_Y_BITS)),
        fresh(GfxCommandTypes::TriangleDraw),
        fresh(GfxCommandTypes::Rotate(scalar_of(0))),
        fresh(translation_of(0, 0)),
        fresh(GfxCommandTypes::Indices(m.fuselage)),
        fresh(GfxCommandTypes::TriangleDraw),
        fresh(GfxCommandTypes::Indices(m.exhaust)),
        fresh(GfxCommandTypes::TriangleDraw),
    ]
}

/// The offsets, within the ship's commands, of the draws that start out
/// skipped: the ship, the two legs and the two feet.
pub open spec fn starts_skipped(k: int) -> bool {
    k == 5 || k == 9 || k == 13 || k == 17 || k == 21
}

/// The ship's commands as they stand once set up.
pub open spec fn ship_commands_set_up(m: ShipMeshes) -> Seq<GfxCommand> {
    Seq::new(
        24,
        |k: int|
            if starts_skipped(k) {
                skipped(ship_commands(m)[k])
            } else {
                ship_commands(m)[k]
            },
    )
}

/// The handles that a pose is written to, in order.
pub open spec fn pose_handles(h: ShipHandles) -> Seq<usize> {
    seq![
        h.scale,
        h.ship_translation,
        h.left_gear_translation,
        h.right_gear_translation,
        h.left_foot_translation,
        h.right_foot_translation,
        h.left_gear_rotation,
        h.right_gear_rotation,
        h.left_foot_rotation,
        h.right_foot_rotation,
        h.ship_rotation,
    ]
}

/// The payloads a pose writes, in the order of `pose_handles`.
pub open spec fn pose_payloads(p: ShipPose) -> Seq<GfxCommandTypes> {
    seq![
        GfxCommandTypes::ObjectScale(p.scale),
        GfxCommandTypes::Translate { x: p.translation.x, y: p.translation.y },
        GfxCommandTypes::Translate { x: p.left_gear_translation.x, y: p.left_gear_translation.y },
        GfxCommandTypes::Translate { x: p.right_gear_translation.x, y: p.right_gear_translation.y },
        GfxCommandTypes::Translate { x: p.left_foot_translation.x, y: p.left_foot_translation.y },
        GfxCommandTypes::Translate { x: p.right_foot_translation.x, y: p.right_foot_translation.y },
        GfxCommandTypes::Rotate(p.left_gear_rotation),
        GfxCommandTypes::Rotate(p.right_gear_rotation),
        GfxCommandTypes::Rotate(p.left_foot_rotation),
        GfxCommandTypes::Rotate(p.right_foot_rotation),
        GfxCommandTypes::Rotate(p.rotation),
    ]
}

/// Every handle the ship writes lies in a command list of `len` commands.
pub open spec fn handles_in(h: ShipHandles, len: nat) -> bool {
    &&& h.exhaust_draw < len
    &&& forall|k: int| 0 <= k < 11 ==> #[trigger] pose_handles(h)[k] < len
}

/// The handles the ship's commands get when they are appended from `base`.
pub open spec fn handles_from(h: ShipHandles, base: nat) -> bool {
    &&& h.program == base
    &&& h.scale == base + 1
    &&& h.left_gear_rotation == base + 3
    &&& h.left_gear_translation == base + 4
    &&& h.left_gear_draw == base + 5
    &&& h.right_gear_rotation == base + 7
    &&& h.right_gear_translation == base + 8
    &&& h.right_gear_draw == base + 9
    &&& h.left_foot_rotation == base + 11
    &&& h.left_foot_translation == base + 12
    &&& h.left_foot_draw == base + 13
    &&& h.right_foot_rotation == base + 15
    &&& h.right_foot_translation == base + 16
    &&& h.right_foot_draw == base + 17
    &&& h.ship_rotation == base + 18
    &&& h.ship_translation == base + 19
    &&& h.ship_draw == base + 21
    &&& h.exhaust_draw == base + 23
}

impl ShipHandles {
    /// Appends the ship's commands: for each gear leg and foot its index
    /// list, rotation, translation and draw, then the ship's own rotation,
    /// translation and draw and the exhaust draw. The ship, leg and foot
    /// draws start out skipped.
    pub fn build(gfx: &mut Gfx, meshes: ShipMeshes) -> (h: ShipHandles)
        requires
            old(gfx).cmds().len() + 24 < usize::MAX,
        ensures
            final(gfx).cmds() == old(gfx).cmds() + ship_commands_set_up(meshes),
            final(gfx).same_store(old(gfx)),
            handles_from(h, old(gfx).cmds().len()),
            handles_in(h, final(gfx).cmds().len()),
    {
        let ghost base = gfx.cmds();
        let program = gfx.program(1);
        let scale = gfx.scene_scale(Scalar::from_bits(SHIP_SCALE_BITS));

        gfx.indices(meshes.left_gear);
        let left_gear_rotation = gfx.rotate(Scalar::zero());
        let left_gear_translation = gfx.translate(
            Scalar::from_bits(NEG_GEAR_MOUNT_X_BITS),
            Scalar::from_bits(GEAR_MOUNT_Y_BITS),
        );
        let left_gear_draw = gfx.triangle_draw();

        gfx.indices(meshes.right_gear);
        let right_gear_rotation = gfx.rotate(Scalar::zero());
        let right_gear_translation = gfx.translate(
            Scalar::from_bits(GEAR_MOUNT_X_BITS),
            Scalar::from_bits(GEAR_MOUNT_Y_BITS),
        );
        let right_gear_draw = gfx.triangle_draw();

        gfx.indices(meshes.left_foot);
        let left_foot_rotation = gfx.rotate(Scalar::zero());
        let left_foot_translation = gfx.translate(
            Scalar::from_bits(NEG_FOOT_X_BITS),
            Scalar::from_bits(FOOT_Y_BITS),
        );
        let left_foot_draw = gfx.triangle_draw();

        gfx.indices(meshes.right_foot);
        let right_foot_rotation = gfx.rotate(Scalar::zero());
        let right_foot_translation = gfx.translate(
            Scalar::from_bits(FOOT_X_BITS),
            Scalar::from_bits(FOOT_Y_BITS),
        );
        let right_foot_draw = gfx.triangle_draw();

        let ship_rotation = gfx.rotate(Scalar::zero());
        let ship_translation = gfx.translate(Scalar::zero(), Scalar::zero());
        gfx.indices(meshes.fuselage);
        let ship_draw = gfx.triangle_draw();
        gfx.indices(meshes.exhaust);
        let exhaust_draw = gfx.triangle_draw();

        proof {
            assert(gfx.cmds() =~= base + ship_commands(meshes));
        }
        gfx.skip(ship_draw);
        gfx.skip(left_gear_draw);
        gfx.skip(right_gear_draw);
        gfx.skip(left_foot_draw);
        gfx.skip(right_foot_draw);
        proof {
            assert(gfx.cmds() =~= base + ship_commands_set_up(meshes));
        }
        ShipHandles {
            program,
            scale,
            left_gear_rotation,
            left_gear_translation,
            left_gear_draw,
            right_gear_rotation,
            right_gear_translation,
            right_gear_draw,
            left_foot_rotation,
            left_foot_translation,
            left_foot_draw,
            right_foot_rotation,
            right_foot_translation,
            right_foot_draw,
            ship_rotation,
            ship_translation,
            ship_draw,
            exhaust_draw,
        }
    }
}

/// The player ship's control state: its flag word, its landing gear and the
/// commands it drives. Position, velocity and angle are the caller's.
pub struct PlayerShip {
    flags: u32,
    gear_state: LandingGearState,
    handles: ShipHandles,
}

impl PlayerShip {
    pub closed spec fn flags(&self) -> u32 {
        self.flags
    }

    pub closed spec fn gear(&self) -> LandingGearState {
        self.gear_state
    }

    pub closed spec fn handles(&self) -> ShipHandles {
        self.handles
    }

    pub open spec fn wf(&self) -> bool {
        gear_wf(self.gear())
    }

    pub open spec fn landed(&self) -> bool {
        has(self.flags(), LANDED)
    }

    pub open spec fn thrust_is_on(&self) -> bool {
        has(self.flags(), THRUST_ON)
    }

    pub open spec fn left_is_on(&self) -> bool {
        has(self.flags(), ROTATE_LEFT)
    }

    pub open spec fn right_is_on(&self) -> bool {
        has(self.flags(), ROTATE_RIGHT)
    }

    /// A ship at rest on the surface, gear down.
    pub fn new(handles: ShipHandles) -> (r: PlayerShip)
        ensures
            r.wf(),
            r.landed(),
            !r.thrust_is_on(),
            !r.left_is_on(),
            !r.right_is_on(),
            r.gear() == LandingGearState::Down,
            r.handles() == handles,
    {
        let r = PlayerShip { flags: LANDED, gear_state: LandingGearState::Down, handles };
        assert(LANDED & LANDED != 0 && LANDED & THRUST_ON == 0 && LANDED & ROTATE_LEFT == 0
            && LANDED & ROTATE_RIGHT == 0) by (bit_vector);
        r
    }

    pub fn handles_exec(&self) -> (r: ShipHandles)
        ensures
            r == self.handles(),
    {
        self.handles
    }

    pub fn gear_state(&self) -> (r: LandingGearState)
        ensures
            r == self.gear(),
    {
        self.gear_state
    }

    /// Turns the engine on, which also lifts the ship off the surface.
    pub fn thrust_on(&mut self)
        ensures
            final(self).thrust_is_on(),
            !final(self).landed(),
            final(self).left_is_on() == old(self).left_is_on(),
            final(self).right_is_on() == old(self).right_is_on(),
            final(self).gear() == old(self).gear(),
            final(self).handles() == old(self).handles(),
    {
        let f = self.flags;
        let g = (f | THRUST_ON) & !LANDED;
        assert(g & THRUST_ON != 0 && g & LANDED == 0 && (g & ROTATE_LEFT != 0 <==> f & ROTATE_LEFT != 0)
            && (g & ROTATE_RIGHT != 0 <==> f & ROTATE_RIGHT != 0)) by (bit_vector)
            requires
                g == (f | THRUST_ON) & !LANDED,
        ;
        self.flags = g;
    }

    pub fn thrust_off(&mut self)
        ensures
            !final(self).thrust_is_on(),
            final(self).landed() == old(self).landed(),
            final(self).left_is_on() == old(self).left_is_on(),
            final(self).right_is_on() == old(self).right_is_on(),
            final(self).gear() == old(self).gear(),
            final(self).handles() == old(self).handles(),
    {
        let f = self.flags;
        let g = f & !THRUST_ON;
        assert(g & THRUST_ON == 0 && (g & LANDED != 0 <==> f & LANDED != 0) && (g & ROTATE_LEFT != 0
            <==> f & ROTATE_LEFT != 0) && (g & ROTATE_RIGHT != 0 <==> f & ROTATE_RIGHT != 0))
            by (bit_vector)
            requires
                g == f & !THRUST_ON,
        ;
        self.flags = g;
    }

    pub fn rotate_left(&mut self)
        ensures
            final(self).left_is_on(),
            final(self).right_is_on() == old(self).right_is_on(),
            final(self).thrust_is_on() == old(self).thrust_is_on(),
            final(self).landed() == old(self).landed(),
            final(self).gear() == old(self).gear(),
            final(self).handles() == old(self).handles(),
    {
        let f = self.flags;
        let g = f | ROTATE_LEFT;
        assert(g & ROTATE_LEFT != 0 && (g & LANDED != 0 <==> f & LANDED != 0) && (g & THRUST_ON != 0
            <==> f & THRUST_ON != 0) && (g & ROTATE_RIGHT != 0 <==> f & ROTATE_RIGHT != 0))
            by (bit_vector)
            requires
                g == f | ROTATE_LEFT,
        ;
        self.flags = g;
    }

    pub fn rotate_right(&mut self)
        ensures
            final(self).right_is_on(),
            final(self).left_is_on() == old(self).left_is_on(),
            final(self).thrust_is_on() == old(self).thrust_is_on(),
            final(self).landed() == old(self).landed(),
            final(self).gear() == old(self).gear(),
            final(self).handles() == old(self).handles(),
    {
        let f = self.flags;
        let g = f | ROTATE_RIGHT;
        assert(g & ROTATE_RIGHT != 0 && (g & LANDED != 0 <==> f & LANDED != 0) && (g & THRUST_ON != 0
            <==> f & THRUST_ON != 0) && (g & ROTATE_LEFT != 0 <==> f & ROTATE_LEFT != 0))
            by (bit_vector)
            requires
                g == f | ROTATE_RIGHT,
        ;
        self.flags = g;
    }

    /// Stops turning either way.
    pub fn rotate_off(&mut self)
        ensures
            !final(self).left_is_on(),
            !final(self).right_is_on(),
            final(self).thrust_is_on() == old(self).thrust_is_on(),
            final(self).landed() == old(self).landed(),
            final(self).gear() == old(self).gear(),
            final(self).handles() == old(self).handles(),
    {
        let f = self.flags;
        let g = f & !(ROTATE_LEFT + ROTATE_RIGHT);
        assert(g & ROTATE_LEFT == 0 && g & ROTATE_RIGHT == 0 && (g & LANDED != 0 <==> f & LANDED != 0)
            && (g & THRUST_ON != 0 <==> f & THRUST_ON != 0)) by (bit_vector)
            requires
                g == f & !3u32,
        ;
        self.flags = g;
    }

    pub fn turning_left(&self) -> (r: bool)
        ensures
            r == self.left_is_on(),
    {
        self.flags & ROTATE_LEFT != 0
    }

    pub fn turning_right(&self) -> (r: bool)
        ensures
            r == self.right_is_on(),
    {
        self.flags & ROTATE_RIGHT != 0
    }

    pub fn thrusting(&self) -> (r: bool)
        ensures
            r == self.thrust_is_on(),
    {
        self.flags & THRUST_ON != 0
    }

    pub fn is_landed(&self) -> (r: bool)
        ensures
            r == self.landed(),
    {
        self.flags & LANDED != 0
    }

    /// Reverses the gear's direction of travel, or starts it moving.
    pub fn cycle_gear(&mut self)
        requires
            old(self).wf(),
        ensures
            final(self).wf(),
            final(self).gear() == cycled(old(self).gear()),
            final(self).flags() == old(self).flags(),
            final(self).handles() == old(self).handles(),
    {
        self.gear_state = self.gear_state.cycle_gear();
    }

    /// The gravity step's decision. A ship that is not landed and is above
    /// the surface is pulled toward the planet; otherwise it is set on the
    /// surface, with no velocity, and flagged landed.
    pub fn gravity(&mut self, above_surface: bool) -> (r: GravityAction)
        ensures
            r == gravity_action(old(self).landed(), above_surface),
            final(self).landed() == (old(self).landed() || r == GravityAction::Land),
            final(self).thrust_is_on() == old(self).thrust_is_on(),
            final(self).left_is_on() == old(self).left_is_on(),
            final(self).right_is_on() == old(self).right_is_on(),
            final(self).gear() == old(self).gear(),
            final(self).handles() == old(self).handles(),
    {
        if above_surface && self.flags & LANDED == 0 {
            GravityAction::Pull
        } else {
            let f = self.flags;
            let g = f | LANDED;
            assert(g & LANDED != 0 && (g & THRUST_ON != 0 <==> f & THRUST_ON != 0) && (g & ROTATE_LEFT
                != 0 <==> f & ROTATE_LEFT != 0) && (g & ROTATE_RIGHT != 0 <==> f & ROTATE_RIGHT != 0))
                by (bit_vector)
                requires
                    g == f | LANDED,
            ;
            self.flags = g;
            GravityAction::Land
        }
    }

    /// One tick's decisions: the turn (left wins when both are held), the
    /// thrust, which shows the exhaust when on and hides it when off, and
    /// one step of the gear.
    pub fn tick(&mut self, gfx: &mut Gfx) -> (r: TickPlan)
        requires
            old(self).wf(),
            old(self).handles().exhaust_draw < old(gfx).cmds().len(),
        ensures
            final(self).wf(),
            r.turn == (if old(self).left_is_on() {
                Turn::Left
            } else if old(self).right_is_on() {
                Turn::Right
            } else {
                Turn::Straight
            }),
            r.thrust == old(self).thrust_is_on(),
            r.gear == tick_pose(old(self).gear()),
            final(self).gear() == ticked(old(self).gear()),
            final(self).flags() == old(self).flags(),
            final(self).handles() == old(self).handles(),
            final(gfx).cmds() == if r.thrust {
                unskip_at(old(gfx).cmds(), old(self).handles().exhaust_draw as int)
            } else {
                skip_at(old(gfx).cmds(), old(self).handles().exhaust_draw as int)
            },
            final(gfx).same_store(old(gfx)),
    {
        let turn = if self.flags & ROTATE_LEFT != 0 {
            Turn::Left
        } else if self.flags & ROTATE_RIGHT != 0 {
            Turn::Right
        } else {
            Turn::Straight
        };
        let thrust = self.flags & THRUST_ON != 0;
        if thrust {
            gfx.unskip(self.handles.exhaust_draw);
        } else {
            gfx.skip(self.handles.exhaust_draw);
        }
        let (state, pose) = self.gear_state.tick();
        self.gear_state = state;
        TickPlan { turn, thrust, gear: pose }
    }

    /// Writes the ship's pose into its commands: scale, translations of the
    /// ship and of each leg and foot, their rotations and the ship's.
    pub fn propagate(&self, gfx: &mut Gfx, pose: &ShipPose)
        requires
            handles_in(self.handles(), old(gfx).cmds().len()),
        ensures
            final(gfx).cmds() == with_payloads(old(gfx).cmds(), pose_handles(self.handles()), pose_payloads(*pose)),
            final(gfx).same_store(old(gfx)),
    {
        let h = &self.handles;
        let hs: Vec<usize> = vec![
            h.scale,
            h.ship_translation,
            h.left_gear_translation,
            h.right_gear_translation,
            h.left_foot_translation,
            h.right_foot_translation,
            h.left_gear_rotation,
            h.right_gear_rotation,
            h.left_foot_rotation,
            h.right_foot_rotation,
            h.ship_rotation,
        ];
        let ps: Vec<GfxCommandTypes> = vec![
            GfxCommandTypes::ObjectScale(pose.scale),
            GfxCommandTypes::Translate { x: pose.translation.x, y: pose.translation.y },
            GfxCommandTypes::Translate { x: pose.left_gear_translation.x, y: pose.left_gear_translation.y },
            GfxCommandTypes::Translate { x: pose.right_gear_translation.x, y: pose.right_gear_translation.y },
            GfxCommandTypes::Translate { x: pose.left_foot_translation.x, y: pose.left_foot_translation.y },
            GfxCommandTypes::Translate { x: pose.right_foot_translation.x, y: pose.right_foot_translation.y },
            GfxCommandTypes::Rotate(pose.left_gear_rotation),
            GfxCommandTypes::Rotate(pose.right_gear_rotation),
            GfxCommandTypes::Rotate(pose.left_foot_rotation),
            GfxCommandTypes::Rotate(pose.right_foot_rotation),
            GfxCommandTypes::Rotate(pose.rotation),
        ];
        proof {
            assert(hs@ =~= pose_handles(self.handles()));
            assert(ps@ =~= pose_payloads(*pose));
        }
        gfx.change_payloads(&hs, &ps);
    }
}

/// What a gravity step decides for a ship that is or is not landed and is
/// or is not above the surface.
pub open spec fn gravity_action(landed: bool, above_surface: bool) -> GravityAction {
    if above_surface && !landed {
        GravityAction::Pull
    } else {
        GravityAction::Land
    }
}

/// The decisions of gravity steps made one after another, the `k`-th with
/// `above[k]` as its measurement, from a ship that is or is not landed.
pub open spec fn gravity_steps(landed: bool, above: Seq<bool>) -> Seq<GravityAction>
    decreases above.len(),
{
    if above.len() == 0 {
        Seq::empty()
    } else {
        let a = gravity_action(landed, above[0]);
        seq![a] + gravity_steps(landed || a == GravityAction::Land, above.drop_first())
    }
}

/// Once the ship is landed, every later gravity step sets it on the surface
/// again with no velocity, whatever distance is measured.
pub proof fn lemma_landed_stays_pinned(above: Seq<bool>)
    ensures
        gravity_steps(true, above).len() == above.len(),
        forall|k: int| 0 <= k < above.len() ==> #[trigger] gravity_steps(true, above)[k] == GravityAction::Land,
    decreases above.len(),
{
    if above.len() > 0 {
        lemma_landed_stays_pinned(above.drop_first());
        let rest = gravity_steps(true, above.drop_first());
        assert forall|k: int| 0 <= k < above.len() implies #[trigger] gravity_steps(true, above)[k]
            == GravityAction::Land by {
            if k > 0 {
                assert(gravity_steps(true, above)[k] == rest[k - 1]);
            }
        }
    }
}

} // verus!
