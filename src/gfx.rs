//! The command list: a flat sequence of drawing and state-setting commands,
//! each addressed by its position (its handle), mutated in place between
//! frames and interpreted from the start once per frame.
use vstd::prelude::*;

use crate::scalar::{Color, Point, Scalar, HALF_BITS, ONE_BITS, ZERO_BITS};

verus! {

/// The one flag bit a command carries: when set, interpretation passes over
/// the command.
pub const GFX_SKIP: u32 = 1;

/// What a command does when it is interpreted.
#[derive(Clone, Copy, PartialEq, Eq, Structural, Debug)]
pub enum GfxCommandTypes {
    LineDraw,
    TriangleDraw,
    NoOp,
    Program(usize),
    Indices(usize),
    Rotate(Scalar),
    SceneScale(Scalar),
    ObjectScale(Scalar),
    Translate { x: Scalar, y: Scalar },
    Origin { x: Scalar, y: Scalar },
}

#[derive(Clone, Copy, PartialEq, Eq, Structural, Debug)]
pub struct GfxCommand {
    pub flags: u32,
    pub command: GfxCommandTypes,
}

impl GfxCommand {
    /// A command that does nothing, not skipped.
    pub fn noop() -> (r: GfxCommand)
        ensures
            r == fresh(GfxCommandTypes::NoOp),
    {
        GfxCommand { flags: 0, command: GfxCommandTypes::NoOp }
    }
}

/// A vertex of the outline geometry.
#[derive(Clone, Copy, PartialEq, Eq, Structural, Debug)]
pub struct GfxLineVertex {
    pub position: Point,
}

/// A vertex of the filled geometry, with its RGBA color.
#[derive(Clone, Copy, PartialEq, Eq, Structural, Debug)]
pub struct GfxTriangleVertex {
    pub position: Point,
    pub color: Color,
}

/// How an index list joins its vertices.
#[derive(Clone, Copy, PartialEq, Eq, Structural, Debug)]
pub enum Topology {
    LineLoop,
    TriangleStrip,
    TrianglesList,
}

/// An index list of the backing store, with its topology.
pub struct IndexList {
    pub indices: Vec<u32>,
    pub topology: Topology,
}

/// The source text of a shader program, compiled by the rendering side.
pub struct ProgramSource {
    pub vertex: String,
    pub fragment: String,
}

/// The values a draw is made with: the interpreter state at that point of
/// the command list.
#[derive(Clone, Copy, PartialEq, Eq, Structural, Debug)]
pub struct RenderState {
    pub program: usize,
    pub indices: usize,
    pub angle: Scalar,
    pub scene_scale: Scalar,
    pub object_scale: Scalar,
    pub translation: Point,
    pub origin: Point,
}

/// Which vertex buffer a draw reads.
#[derive(Clone, Copy, PartialEq, Eq, Structural, Debug)]
pub enum DrawKind {
    Lines,
    Triangles,
}

#[derive(Clone, Copy, PartialEq, Eq, Structural, Debug)]
pub struct DrawCall {
    pub kind: DrawKind,
    pub state: RenderState,
}

/// One step of a frame: a draw to issue, or a draw passed over because its
/// vertex buffer has not been built yet.
#[derive(Clone, Copy, PartialEq, Eq, Structural, Debug)]
pub enum FrameOp {
    Draw(DrawCall),
    MissingVertices(DrawKind),
}

/// What the rendering side does for one frame: rebuild the vertex buffers
/// from the backing store first, if asked, then carry out the steps in order.
pub struct Frame {
    pub rebuild_vertices: bool,
    pub ops: Vec<FrameOp>,
}

/// A draw that selects a slot beyond those created: an authoring fault.
#[derive(Clone, Copy, PartialEq, Eq, Structural, Debug)]
pub enum GfxError {
    IndicesOutOfRange { command: usize, slot: usize },
    ProgramOutOfRange { command: usize, slot: usize },
}

pub open spec fn is_skipped(c: GfxCommand) -> bool {
    c.flags & GFX_SKIP != 0
}

pub open spec fn skipped(c: GfxCommand) -> GfxCommand {
    GfxCommand { flags: c.flags | GFX_SKIP, command: c.command }
}

pub open spec fn unskipped(c: GfxCommand) -> GfxCommand {
    GfxCommand { flags: c.flags & !GFX_SKIP, command: c.command }
}

/// A command just appended is not skipped.
pub broadcast proof fn lemma_fresh_not_skipped(p: GfxCommandTypes)
    ensures
        !is_skipped(#[trigger] fresh(p)),
{
    assert(0u32 & 1u32 == 0u32) by (bit_vector);
}

/// A command flagged by `skip` is skipped.
pub broadcast proof fn lemma_skipped_is_skipped(c: GfxCommand)
    ensures
        is_skipped(#[trigger] skipped(c)),
{
    let f = c.flags;
    assert((f | 1u32) & 1u32 != 0u32) by (bit_vector);
}

/// A command cleared by `unskip` is not skipped.
pub broadcast proof fn lemma_unskipped_not_skipped(c: GfxCommand)
    ensures
        !is_skipped(#[trigger] unskipped(c)),
{
    let f = c.flags;
    assert((f & !1u32) & 1u32 == 0u32) by (bit_vector);
}

pub broadcast group group_skip_flags {
    lemma_fresh_not_skipped,
    lemma_skipped_is_skipped,
    lemma_unskipped_not_skipped,
}

/// The command list with the command at `h` flagged skipped.
pub open spec fn skip_at(cmds: Seq<GfxCommand>, h: int) -> Seq<GfxCommand> {
    cmds.update(h, skipped(cmds[h]))
}

/// The command list with the command at `h` no longer flagged skipped.
pub open spec fn unskip_at(cmds: Seq<GfxCommand>, h: int) -> Seq<GfxCommand> {
    cmds.update(h, unskipped(cmds[h]))
}

/// The command list after overwriting the payload at `h`, its flags kept.
pub open spec fn with_payload(
    cmds: Seq<GfxCommand>,
    h: int,
    payload: GfxCommandTypes,
) -> Seq<GfxCommand> {
    cmds.update(h, GfxCommand { flags: cmds[h].flags, command: payload })
}

/// The command list after overwriting, in order, the payload at each
/// handle of `hs` with the payload at the same position of `ps`.
pub open spec fn with_payloads(
    cmds: Seq<GfxCommand>,
    hs: Seq<usize>,
    ps: Seq<GfxCommandTypes>,
) -> Seq<GfxCommand>
    decreases hs.len(),
{
    if hs.len() == 0 || ps.len() == 0 {
        cmds
    } else {
        with_payload(with_payloads(cmds, hs.drop_last(), ps.drop_last()), hs.last() as int, ps.last())
    }
}

/// `after` holds the commands of `before`, but for the one at `h`.
pub open spec fn differs_only_at(before: Seq<GfxCommand>, after: Seq<GfxCommand>, h: int) -> bool {
    &&& after.len() == before.len()
    &&& 0 <= h < before.len()
    &&& forall|i: int| 0 <= i < before.len() && i != h ==> #[trigger] after[i] == before[i]
}

pub open spec fn fresh(payload: GfxCommandTypes) -> GfxCommand {
    GfxCommand { flags: 0, command: payload }
}

pub open spec fn initial_state() -> RenderState {
    RenderState {
        program: 0,
        indices: 0,
        angle: Scalar { bits: ZERO_BITS },
        scene_scale: Scalar { bits: HALF_BITS },
        object_scale: Scalar { bits: ONE_BITS },
        translation: Point { x: Scalar { bits: ZERO_BITS }, y: Scalar { bits: ZERO_BITS } },
        origin: Point { x: Scalar { bits: ZERO_BITS }, y: Scalar { bits: ZERO_BITS } },
    }
}

/// The interpreter state after one state-setting command; draws and no-ops
/// leave it as it is.
pub open spec fn apply(st: RenderState, c: GfxCommandTypes) -> RenderState {
    match c {
        GfxCommandTypes::Program(p) => RenderState { program: p, ..st },
        GfxCommandTypes::Indices(i) => RenderState { indices: i, ..st },
        GfxCommandTypes::Rotate(a) => RenderState { angle: a, ..st },
        GfxCommandTypes::SceneScale(s) => RenderState { scene_scale: s, ..st },
        GfxCommandTypes::ObjectScale(s) => RenderState { object_scale: s, ..st },
        GfxCommandTypes::Translate { x, y } => RenderState { translation: Point { x, y }, ..st },
        GfxCommandTypes::Origin { x, y } => RenderState { origin: Point { x, y }, ..st },
        _ => st,
    }
}

/// The interpreter state once the first `n` commands have been interpreted,
/// skipped ones passed over.
pub open spec fn state_before(cmds: Seq<GfxCommand>, n: nat) -> RenderState
    decreases n,
{
    if n == 0 {
        initial_state()
    } else {
        let prev = state_before(cmds, (n - 1) as nat);
        if is_skipped(cmds[n - 1]) {
            prev
        } else {
            apply(prev, cmds[n - 1].command)
        }
    }
}

pub open spec fn draw_kind(c: GfxCommandTypes) -> Option<DrawKind> {
    match c {
        GfxCommandTypes::LineDraw => Some(DrawKind::Lines),
        GfxCommandTypes::TriangleDraw => Some(DrawKind::Triangles),
        _ => None,
    }
}

pub open spec fn is_active_draw(c: GfxCommand) -> bool {
    !is_skipped(c) && draw_kind(c.command) is Some
}

/// The steps of a frame that the first `n` commands give.
pub open spec fn frame_ops(cmds: Seq<GfxCommand>, n: nat, built: bool) -> Seq<FrameOp>
    decreases n,
{
    if n == 0 {
        Seq::empty()
    } else {
        let prev = frame_ops(cmds, (n - 1) as nat, built);
        let c = cmds[n - 1];
        if is_active_draw(c) {
            let kind = draw_kind(c.command).unwrap();
            if built {
                prev.push(FrameOp::Draw(DrawCall { kind, state: state_before(cmds, (n - 1) as nat) }))
            } else {
                prev.push(FrameOp::MissingVertices(kind))
            }
        } else {
            prev
        }
    }
}

/// The fault of the command at `i`, if it is a draw that is issued with an
/// index list or a program slot that does not exist; the index list is
/// looked up first.
pub open spec fn fault_at(
    cmds: Seq<GfxCommand>,
    i: int,
    built: bool,
    n_programs: nat,
    n_indices: nat,
) -> Option<GfxError> {
    let st = state_before(cmds, i as nat);
    if built && is_active_draw(cmds[i]) && st.indices >= n_indices {
        Some(GfxError::IndicesOutOfRange { command: i as usize, slot: st.indices })
    } else if built && is_active_draw(cmds[i]) && st.program >= n_programs {
        Some(GfxError::ProgramOutOfRange { command: i as usize, slot: st.program })
    } else {
        None
    }
}

fn start_state() -> (r: RenderState)
    ensures
        r == initial_state(),
{
    RenderState {
        program: 0,
        indices: 0,
        angle: Scalar { bits: ZERO_BITS },
        scene_scale: Scalar { bits: HALF_BITS },
        object_scale: Scalar { bits: ONE_BITS },
        translation: Point { x: Scalar { bits: ZERO_BITS }, y: Scalar { bits: ZERO_BITS } },
        origin: Point { x: Scalar { bits: ZERO_BITS }, y: Scalar { bits: ZERO_BITS } },
    }
}

fn draw_kind_of(c: GfxCommandTypes) -> (r: Option<DrawKind>)
    ensures
        r == draw_kind(c),
{
    match c {
        GfxCommandTypes::LineDraw => Some(DrawKind::Lines),
        GfxCommandTypes::TriangleDraw => Some(DrawKind::Triangles),
        _ => None,
    }
}

fn apply_command(st: RenderState, c: GfxCommandTypes) -> (r: RenderState)
    ensures
        r == apply(st, c),
{
    match c {
        GfxCommandTypes::Program(p) => RenderState { program: p, ..st },
        GfxCommandTypes::Indices(i) => RenderState { indices: i, ..st },
        GfxCommandTypes::Rotate(a) => RenderState { angle: a, ..st },
        GfxCommandTypes::SceneScale(s) => RenderState { scene_scale: s, ..st },
        GfxCommandTypes::ObjectScale(s) => RenderState { object_scale: s, ..st },
        GfxCommandTypes::Translate { x, y } => RenderState { translation: Point { x, y }, ..st },
        GfxCommandTypes::Origin { x, y } => RenderState { origin: Point { x, y }, ..st },
        _ => st,
    }
}

/// The command list and the geometry backing store it draws from.
pub struct Gfx {
    commands: Vec<GfxCommand>,
    programs: Vec<ProgramSource>,
    indices: Vec<IndexList>,
    line_backing: Vec<GfxLineVertex>,
    triangle_backing: Vec<GfxTriangleVertex>,
    vertices_built: bool,
    backing_changed: bool,
}

impl Gfx {
    pub closed spec fn cmds(&self) -> Seq<GfxCommand> {
        self.commands@
    }

    pub closed spec fn program_count(&self) -> nat {
        self.programs@.len()
    }

    pub closed spec fn index_list_count(&self) -> nat {
        self.indices@.len()
    }

    pub closed spec fn index_list(&self, slot: int) -> (Seq<u32>, Topology) {
        (self.indices@[slot].indices@, self.indices@[slot].topology)
    }

    pub closed spec fn program_text(&self, slot: int) -> (Seq<char>, Seq<char>) {
        (self.programs@[slot].vertex@, self.programs@[slot].fragment@)
    }

    pub closed spec fn lines(&self) -> Seq<GfxLineVertex> {
        self.line_backing@
    }

    pub closed spec fn triangles(&self) -> Seq<GfxTriangleVertex> {
        self.triangle_backing@
    }

    /// Whether the backing vertices were appended to since the vertex
    /// buffers were last rebuilt.
    pub closed spec fn dirty(&self) -> bool {
        self.backing_changed
    }

    /// Whether the vertex buffers have been built at least once.
    pub closed spec fn built(&self) -> bool {
        self.vertices_built
    }

    /// Everything but the command list is as in `other`.
    pub open spec fn same_store(&self, other: &Gfx) -> bool {
        &&& self.program_count() == other.program_count()
        &&& self.index_list_count() == other.index_list_count()
        &&& forall|s: int| 0 <= s < self.index_list_count() ==> #[trigger] self.index_list(s) == other.index_list(s)
        &&& forall|s: int| 0 <= s < self.program_count() ==> #[trigger] self.program_text(s) == other.program_text(s)
        &&& self.lines() == other.lines()
        &&& self.triangles() == other.triangles()
        &&& self.dirty() == other.dirty()
        &&& self.built() == other.built()
    }

    /// The command list after an append of `c` to `old`, `h` the new handle.
    pub open spec fn appended(&self, old: &Gfx, h: usize, c: GfxCommandTypes) -> bool {
        &&& h == old.cmds().len()
        &&& self.cmds() == old.cmds().push(fresh(c))
        &&& self.same_store(old)
    }

    /// The command list after `old`'s command at `h` got payload `c`.
    pub open spec fn changed(&self, old: &Gfx, h: usize, c: GfxCommandTypes) -> bool {
        &&& self.cmds() == with_payload(old.cmds(), h as int, c)
        &&& differs_only_at(old.cmds(), self.cmds(), h as int)
        &&& self.same_store(old)
    }

    pub fn new() -> (r: Gfx)
        ensures
            r.cmds().len() == 0,
            r.program_count() == 0,
            r.index_list_count() == 0,
            r.lines().len() == 0,
            r.triangles().len() == 0,
            !r.dirty(),
            !r.built(),
    {
        Gfx {
            commands: Vec::new(),
            programs: Vec::new(),
            indices: Vec::new(),
            line_backing: Vec::new(),
            triangle_backing: Vec::new(),
            vertices_built: false,
            backing_changed: false,
        }
    }

    fn push_command(&mut self, c: GfxCommandTypes) -> (h: usize)
        requires
            old(self).cmds().len() < usize::MAX,
        ensures
            final(self).appended(old(self), h, c),
    {
        self.commands.push(GfxCommand { flags: 0, command: c });
        self.commands.len() - 1
    }

    fn set_payload(&mut self, id: usize, c: GfxCommandTypes)
        requires
            id < old(self).cmds().len(),
        ensures
            final(self).changed(old(self), id, c),
    {
        self.commands[id].command = c;
    }

    /// Overwrites the payload at each handle of `hs` with the payload at the
    /// same position of `ps`, in order.
    pub fn change_payloads(&mut self, hs: &Vec<usize>, ps: &Vec<GfxCommandTypes>)
        requires
            hs.len() == ps.len(),
            forall|k: int| 0 <= k < hs.len() ==> #[trigger] hs@[k] < old(self).cmds().len(),
        ensures
            final(self).cmds() == with_payloads(old(self).cmds(), hs@, ps@),
            final(self).same_store(old(self)),
    {
        let mut k: usize = 0;
        while k < hs.len()
            invariant
                hs.len() == ps.len(),
                k <= hs.len(),
                forall|j: int| 0 <= j < hs.len() ==> #[trigger] hs@[j] < old(self).cmds().len(),
                self.cmds().len() == old(self).cmds().len(),
                self.cmds() == with_payloads(old(self).cmds(), hs@.take(k as int), ps@.take(k as int)),
                self.same_store(old(self)),
            decreases hs.len() - k,
        {
            self.set_payload(hs[k], ps[k]);
            proof {
                assert(hs@.take(k + 1).drop_last() =~= hs@.take(k as int));
                assert(ps@.take(k + 1).drop_last() =~= ps@.take(k as int));
            }
            k = k + 1;
        }
        proof {
            assert(hs@.take(hs.len() as int) =~= hs@);
            assert(ps@.take(ps.len() as int) =~= ps@);
        }
    }

    pub fn program(&mut self, program: usize) -> (h: usize)
        requires
            old(self).cmds().len() < usize::MAX,
        ensures
            final(self).appended(old(self), h, GfxCommandTypes::Program(program)),
    {
        self.push_command(GfxCommandTypes::Program(program))
    }

    pub fn skip(&mut self, id: usize)
        requires
            id < old(self).cmds().len(),
        ensures
            final(self).cmds() == skip_at(old(self).cmds(), id as int),
            differs_only_at(old(self).cmds(), final(self).cmds(), id as int),
            final(self).same_store(old(self)),
    {
        self.commands[id].flags = self.commands[id].flags | GFX_SKIP;
    }

    pub fn unskip(&mut self, id: usize)
        requires
            id < old(self).cmds().len(),
        ensures
            final(self).cmds() == unskip_at(old(self).cmds(), id as int),
            differs_only_at(old(self).cmds(), final(self).cmds(), id as int),
            final(self).same_store(old(self)),
    {
        self.commands[id].flags = self.commands[id].flags & !GFX_SKIP;
    }

    pub fn rotate(&mut self, angle: Scalar) -> (h: usize)
        requires
            old(self).cmds().len() < usize::MAX,
        ensures
            final(self).appended(old(self), h, GfxCommandTypes::Rotate(angle)),
    {
        self.push_command(GfxCommandTypes::Rotate(angle))
    }

    pub fn change_rotation(&mut self, id: usize, angle: Scalar)
        requires
            id < old(self).cmds().len(),
        ensures
            final(self).changed(old(self), id, GfxCommandTypes::Rotate(angle)),
    {
        self.set_payload(id, GfxCommandTypes::Rotate(angle))
    }

    pub fn scene_scale(&mut self, scale: Scalar) -> (h: usize)
        requires
            old(self).cmds().len() < usize::MAX,
        ensures
            final(self).appended(old(self), h, GfxCommandTypes::SceneScale(scale)),
    {
        self.push_command(GfxCommandTypes::SceneScale(scale))
    }

    pub fn object_scale(&mut self, scale: Scalar) -> (h: usize)
        requires
            old(self).cmds().len() < usize::MAX,
        ensures
            final(self).appended(old(self), h, GfxCommandTypes::ObjectScale(scale)),
    {
        self.push_command(GfxCommandTypes::ObjectScale(scale))
    }

    pub fn change_scene_scale(&mut self, id: usize, scale: Scalar)
        requires
            id < old(self).cmds().len(),
        ensures
            final(self).changed(old(self), id, GfxCommandTypes::SceneScale(scale)),
    {
        self.set_payload(id, GfxCommandTypes::SceneScale(scale))
    }

    pub fn change_object_scale(&mut self, id: usize, scale: Scalar)
        requires
            id < old(self).cmds().len(),
        ensures
            final(self).changed(old(self), id, GfxCommandTypes::ObjectScale(scale)),
    {
        self.set_payload(id, GfxCommandTypes::ObjectScale(scale))
    }

    pub fn translate(&mut self, x: Scalar, y: Scalar) -> (h: usize)
        requires
            old(self).cmds().len() < usize::MAX,
        ensures
            final(self).appended(old(self), h, GfxCommandTypes::Translate { x, y }),
    {
        self.push_command(GfxCommandTypes::Translate { x, y })
    }

    pub fn change_translation(&mut self, id: usize, trans: Point)
        requires
            id < old(self).cmds().len(),
        ensures
            final(self).changed(old(self), id, GfxCommandTypes::Translate { x: trans.x, y: trans.y }),
    {
        self.set_payload(id, GfxCommandTypes::Translate { x: trans.x, y: trans.y })
    }

    pub fn origin(&mut self, x: Scalar, y: Scalar) -> (h: usize)
        requires
            old(self).cmds().len() < usize::MAX,
        ensures
            final(self).appended(old(self), h, GfxCommandTypes::Origin { x, y }),
    {
        self.push_command(GfxCommandTypes::Origin { x, y })
    }

    pub fn change_origin(&mut self, id: usize, x: Scalar, y: Scalar)
        requires
            id < old(self).cmds().len(),
        ensures
            final(self).changed(old(self), id, GfxCommandTypes::Origin { x, y }),
    {
        self.set_payload(id, GfxCommandTypes::Origin { x, y })
    }

    pub fn line_draw(&mut self) -> (h: usize)
        requires
            old(self).cmds().len() < usize::MAX,
        ensures
            final(self).appended(old(self), h, GfxCommandTypes::LineDraw),
    {
        self.push_command(GfxCommandTypes::LineDraw)
    }

    pub fn triangle_draw(&mut self) -> (h: usize)
        requires
            old(self).cmds().len() < usize::MAX,
        ensures
            final(self).appended(old(self), h, GfxCommandTypes::TriangleDraw),
    {
        self.push_command(GfxCommandTypes::TriangleDraw)
    }

    pub fn indices(&mut self, indices: usize) -> (h: usize)
        requires
            old(self).cmds().len() < usize::MAX,
        ensures
            final(self).appended(old(self), h, GfxCommandTypes::Indices(indices)),
    {
        self.push_command(GfxCommandTypes::Indices(indices))
    }

    /// Everything but the programs is as in `old`.
    pub open spec fn keeps_all_but_programs(&self, old: &Gfx) -> bool {
        &&& self.cmds() == old.cmds()
        &&& self.index_list_count() == old.index_list_count()
        &&& forall|s: int| 0 <= s < self.index_list_count() ==> #[trigger] self.index_list(s) == old.index_list(s)
        &&& self.lines() == old.lines()
        &&& self.triangles() == old.triangles()
        &&& self.dirty() == old.dirty()
        &&& self.built() == old.built()
    }

    pub fn add_program(&mut self, vert_shader: &str, frag_shader: &str) -> (slot: usize)
        ensures
            slot == old(self).program_count(),
            final(self).program_count() == old(self).program_count() + 1,
            final(self).program_text(slot as int) == (vert_shader@, frag_shader@),
            forall|s: int|
                0 <= s < old(self).program_count() ==> #[trigger] final(self).program_text(s)
                    == old(self).program_text(s),
            final(self).keeps_all_but_programs(old(self)),
    {
        self.programs.push(ProgramSource { vertex: vert_shader.to_owned(), fragment: frag_shader.to_owned() });
        self.programs.len() - 1
    }

    pub fn add_indices(&mut self, indices: &[u32], primitive_type: Topology) -> (slot: usize)
        ensures
            slot == old(self).index_list_count(),
            final(self).index_list_count() == old(self).index_list_count() + 1,
            final(self).index_list(slot as int) == (indices@, primitive_type),
            forall|s: int|
                0 <= s < old(self).index_list_count() ==> #[trigger] final(self).index_list(s)
                    == old(self).index_list(s),
            final(self).cmds() == old(self).cmds(),
            final(self).program_count() == old(self).program_count(),
            forall|s: int|
                0 <= s < old(self).program_count() ==> #[trigger] final(self).program_text(s)
                    == old(self).program_text(s),
            final(self).lines() == old(self).lines(),
            final(self).triangles() == old(self).triangles(),
            final(self).dirty() == old(self).dirty(),
            final(self).built() == old(self).built(),
    {
        let list = IndexList { indices: vstd::slice::slice_to_vec(indices), topology: primitive_type };
        self.indices.push(list);
        self.indices.len() - 1
    }

    pub fn triangle_len(&self) -> (r: usize)
        ensures
            r == self.triangles().len(),
    {
        self.triangle_backing.len()
    }

    pub fn line_len(&self) -> (r: usize)
        ensures
            r == self.lines().len(),
    {
        self.line_backing.len()
    }

    /// Appends a filled vertex and marks the backing store changed.
    pub fn add_triangle_vertex(&mut self, position: Point, color: Color)
        ensures
            final(self).triangles() == old(self).triangles().push(GfxTriangleVertex { position, color }),
            final(self).dirty(),
            final(self).lines() == old(self).lines(),
            final(self).built() == old(self).built(),
            final(self).cmds() == old(self).cmds(),
            final(self).program_count() == old(self).program_count(),
            final(self).index_list_count() == old(self).index_list_count(),
            forall|s: int|
                0 <= s < old(self).index_list_count() ==> #[trigger] final(self).index_list(s)
                    == old(self).index_list(s),
            forall|s: int|
                0 <= s < old(self).program_count() ==> #[trigger] final(self).program_text(s)
                    == old(self).program_text(s),
    {
        self.triangle_backing.push(GfxTriangleVertex { position, color });
        self.backing_changed = true;
    }

    /// Appends an outline vertex and marks the backing store changed.
    pub fn add_line_vertex(&mut self, position: Point)
        ensures
            final(self).lines() == old(self).lines().push(GfxLineVertex { position }),
            final(self).dirty(),
            final(self).triangles() == old(self).triangles(),
            final(self).built() == old(self).built(),
            final(self).cmds() == old(self).cmds(),
            final(self).program_count() == old(self).program_count(),
            final(self).index_list_count() == old(self).index_list_count(),
            forall|s: int|
                0 <= s < old(self).index_list_count() ==> #[trigger] final(self).index_list(s)
                    == old(self).index_list(s),
            forall|s: int|
                0 <= s < old(self).program_count() ==> #[trigger] final(self).program_text(s)
                    == old(self).program_text(s),
    {
        self.line_backing.push(GfxLineVertex { position });
        self.backing_changed = true;
    }

    pub fn command_count(&self) -> (r: usize)
        ensures
            r == self.cmds().len(),
    {
        self.commands.len()
    }

    pub fn command(&self, id: usize) -> (r: GfxCommand)
        requires
            id < self.cmds().len(),
        ensures
            r == self.cmds()[id as int],
    {
        self.commands[id]
    }

    pub fn programs_len(&self) -> (r: usize)
        ensures
            r == self.program_count(),
    {
        self.programs.len()
    }

    pub fn program_source(&self, slot: usize) -> (r: &ProgramSource)
        requires
            slot < self.program_count(),
        ensures
            (r.vertex@, r.fragment@) == self.program_text(slot as int),
    {
        &self.programs[slot]
    }

    pub fn indices_len(&self) -> (r: usize)
        ensures
            r == self.index_list_count(),
    {
        self.indices.len()
    }

    pub fn index_list_at(&self, slot: usize) -> (r: &IndexList)
        requires
            slot < self.index_list_count(),
        ensures
            (r.indices@, r.topology) == self.index_list(slot as int),
    {
        &self.indices[slot]
    }

    pub fn line_vertices(&self) -> (r: &Vec<GfxLineVertex>)
        ensures
            r@ == self.lines(),
    {
        &self.line_backing
    }

    pub fn triangle_vertices(&self) -> (r: &Vec<GfxTriangleVertex>)
        ensures
            r@ == self.triangles(),
    {
        &self.triangle_backing
    }

    /// Plans one frame. Vertex buffers are to be rebuilt when the backing
    /// store changed since the last frame; then each command not skipped is
    /// interpreted in order, state-setting ones changing the interpreter
    /// state and draws yielding a draw with the state current at that point.
    /// A draw before any vertex buffer was built is passed over; a draw that
    /// selects an index list or program that does not exist is an error.
    pub fn run(&mut self) -> (r: Result<Frame, GfxError>)
        ensures
            final(self).cmds() == old(self).cmds(),
            final(self).program_count() == old(self).program_count(),
            final(self).index_list_count() == old(self).index_list_count(),
            forall|s: int|
                0 <= s < old(self).index_list_count() ==> #[trigger] final(self).index_list(s)
                    == old(self).index_list(s),
            forall|s: int|
                0 <= s < old(self).program_count() ==> #[trigger] final(self).program_text(s)
                    == old(self).program_text(s),
            final(self).lines() == old(self).lines(),
            final(self).triangles() == old(self).triangles(),
            !final(self).dirty(),
            final(self).built() == (old(self).built() || old(self).dirty()),
            r is Ok <==> forall|i: int|
                0 <= i < old(self).cmds().len() ==> #[trigger] fault_at(
                    old(self).cmds(),
                    i,
                    final(self).built(),
                    old(self).program_count(),
                    old(self).index_list_count(),
                ) is None,
            r matches Ok(f) ==> {
                &&& f.rebuild_vertices == old(self).dirty()
                &&& f.ops@ == frame_ops(old(self).cmds(), old(self).cmds().len(), final(self).built())
            },
            r matches Err(e) ==> exists|i: int|
                0 <= i < old(self).cmds().len() && fault_at(
                    old(self).cmds(),
                    i,
                    final(self).built(),
                    old(self).program_count(),
                    old(self).index_list_count(),
                ) == Some(e) && forall|j: int|
                    0 <= j < i ==> #[trigger] fault_at(
                        old(self).cmds(),
                        j,
                        final(self).built(),
                        old(self).program_count(),
                        old(self).index_list_count(),
                    ) is None,
    {
        let rebuild = self.backing_changed;
        if rebuild {
            self.vertices_built = true;
            self.backing_changed = false;
        }
        match self.plan() {
            Ok(ops) => Ok(Frame { rebuild_vertices: rebuild, ops }),
            Err(e) => Err(e),
        }
    }

    /// Interprets the command list against the store as it stands.
    fn plan(&self) -> (r: Result<Vec<FrameOp>, GfxError>)
        ensures
            r is Ok <==> forall|i: int|
                0 <= i < self.cmds().len() ==> #[trigger] fault_at(
                    self.cmds(),
                    i,
                    self.built(),
                    self.program_count(),
                    self.index_list_count(),
                ) is None,
            r matches Ok(ops) ==> ops@ == frame_ops(self.cmds(), self.cmds().len(), self.built()),
            r matches Err(e) ==> exists|i: int|
                0 <= i < self.cmds().len() && fault_at(
                    self.cmds(),
                    i,
                    self.built(),
                    self.program_count(),
                    self.index_list_count(),
                ) == Some(e) && forall|j: int|
                    0 <= j < i ==> #[trigger] fault_at(
                        self.cmds(),
                        j,
                        self.built(),
                        self.program_count(),
                        self.index_list_count(),
                    ) is None,
    {
        let built = self.vertices_built;
        let n_programs = self.programs.len();
        let n_indices = self.indices.len();
        let ghost cmds = self.commands@;
        let mut ops: Vec<FrameOp> = Vec::new();
        let mut cur = start_state();
        let mut i: usize = 0;
        while i < self.commands.len()
            invariant
                cmds == self.commands@,
                built == self.vertices_built,
                n_programs == self.programs@.len(),
                n_indices == self.indices@.len(),
                i <= cmds.len(),
                cur == state_before(cmds, i as nat),
                ops@ == frame_ops(cmds, i as nat, built),
                forall|j: int|
                    0 <= j < i ==> #[trigger] fault_at(cmds, j, built, n_programs as nat, n_indices as nat)
                        is None,
            decreases cmds.len() - i,
        {
            let c = self.commands[i];
            if c.flags & GFX_SKIP == 0 {
                match draw_kind_of(c.command) {
                    Some(kind) => {
                        if built {
                            if cur.indices >= n_indices {
                                let e = GfxError::IndicesOutOfRange { command: i, slot: cur.indices };
                                assert(fault_at(cmds, i as int, built, n_programs as nat, n_indices as nat) == Some(e));
                                return Err(e);
                            }
                            if cur.program >= n_programs {
                                let e = GfxError::ProgramOutOfRange { command: i, slot: cur.program };
                                assert(fault_at(cmds, i as int, built, n_programs as nat, n_indices as nat) == Some(e));
                                return Err(e);
                            }
                            ops.push(FrameOp::Draw(DrawCall { kind, state: cur }));
                        } else {
                            ops.push(FrameOp::MissingVertices(kind));
                        }
                    },
                    None => {
                        cur = apply_command(cur, c.command);
                    },
                }
            }
            assert(fault_at(cmds, i as int, built, n_programs as nat, n_indices as nat) is None);
            i = i + 1;
        }
        Ok(ops)
    }
}

/// Skipping a command that was not skipped and then unskipping it gives
/// back the same command list, so every later frame interprets it exactly
/// as if it had never been skipped.
pub proof fn lemma_skip_then_unskip(cmds: Seq<GfxCommand>, h: int)
    requires
        0 <= h < cmds.len(),
        !is_skipped(cmds[h]),
    ensures
        unskip_at(skip_at(cmds, h), h) == cmds,
        forall|built: bool|
            #[trigger] frame_ops(unskip_at(skip_at(cmds, h), h), cmds.len(), built) == frame_ops(
                cmds,
                cmds.len(),
                built,
            ),
{
    let f = cmds[h].flags;
    assert(f & 1u32 == 0u32 ==> (f | 1u32) & !1u32 == f) by (bit_vector);
    assert(unskip_at(skip_at(cmds, h), h) =~= cmds);
}

/// Overwriting payloads at a set of handles keeps the length of the command
/// list, and every command at a handle outside the set as it was.
pub proof fn lemma_payloads_are_local(cmds: Seq<GfxCommand>, hs: Seq<usize>, ps: Seq<GfxCommandTypes>)
    requires
        hs.len() == ps.len(),
        forall|k: int| 0 <= k < hs.len() ==> #[trigger] hs[k] < cmds.len(),
    ensures
        with_payloads(cmds, hs, ps).len() == cmds.len(),
        forall|i: int|
            0 <= i < cmds.len() && !hs.contains(i as usize) ==> #[trigger] with_payloads(cmds, hs, ps)[i]
                == cmds[i],
    decreases hs.len(),
{
    if hs.len() > 0 {
        let hs0 = hs.drop_last();
        let ps0 = ps.drop_last();
        assert forall|k: int| 0 <= k < hs0.len() implies #[trigger] hs0[k] < cmds.len() by {
            assert(hs0[k] == hs[k]);
        }
        lemma_payloads_are_local(cmds, hs0, ps0);
        assert forall|i: int|
            0 <= i < cmds.len() && !hs.contains(i as usize) implies #[trigger] with_payloads(cmds, hs, ps)[i]
                == cmds[i] by {
            assert(hs[hs.len() - 1] != i as usize);
            if hs0.contains(i as usize) {
                let k = choose|k: int| 0 <= k < hs0.len() && hs0[k] == i as usize;
                assert(hs[k] == i as usize);
            }
        }
    }
}

/// Changing the command at one handle leaves the interpretation of every
/// command before it as it was: the same interpreter state at each point
/// and the same frame steps.
pub proof fn lemma_change_is_local(before: Seq<GfxCommand>, after: Seq<GfxCommand>, h: int, n: nat)
    requires
        differs_only_at(before, after, h),
        n <= h,
    ensures
        state_before(after, n) == state_before(before, n),
        forall|built: bool| #[trigger] frame_ops(after, n, built) == frame_ops(before, n, built),
    decreases n,
{
    if n > 0 {
        lemma_change_is_local(before, after, h, (n - 1) as nat);
        assert(after[n - 1] == before[n - 1]);
        assert forall|built: bool| #[trigger] frame_ops(after, n, built) == frame_ops(before, n, built) by {
            assert(frame_ops(after, (n - 1) as nat, built) == frame_ops(before, (n - 1) as nat, built));
        }
    }
}

/// A draw sees the angle of the last rotation before it that is not
/// skipped, whatever that command's payload was when it was appended: for
/// `[rotate(a), draw, rotate(b), draw]` the first draw is made with `a` and
/// the second with `b`.
pub proof fn lemma_draw_sees_latest_rotation(cmds: Seq<GfxCommand>, i: int, j: nat, a: Scalar)
    requires
        0 <= i < j <= cmds.len(),
        cmds[i].command == GfxCommandTypes::Rotate(a),
        !is_skipped(cmds[i]),
        forall|k: int|
            i < k < j && !is_skipped(cmds[k]) ==> !(#[trigger] cmds[k].command is Rotate),
    ensures
        state_before(cmds, j).angle == a,
    decreases j,
{
    if j > i + 1 {
        lemma_draw_sees_latest_rotation(cmds, i, (j - 1) as nat, a);
        let c = cmds[j - 1];
        if !is_skipped(c) {
            assert(!(c.command is Rotate));
        }
    }
}

} // verus!
