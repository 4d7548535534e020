//! The painter: sole owner of the bridge's GPU-side resources.
//!
//! The painter holds the handles of the shader program, the vertex and index
//! buffers, the vertex layout, the font texture and the user-texture table,
//! and decides which GPU calls each operation issues. The calls themselves
//! are handed out as [`GpuCommand`] lists (see the `gpu` module); the
//! surrounding program executes them in order and feeds freshly created
//! handles back in. Replaced or freed textures are never deleted on the
//! spot: their handles go onto a deferred-deletion list that `destroy`
//! drains, so that an in-flight frame can still reference them.
//!
//! The painter's mathematical model is [`PainterView`]; every operation's
//! contract states its transition and its command list over that view.

use crate::geometry::WindowGeometry;
use crate::gpu::GpuCommand;
use crate::gpu::HostViewport;
use vstd::prelude::*;

verus! {

/// Offsets of the interleaved vertex attributes: two float position
/// coordinates, then two float texture coordinates, then four color bytes.
pub const VERTEX_STRIDE: u32 = 20;

pub const VERTEX_POS_OFFSET: u32 = 0;

pub const VERTEX_UV_OFFSET: u32 = 8;

pub const VERTEX_COLOR_OFFSET: u32 = 16;

/// What the GPU driver handed back while the surrounding program performed
/// the construction calls: shader compilation and linking outcomes (an error
/// carries the driver's log), uniform and attribute lookups, and the created
/// buffer and vertex-layout handles.
pub struct GlSetup {
    pub vert_shader: Result<u32, String>,
    pub frag_shader: Result<u32, String>,
    pub program: Result<u32, String>,
    pub u_screen_size: Option<u32>,
    pub u_sampler: Option<u32>,
    pub vertex_buffer: Result<u32, String>,
    pub element_array_buffer: Result<u32, String>,
    pub a_pos: Option<u32>,
    pub a_tc: Option<u32>,
    pub a_srgba: Option<u32>,
    pub vertex_array: Result<u32, String>,
}

impl GlSetup {
    /// Every resource the painter needs came back from the driver.
    pub open spec fn complete(self) -> bool {
        &&& self.vert_shader is Ok
        &&& self.frag_shader is Ok
        &&& self.program is Ok
        &&& self.u_screen_size is Some
        &&& self.u_sampler is Some
        &&& self.vertex_buffer is Ok
        &&& self.element_array_buffer is Ok
        &&& self.a_pos is Some
        &&& self.a_tc is Some
        &&& self.a_srgba is Some
        &&& self.vertex_array is Ok
    }
}

/// A renderable mesh paired with its clip rectangle, as the painter sees
/// it: the rectangle in logical points, and the sizes of the vertex and
/// index lists whose bytes the surrounding program holds.
#[derive(Clone, Copy, PartialEq, Eq, Structural, Debug)]
pub struct ClipRect {
    pub min_x: i32,
    pub min_y: i32,
    pub max_x: i32,
    pub max_y: i32,
}

#[derive(Clone, Copy, PartialEq, Eq, Structural, Debug)]
pub struct ClippedMesh {
    pub clip_rect: ClipRect,
    pub vertex_count: usize,
    pub index_count: usize,
}

impl ClippedMesh {
    /// The index list forms whole triangles and its length fits the draw
    /// call's argument type.
    pub open spec fn wf(self) -> bool {
        &&& self.index_count % 3 == 0
        &&& self.index_count <= i32::MAX
    }
}

/// The scissor arithmetic for this clip rectangle stays inside the machine
/// integer range: the rectangle is ordered, and scaling it by
/// `pixels_per_point` and anchoring it at the window's edges overflows
/// nothing.
pub open spec fn clip_fits(clip: ClipRect, geo: WindowGeometry, ppp: i32) -> bool {
    &&& clip.min_x <= clip.max_x
    &&& clip.min_y <= clip.max_y
    &&& i32::MIN <= clip.min_x * ppp <= i32::MAX
    &&& i32::MIN <= clip.max_y * ppp <= i32::MAX
    &&& i32::MIN <= geo.left + clip.min_x * ppp <= i32::MAX
    &&& i32::MIN <= geo.top - clip.max_y * ppp <= i32::MAX
    &&& clip.max_x - clip.min_x <= i32::MAX
    &&& clip.max_y - clip.min_y <= i32::MAX
    &&& 0 <= (clip.max_x - clip.min_x) * ppp <= i32::MAX
    &&& 0 <= (clip.max_y - clip.min_y) * ppp <= i32::MAX
}

/// The scissor call a clip rectangle turns into. The toolkit's vertical
/// axis points down while the host's points up, so the rectangle's lower
/// edge in host space comes from its `max_y` edge in logical space — the
/// same orientation convention the input translation uses, mirrored.
pub open spec fn spec_scissor_command(clip: ClipRect, geo: WindowGeometry, ppp: i32) -> GpuCommand
    recommends
        clip_fits(clip, geo, ppp),
{
    GpuCommand::SetScissor {
        x: (geo.left + clip.min_x * ppp) as i32,
        y: (geo.top - clip.max_y * ppp) as i32,
        width: ((clip.max_x - clip.min_x) * ppp) as i32,
        height: ((clip.max_y - clip.min_y) * ppp) as i32,
    }
}

/// The call list that restores the host's GPU state after a frame:
/// scissoring off, culling back on, the conventional blend function, the
/// host's own viewport, and everything unbound.
pub open spec fn spec_cleanup_commands(viewport: HostViewport) -> Seq<GpuCommand>
    recommends
        viewport.wf(),
{
    seq![
        GpuCommand::DisableScissorTest,
        GpuCommand::EnableCullFace,
        GpuCommand::BlendDefault,
        GpuCommand::SetViewport {
            x: viewport.left,
            y: viewport.bottom,
            width: (viewport.right - viewport.left) as i32,
            height: (viewport.top - viewport.bottom) as i32,
        },
        GpuCommand::BindProgram { program: None },
        GpuCommand::BindVertexArray { vertex_array: None },
        GpuCommand::BindElementBuffer { buffer: None },
    ]
}

/// The painter's mathematical model: its handles, version bookkeeping,
/// tables and lifecycle flag, with the tables as sequences.
pub ghost struct PainterView {
    pub program: u32,
    pub u_screen_size: u32,
    pub u_sampler: u32,
    pub egui_texture: Option<u32>,
    pub egui_texture_version: Option<u64>,
    pub vertex_array: u32,
    pub vertex_buffer: u32,
    pub element_array_buffer: u32,
    pub user_textures: Seq<(u64, u32)>,
    pub textures_to_destroy: Seq<u32>,
    pub destroyed: bool,
}

/// First-match lookup in the user-texture table.
pub open spec fn spec_user_lookup(entries: Seq<(u64, u32)>, id: u64) -> Option<u32>
    decreases entries.len(),
{
    if entries.len() == 0 {
        None
    } else if entries.first().0 == id {
        Some(entries.first().1)
    } else {
        spec_user_lookup(entries.drop_first(), id)
    }
}

/// The user-texture table with the first entry keyed `id` removed.
pub open spec fn spec_user_remove(entries: Seq<(u64, u32)>, id: u64) -> Seq<(u64, u32)>
    decreases entries.len(),
{
    if entries.len() == 0 {
        entries
    } else if entries.first().0 == id {
        entries.drop_first()
    } else {
        seq![entries.first()] + spec_user_remove(entries.drop_first(), id)
    }
}

impl PainterView {
    /// The keys of the user-texture table are unique.
    pub open spec fn wf(self) -> bool {
        forall|i: int, j: int|
            0 <= i < j < self.user_textures.len() ==> (#[trigger] self.user_textures[i]).0 != (
            #[trigger] self.user_textures[j]).0
    }

    /// The model a complete construction yields: fresh handles installed,
    /// no font texture uploaded yet, empty tables, not destroyed.
    pub open spec fn new_view(setup: GlSetup) -> PainterView
        recommends
            setup.complete(),
    {
        PainterView {
            program: setup.program->Ok_0,
            u_screen_size: setup.u_screen_size->0,
            u_sampler: setup.u_sampler->0,
            egui_texture: None,
            egui_texture_version: None,
            vertex_array: setup.vertex_array->Ok_0,
            vertex_buffer: setup.vertex_buffer->Ok_0,
            element_array_buffer: setup.element_array_buffer->Ok_0,
            user_textures: Seq::empty(),
            textures_to_destroy: Seq::empty(),
            destroyed: false,
        }
    }

    /// Whether a font image of this version must be uploaded: exactly when
    /// it differs from the version uploaded last.
    pub open spec fn upload_needed(self, version: u64) -> bool {
        self.egui_texture_version != Some(version)
    }

    /// The state after a font-texture upload is installed: new handle and
    /// version stored, the previous handle, if any, scheduled for deferred
    /// deletion.
    pub open spec fn upload_transition(self, version: u64, texture: u32) -> PainterView {
        PainterView {
            egui_texture: Some(texture),
            egui_texture_version: Some(version),
            textures_to_destroy: self.textures_to_destroy + (match self.egui_texture {
                Some(t) => seq![t],
                None => Seq::<u32>::empty(),
            }),
            ..self
        }
    }

    /// The state after freeing a user texture: its entry leaves the table
    /// and its handle, if the id was present, joins the deferred-deletion
    /// list.
    pub open spec fn free_transition(self, id: u64) -> PainterView {
        PainterView {
            user_textures: spec_user_remove(self.user_textures, id),
            textures_to_destroy: self.textures_to_destroy + (match spec_user_lookup(
                self.user_textures,
                id,
            ) {
                Some(t) => seq![t],
                None => Seq::<u32>::empty(),
            }),
            ..self
        }
    }

    /// The state after adding a user texture under `id`: any entry already
    /// keyed `id` is replaced, its old handle deferred, and the new pair
    /// sits at the end of the table.
    pub open spec fn add_transition(self, id: u64, texture: u32) -> PainterView {
        PainterView {
            user_textures: spec_user_remove(self.user_textures, id) + seq![(id, texture)],
            textures_to_destroy: self.textures_to_destroy + (match spec_user_lookup(
                self.user_textures,
                id,
            ) {
                Some(t) => seq![t],
                None => Seq::<u32>::empty(),
            }),
            ..self
        }
    }

    /// The state after destroy: terminal.
    pub open spec fn destroy_transition(self) -> PainterView {
        PainterView { destroyed: true, ..self }
    }

    /// The deletion call list one destroy issues on a live painter: the
    /// program, the font texture if any, every user texture, both buffers,
    /// then everything on the deferred-deletion list. A destroyed painter
    /// issues nothing.
    pub open spec fn destroy_commands(self) -> Seq<GpuCommand> {
        if self.destroyed {
            Seq::empty()
        } else {
            seq![GpuCommand::DeleteProgram { program: self.program }] + (match self.egui_texture {
                Some(t) => seq![GpuCommand::DeleteTexture { texture: t }],
                None => Seq::<GpuCommand>::empty(),
            }) + Seq::new(
                self.user_textures.len(),
                |i: int| GpuCommand::DeleteTexture { texture: self.user_textures[i].1 },
            ) + seq![
                GpuCommand::DeleteBuffer { buffer: self.vertex_buffer },
                GpuCommand::DeleteBuffer { buffer: self.element_array_buffer },
            ] + Seq::new(
                self.textures_to_destroy.len(),
                |i: int| GpuCommand::DeleteTexture { texture: self.textures_to_destroy[i] },
            )
        }
    }

    /// The vertex-layout call list a complete construction emits: bind the
    /// vertex buffer, bind the layout object, bind the buffer under it, then
    /// describe and enable the three interleaved attributes.
    pub open spec fn layout_commands(setup: GlSetup) -> Seq<GpuCommand>
        recommends
            setup.complete(),
    {
        let vbo = setup.vertex_buffer->Ok_0;
        seq![
            GpuCommand::BindArrayBuffer { buffer: Some(vbo) },
            GpuCommand::BindVertexArray { vertex_array: Some(setup.vertex_array->Ok_0) },
            GpuCommand::BindArrayBuffer { buffer: Some(vbo) },
            GpuCommand::VertexAttribFloat {
                location: setup.a_pos->0,
                components: 2,
                stride: VERTEX_STRIDE,
                offset: VERTEX_POS_OFFSET,
            },
            GpuCommand::VertexAttribFloat {
                location: setup.a_tc->0,
                components: 2,
                stride: VERTEX_STRIDE,
                offset: VERTEX_UV_OFFSET,
            },
            GpuCommand::VertexAttribByte {
                location: setup.a_srgba->0,
                components: 4,
                stride: VERTEX_STRIDE,
                offset: VERTEX_COLOR_OFFSET,
            },
            GpuCommand::EnableVertexAttrib { location: setup.a_pos->0 },
            GpuCommand::EnableVertexAttrib { location: setup.a_tc->0 },
            GpuCommand::EnableVertexAttrib { location: setup.a_srgba->0 },
        ]
    }

    /// The call list that establishes the frame's shared GPU state:
    /// scissoring on, culling off (the toolkit's meshes come in both
    /// winding orders), premultiplied-alpha blending, the window's own
    /// viewport, the program with its screen-size (in logical points) and
    /// sampler uniforms, the font texture if one is uploaded, and the
    /// vertex layout and index buffer bound.
    pub open spec fn prepare_commands(self, geo: WindowGeometry, ppp: i32) -> Seq<GpuCommand>
        recommends
            geo.wf(),
            1 <= ppp,
    {
        seq![
            GpuCommand::EnableScissorTest,
            GpuCommand::DisableCullFace,
            GpuCommand::BlendPremultipliedAlpha,
            GpuCommand::SetViewport {
                x: geo.left,
                y: geo.bottom,
                width: (geo.right - geo.left) as i32,
                height: (geo.top - geo.bottom) as i32,
            },
            GpuCommand::BindProgram { program: Some(self.program) },
            GpuCommand::SetScreenSizeUniform {
                location: self.u_screen_size,
                width_points: ((geo.right - geo.left) / (ppp as int)) as i32,
                height_points: ((geo.top - geo.bottom) / (ppp as int)) as i32,
            },
            GpuCommand::SetSamplerUniform { location: self.u_sampler, unit: 0 },
        ] + (match self.egui_texture {
            Some(t) => seq![GpuCommand::BindTexture2d { texture: Some(t) }],
            None => Seq::<GpuCommand>::empty(),
        }) + seq![
            GpuCommand::BindVertexArray { vertex_array: Some(self.vertex_array) },
            GpuCommand::BindElementBuffer { buffer: Some(self.element_array_buffer) },
        ]
    }

    /// The call list that draws one mesh: upload its vertex and index bytes
    /// with stream usage, scissor to its clip rectangle, and issue the
    /// indexed triangle draw.
    pub open spec fn mesh_commands(
        self,
        mesh: ClippedMesh,
        idx: usize,
        geo: WindowGeometry,
        ppp: i32,
    ) -> Seq<GpuCommand>
        recommends
            mesh.wf(),
            clip_fits(mesh.clip_rect, geo, ppp),
    {
        seq![
            GpuCommand::BindArrayBuffer { buffer: Some(self.vertex_buffer) },
            GpuCommand::UploadVertexData { mesh: idx, vertex_count: mesh.vertex_count },
            GpuCommand::BindElementBuffer { buffer: Some(self.element_array_buffer) },
            GpuCommand::UploadIndexData { mesh: idx, index_count: mesh.index_count },
            spec_scissor_command(mesh.clip_rect, geo, ppp),
            GpuCommand::DrawIndexedTriangles { index_count: mesh.index_count as i32 },
        ]
    }

    /// The commands of the first `upto` meshes, in mesh order.
    pub open spec fn meshes_commands_upto(
        self,
        meshes: Seq<ClippedMesh>,
        upto: int,
        geo: WindowGeometry,
        ppp: i32,
    ) -> Seq<GpuCommand>
        decreases upto,
    {
        if upto <= 0 {
            Seq::empty()
        } else {
            self.meshes_commands_upto(meshes, upto - 1, geo, ppp) + self.mesh_commands(
                meshes[upto - 1],
                (upto - 1) as usize,
                geo,
                ppp,
            )
        }
    }

    /// A whole frame's call list: shared state, each mesh in order — mesh
    /// order is draw order, later meshes paint over earlier ones — then the
    /// restoring cleanup.
    pub open spec fn paint_commands(
        self,
        meshes: Seq<ClippedMesh>,
        geo: WindowGeometry,
        viewport: HostViewport,
        ppp: i32,
    ) -> Seq<GpuCommand> {
        self.prepare_commands(geo, ppp) + self.meshes_commands_upto(
            meshes,
            meshes.len() as int,
            geo,
            ppp,
        ) + spec_cleanup_commands(viewport)
    }
}

/// The GPU resource owner. All handles are exclusively owned: no other
/// component deletes or rebinds them. Once `destroyed` is set the painter is
/// terminal and every GPU-affecting operation demands a live painter as its
/// precondition; only `destroy` itself may be repeated, as a no-op.
#[derive(Debug)]
pub struct Painter {
    pub program: u32,
    pub u_screen_size: u32,
    pub u_sampler: u32,
    pub egui_texture: Option<u32>,
    pub egui_texture_version: Option<u64>,
    pub vertex_array: u32,
    pub vertex_buffer: u32,
    pub element_array_buffer: u32,
    /// The user-texture table: id paired with texture handle, keys unique.
    pub user_textures: Vec<(u64, u32)>,
    /// Outdated texture handles that are yet to be deleted.
    pub textures_to_destroy: Vec<u32>,
    pub destroyed: bool,
}

impl View for Painter {
    type V = PainterView;

    open spec fn view(&self) -> PainterView {
        PainterView {
            program: self.program,
            u_screen_size: self.u_screen_size,
            u_sampler: self.u_sampler,
            egui_texture: self.egui_texture,
            egui_texture_version: self.egui_texture_version,
            vertex_array: self.vertex_array,
            vertex_buffer: self.vertex_buffer,
            element_array_buffer: self.element_array_buffer,
            user_textures: self.user_textures@,
            textures_to_destroy: self.textures_to_destroy@,
            destroyed: self.destroyed,
        }
    }
}

/// If the first entry keyed `id` sits at index `i`, lookup returns its
/// handle and removal cuts out exactly that index.
proof fn lemma_user_first_match(entries: Seq<(u64, u32)>, id: u64, i: int)
    requires
        0 <= i < entries.len(),
        entries[i].0 == id,
        forall|j: int| 0 <= j < i ==> (#[trigger] entries[j]).0 != id,
    ensures
        spec_user_lookup(entries, id) == Some(entries[i].1),
        spec_user_remove(entries, id) =~= entries.remove(i),
    decreases i,
{
    if i == 0 {
        assert(spec_user_remove(entries, id) =~= entries.remove(0));
    } else {
        lemma_user_first_match(entries.drop_first(), id, i - 1);
        assert(seq![entries.first()] + entries.drop_first().remove(i - 1) =~= entries.remove(i));
    }
}

/// A table without the key is untouched by lookup and removal.
proof fn lemma_user_no_match(entries: Seq<(u64, u32)>, id: u64)
    requires
        forall|j: int| 0 <= j < entries.len() ==> (#[trigger] entries[j]).0 != id,
    ensures
        spec_user_lookup(entries, id) is None,
        spec_user_remove(entries, id) =~= entries,
    decreases entries.len(),
{
    if entries.len() > 0 {
        lemma_user_no_match(entries.drop_first(), id);
        assert(seq![entries.first()] + entries.drop_first() =~= entries);
    }
}

/// After removal no entry keyed `id` remains, and the remaining keys stay
/// unique.
proof fn lemma_user_remove_drops_id(entries: Seq<(u64, u32)>, id: u64)
    requires
        forall|a: int, b: int|
            0 <= a < b < entries.len() ==> (#[trigger] entries[a]).0 != (#[trigger] entries[b]).0,
    ensures
        forall|k: int|
            0 <= k < spec_user_remove(entries, id).len() ==> (#[trigger] spec_user_remove(
                entries,
                id,
            )[k]).0 != id,
        forall|a: int, b: int|
            0 <= a < b < spec_user_remove(entries, id).len() ==> (#[trigger] spec_user_remove(
                entries,
                id,
            )[a]).0 != (#[trigger] spec_user_remove(entries, id)[b]).0,
    decreases entries.len(),
{
    if entries.len() > 0 {
        if entries.first().0 == id {
            assert forall|k: int|
                0 <= k < entries.drop_first().len() implies (#[trigger] entries.drop_first()[k]).0
                != id by {
                assert(entries.drop_first()[k] == entries[k + 1]);
                assert(entries[0].0 == id);
            }
        } else {
            lemma_user_remove_drops_id(entries.drop_first(), id);
            let rest = spec_user_remove(entries.drop_first(), id);
            assert(spec_user_remove(entries, id) == seq![entries.first()] + rest);
            lemma_user_remove_is_subset(entries.drop_first(), id);
        }
    }
}

/// Every entry of the removal result occurs in the original table.
proof fn lemma_user_remove_is_subset(entries: Seq<(u64, u32)>, id: u64)
    ensures
        forall|k: int|
            0 <= k < spec_user_remove(entries, id).len() ==> entries.contains(
                #[trigger] spec_user_remove(entries, id)[k],
            ),
    decreases entries.len(),
{
    if entries.len() > 0 && entries.first().0 != id {
        lemma_user_remove_is_subset(entries.drop_first(), id);
        let rest = spec_user_remove(entries.drop_first(), id);
        assert forall|k: int|
            0 <= k < spec_user_remove(entries, id).len() implies entries.contains(
            #[trigger] spec_user_remove(entries, id)[k],
        ) by {
            if k == 0 {
                assert(entries[0] == spec_user_remove(entries, id)[0]);
            } else {
                assert(spec_user_remove(entries, id)[k] == rest[k - 1]);
                let item = rest[k - 1];
                assert(entries.drop_first().contains(item));
                let w = choose|w: int|
                    0 <= w < entries.drop_first().len() && entries.drop_first()[w] == item;
                assert(entries[w + 1] == item);
            }
        }
    }
}

impl Painter {
    /// Build a painter from the construction outcomes. Fails outright — no
    /// partial painter — with the driver's own log when a shader failed to
    /// compile or link or a buffer could not be created, and with a
    /// descriptive message when an expected uniform or attribute location is
    /// missing. On success, returns the painter and the vertex-layout call
    /// list to execute.
    pub fn new(setup: GlSetup) -> (r: Result<(Painter, Vec<GpuCommand>), String>)
        ensures
            r is Ok <==> setup.complete(),
            r matches Ok(pc) ==> pc.0@ == PainterView::new_view(setup) && pc.1@
                == PainterView::layout_commands(setup),
            setup.vert_shader is Err ==> (r is Err && r->Err_0 == setup.vert_shader->Err_0),
            setup.vert_shader is Ok && setup.frag_shader is Err ==> (r is Err && r->Err_0
                == setup.frag_shader->Err_0),
            setup.vert_shader is Ok && setup.frag_shader is Ok && setup.program is Err ==> (r
                is Err && r->Err_0 == setup.program->Err_0),
            setup.vert_shader is Ok && setup.frag_shader is Ok && setup.program is Ok
                && setup.u_screen_size is None ==> (r is Err && r->Err_0@
                == "could not find uniform u_screen_size"@),
            setup.vert_shader is Ok && setup.frag_shader is Ok && setup.program is Ok
                && setup.u_screen_size is Some && setup.u_sampler is None ==> (r is Err
                && r->Err_0@ == "could not find uniform u_sampler"@),
            setup.vert_shader is Ok && setup.frag_shader is Ok && setup.program is Ok
                && setup.u_screen_size is Some && setup.u_sampler is Some
                && setup.vertex_buffer is Err ==> (r is Err && r->Err_0
                == setup.vertex_buffer->Err_0),
            setup.vert_shader is Ok && setup.frag_shader is Ok && setup.program is Ok
                && setup.u_screen_size is Some && setup.u_sampler is Some
                && setup.vertex_buffer is Ok && setup.element_array_buffer is Err ==> (r is Err
                && r->Err_0 == setup.element_array_buffer->Err_0),
            setup.vert_shader is Ok && setup.frag_shader is Ok && setup.program is Ok
                && setup.u_screen_size is Some && setup.u_sampler is Some
                && setup.vertex_buffer is Ok && setup.element_array_buffer is Ok && setup.a_pos
                is None ==> (r is Err && r->Err_0@ == "could not find attribute a_pos"@),
            setup.vert_shader is Ok && setup.frag_shader is Ok && setup.program is Ok
                && setup.u_screen_size is Some && setup.u_sampler is Some
                && setup.vertex_buffer is Ok && setup.element_array_buffer is Ok && setup.a_pos
                is Some && setup.a_tc is None ==> (r is Err && r->Err_0@
                == "could not find attribute a_tc"@),
            setup.vert_shader is Ok && setup.frag_shader is Ok && setup.program is Ok
                && setup.u_screen_size is Some && setup.u_sampler is Some
                && setup.vertex_buffer is Ok && setup.element_array_buffer is Ok && setup.a_pos
                is Some && setup.a_tc is Some && setup.a_srgba is None ==> (r is Err && r->Err_0@
                == "could not find attribute a_srgba"@),
            setup.vert_shader is Ok && setup.frag_shader is Ok && setup.program is Ok
                && setup.u_screen_size is Some && setup.u_sampler is Some
                && setup.vertex_buffer is Ok && setup.element_array_buffer is Ok && setup.a_pos
                is Some && setup.a_tc is Some && setup.a_srgba is Some && setup.vertex_array
                is Err ==> (r is Err && r->Err_0 == setup.vertex_array->Err_0),
    {
        let GlSetup {
            vert_shader,
            frag_shader,
            program,
            u_screen_size,
            u_sampler,
            vertex_buffer,
            element_array_buffer,
            a_pos,
            a_tc,
            a_srgba,
            vertex_array,
        } = setup;
        let _vert: u32 = match vert_shader {
            Ok(s) => s,
            Err(e) => {
                return Err(e);
            },
        };
        let _frag: u32 = match frag_shader {
            Ok(s) => s,
            Err(e) => {
                return Err(e);
            },
        };
        let program: u32 = match program {
            Ok(p) => p,
            Err(e) => {
                return Err(e);
            },
        };
        let u_screen_size: u32 = match u_screen_size {
            Some(u) => u,
            None => {
                return Err("could not find uniform u_screen_size".to_string());
            },
        };
        let u_sampler: u32 = match u_sampler {
            Some(u) => u,
            None => {
                return Err("could not find uniform u_sampler".to_string());
            },
        };
        let vertex_buffer: u32 = match vertex_buffer {
            Ok(b) => b,
            Err(e) => {
                return Err(e);
            },
        };
        let element_array_buffer: u32 = match element_array_buffer {
            Ok(b) => b,
            Err(e) => {
                return Err(e);
            },
        };
        let a_pos: u32 = match a_pos {
            Some(a) => a,
            None => {
                return Err("could not find attribute a_pos".to_string());
            },
        };
        let a_tc: u32 = match a_tc {
            Some(a) => a,
            None => {
                return Err("could not find attribute a_tc".to_string());
            },
        };
        let a_srgba: u32 = match a_srgba {
            Some(a) => a,
            None => {
                return Err("could not find attribute a_srgba".to_string());
            },
        };
        let vertex_array: u32 = match vertex_array {
            Ok(v) => v,
            Err(e) => {
                return Err(e);
            },
        };
        let mut cmds: Vec<GpuCommand> = Vec::new();
        cmds.push(GpuCommand::BindArrayBuffer { buffer: Some(vertex_buffer) });
        cmds.push(GpuCommand::BindVertexArray { vertex_array: Some(vertex_array) });
        cmds.push(GpuCommand::BindArrayBuffer { buffer: Some(vertex_buffer) });
        cmds.push(
            GpuCommand::VertexAttribFloat {
                location: a_pos,
                components: 2,
                stride: VERTEX_STRIDE,
                offset: VERTEX_POS_OFFSET,
            },
        );
        cmds.push(
            GpuCommand::VertexAttribFloat {
                location: a_tc,
                components: 2,
                stride: VERTEX_STRIDE,
                offset: VERTEX_UV_OFFSET,
            },
        );
        cmds.push(
            GpuCommand::VertexAttribByte {
                location: a_srgba,
                components: 4,
                stride: VERTEX_STRIDE,
                offset: VERTEX_COLOR_OFFSET,
            },
        );
        cmds.push(GpuCommand::EnableVertexAttrib { location: a_pos });
        cmds.push(GpuCommand::EnableVertexAttrib { location: a_tc });
        cmds.push(GpuCommand::EnableVertexAttrib { location: a_srgba });
        let painter = Painter {
            program,
            u_screen_size,
            u_sampler,
            egui_texture: None,
            egui_texture_version: None,
            vertex_array,
            vertex_buffer,
            element_array_buffer,
            user_textures: Vec::new(),
            textures_to_destroy: Vec::new(),
            destroyed: false,
        };
        proof {
            assert(cmds@ =~= PainterView::layout_commands(setup));
        }
        Ok((painter, cmds))
    }

    /// Decide whether a font image with this version needs uploading. An
    /// unchanged version performs zero GPU calls.
    pub fn font_texture_upload_needed(&self, version: u64) -> (b: bool)
        requires
            !self@.destroyed,
        ensures
            b == self@.upload_needed(version),
    {
        match self.egui_texture_version {
            Some(v) => v != version,
            None => true,
        }
    }

    /// Install a freshly uploaded font texture: record the new handle and
    /// version, and schedule the previous handle, if any, for deferred
    /// deletion. The caller performs the upload itself first (see
    /// `srgb_texture_commands`) and calls this only when
    /// `font_texture_upload_needed` said so.
    pub fn upload_egui_texture(&mut self, version: u64, texture: u32)
        requires
            !old(self)@.destroyed,
            old(self)@.upload_needed(version),
        ensures
            final(self)@ == old(self)@.upload_transition(version, texture),
    {
        if let Some(old_tex) = self.egui_texture {
            self.textures_to_destroy.push(old_tex);
        }
        self.egui_texture = Some(texture);
        self.egui_texture_version = Some(version);
        proof {
            assert(self@.textures_to_destroy =~= old(self)@.upload_transition(
                version,
                texture,
            ).textures_to_destroy);
        }
    }

    /// Put a user texture into the table under `id`. A handle already stored
    /// under the same id is scheduled for deferred deletion, mirroring the
    /// font-texture replacement path.
    pub fn add_user_texture(&mut self, id: u64, texture: u32)
        requires
            !old(self)@.destroyed,
            old(self)@.wf(),
        ensures
            final(self)@ == old(self)@.add_transition(id, texture),
            final(self)@.wf(),
    {
        self.free_texture(id);
        self.user_textures.push((id, texture));
        proof {
            let entries = spec_user_remove(old(self)@.user_textures, id);
            assert(self@.user_textures =~= old(self)@.add_transition(id, texture).user_textures);
            lemma_user_remove_drops_id(old(self)@.user_textures, id);
            assert forall|a: int, b: int|
                0 <= a < b < self@.user_textures.len() implies (
            #[trigger] self@.user_textures[a]).0 != (#[trigger] self@.user_textures[b]).0 by {
                if b == entries.len() {
                    assert(self@.user_textures[a] == entries[a]);
                    assert(entries[a].0 != id);
                } else {
                    assert(self@.user_textures[a] == entries[a]);
                    assert(self@.user_textures[b] == entries[b]);
                }
            }
        }
    }

    /// Take the entry stored under `tex_id` out of the user-texture table.
    /// Its handle is not deleted on the spot — an in-flight draw may still
    /// reference it — but scheduled for deferred deletion. An absent id is a
    /// no-op.
    pub fn free_texture(&mut self, tex_id: u64)
        requires
            !old(self)@.destroyed,
            old(self)@.wf(),
        ensures
            final(self)@ == old(self)@.free_transition(tex_id),
            final(self)@.wf(),
    {
        let n = self.user_textures.len();
        let mut i: usize = 0;
        while i < n
            invariant
                i <= n,
                n == self.user_textures.len(),
                *self == *old(self),
                old(self)@.wf(),
                forall|j: int| 0 <= j < i ==> (#[trigger] self.user_textures@[j]).0 != tex_id,
            decreases n - i,
        {
            if self.user_textures[i].0 == tex_id {
                let handle = self.user_textures[i].1;
                self.user_textures.remove(i);
                self.textures_to_destroy.push(handle);
                proof {
                    lemma_user_first_match(old(self)@.user_textures, tex_id, i as int);
                    assert(self@.textures_to_destroy =~= old(self)@.free_transition(
                        tex_id,
                    ).textures_to_destroy);
                    lemma_user_remove_drops_id(old(self)@.user_textures, tex_id);
                }
                return ;
            }
            i = i + 1;
        }
        proof {
            lemma_user_no_match(self.user_textures@, tex_id);
            assert(self@.textures_to_destroy =~= old(self)@.free_transition(
                tex_id,
            ).textures_to_destroy);
        }
    }

    /// Tear the painter down: emit the deletion call list for everything it
    /// owns and mark it terminal. Idempotent — a second destroy changes
    /// nothing and issues zero calls.
    pub fn destroy(&mut self) -> (cmds: Vec<GpuCommand>)
        ensures
            cmds@ == old(self)@.destroy_commands(),
            final(self)@ == old(self)@.destroy_transition(),
    {
        let mut cmds: Vec<GpuCommand> = Vec::new();
        if self.destroyed {
            return cmds;
        }
        cmds.push(GpuCommand::DeleteProgram { program: self.program });
        if let Some(t) = self.egui_texture {
            cmds.push(GpuCommand::DeleteTexture { texture: t });
        }
        let ghost head = cmds@;
        let n = self.user_textures.len();
        let mut i: usize = 0;
        while i < n
            invariant
                i <= n,
                n == self.user_textures.len(),
                *self == *old(self),
                cmds@ == head + Seq::new(
                    i as nat,
                    |j: int| GpuCommand::DeleteTexture { texture: self.user_textures@[j].1 },
                ),
            decreases n - i,
        {
            cmds.push(GpuCommand::DeleteTexture { texture: self.user_textures[i].1 });
            i = i + 1;
            proof {
                assert(cmds@ =~= head + Seq::new(
                    i as nat,
                    |j: int| GpuCommand::DeleteTexture { texture: self.user_textures@[j].1 },
                ));
            }
        }
        cmds.push(GpuCommand::DeleteBuffer { buffer: self.vertex_buffer });
        cmds.push(GpuCommand::DeleteBuffer { buffer: self.element_array_buffer });
        let ghost head2 = cmds@;
        let m = self.textures_to_destroy.len();
        let mut k: usize = 0;
        while k < m
            invariant
                k <= m,
                m == self.textures_to_destroy.len(),
                *self == *old(self),
                cmds@ == head2 + Seq::new(
                    k as nat,
                    |j: int| GpuCommand::DeleteTexture { texture: self.textures_to_destroy@[j] },
                ),
            decreases m - k,
        {
            cmds.push(GpuCommand::DeleteTexture { texture: self.textures_to_destroy[k] });
            k = k + 1;
            proof {
                assert(cmds@ =~= head2 + Seq::new(
                    k as nat,
                    |j: int| GpuCommand::DeleteTexture { texture: self.textures_to_destroy@[j] },
                ));
            }
        }
        self.destroyed = true;
        proof {
            assert(cmds@ =~= old(self)@.destroy_commands());
        }
        cmds
    }

    /// Whether the painter has been destroyed. The surrounding program
    /// tests this before any GPU-affecting call, and on disposal: dropping
    /// a live painter is a detectable resource leak to report, since no GPU
    /// call can be forced at that point.
    pub fn is_destroyed(&self) -> (b: bool)
        ensures
            b == self@.destroyed,
    {
        self.destroyed
    }

    /// Emit the shared state establishment for one frame.
    pub fn prepare_painting(&self, geo: WindowGeometry, pixels_per_point: i32) -> (cmds: Vec<
        GpuCommand,
    >)
        requires
            !self@.destroyed,
            geo.wf(),
            1 <= pixels_per_point,
        ensures
            cmds@ == self@.prepare_commands(geo, pixels_per_point),
    {
        let width_in_pixels = geo.right - geo.left;
        let height_in_pixels = geo.top - geo.bottom;
        let mut cmds: Vec<GpuCommand> = Vec::new();
        cmds.push(GpuCommand::EnableScissorTest);
        cmds.push(GpuCommand::DisableCullFace);
        cmds.push(GpuCommand::BlendPremultipliedAlpha);
        cmds.push(
            GpuCommand::SetViewport {
                x: geo.left,
                y: geo.bottom,
                width: width_in_pixels,
                height: height_in_pixels,
            },
        );
        cmds.push(GpuCommand::BindProgram { program: Some(self.program) });
        cmds.push(
            GpuCommand::SetScreenSizeUniform {
                location: self.u_screen_size,
                width_points: width_in_pixels / pixels_per_point,
                height_points: height_in_pixels / pixels_per_point,
            },
        );
        cmds.push(GpuCommand::SetSamplerUniform { location: self.u_sampler, unit: 0 });
        if let Some(t) = self.egui_texture {
            cmds.push(GpuCommand::BindTexture2d { texture: Some(t) });
        }
        cmds.push(GpuCommand::BindVertexArray { vertex_array: Some(self.vertex_array) });
        cmds.push(GpuCommand::BindElementBuffer { buffer: Some(self.element_array_buffer) });
        proof {
            assert(cmds@ =~= self@.prepare_commands(geo, pixels_per_point));
        }
        cmds
    }

    /// Emit the draw of one mesh, standing at `idx` in this frame's list.
    pub fn paint_mesh(
        &self,
        mesh: &ClippedMesh,
        idx: usize,
        geo: WindowGeometry,
        pixels_per_point: i32,
    ) -> (cmds: Vec<GpuCommand>)
        requires
            !self@.destroyed,
            mesh.wf(),
            clip_fits(mesh.clip_rect, geo, pixels_per_point),
            1 <= pixels_per_point,
        ensures
            cmds@ == self@.mesh_commands(*mesh, idx, geo, pixels_per_point),
    {
        let clip = mesh.clip_rect;
        let scaled_min_x = clip.min_x * pixels_per_point;
        let scaled_max_y = clip.max_y * pixels_per_point;
        let width = (clip.max_x - clip.min_x) * pixels_per_point;
        let height = (clip.max_y - clip.min_y) * pixels_per_point;
        let mut cmds: Vec<GpuCommand> = Vec::new();
        cmds.push(GpuCommand::BindArrayBuffer { buffer: Some(self.vertex_buffer) });
        cmds.push(GpuCommand::UploadVertexData { mesh: idx, vertex_count: mesh.vertex_count });
        cmds.push(GpuCommand::BindElementBuffer { buffer: Some(self.element_array_buffer) });
        cmds.push(GpuCommand::UploadIndexData { mesh: idx, index_count: mesh.index_count });
        cmds.push(
            GpuCommand::SetScissor {
                x: geo.left + scaled_min_x,
                y: geo.top - scaled_max_y,
                width,
                height,
            },
        );
        cmds.push(GpuCommand::DrawIndexedTriangles { index_count: mesh.index_count as i32 });
        proof {
            assert(cmds@ =~= self@.mesh_commands(*mesh, idx, geo, pixels_per_point));
        }
        cmds
    }

    /// Emit the state restoration that ends a frame, handing the host its
    /// own viewport back.
    pub fn cleanup_painting(&self, viewport: HostViewport) -> (cmds: Vec<GpuCommand>)
        requires
            viewport.wf(),
        ensures
            cmds@ == spec_cleanup_commands(viewport),
    {
        let mut cmds: Vec<GpuCommand> = Vec::new();
        cmds.push(GpuCommand::DisableScissorTest);
        cmds.push(GpuCommand::EnableCullFace);
        cmds.push(GpuCommand::BlendDefault);
        cmds.push(
            GpuCommand::SetViewport {
                x: viewport.left,
                y: viewport.bottom,
                width: viewport.right - viewport.left,
                height: viewport.top - viewport.bottom,
            },
        );
        cmds.push(GpuCommand::BindProgram { program: None });
        cmds.push(GpuCommand::BindVertexArray { vertex_array: None });
        cmds.push(GpuCommand::BindElementBuffer { buffer: None });
        proof {
            assert(cmds@ =~= spec_cleanup_commands(viewport));
        }
        cmds
    }

    /// Emit a whole frame: establish shared state once, draw every mesh in
    /// list order under its own scissor rectangle, then restore the host's
    /// state.
    pub fn paint_meshes(
        &self,
        meshes: &Vec<ClippedMesh>,
        geo: WindowGeometry,
        viewport: HostViewport,
        pixels_per_point: i32,
    ) -> (cmds: Vec<GpuCommand>)
        requires
            !self@.destroyed,
            geo.wf(),
            viewport.wf(),
            1 <= pixels_per_point,
            forall|i: int|
                0 <= i < meshes@.len() ==> (#[trigger] meshes@[i]).wf() && clip_fits(
                    meshes@[i].clip_rect,
                    geo,
                    pixels_per_point,
                ),
        ensures
            cmds@ == self@.paint_commands(meshes@, geo, viewport, pixels_per_point),
    {
        let mut cmds = self.prepare_painting(geo, pixels_per_point);
        let n = meshes.len();
        let mut i: usize = 0;
        while i < n
            invariant
                i <= n,
                n == meshes.len(),
                !self@.destroyed,
                geo.wf(),
                1 <= pixels_per_point,
                forall|j: int|
                    0 <= j < meshes@.len() ==> (#[trigger] meshes@[j]).wf() && clip_fits(
                        meshes@[j].clip_rect,
                        geo,
                        pixels_per_point,
                    ),
                cmds@ == self@.prepare_commands(geo, pixels_per_point)
                    + self@.meshes_commands_upto(meshes@, i as int, geo, pixels_per_point),
            decreases n - i,
        {
            let mut mesh_cmds = self.paint_mesh(&meshes[i], i, geo, pixels_per_point);
            cmds.append(&mut mesh_cmds);
            i = i + 1;
            proof {
                assert(cmds@ =~= self@.prepare_commands(geo, pixels_per_point)
                    + self@.meshes_commands_upto(meshes@, i as int, geo, pixels_per_point));
            }
        }
        let mut cleanup = self.cleanup_painting(viewport);
        cmds.append(&mut cleanup);
        proof {
            assert(cmds@ =~= self@.paint_commands(meshes@, geo, viewport, pixels_per_point));
        }
        cmds
    }
}

/// Uploading the font texture twice with an unchanged version performs
/// zero additional GPU texture calls: once some version is installed, an
/// upload of that same version is not needed. And installing a new version
/// over a previously uploaded texture schedules exactly that one handle
/// for deletion — none when no texture was held.
pub proof fn lemma_font_texture_versioning(v: PainterView, version: u64, texture: u32)
    ensures
        !v.upload_transition(version, texture).upload_needed(version),
        v.egui_texture matches Some(t) ==> v.upload_transition(version, texture).textures_to_destroy
            =~= v.textures_to_destroy + seq![t],
        v.egui_texture is None ==> v.upload_transition(version, texture).textures_to_destroy
            =~= v.textures_to_destroy,
{
}

/// Destroy is idempotent: a destroyed painter's destroy issues no calls,
/// so destroying twice produces the same deletion call set as destroying
/// once.
pub proof fn lemma_destroy_idempotent(v: PainterView)
    ensures
        v.destroy_transition().destroy_commands() == Seq::<GpuCommand>::empty(),
        v.destroy_commands() + v.destroy_transition().destroy_commands() =~= v.destroy_commands(),
        v.destroy_transition().destroy_transition() == v.destroy_transition(),
{
}

/// How many commands the shared-state preamble holds: one more once a
/// font texture is bound.
pub open spec fn spec_prepare_len(v: PainterView) -> int {
    if v.egui_texture is Some {
        10
    } else {
        9
    }
}

/// The first `upto` meshes contribute six commands each.
proof fn lemma_meshes_commands_len(
    v: PainterView,
    meshes: Seq<ClippedMesh>,
    upto: int,
    geo: WindowGeometry,
    ppp: i32,
)
    requires
        0 <= upto,
    ensures
        v.meshes_commands_upto(meshes, upto, geo, ppp).len() == 6 * upto,
    decreases upto,
{
    if upto > 0 {
        lemma_meshes_commands_len(v, meshes, upto - 1, geo, ppp);
    }
}

/// Within the mesh section, the block of six commands starting at `6 * i`
/// is exactly mesh `i`'s.
proof fn lemma_mesh_block(
    v: PainterView,
    meshes: Seq<ClippedMesh>,
    upto: int,
    i: int,
    geo: WindowGeometry,
    ppp: i32,
)
    requires
        0 <= i < upto <= meshes.len(),
    ensures
        v.meshes_commands_upto(meshes, upto, geo, ppp).subrange(6 * i, 6 * i + 6)
            == v.mesh_commands(meshes[i], i as usize, geo, ppp),
    decreases upto,
{
    lemma_meshes_commands_len(v, meshes, upto - 1, geo, ppp);
    if i == upto - 1 {
        assert(v.meshes_commands_upto(meshes, upto, geo, ppp).subrange(6 * i, 6 * i + 6)
            =~= v.mesh_commands(meshes[i], i as usize, geo, ppp));
    } else {
        lemma_mesh_block(v, meshes, upto - 1, i, geo, ppp);
        assert(v.meshes_commands_upto(meshes, upto, geo, ppp).subrange(6 * i, 6 * i + 6)
            =~= v.meshes_commands_upto(meshes, upto - 1, geo, ppp).subrange(6 * i, 6 * i + 6));
    }
}

/// Mesh order is draw order: inside a frame's command list, mesh `i`'s six
/// commands — uploads, scissor, draw — stand as one contiguous block right
/// after the preamble and the blocks of the meshes before it, so later
/// meshes paint over earlier ones.
pub proof fn lemma_mesh_order_is_draw_order(
    v: PainterView,
    meshes: Seq<ClippedMesh>,
    geo: WindowGeometry,
    viewport: HostViewport,
    ppp: i32,
    i: int,
)
    requires
        0 <= i < meshes.len(),
    ensures
        v.paint_commands(meshes, geo, viewport, ppp).subrange(
            spec_prepare_len(v) + 6 * i,
            spec_prepare_len(v) + 6 * i + 6,
        ) == v.mesh_commands(meshes[i], i as usize, geo, ppp),
{
    let n = meshes.len() as int;
    lemma_meshes_commands_len(v, meshes, n, geo, ppp);
    lemma_mesh_block(v, meshes, n, i, geo, ppp);
    assert(v.prepare_commands(geo, ppp).len() == spec_prepare_len(v));
    assert(v.paint_commands(meshes, geo, viewport, ppp).subrange(
        spec_prepare_len(v) + 6 * i,
        spec_prepare_len(v) + 6 * i + 6,
    ) =~= v.meshes_commands_upto(meshes, n, geo, ppp).subrange(6 * i, 6 * i + 6));
}

/// Two draws with identical clip rectangles issue scissor calls with
/// identical arguments, whatever else their meshes hold and wherever they
/// stand in the frame.
pub proof fn lemma_equal_clips_equal_scissor(
    v: PainterView,
    m1: ClippedMesh,
    m2: ClippedMesh,
    i1: usize,
    i2: usize,
    geo: WindowGeometry,
    ppp: i32,
)
    requires
        m1.clip_rect == m2.clip_rect,
    ensures
        v.mesh_commands(m1, i1, geo, ppp)[4] == spec_scissor_command(m1.clip_rect, geo, ppp),
        v.mesh_commands(m1, i1, geo, ppp)[4] == v.mesh_commands(m2, i2, geo, ppp)[4],
{
}

} // verus!
