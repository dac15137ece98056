//! The meshes of the atlases: how many rows the instance buffer of each
//! holds, when it is written and when replaced, and how a frame is drawn.

use vstd::prelude::*;
use crate::renderer::mesh::InstanceTileRaw;

verus! {

/// What is known of the mesh of an atlas: how many indices it has, how many
/// rows its instance buffer holds, and whether it has an instance buffer
/// yet.
#[derive(Debug, PartialEq, Eq)]
pub struct Mesh {
    pub atlas_name: String,
    pub num_indices: u32,
    pub num_instances: u32,
    pub has_instance_buffer: bool,
}

/// What the backend has to do with the instance buffer of a mesh.
#[derive(Clone, Copy, Debug, PartialEq, Eq, Hash, Structural)]
pub enum BufferAction {
    /// Write the rows into the buffer that is there.
    Write,
    /// Make a buffer of the size of the rows, filled with them, in place of
    /// the one that is there.
    Create,
}

/// An order to the backend: the mesh by its place, what to do with its
/// instance buffer, and the rows.
#[derive(Debug, PartialEq, Eq)]
pub struct BufferCommand {
    pub mesh: usize,
    pub action: BufferAction,
    pub rows: Vec<InstanceTileRaw>,
}

/// A step of the render pass of a frame.
#[derive(Clone, Copy, Debug, PartialEq, Eq)]
pub enum RenderCommand {
    /// Begin the render pass on a cleared frame.
    BeginRenderPass,
    /// Bind the camera at slot 0.
    SetCameraBindGroup,
    /// Bind the texture of the atlas of a mesh at slot 1.
    SetAtlasBindGroup { mesh: usize },
    /// Bind the vertex buffer of a mesh at slot 0.
    SetVertexBuffer { mesh: usize },
    /// Bind the instance buffer of a mesh at slot 1.
    SetInstanceBuffer { mesh: usize },
    /// Bind the index buffer of a mesh.
    SetIndexBuffer { mesh: usize },
    /// Draw the first `num_instances` instances with all `num_indices`
    /// indices.
    DrawIndexed { num_indices: u32, num_instances: u32 },
    /// End the render pass, submit it and present the frame.
    Present,
}

/// The number of rows for which an instance buffer is made when `rows` rows
/// are handed in: a buffer is never empty, so for no rows it is made for
/// one.
pub open spec fn buffer_rows(rows: int) -> int {
    if rows < 1 {
        1
    } else {
        rows
    }
}

pub fn get_buffer_rows(rows: usize) -> (made: usize)
    ensures
        made == buffer_rows(rows as int),
{
    if rows < 1 {
        1
    } else {
        rows
    }
}

impl Mesh {
    /// A mesh without an instance buffer draws no instance.
    pub open spec fn wf(self) -> bool {
        !self.has_instance_buffer ==> self.num_instances == 0
    }

    /// What is done when `rows` rows are handed in: they are written in
    /// place if the buffer is there and holds as many; else a buffer is
    /// made.
    pub open spec fn decided(self, rows: u32) -> BufferAction {
        if self.has_instance_buffer && self.num_instances == rows {
            BufferAction::Write
        } else {
            BufferAction::Create
        }
    }

    /// The mesh after `rows` rows have been handed in: its buffer is there
    /// and holds as many.
    pub open spec fn synced(self, rows: u32) -> Mesh {
        Mesh { num_instances: rows, has_instance_buffer: true, ..self }
    }

    /// How the mesh is drawn, `place` being its place: not at all while it
    /// has no instance buffer; else its atlas and its three buffers are
    /// bound and its instances drawn.
    pub open spec fn drawn(self, place: int) -> Seq<RenderCommand> {
        if self.has_instance_buffer {
            seq![
                RenderCommand::SetAtlasBindGroup { mesh: place as usize },
                RenderCommand::SetVertexBuffer { mesh: place as usize },
                RenderCommand::SetInstanceBuffer { mesh: place as usize },
                RenderCommand::SetIndexBuffer { mesh: place as usize },
                RenderCommand::DrawIndexed {
                    num_indices: self.num_indices,
                    num_instances: self.num_instances,
                },
            ]
        } else {
            Seq::empty()
        }
    }

    /// A mesh without an instance buffer.
    pub fn new(atlas_name: String, num_indices: u32) -> (m: Mesh)
        ensures
            m == (Mesh { atlas_name, num_indices, num_instances: 0, has_instance_buffer: false }),
            m.wf(),
    {
        Mesh { atlas_name, num_indices, num_instances: 0, has_instance_buffer: false }
    }

    /// Notes that the mesh has a new instance buffer of `num_instance` rows.
    pub fn replace_instance(&mut self, num_instance: u32)
        ensures
            *final(self) == old(self).synced(num_instance),
            final(self).wf(),
    {
        self.has_instance_buffer = true;
        self.num_instances = num_instance;
    }

    /// Takes in the number of rows handed in for the mesh, and tells what
    /// the backend has to do.
    pub fn sync(&mut self, rows: u32) -> (action: BufferAction)
        ensures
            action == old(self).decided(rows),
            *final(self) == old(self).synced(rows),
            final(self).wf(),
    {
        if self.has_instance_buffer && self.num_instances == rows {
            BufferAction::Write
        } else {
            self.replace_instance(rows);
            BufferAction::Create
        }
    }
}

/// Idempotence. Rows handed in a second time in the same number are
/// written in place and leave the mesh as it is: of two such calls in a row
/// the first alone can make a buffer.
pub proof fn lemma_second_sync_in_place(m: Mesh, rows: u32)
    ensures
        m.synced(rows).decided(rows) == BufferAction::Write,
        m.synced(rows).synced(rows) == m.synced(rows),
{
}

/// No rows. A mesh that is handed no rows draws no instance afterwards, and
/// is still there.
pub proof fn lemma_sync_nothing(m: Mesh)
    ensures
        m.synced(0).num_instances == 0,
        m.synced(0).atlas_name == m.atlas_name,
        m.synced(0).has_instance_buffer,
{
}

/// The commands that draw some meshes, mesh after mesh.
pub open spec fn draws(meshes: Seq<Mesh>) -> Seq<RenderCommand>
    decreases meshes.len(),
{
    if meshes.len() == 0 {
        Seq::empty()
    } else {
        draws(meshes.drop_last()) + meshes.last().drawn(meshes.len() - 1)
    }
}

/// The commands with which every render pass begins: the pass is begun
/// and the camera bound.
pub open spec fn opening() -> Seq<RenderCommand> {
    seq![RenderCommand::BeginRenderPass, RenderCommand::SetCameraBindGroup]
}

/// The render pass of a frame: the pass is begun and the camera bound, then
/// the meshes are drawn in their order, then the frame is presented.
pub open spec fn render_pass(meshes: Seq<Mesh>) -> Seq<RenderCommand> {
    (opening() + draws(meshes)).push(RenderCommand::Present)
}

/// The meshes of the atlases, in the order in which they are drawn.
#[derive(Debug, PartialEq, Eq)]
pub struct GPUResourceManager {
    pub meshes_by_atlas: Vec<Mesh>,
}

impl GPUResourceManager {
    /// Whether there is a mesh for an atlas.
    pub open spec fn has(self, name: Seq<char>) -> bool {
        exists|i: int| 0 <= i < self.meshes_by_atlas.len() && (#[trigger] self.meshes_by_atlas[i]).atlas_name@ == name
    }

    /// Whether `i` is the place of the first mesh for an atlas.
    pub open spec fn is_place_of(self, i: int, name: Seq<char>) -> bool {
        &&& 0 <= i < self.meshes_by_atlas.len()
        &&& self.meshes_by_atlas[i].atlas_name@ == name
        &&& forall|j: int| 0 <= j < i ==> (#[trigger] self.meshes_by_atlas[j]).atlas_name@ != name
    }

    /// No two meshes are for one atlas, and a mesh without an instance
    /// buffer draws no instance.
    pub open spec fn wf(self) -> bool {
        &&& forall|i: int, j: int|
            0 <= i < j < self.meshes_by_atlas.len() ==> (#[trigger] self.meshes_by_atlas[i]).atlas_name@ != (
            #[trigger] self.meshes_by_atlas[j]).atlas_name@
        &&& forall|i: int| 0 <= i < self.meshes_by_atlas.len() ==> (#[trigger] self.meshes_by_atlas[i]).wf()
    }

    /// The place of the first mesh for an atlas, if there is one.
    pub fn find(&self, name: &String) -> (found: Option<usize>)
        ensures
            match found {
                Some(i) => self.is_place_of(i as int, name@),
                None => !self.has(name@),
            },
    {
        let mut i: usize = 0;
        while i < self.meshes_by_atlas.len()
            invariant
                0 <= i <= self.meshes_by_atlas.len(),
                forall|j: int| 0 <= j < i ==> (#[trigger] self.meshes_by_atlas[j]).atlas_name@ != name@,
            decreases self.meshes_by_atlas.len() - i,
        {
            if self.meshes_by_atlas[i].atlas_name == *name {
                return Some(i);
            }
            i += 1;
        }
        None
    }

    /// Takes in the mesh of an atlas that has none yet.
    pub fn add_mesh(&mut self, name: String, num_indices: u32)
        requires
            old(self).wf(),
            !old(self).has(name@),
        ensures
            final(self).wf(),
            final(self).meshes_by_atlas@ == old(self).meshes_by_atlas@.push(
                Mesh { atlas_name: name, num_indices, num_instances: 0, has_instance_buffer: false },
            ),
    {
        self.meshes_by_atlas.push(Mesh::new(name, num_indices));
    }

    /// Hands in the rows of the mesh at a place, and tells what the backend
    /// has to do with them.
    pub fn update_at(&mut self, place: usize, tile_instance: Vec<InstanceTileRaw>) -> (command:
        BufferCommand)
        requires
            place < old(self).meshes_by_atlas.len(),
            tile_instance.len() <= u32::MAX,
        ensures
            command.mesh == place,
            command.rows == tile_instance,
            command.action == old(self).meshes_by_atlas[place as int].decided(tile_instance.len() as u32),
            final(self).meshes_by_atlas@ == old(self).meshes_by_atlas@.update(
                place as int,
                old(self).meshes_by_atlas[place as int].synced(tile_instance.len() as u32),
            ),
            old(self).wf() ==> final(self).wf(),
    {
        let rows = tile_instance.len() as u32;
        let action = self.meshes_by_atlas[place].sync(rows);
        BufferCommand { mesh: place, action, rows: tile_instance }
    }

    /// Hands in the rows of the mesh of an atlas, and tells what the
    /// backend has to do with them: write them into the buffer that is
    /// there, if it holds as many rows, or make a buffer for them.
    /// Afterwards the mesh draws as many instances as there are rows. Every
    /// other mesh is left as it is, and no mesh leaves.
    pub fn update_mesh_instance(&mut self, name: &String, tile_instance: Vec<InstanceTileRaw>) -> (command:
        BufferCommand)
        requires
            old(self).has(name@),
            tile_instance.len() <= u32::MAX,
        ensures
            old(self).is_place_of(command.mesh as int, name@),
            command.rows == tile_instance,
            command.action == old(self).meshes_by_atlas[command.mesh as int].decided(
                tile_instance.len() as u32,
            ),
            final(self).meshes_by_atlas@ == old(self).meshes_by_atlas@.update(
                command.mesh as int,
                old(self).meshes_by_atlas[command.mesh as int].synced(tile_instance.len() as u32),
            ),
            old(self).wf() ==> final(self).wf(),
    {
        let place = match self.find(name) {
            Some(place) => place,
            None => 0,
        };
        self.update_at(place, tile_instance)
    }

    /// The render pass of a frame.
    pub fn render(&self) -> (pass: Vec<RenderCommand>)
        ensures
            pass@ == render_pass(self.meshes_by_atlas@),
    {
        let mut pass: Vec<RenderCommand> = Vec::new();
        pass.push(RenderCommand::BeginRenderPass);
        pass.push(RenderCommand::SetCameraBindGroup);
        assert(pass@ =~= opening());
        let mut i: usize = 0;
        while i < self.meshes_by_atlas.len()
            invariant
                0 <= i <= self.meshes_by_atlas.len(),
                pass@ == opening() + draws(self.meshes_by_atlas@.take(i as int)),
            decreases self.meshes_by_atlas.len() - i,
        {
            assert(self.meshes_by_atlas@.take(i + 1).drop_last() == self.meshes_by_atlas@.take(i as int));
            let ghost before = pass@;
            let mesh = &self.meshes_by_atlas[i];
            if mesh.has_instance_buffer {
                pass.push(RenderCommand::SetAtlasBindGroup { mesh: i });
                pass.push(RenderCommand::SetVertexBuffer { mesh: i });
                pass.push(RenderCommand::SetInstanceBuffer { mesh: i });
                pass.push(RenderCommand::SetIndexBuffer { mesh: i });
                pass.push(
                    RenderCommand::DrawIndexed {
                        num_indices: mesh.num_indices,
                        num_instances: mesh.num_instances,
                    },
                );
            }
            assert(pass@ =~= before + mesh.drawn(i as int));
            assert(pass@ =~= opening() + draws(self.meshes_by_atlas@.take(i + 1)));
            i += 1;
        }
        assert(self.meshes_by_atlas@.take(i as int) == self.meshes_by_atlas@);
        pass.push(RenderCommand::Present);
        pass
    }
}

impl Default for GPUResourceManager {
    fn default() -> (gpu: GPUResourceManager)
        ensures
            gpu.meshes_by_atlas.len() == 0,
            gpu.wf(),
    {
        GPUResourceManager { meshes_by_atlas: Vec::new() }
    }
}

} // verus!
