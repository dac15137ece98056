//! The rows of the instance buffers, atlas by atlas.

use vstd::prelude::*;
use crate::renderer::gpu_resource_manager::{BufferCommand, GPUResourceManager};
use crate::renderer::mesh::InstanceTileRaw;
use crate::resources::tile_map_storage::TileMapStorage;
use crate::world::Record;

verus! {

/// Hands the rows of every atlas to its mesh: the ground to the mesh of the
/// ground's atlas, the sprites of the entities to the meshes of theirs.
pub struct UpdateMeshes;

impl UpdateMeshes {
    /// Whether an entity is drawn from an atlas: it has a place and a
    /// sprite of that atlas.
    pub open spec fn shows(r: Record, atlas: Seq<char>) -> bool {
        r.tile is Some && r.transform is Some && r.tile.unwrap().atlas@ == atlas
    }

    /// The rows of the entities that are drawn from an atlas, in the order
    /// of the entities.
    pub open spec fn rows_of(records: Seq<Record>, atlas: Seq<char>) -> Seq<InstanceTileRaw>
        decreases records.len(),
    {
        if records.len() == 0 {
            Seq::empty()
        } else if Self::shows(records.last(), atlas) {
            Self::rows_of(records.drop_last(), atlas).push(
                InstanceTileRaw::of(records.last().tile.unwrap(), records.last().transform.unwrap()),
            )
        } else {
            Self::rows_of(records.drop_last(), atlas)
        }
    }

    /// The rows of an atlas: those of the ground that are drawn, for the
    /// atlas of the ground; else those of the entities drawn from it.
    pub open spec fn rows_for(
        atlas: Seq<char>,
        records: Seq<Record>,
        ground_atlas: Seq<char>,
        ground: Seq<InstanceTileRaw>,
    ) -> Seq<InstanceTileRaw> {
        if atlas == ground_atlas {
            ground
        } else {
            Self::rows_of(records, atlas)
        }
    }

    /// There are no more rows than entities.
    pub proof fn lemma_rows_of_len(records: Seq<Record>, atlas: Seq<char>)
        ensures
            Self::rows_of(records, atlas).len() <= records.len(),
        decreases records.len(),
    {
        if records.len() > 0 {
            Self::lemma_rows_of_len(records.drop_last(), atlas);
        }
    }

    /// The rows of the entities that are drawn from an atlas.
    pub fn collect(records: &Vec<Record>, atlas: &String) -> (rows: Vec<InstanceTileRaw>)
        ensures
            rows@ == Self::rows_of(records@, atlas@),
            rows.len() <= records.len(),
    {
        proof {
            Self::lemma_rows_of_len(records@, atlas@);
        }
        let mut rows: Vec<InstanceTileRaw> = Vec::new();
        let mut i: usize = 0;
        while i < records.len()
            invariant
                0 <= i <= records.len(),
                rows@ == Self::rows_of(records@.take(i as int), atlas@),
            decreases records.len() - i,
        {
            assert(records@.take(i + 1).drop_last() == records@.take(i as int));
            let r = &records[i];
            match (&r.tile, &r.transform) {
                (Some(tile), Some(transform)) => {
                    if tile.atlas == *atlas {
                        rows.push(InstanceTileRaw::new(tile, transform));
                    }
                },
                _ => {},
            }
            i += 1;
        }
        assert(records@.take(i as int) == records@);
        rows
    }

    /// Runs the system, and hands back the orders to the backend, one for
    /// each mesh, in the order of the meshes.
    pub fn run(&self, records: &Vec<Record>, map: &TileMapStorage, gpu: &mut GPUResourceManager) -> (commands:
        Vec<BufferCommand>)
        requires
            records.len() <= u32::MAX,
            map.meshes.len() <= u32::MAX,
        ensures
            commands.len() == old(gpu).meshes_by_atlas.len(),
            final(gpu).meshes_by_atlas.len() == old(gpu).meshes_by_atlas.len(),
            forall|i: int|
                0 <= i < commands.len() ==> {
                    let mesh = old(gpu).meshes_by_atlas[i];
                    let rows = Self::rows_for(mesh.atlas_name@, records@, map.atlas@, map.meshes@);
                    &&& (#[trigger] commands[i]).mesh == i
                    &&& commands[i].rows@ == rows
                    &&& commands[i].action == mesh.decided(rows.len() as u32)
                },
            forall|i: int|
                0 <= i < commands.len() ==> #[trigger] final(gpu).meshes_by_atlas[i] == old(
                    gpu,
                ).meshes_by_atlas[i].synced(
                    Self::rows_for(
                        old(gpu).meshes_by_atlas[i].atlas_name@,
                        records@,
                        map.atlas@,
                        map.meshes@,
                    ).len() as u32,
                ),
            old(gpu).wf() ==> final(gpu).wf(),
    {
        let count = gpu.meshes_by_atlas.len();
        let mut commands: Vec<BufferCommand> = Vec::new();
        let mut i: usize = 0;
        while i < count
            invariant
                0 <= i <= count,
                records.len() <= u32::MAX,
                map.meshes.len() <= u32::MAX,
                gpu.meshes_by_atlas.len() == count,
                old(gpu).meshes_by_atlas.len() == count,
                commands.len() == i,
                forall|j: int| i <= j < count ==> #[trigger] gpu.meshes_by_atlas[j] == old(gpu).meshes_by_atlas[j],
                forall|j: int|
                    0 <= j < i ==> {
                        let mesh = old(gpu).meshes_by_atlas[j];
                        let rows = Self::rows_for(mesh.atlas_name@, records@, map.atlas@, map.meshes@);
                        &&& (#[trigger] commands[j]).mesh == j
                        &&& commands[j].rows@ == rows
                        &&& commands[j].action == mesh.decided(rows.len() as u32)
                    },
                forall|j: int|
                    0 <= j < i ==> #[trigger] gpu.meshes_by_atlas[j] == old(gpu).meshes_by_atlas[j].synced(
                        Self::rows_for(
                            old(gpu).meshes_by_atlas[j].atlas_name@,
                            records@,
                            map.atlas@,
                            map.meshes@,
                        ).len() as u32,
                    ),
                old(gpu).wf() ==> gpu.wf(),
            decreases count - i,
        {
            let rows = if gpu.meshes_by_atlas[i].atlas_name == map.atlas {
                map.get_meshes()
            } else {
                Self::collect(records, &gpu.meshes_by_atlas[i].atlas_name)
            };
            let command = gpu.update_at(i, rows);
            commands.push(command);
            i += 1;
        }
        commands
    }
}

} // verus!
