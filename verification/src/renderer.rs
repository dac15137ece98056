//! What the GPU backend is told: the rows of the instance buffers, when to
//! write and when to replace a buffer, and the draw commands of a frame.

pub mod gpu_resource_manager;
pub mod mesh;
pub mod surface;

pub use gpu_resource_manager::{
    get_buffer_rows, BufferAction, BufferCommand, GPUResourceManager, Mesh, RenderCommand,
};
pub use mesh::InstanceTileRaw;
pub use surface::{recover, Recovery, SurfaceFault};
