//! Meshes on the GPU: the table that hands out mesh ids and keeps each
//! mesh's buffers, and the per-frame list of draws.
use vstd::prelude::*;
use crate::renderer::graphics::api::{VkDeviceAddress};
use crate::id::{Id, IdSystem, INVALID_ID_VALUE, id_index, lemma_decompose, lemma_invalid_index};
use crate::renderer::graphics::AllocatedBuffer;
use crate::renderer::buffer::StructuredBuffer;
use crate::renderer::material::MaterialInstanceId;

verus! {

/// A handle to a mesh of the mesh system.
#[derive(Debug, Clone, Copy, PartialEq, Eq, Structural)]
pub struct MeshId(pub Id);

impl MeshId {
    /// The id that names no mesh.
    pub fn invalid() -> (r: Self)
        ensures
            r.0.0 == INVALID_ID_VALUE,
    {
        MeshId(Id::invalid())
    }
}

/// The number of meshes the mesh system can hold.
pub const MAX_LOADED_MESHES: usize = 500;

/// The size in bytes of one vertex: position, normal and color with two
/// texture coordinates, in single precision.
pub const VERTEX_SIZE: usize = 48;

/// The size in bytes of one index.
pub const INDEX_SIZE: usize = 4;

/// Whether a mesh slot holds an uploaded mesh.
#[derive(Debug, Clone, Copy, PartialEq, Eq, Structural)]
pub enum MeshFlags {
    NoFlags,
    Alive,
}

/// What the mesh table knows of a slot.
#[derive(Debug, Clone, Copy, PartialEq, Eq, Structural)]
pub struct MeshMetadata {
    pub id: MeshId,
    pub ref_count: usize,
    pub flags: MeshFlags,
}

/// A 4x4 matrix of single-precision numbers, kept as their bits in column
/// order.
#[derive(Debug, Clone, Copy, PartialEq, Eq)]
pub struct MatrixBits {
    pub m: [u32; 16],
}

/// The buffers of an uploaded mesh, with its transform and material.
#[derive(Debug, Clone, Copy, PartialEq, Eq)]
pub struct GpuMeshBuffers {
    pub material: MaterialInstanceId,
    pub index_buffer: AllocatedBuffer,
    pub vertex_buffer: AllocatedBuffer,
    pub vertex_buffer_address: VkDeviceAddress,
    pub index_count: u32,
    pub transform: MatrixBits,
}

/// The push constants of a mesh draw: where its vertices are, where the
/// frame's per-mesh data is, and which element of it is the mesh's.
#[derive(Debug, Clone, Copy, PartialEq, Eq, Structural)]
pub struct GpuDrawPushConstants {
    pub vertex_buffer: VkDeviceAddress,
    pub mesh_data_buffer: VkDeviceAddress,
    pub mesh_index: u32,
}

/// One draw of a mesh.
#[derive(Debug, Clone, Copy, PartialEq, Eq, Structural)]
pub struct GpuMeshDraw {
    pub index_buffer: AllocatedBuffer,
    pub index_count: u32,
    pub push_constant: GpuDrawPushConstants,
    pub material: MaterialInstanceId,
}

/// The draw of `mesh` as the `k`-th mesh of a frame whose per-mesh data is at
/// `uniform_address`.
pub open spec fn mesh_draw(mesh: GpuMeshBuffers, uniform_address: u64, k: int) -> GpuMeshDraw {
    GpuMeshDraw {
        index_buffer: mesh.index_buffer,
        index_count: mesh.index_count,
        push_constant: GpuDrawPushConstants {
            vertex_buffer: mesh.vertex_buffer_address,
            mesh_data_buffer: uniform_address,
            mesh_index: k as u32,
        },
        material: mesh.material,
    }
}

/// The sizes in bytes of the vertex and index buffers of a mesh.
pub fn mesh_buffer_sizes(vertex_count: usize, index_count: usize) -> (r: (usize, usize))
    requires
        vertex_count * VERTEX_SIZE <= usize::MAX,
        index_count * INDEX_SIZE <= usize::MAX,
    ensures
        r.0 == vertex_count * VERTEX_SIZE,
        r.1 == index_count * INDEX_SIZE,
{
    (vertex_count * VERTEX_SIZE, index_count * INDEX_SIZE)
}

/// The meshes of the renderer, each in the slot of its id, and the buffer the
/// per-mesh data of each frame is written to.
pub struct MeshSystem {
    metadata: Vec<MeshMetadata>,
    meshes: Vec<GpuMeshBuffers>,
    id_gen: IdSystem,
    gpu_data: StructuredBuffer,
}

impl MeshSystem {
    /// The table is as large as its id space, each slot remembers the id
    /// stored in it (or the invalid id), and no slot is ever referenced.
    pub closed spec fn wf(&self) -> bool {
        &&& self.metadata@.len() == MAX_LOADED_MESHES
        &&& self.meshes@.len() == MAX_LOADED_MESHES
        &&& self.id_gen.wf()
        &&& self.id_gen.capacity() == MAX_LOADED_MESHES
        &&& forall|i: int|
            0 <= i < MAX_LOADED_MESHES ==> {
                &&& (id_index((#[trigger] self.metadata@[i]).id.0.0) == i || self.metadata@[i].id.0.0
                    == INVALID_ID_VALUE)
                &&& self.metadata@[i].ref_count == 0
            }
    }

    /// Whether an id names a mesh of the table.
    pub closed spec fn is_valid(&self, id: MeshId) -> bool {
        self.id_gen.spec_is_id_valid(id.0)
    }

    /// The buffers in the slot of a valid id.
    pub closed spec fn mesh_of(&self, id: MeshId) -> GpuMeshBuffers {
        self.meshes@[id_index(id.0.0) as int]
    }

    /// Whether creating a mesh would fail for want of a free slot.
    pub closed spec fn is_full(&self) -> bool {
        self.id_gen.is_full()
    }

    /// The buffer per-mesh data is written to.
    pub closed spec fn uniform_buffer(&self) -> StructuredBuffer {
        self.gpu_data
    }

    /// Whether slot `i` holds an uploaded mesh under a valid id.
    pub closed spec fn slot_drawn(&self, i: int) -> bool {
        &&& self.id_gen.spec_is_id_valid(self.metadata@[i].id.0)
        &&& self.metadata@[i].flags == MeshFlags::Alive
    }

    /// The meshes of the drawn slots below `n`, in slot order.
    pub closed spec fn drawn_meshes(&self, n: nat) -> Seq<GpuMeshBuffers>
        decreases n,
    {
        if n == 0 {
            Seq::empty()
        } else {
            let prev = self.drawn_meshes((n - 1) as nat);
            if self.slot_drawn(n - 1) {
                prev.push(self.meshes@[n - 1])
            } else {
                prev
            }
        }
    }

    /// An empty mesh table whose per-mesh data goes to `gpu_data`.
    pub fn new(gpu_data: StructuredBuffer) -> (r: Self)
        ensures
            r.wf(),
            forall|id: MeshId| !r.is_valid(id),
            r.uniform_buffer() == gpu_data,
    {
        let empty_meta = MeshMetadata { id: MeshId::invalid(), ref_count: 0, flags: MeshFlags::NoFlags };
        let empty_mesh = GpuMeshBuffers {
            material: MaterialInstanceId::invalid(),
            index_buffer: AllocatedBuffer { buffer: 0, allocation: 0, size: 0, offset: 0 },
            vertex_buffer: AllocatedBuffer { buffer: 0, allocation: 0, size: 0, offset: 0 },
            vertex_buffer_address: 0,
            index_count: 0,
            transform: MatrixBits { m: [0u32; 16] },
        };
        let mut metadata: Vec<MeshMetadata> = Vec::new();
        let mut meshes: Vec<GpuMeshBuffers> = Vec::new();
        let mut i: usize = 0;
        while i < MAX_LOADED_MESHES
            invariant
                i <= MAX_LOADED_MESHES,
                metadata@.len() == i,
                meshes@.len() == i,
                empty_meta.id.0.0 == INVALID_ID_VALUE,
                empty_meta.ref_count == 0,
                forall|k: int| 0 <= k < i ==> #[trigger] metadata@[k] == empty_meta,
            decreases MAX_LOADED_MESHES - i,
        {
            metadata.push(empty_meta);
            meshes.push(empty_mesh);
            i = i + 1;
        }
        MeshSystem { metadata, meshes, id_gen: IdSystem::new(MAX_LOADED_MESHES), gpu_data }
    }

    /// Takes an id for a new mesh, whose buffers are stored once uploaded.
    /// Returns the invalid id, changing nothing, when the table is full.
    pub fn create_mesh(&mut self) -> (r: MeshId)
        requires
            old(self).wf(),
        ensures
            final(self).wf(),
            final(self).uniform_buffer() == old(self).uniform_buffer(),
            old(self).is_full() ==> {
                &&& r.0.0 == INVALID_ID_VALUE
                &&& forall|id: MeshId| #[trigger] final(self).is_valid(id) == old(self).is_valid(id)
            },
            !old(self).is_full() ==> {
                &&& !old(self).is_valid(r)
                &&& final(self).is_valid(r)
                &&& forall|id: MeshId| id != r ==> (#[trigger] final(self).is_valid(id) == old(self).is_valid(id))
            },
            forall|id: MeshId| #[trigger] final(self).mesh_of(id) == old(self).mesh_of(id),
    {
        let ghost old_gens = self.id_gen.gens();
        match self.id_gen.alloc_id() {
            Err(_) => MeshId::invalid(),
            Ok(id) => {
                proof {
                    assert forall|other: MeshId| other != MeshId(id) implies (#[trigger] self.is_valid(other)
                        == old(self).is_valid(other)) by {
                        lemma_decompose(other.0.0);
                        lemma_decompose(id.0);
                        if id_index(other.0.0) == id_index(id.0) && self.id_gen.spec_is_id_valid(other.0) {
                            assert(other.0.0 == id.0);
                        }
                    }
                }
                MeshId(id)
            },
        }
    }

    /// Stores the uploaded buffers of a mesh and marks it for drawing.
    pub fn store_mesh(&mut self, id: MeshId, buffers: GpuMeshBuffers)
        requires
            old(self).wf(),
            old(self).is_valid(id),
        ensures
            final(self).wf(),
            final(self).uniform_buffer() == old(self).uniform_buffer(),
            final(self).is_full() == old(self).is_full(),
            forall|other: MeshId| #[trigger] final(self).is_valid(other) == old(self).is_valid(other),
            final(self).mesh_of(id) == buffers,
            forall|other: MeshId| old(self).is_valid(other) && other != id ==> #[trigger] final(self).mesh_of(other)
                == old(self).mesh_of(other),
            final(self).slot_drawn(id_index(id.0.0) as int),
    {
        proof {
            self.id_gen.lemma_wf_bounds();
            lemma_decompose(id.0.0);
        }
        let idx = id.0.get_index() as usize;
        let ref_count = self.metadata[idx].ref_count;
        self.meshes.set(idx, buffers);
        self.metadata.set(idx, MeshMetadata { id, ref_count, flags: MeshFlags::Alive });
        proof {
            assert forall|other: MeshId| old(self).is_valid(other) && other != id implies #[trigger] self.mesh_of(other)
                == old(self).mesh_of(other) by {
                lemma_decompose(other.0.0);
                if id_index(other.0.0) == idx as u64 {
                    assert(other.0.0 == id.0.0);
                }
            }
        }
    }

    /// Destroys a mesh that exactly one owner refers to: frees its id and
    /// returns its vertex and index buffers, for the caller to free on the
    /// GPU. No mesh ever has an owner counted, so nothing is destroyed.
    pub fn destroy_mesh(&mut self, mesh_id: MeshId) -> (r: Option<(AllocatedBuffer, AllocatedBuffer)>)
        requires
            old(self).wf(),
        ensures
            final(self).wf(),
            r is None,
            forall|id: MeshId| #[trigger] final(self).is_valid(id) == old(self).is_valid(id),
            forall|id: MeshId| #[trigger] final(self).mesh_of(id) == old(self).mesh_of(id),
            final(self).uniform_buffer() == old(self).uniform_buffer(),
    {
        proof {
            self.id_gen.lemma_wf_bounds();
        }
        if self.id_gen.is_id_valid(mesh_id.0) && self.metadata[mesh_id.0.get_index() as usize].ref_count == 1 {
            let idx = mesh_id.0.get_index() as usize;
            let buffers = (self.meshes[idx].vertex_buffer, self.meshes[idx].index_buffer);
            self.id_gen.free_id(mesh_id.0);
            Some(buffers)
        } else {
            None
        }
    }

    /// The meshes of every drawn slot, in slot order.
    pub fn collect_live_meshes(&self) -> (r: Vec<GpuMeshBuffers>)
        requires
            self.wf(),
        ensures
            r@ == self.drawn_meshes(MAX_LOADED_MESHES as nat),
    {
        let mut result: Vec<GpuMeshBuffers> = Vec::new();
        let mut i: usize = 0;
        while i < MAX_LOADED_MESHES
            invariant
                i <= MAX_LOADED_MESHES,
                self.wf(),
                result@ == self.drawn_meshes(i as nat),
            decreases MAX_LOADED_MESHES - i,
        {
            let meta = self.metadata[i];
            let alive = match meta.flags {
                MeshFlags::Alive => true,
                MeshFlags::NoFlags => false,
            };
            if self.id_gen.is_id_valid(meta.id.0) && alive {
                result.push(self.meshes[i]);
            }
            i = i + 1;
        }
        result
    }

    /// Maps the per-mesh data of frame `frame_index` and makes one draw per
    /// mesh, the `k`-th mesh taking the `k`-th element of the frame's data.
    /// The caller writes each mesh's transform to that element.
    pub fn build_draw_list(&mut self, frame_index: usize, meshes_to_draw: &Vec<GpuMeshBuffers>) -> (r: Vec<GpuMeshDraw>)
        requires
            old(self).wf(),
            frame_index < old(self).uniform_buffer().buffered_frames,
            meshes_to_draw.len() < old(self).uniform_buffer().capacity,
            old(self).uniform_buffer().capacity * frame_index <= usize::MAX,
            old(self).uniform_buffer().capacity * frame_index * old(self).uniform_buffer().element_size <= usize::MAX,
            old(self).uniform_buffer().address + old(self).uniform_buffer().capacity * frame_index
                * old(self).uniform_buffer().element_size <= u64::MAX,
        ensures
            final(self).wf(),
            forall|id: MeshId| #[trigger] final(self).is_valid(id) == old(self).is_valid(id),
            forall|id: MeshId| #[trigger] final(self).mesh_of(id) == old(self).mesh_of(id),
            ({
                let buf = old(self).uniform_buffer();
                let address = (buf.address + buf.capacity * frame_index * buf.element_size) as u64;
                &&& r@.len() == meshes_to_draw@.len()
                &&& forall|k: int| 0 <= k < r@.len() ==> #[trigger] r@[k] == mesh_draw(meshes_to_draw@[k], address, k)
                &&& final(self).uniform_buffer() == (StructuredBuffer {
                    mapped: false,
                    frame_index: frame_index,
                    count_in_frame: meshes_to_draw@.len() as usize,
                    ..buf
                })
            }),
    {
        let mut draws: Vec<GpuMeshDraw> = Vec::new();
        self.gpu_data.map_frame(frame_index);
        let uniform_buffer_address = self.gpu_data.get_device_address();
        let mut k: usize = 0;
        while k < meshes_to_draw.len()
            invariant
                k <= meshes_to_draw.len(),
                meshes_to_draw.len() < self.gpu_data.capacity,
                self.id_gen == old(self).id_gen,
                self.metadata@ == old(self).metadata@,
                self.meshes@ == old(self).meshes@,
                self.gpu_data == (StructuredBuffer {
                    mapped: true,
                    frame_index: frame_index,
                    count_in_frame: k,
                    ..old(self).gpu_data
                }),
                draws@.len() == k,
                forall|j: int| 0 <= j < k ==> #[trigger] draws@[j] == mesh_draw(meshes_to_draw@[j], uniform_buffer_address, j),
            decreases meshes_to_draw.len() - k,
        {
            let mesh = meshes_to_draw[k];
            let index = self.gpu_data.write_next();
            let push_const = GpuDrawPushConstants {
                vertex_buffer: mesh.vertex_buffer_address,
                mesh_data_buffer: uniform_buffer_address,
                mesh_index: index as u32,
            };
            draws.push(GpuMeshDraw {
                index_buffer: mesh.index_buffer,
                index_count: mesh.index_count,
                push_constant: push_const,
                material: mesh.material,
            });
            k = k + 1;
        }
        self.gpu_data.unmap_frame();
        draws
    }

    /// Whether slot `i` holds a stored mesh under a valid id.
    pub closed spec fn slot_stored(&self, i: int) -> bool {
        self.id_gen.spec_is_id_valid(self.metadata@[i].id.0)
    }

    /// The vertex and index buffers of the stored slots below `n`, in slot
    /// order.
    pub closed spec fn stored_buffers(&self, n: nat) -> Seq<AllocatedBuffer>
        decreases n,
    {
        if n == 0 {
            Seq::empty()
        } else {
            let prev = self.stored_buffers((n - 1) as nat);
            if self.slot_stored(n - 1) {
                prev.push(self.meshes@[n - 1].vertex_buffer).push(self.meshes@[n - 1].index_buffer)
            } else {
                prev
            }
        }
    }

    /// Forgets every mesh; returns, for the caller to free on the GPU, the
    /// vertex and index buffer of each stored slot in slot order, then the
    /// per-mesh data buffer.
    pub fn destroy(&mut self) -> (r: Vec<AllocatedBuffer>)
        requires
            old(self).wf(),
        ensures
            r@ == old(self).stored_buffers(MAX_LOADED_MESHES as nat).push(old(self).uniform_buffer().handle),
            final(self).uniform_buffer().address == 0,
            final(self).uniform_buffer().capacity == 0,
    {
        let mut buffers: Vec<AllocatedBuffer> = Vec::new();
        let mut i: usize = 0;
        while i < MAX_LOADED_MESHES
            invariant
                i <= MAX_LOADED_MESHES,
                self.wf(),
                self.gpu_data == old(self).gpu_data,
                self.metadata@ == old(self).metadata@,
                self.meshes@ == old(self).meshes@,
                self.id_gen == old(self).id_gen,
                buffers@ == old(self).stored_buffers(i as nat),
            decreases MAX_LOADED_MESHES - i,
        {
            if self.id_gen.is_id_valid(self.metadata[i].id.0) {
                buffers.push(self.meshes[i].vertex_buffer);
                buffers.push(self.meshes[i].index_buffer);
            }
            i = i + 1;
        }
        let handle = self.gpu_data.destroy();
        buffers.push(handle);
        buffers
    }
}

/// Every mesh stored in a drawn slot is among the meshes collected for
/// drawing: what `store_mesh` stores, `collect_live_meshes` hands to the
/// next frame.
pub proof fn lemma_stored_mesh_is_collected(sys: &MeshSystem, id: MeshId)
    requires
        sys.wf(),
        sys.is_valid(id),
        sys.slot_drawn(id_index(id.0.0) as int),
    ensures
        sys.drawn_meshes(MAX_LOADED_MESHES as nat).contains(sys.mesh_of(id)),
{
    sys.id_gen.lemma_wf_bounds();
    lemma_drawn_prefix(sys, id_index(id.0.0) as int, MAX_LOADED_MESHES as nat);
}

proof fn lemma_drawn_prefix(sys: &MeshSystem, i: int, n: nat)
    requires
        0 <= i < n,
        sys.slot_drawn(i),
    ensures
        sys.drawn_meshes(n).contains(sys.meshes@[i]),
    decreases n,
{
    let prev = sys.drawn_meshes((n - 1) as nat);
    if i == n - 1 {
        assert(sys.drawn_meshes(n) == prev.push(sys.meshes@[i]));
        assert(sys.drawn_meshes(n)[prev.len() as int] == sys.meshes@[i]);
    } else {
        lemma_drawn_prefix(sys, i, (n - 1) as nat);
        let k = choose|k: int| 0 <= k < prev.len() && prev[k] == sys.meshes@[i];
        if sys.slot_drawn(n - 1) {
            assert(sys.drawn_meshes(n)[k] == sys.meshes@[i]);
        }
    }
}

} // verus!
