use vstd::prelude::*;
use vstd::layout::size_of;

verus! {

/// Bytes needed to hold `capacity` values of `T`.
pub open spec fn buffer_bytes<T>(capacity: int) -> int {
    capacity * size_of::<T>()
}

/// The byte size of a GPU buffer holding `capacity` values of `T`.
pub fn required_buffer_size<T>(capacity: usize) -> (size: u64)
    requires
        buffer_bytes::<T>(capacity as int) <= u64::MAX,
    ensures
        size == buffer_bytes::<T>(capacity as int),
{
    let element_size = core::mem::size_of::<T>();
    (capacity as u64) * (element_size as u64)
}

/// What to do with a buffer so that it holds exactly the required size.
#[derive(Clone, Copy, Debug, PartialEq, Eq, Structural)]
pub enum BufferAction {
    /// The buffer already has the required size.
    Keep,
    /// Create a buffer of `new_size` bytes, wait for the device to go idle, destroy
    /// the old buffer and use the new one.
    Reallocate { new_size: u64 },
}

/// The action that brings a buffer of `current_size` bytes to `required_size` bytes.
pub open spec fn capacity_action(current_size: u64, required_size: u64) -> BufferAction {
    if current_size == required_size {
        BufferAction::Keep
    } else {
        BufferAction::Reallocate { new_size: required_size }
    }
}

/// The buffer size after carrying out `action` on a buffer of `current_size` bytes.
pub open spec fn size_after(current_size: u64, action: BufferAction) -> u64 {
    match action {
        BufferAction::Keep => current_size,
        BufferAction::Reallocate { new_size } => new_size,
    }
}

/// Decides how to make a buffer of `current_size` bytes hold exactly
/// `required_capacity` values of `T`: it is replaced whenever its size differs
/// (larger or smaller), and kept otherwise.
pub fn ensure_buffer_capacity<T>(current_size: u64, required_capacity: usize) -> (action: BufferAction)
    requires
        buffer_bytes::<T>(required_capacity as int) <= u64::MAX,
    ensures
        action == capacity_action(current_size, buffer_bytes::<T>(required_capacity as int) as u64),
{
    let required_size = required_buffer_size::<T>(required_capacity);
    if current_size == required_size {
        BufferAction::Keep
    } else {
        BufferAction::Reallocate { new_size: required_size }
    }
}

/// After the decided action is carried out the buffer has the required size, and
/// asking again for the same capacity keeps it.
pub proof fn lemma_ensure_capacity_settles(current_size: u64, required_size: u64)
    ensures
        size_after(current_size, capacity_action(current_size, required_size)) == required_size,
        capacity_action(size_after(current_size, capacity_action(current_size, required_size)), required_size)
            == BufferAction::Keep,
{
}

/// Where the vertex and index data of a mesh go in its staging buffer.
#[derive(Clone, Copy, Debug, PartialEq, Eq, Structural)]
pub struct MeshStagingLayout {
    /// Size of the vertex buffer (and of the vertex region, at offset 0).
    pub vertex_buffer_size: u64,
    /// Size of the index buffer (and of the index region).
    pub index_buffer_size: u64,
    /// Offset of the index region in the staging buffer.
    pub index_offset: u64,
    /// Size of the whole staging buffer.
    pub staging_size: u64,
}

/// The staging layout of a mesh with `vertex_count` vertices of type `V` and
/// `index_count` `u32` indices: the vertices first, the indices right after them.
pub fn mesh_staging_layout<V>(vertex_count: usize, index_count: usize) -> (layout: MeshStagingLayout)
    requires
        buffer_bytes::<V>(vertex_count as int) + buffer_bytes::<u32>(index_count as int) <= u64::MAX,
    ensures
        layout.vertex_buffer_size == buffer_bytes::<V>(vertex_count as int),
        layout.index_buffer_size == buffer_bytes::<u32>(index_count as int),
        layout.index_offset == layout.vertex_buffer_size,
        layout.staging_size == layout.vertex_buffer_size + layout.index_buffer_size,
{
    proof {
        assert(buffer_bytes::<V>(vertex_count as int) >= 0) by (nonlinear_arith)
            requires
                vertex_count >= 0,
                size_of::<V>() >= 0,
        ;
        assert(buffer_bytes::<u32>(index_count as int) >= 0) by (nonlinear_arith)
            requires
                index_count >= 0,
                size_of::<u32>() >= 0,
        ;
    }
    let vertex_buffer_size = required_buffer_size::<V>(vertex_count);
    let index_buffer_size = required_buffer_size::<u32>(index_count);
    MeshStagingLayout {
        vertex_buffer_size,
        index_buffer_size,
        index_offset: vertex_buffer_size,
        staging_size: vertex_buffer_size + index_buffer_size,
    }
}

/// Byte `b` of the staging buffer belongs to the vertex data.
pub open spec fn in_vertex_region(layout: MeshStagingLayout, b: int) -> bool {
    0 <= b < layout.vertex_buffer_size
}

/// Byte `b` of the staging buffer belongs to the index data.
pub open spec fn in_index_region(layout: MeshStagingLayout, b: int) -> bool {
    layout.index_offset <= b < layout.index_offset + layout.index_buffer_size
}

/// The vertex region `[0, vertex_buffer_size)` and the index region
/// `[index_offset, index_offset + index_buffer_size)` do not overlap and together
/// fill the staging buffer exactly.
pub proof fn lemma_staging_regions_tile(layout: MeshStagingLayout)
    requires
        layout.index_offset == layout.vertex_buffer_size,
        layout.staging_size == layout.vertex_buffer_size + layout.index_buffer_size,
    ensures
        forall|b: int|
            0 <= b < layout.staging_size ==> #[trigger] in_vertex_region(layout, b) != in_index_region(
                layout,
                b,
            ),
        layout.index_offset + layout.index_buffer_size == layout.staging_size,
{
}

} // verus!
