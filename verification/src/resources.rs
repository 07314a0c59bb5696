use vstd::prelude::*;

verus! {

/// A range of a mesh's index buffer drawn as one surface.
#[derive(Clone, Copy, Debug, PartialEq, Eq, Structural)]
pub struct GeoSurface {
    pub start_index: u32,
    pub count: u32,
}

impl Default for GeoSurface {
    fn default() -> (s: GeoSurface)
        ensures
            s.start_index == 0 && s.count == 0,
    {
        GeoSurface { start_index: 0, count: 0 }
    }
}

/// The indices of one mesh primitive as read from the model file: the count its
/// accessor declares and, when they could be read, the index values (relative to the
/// primitive's own vertices).
pub struct PrimitiveIndices {
    pub accessor_count: usize,
    pub values: Option<Vec<u32>>,
}

/// The index data of a mesh being assembled from its primitives: how many vertices
/// were added, the combined index buffer and one surface per indexed primitive.
pub struct MeshGeometry {
    vertex_count: usize,
    indices: Vec<u32>,
    surfaces: Vec<GeoSurface>,
}

/// `values` shifted by `base`.
pub open spec fn rebased(values: Seq<u32>, base: u32) -> Seq<u32> {
    values.map_values(|v: u32| (v + base) as u32)
}

/// Every value of `values` can be shifted by `base` within `u32`.
pub open spec fn rebase_fits(values: Seq<u32>, base: u32) -> bool {
    forall|k: int| 0 <= k < values.len() ==> #[trigger] values[k] + base <= u32::MAX
}

/// The surfaces cover `[0, len)` of the index buffer one after another, without gaps.
pub open spec fn surfaces_tile(surfaces: Seq<GeoSurface>, len: int) -> bool {
    if surfaces.len() == 0 {
        len == 0
    } else {
        &&& surfaces[0].start_index == 0
        &&& forall|k: int|
            0 <= k < surfaces.len() - 1 ==> #[trigger] surfaces[k].start_index + surfaces[k].count
                == surfaces[k + 1].start_index
        &&& surfaces.last().start_index + surfaces.last().count == len
    }
}

impl MeshGeometry {
    pub closed spec fn vertices(&self) -> nat {
        self.vertex_count as nat
    }

    pub closed spec fn index_values(&self) -> Seq<u32> {
        self.indices@
    }

    pub closed spec fn surface_list(&self) -> Seq<GeoSurface> {
        self.surfaces@
    }

    /// No vertices, indices or surfaces yet.
    pub fn new() -> (mesh: MeshGeometry)
        ensures
            mesh.vertices() == 0,
            mesh.index_values() == Seq::<u32>::empty(),
            mesh.surface_list() == Seq::<GeoSurface>::empty(),
    {
        MeshGeometry { vertex_count: 0, indices: Vec::new(), surfaces: Vec::new() }
    }

    /// Adds a primitive with `position_count` vertex positions (if it has positions)
    /// and its indices (if it is indexed). The primitive's indices are shifted by the
    /// number of vertices before it, and an indexed primitive adds a surface that
    /// starts at the current end of the index buffer and spans the accessor's count.
    pub fn add_primitive(&mut self, position_count: Option<usize>, indices: Option<PrimitiveIndices>)
        requires
            position_count matches Some(n) ==> old(self).vertices() + n <= usize::MAX,
            indices matches Some(p) ==> (p.values matches Some(v) ==> rebase_fits(
                v@,
                old(self).vertices() as u32,
            )),
        ensures
            final(self).vertices() == old(self).vertices() + match position_count {
                Some(n) => n as nat,
                None => 0,
            },
            final(self).index_values() == match indices {
                Some(p) => match p.values {
                    Some(v) => old(self).index_values() + rebased(v@, old(self).vertices() as u32),
                    None => old(self).index_values(),
                },
                None => old(self).index_values(),
            },
            indices matches Some(p) ==> (p.values matches Some(v) ==> {
                &&& final(self).index_values().len() == old(self).index_values().len() + v@.len()
                &&& forall|k: int|
                    0 <= k < old(self).index_values().len() ==> #[trigger] final(self).index_values()[k]
                        == old(self).index_values()[k]
                &&& forall|k: int|
                    0 <= k < v@.len() ==> #[trigger] final(self).index_values()[old(self).index_values().len()
                        + k] == v@[k] + (old(self).vertices() as u32)
                &&& old(self).vertices() <= u32::MAX ==> forall|k: int|
                    0 <= k < v@.len() ==> #[trigger] final(self).index_values()[old(self).index_values().len()
                        + k] == v@[k] + old(self).vertices()
            }),
            final(self).surface_list() == match indices {
                Some(p) => old(self).surface_list().push(
                    GeoSurface {
                        start_index: old(self).index_values().len() as u32,
                        count: p.accessor_count as u32,
                    },
                ),
                None => old(self).surface_list(),
            },
    {
        let initial_vertex_count = self.vertex_count;
        if let Some(n) = position_count {
            self.vertex_count = initial_vertex_count + n;
        }
        if let Some(primitive) = indices {
            let start_index = #[verifier::truncate] (self.indices.len() as u32);
            let base = #[verifier::truncate] (initial_vertex_count as u32);
            if let Some(values) = primitive.values {
                let ghost before = self.indices@;
                let ghost surfaces_before = self.surfaces@;
                let ghost vertices_now = self.vertex_count;
                let mut i: usize = 0;
                while i < values.len()
                    invariant
                        i <= values@.len(),
                        rebase_fits(values@, base),
                        self.indices@ == before + rebased(values@, base).take(i as int),
                        self.surfaces@ == surfaces_before,
                        self.vertex_count == vertices_now,
                    decreases values@.len() - i,
                {
                    proof {
                        assert(values@[i as int] + base <= u32::MAX);
                    }
                    self.indices.push(values[i] + base);
                    i = i + 1;
                    proof {
                        assert(rebased(values@, base).take(i as int) =~= rebased(values@, base).take(
                            (i - 1) as int,
                        ).push((values@[i - 1] + base) as u32));
                    }
                }
                proof {
                    assert(rebased(values@, base).take(values@.len() as int) =~= rebased(values@, base));
                    lemma_rebased_shifts(values@, base);
                    assert(base == old(self).vertices() as u32);
                    assert(before == old(self).index_values());
                    assert forall|k: int| 0 <= k < values@.len() implies #[trigger] self.indices@[before.len()
                        + k] == values@[k] + base by {
                        assert(self.indices@[before.len() + k] == rebased(values@, base)[k]);
                    }
                }
            }
            self.surfaces.push(GeoSurface { start_index, count: #[verifier::truncate] (primitive.accessor_count as u32) });
        }
    }

    /// The number of vertices added so far.
    pub fn vertex_count(&self) -> (n: usize)
        ensures
            n == self.vertices(),
    {
        self.vertex_count
    }

    /// Hands out the index buffer and the surfaces.
    pub fn into_parts(self) -> (parts: (Vec<u32>, Vec<GeoSurface>))
        ensures
            parts.0@ == self.index_values(),
            parts.1@ == self.surface_list(),
    {
        (self.indices, self.surfaces)
    }
}

/// When every indexed primitive's accessor count is the number of indices read for
/// it and the index buffer stays below 2^32 entries, the surfaces tile the index
/// buffer: each one starts where the previous one ends.
pub proof fn lemma_surfaces_tile(
    surfaces: Seq<GeoSurface>,
    index_len: int,
    accessor_count: usize,
    read_count: int,
)
    requires
        surfaces_tile(surfaces, index_len),
        accessor_count == read_count,
        index_len + read_count <= u32::MAX,
        0 <= read_count,
    ensures
        surfaces_tile(
            surfaces.push(GeoSurface { start_index: index_len as u32, count: accessor_count as u32 }),
            index_len + read_count,
        ),
{
    let next = surfaces.push(GeoSurface { start_index: index_len as u32, count: accessor_count as u32 });
    assert forall|k: int| 0 <= k < next.len() - 1 implies #[trigger] next[k].start_index + next[k].count
        == next[k + 1].start_index by {
        if k < surfaces.len() - 1 {
            assert(next[k] == surfaces[k] && next[k + 1] == surfaces[k + 1]);
        } else {
            assert(next[k] == surfaces.last());
        }
    }
}

/// Which model file the loaded meshes come from (empty before the first load).
pub struct MeshCache {
    path: String,
}

impl MeshCache {
    pub closed spec fn loaded_path(&self) -> Seq<char> {
        self.path@
    }

    /// Nothing loaded yet.
    pub fn new() -> (cache: MeshCache)
        ensures
            cache.loaded_path() == Seq::<char>::empty(),
    {
        MeshCache { path: String::new() }
    }

    /// Whether the meshes of `path` must be loaded: they are unless they are the ones
    /// loaded last.
    pub fn needs_load(&self, path: &String) -> (load: bool)
        ensures
            load == (self.loaded_path() != path@),
    {
        !(self.path == *path)
    }

    /// Records that the meshes of `path` are now the loaded ones.
    pub fn record_load(&mut self, path: &String)
        ensures
            final(self).loaded_path() == path@,
    {
        self.path = path.clone();
    }
}

/// Rebasing shifts each index by exactly the base, as integers, and keeps the count:
/// the `k`-th rebased index is the `k`-th read index plus the base, whenever the
/// shift fits in `u32` (no index is wrapped or reordered).
pub proof fn lemma_rebased_shifts(values: Seq<u32>, base: u32)
    requires
        rebase_fits(values, base),
    ensures
        rebased(values, base).len() == values.len(),
        forall|k: int| 0 <= k < values.len() ==> #[trigger] rebased(values, base)[k] == values[k] + base,
{
    assert forall|k: int| 0 <= k < values.len() implies #[trigger] rebased(values, base)[k] == values[k]
        + base by {
        assert(values[k] + base <= u32::MAX);
    }
}

} // verus!
