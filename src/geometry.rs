use vstd::prelude::*;

verus! {

/// Number of vertices that 16-bit indices can address.
pub const MAX_VERTICES: usize = 65536;

/// One contiguous slice `[index_low, index_high)` of the index buffer, drawn
/// with one pipeline: the textured one with the texture at `texture` when it
/// holds an index, the flat-colored one otherwise.
#[derive(Clone, Copy, Debug, PartialEq, Eq, Structural)]
pub struct DrawBatch {
    pub index_low: u32,
    pub index_high: u32,
    pub texture: Option<usize>,
}

/// Every index in `ix` addresses one of `n` vertices.
pub open spec fn indices_bounded(ix: Seq<u16>, n: int) -> bool {
    forall|k: int| 0 <= k < ix.len() ==> (#[trigger] ix[k] as int) < n
}

/// `ix` with `offset` added to every index.
pub open spec fn offset_indices(ix: Seq<u16>, offset: int) -> Seq<u16> {
    ix.map_values(|j: u16| (j + offset) as u16)
}

/// The two triangles of a quad whose corners come in the order
/// top-left, bottom-left, bottom-right, top-right.
pub open spec fn quad_index_seq() -> Seq<u16> {
    seq![0u16, 1, 3, 1, 2, 3]
}

/// The six indices of a quad, as `quad_index_seq` gives them.
pub fn quad_indices() -> (r: [u16; 6])
    ensures
        r@ == quad_index_seq(),
{
    let r: [u16; 6] = [0, 1, 3, 1, 2, 3];
    assert(r@ =~= quad_index_seq());
    r
}

/// Staging geometry of one frame: vertices, 16-bit indices into them, and
/// the draw batches recorded in call order. `uploaded` is the index count
/// of the last upload to the GPU.
pub struct Staging<V> {
    vertices: Vec<V>,
    indices: Vec<u16>,
    batches: Vec<DrawBatch>,
    uploaded: u32,
}

impl<V: Copy> Staging<V> {
    pub closed spec fn vertex_seq(&self) -> Seq<V> {
        self.vertices@
    }

    pub closed spec fn index_seq(&self) -> Seq<u16> {
        self.indices@
    }

    pub closed spec fn batch_seq(&self) -> Seq<DrawBatch> {
        self.batches@
    }

    pub closed spec fn uploaded_count(&self) -> nat {
        self.uploaded as nat
    }

    /// Every index addresses a staged vertex, and the counts fit 16-bit
    /// indices and 32-bit batch bounds.
    pub open spec fn wf(&self) -> bool {
        &&& self.vertex_seq().len() <= MAX_VERTICES
        &&& self.index_seq().len() <= u32::MAX
        &&& indices_bounded(self.index_seq(), self.vertex_seq().len() as int)
    }

    /// `nv` vertices and the indices `ix`, local to them, can be appended.
    pub open spec fn can_append(&self, nv: nat, ix: Seq<u16>) -> bool {
        &&& self.vertex_seq().len() + nv <= MAX_VERTICES
        &&& self.index_seq().len() + ix.len() <= u32::MAX
        &&& indices_bounded(ix, nv as int)
    }

    /// The batch that covers `n` indices appended after the current ones.
    pub open spec fn next_batch(&self, n: nat, texture: Option<usize>) -> DrawBatch {
        DrawBatch {
            index_low: self.index_seq().len() as u32,
            index_high: (self.index_seq().len() + n) as u32,
            texture,
        }
    }

    /// The index sequence after appending `ix` for vertices that follow the
    /// current ones.
    pub open spec fn appended_indices(&self, ix: Seq<u16>) -> Seq<u16> {
        self.index_seq() + offset_indices(ix, self.vertex_seq().len() as int)
    }

    /// An empty staging area with nothing uploaded.
    pub fn new() -> (r: Self)
        ensures
            r.wf(),
            r.vertex_seq() == Seq::<V>::empty(),
            r.index_seq() == Seq::<u16>::empty(),
            r.batch_seq() == Seq::<DrawBatch>::empty(),
            r.uploaded_count() == 0,
    {
        Staging { vertices: Vec::new(), indices: Vec::new(), batches: Vec::new(), uploaded: 0 }
    }

    /// Appends the vertices as they are and the indices shifted by the
    /// number of vertices staged before the call.
    fn add_staging_indexed_vertices(&mut self, vertices: &[V], indices: &[u16])
        requires
            old(self).wf(),
            old(self).can_append(vertices@.len(), indices@),
        ensures
            final(self).wf(),
            final(self).vertex_seq() == old(self).vertex_seq() + vertices@,
            final(self).index_seq() == old(self).appended_indices(indices@),
            final(self).batch_seq() == old(self).batch_seq(),
            final(self).uploaded_count() == old(self).uploaded_count(),
    {
        let ghost old_vs = self.vertices@;
        let ghost old_ix = self.indices@;
        let ghost shifted = offset_indices(indices@, old_vs.len() as int);
        let nv_old: usize = self.vertices.len();
        if indices.len() > 0 {
            assert(indices@[0] < vertices@.len());
        }
        let offset: u16 = if nv_old < MAX_VERTICES {
            nv_old as u16
        } else {
            0
        };
        let mut k: usize = 0;
        while k < indices.len()
            invariant
                k <= indices@.len(),
                indices@.len() > 0 ==> offset as int == old_vs.len(),
                indices_bounded(indices@, vertices@.len() as int),
                old_vs.len() + vertices@.len() <= MAX_VERTICES,
                shifted == offset_indices(indices@, old_vs.len() as int),
                self.indices@ == old_ix + shifted.take(k as int),
                self.vertices@ == old_vs,
                self.batches@ == old(self).batches@,
                self.uploaded == old(self).uploaded,
            decreases indices@.len() - k,
        {
            let j: u16 = indices[k];
            assert(j < vertices@.len());
            self.indices.push(j + offset);
            assert(old_ix + shifted.take(k + 1) =~= (old_ix + shifted.take(k as int)).push(
                (j + offset) as u16,
            ));
            k = k + 1;
        }
        assert(shifted.take(indices@.len() as int) =~= shifted);
        let mut k: usize = 0;
        while k < vertices.len()
            invariant
                k <= vertices@.len(),
                self.vertices@ == old_vs + vertices@.take(k as int),
                self.indices@ == old_ix + shifted,
                self.batches@ == old(self).batches@,
                self.uploaded == old(self).uploaded,
            decreases vertices@.len() - k,
        {
            let v: V = vertices[k];
            self.vertices.push(v);
            assert(old_vs + vertices@.take(k + 1) =~= (old_vs + vertices@.take(k as int)).push(v));
            k = k + 1;
        }
        assert(vertices@.take(vertices@.len() as int) =~= vertices@);
        proof {
            lemma_appended_indices_bounded(*old(self), vertices@.len(), indices@);
        }
    }

    /// Records a batch for the indices and appends the geometry.
    fn add_batch(&mut self, vertices: &[V], indices: &[u16], texture: Option<usize>)
        requires
            old(self).wf(),
            old(self).can_append(vertices@.len(), indices@),
        ensures
            final(self).wf(),
            final(self).vertex_seq() == old(self).vertex_seq() + vertices@,
            final(self).index_seq() == old(self).appended_indices(indices@),
            final(self).batch_seq() == old(self).batch_seq().push(
                old(self).next_batch(indices@.len(), texture),
            ),
            final(self).uploaded_count() == old(self).uploaded_count(),
    {
        let low: u32 = self.indices.len() as u32;
        let high: u32 = low + indices.len() as u32;
        self.batches.push(DrawBatch { index_low: low, index_high: high, texture });
        self.add_staging_indexed_vertices(vertices, indices);
    }

    /// Appends caller-provided vertices and indices local to them, drawn as
    /// one flat-colored batch.
    pub fn add_colored_vertices(&mut self, vertices: &[V], indices: &[u16])
        requires
            old(self).wf(),
            old(self).can_append(vertices@.len(), indices@),
        ensures
            final(self).wf(),
            final(self).vertex_seq() == old(self).vertex_seq() + vertices@,
            final(self).index_seq() == old(self).appended_indices(indices@),
            final(self).batch_seq() == old(self).batch_seq().push(
                old(self).next_batch(indices@.len(), None),
            ),
            final(self).uploaded_count() == old(self).uploaded_count(),
    {
        self.add_batch(vertices, indices, None);
    }

    /// Appends a quad given by its corners (top-left, bottom-left,
    /// bottom-right, top-right) with its two triangles, drawn as one
    /// flat-colored batch.
    pub fn add_colored_quad(&mut self, corners: [V; 4])
        requires
            old(self).wf(),
            old(self).vertex_seq().len() + 4 <= MAX_VERTICES,
            old(self).index_seq().len() + 6 <= u32::MAX,
        ensures
            final(self).wf(),
            final(self).vertex_seq() == old(self).vertex_seq() + corners@,
            final(self).index_seq() == old(self).appended_indices(quad_index_seq()),
            final(self).batch_seq() == old(self).batch_seq().push(old(self).next_batch(6, None)),
            final(self).uploaded_count() == old(self).uploaded_count(),
    {
        let ix = quad_indices();
        self.add_batch(corners.as_slice(), ix.as_slice(), None);
    }

    /// Appends a quad given by its corners (top-left, bottom-left,
    /// bottom-right, top-right) with its two triangles, drawn as one batch
    /// with the texture at `texture_index`.
    pub fn add_textured_quad(&mut self, corners: [V; 4], texture_index: usize)
        requires
            old(self).wf(),
            old(self).vertex_seq().len() + 4 <= MAX_VERTICES,
            old(self).index_seq().len() + 6 <= u32::MAX,
        ensures
            final(self).wf(),
            final(self).vertex_seq() == old(self).vertex_seq() + corners@,
            final(self).index_seq() == old(self).appended_indices(quad_index_seq()),
            final(self).batch_seq() == old(self).batch_seq().push(
                old(self).next_batch(6, Some(texture_index)),
            ),
            final(self).uploaded_count() == old(self).uploaded_count(),
    {
        let ix = quad_indices();
        self.add_batch(corners.as_slice(), ix.as_slice(), Some(texture_index));
    }

    /// Empties the staged vertices and indices. Batches and the uploaded
    /// index count stay as they are.
    pub fn clear(&mut self)
        ensures
            final(self).wf(),
            final(self).vertex_seq() == Seq::<V>::empty(),
            final(self).index_seq() == Seq::<u16>::empty(),
            final(self).batch_seq() == old(self).batch_seq(),
            final(self).uploaded_count() == old(self).uploaded_count(),
    {
        self.vertices.clear();
        self.indices.clear();
    }

    /// Records that the staged geometry has been uploaded: the index count
    /// to draw from becomes the number of staged indices.
    pub fn update_buffers(&mut self)
        requires
            old(self).wf(),
        ensures
            final(self).wf(),
            final(self).uploaded_count() == old(self).index_seq().len(),
            final(self).vertex_seq() == old(self).vertex_seq(),
            final(self).index_seq() == old(self).index_seq(),
            final(self).batch_seq() == old(self).batch_seq(),
    {
        self.uploaded = self.indices.len() as u32;
    }

    /// Hands out the recorded batches in call order and empties the list;
    /// the staged geometry is kept.
    pub fn take_batches(&mut self) -> (r: Vec<DrawBatch>)
        ensures
            r@ == old(self).batch_seq(),
            final(self).batch_seq() == Seq::<DrawBatch>::empty(),
            final(self).vertex_seq() == old(self).vertex_seq(),
            final(self).index_seq() == old(self).index_seq(),
            final(self).uploaded_count() == old(self).uploaded_count(),
    {
        let mut r: Vec<DrawBatch> = Vec::new();
        std::mem::swap(&mut r, &mut self.batches);
        r
    }

    /// The staged vertices.
    pub fn vertices(&self) -> (r: &[V])
        ensures
            r@ == self.vertex_seq(),
    {
        self.vertices.as_slice()
    }

    /// The staged indices.
    pub fn indices(&self) -> (r: &[u16])
        ensures
            r@ == self.index_seq(),
    {
        self.indices.as_slice()
    }

    /// The batches recorded since they were last taken.
    pub fn batches(&self) -> (r: &[DrawBatch])
        ensures
            r@ == self.batch_seq(),
    {
        self.batches.as_slice()
    }

    /// The index count of the last upload.
    pub fn num_indices(&self) -> (r: u32)
        ensures
            r == self.uploaded_count(),
    {
        self.uploaded
    }
} // impl

/// The batches cover consecutive, non-overlapping index ranges in order,
/// the last one ending at index `n`.
pub open spec fn batches_tile(bs: Seq<DrawBatch>, n: nat) -> bool {
    &&& forall|i: int| 0 <= i < bs.len() ==> (#[trigger] bs[i]).index_low <= bs[i].index_high
    &&& forall|i: int| 0 <= i < bs.len() - 1 ==> (#[trigger] bs[i]).index_high == bs[i + 1].index_low
    &&& bs.len() > 0 ==> bs.last().index_high == n
}

/// Batches recorded one after the other, each for geometry appended after
/// the previous one, keep tiling the index sequence: their ranges never
/// overlap and never go back.
pub proof fn lemma_batches_stay_ordered<V: Copy>(
    s: Staging<V>,
    nv: nat,
    ix: Seq<u16>,
    texture: Option<usize>,
)
    requires
        s.wf(),
        s.can_append(nv, ix),
        batches_tile(s.batch_seq(), s.index_seq().len()),
    ensures
        batches_tile(
            s.batch_seq().push(s.next_batch(ix.len(), texture)),
            s.appended_indices(ix).len(),
        ),
{
    let bs = s.batch_seq().push(s.next_batch(ix.len(), texture));
    assert forall|i: int| 0 <= i < bs.len() - 1 implies (#[trigger] bs[i]).index_high == bs[i
        + 1].index_low by {
        if i + 1 < s.batch_seq().len() {
            assert(bs[i] == s.batch_seq()[i]);
            assert(bs[i + 1] == s.batch_seq()[i + 1]);
        }
    }
}

/// Appending geometry whose indices address its own vertices keeps every
/// index below the vertex count after the append, whatever was staged before.
pub proof fn lemma_appended_indices_bounded<V: Copy>(s: Staging<V>, nv: nat, ix: Seq<u16>)
    requires
        s.wf(),
        s.can_append(nv, ix),
    ensures
        indices_bounded(s.appended_indices(ix), (s.vertex_seq().len() + nv) as int),
{
    let r = s.appended_indices(ix);
    let n0 = s.index_seq().len();
    assert forall|i: int| 0 <= i < r.len() implies (#[trigger] r[i] as int) < s.vertex_seq().len()
        + nv by {
        if i >= n0 {
            assert(ix[i - n0] < nv);
        } else {
            assert(r[i] == s.index_seq()[i]);
        }
    }
}

} // verus!
