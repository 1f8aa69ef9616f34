//! Accumulation of tessellated regions into one shared vertex/index buffer.
//!
//! Tessellating the fill and stroke regions of one uploaded document appends
//! into a single [`Geometry`], so the whole document becomes one draw call.
//! Indices are 16 bits wide and are rebased on append so that they stay
//! correct for the vertices already present.  A fill region that does not fit
//! is fatal for the upload; a stroke region that does not fit is skipped,
//! keeping the fill result.

use vstd::prelude::*;

use crate::error::RenderError;
use crate::geom::Vertex;

verus! {

/// The largest vertex count addressable by 16-bit indices.
pub const MAX_VERTICES: usize = 65536;

/// The mathematical content of a [`Geometry`].
pub struct GeometryModel {
    pub vertices: Seq<Vertex>,
    pub indices: Seq<u16>,
}

/// Whether one tessellated region is self-consistent: triangles only, with
/// every index naming one of its own vertices.
pub open spec fn piece_wf(vertices: Seq<Vertex>, indices: Seq<u16>) -> bool {
    &&& indices.len() % 3 == 0
    &&& forall|i: int| 0 <= i < indices.len() ==> (indices[i] as int) < vertices.len()
}

/// Whether accumulated geometry is well formed: a self-consistent region
/// whose vertices still fit 16-bit indexing.
pub open spec fn geometry_wf(g: GeometryModel) -> bool {
    &&& piece_wf(g.vertices, g.indices)
    &&& g.vertices.len() <= MAX_VERTICES
}

/// The content after appending a region: vertices concatenated, the region's
/// indices rebased by the prior vertex count.
pub open spec fn append_model(g: GeometryModel, vertices: Seq<Vertex>, indices: Seq<u16>) -> GeometryModel {
    GeometryModel {
        vertices: g.vertices + vertices,
        indices: g.indices + indices.map(|i: int, ix: u16| (ix + g.vertices.len()) as u16),
    }
}

/// A shared triangulated buffer under construction, one per upload.
pub struct Geometry {
    vertices: Vec<Vertex>,
    indices: Vec<u16>,
}

impl View for Geometry {
    type V = GeometryModel;

    closed spec fn view(&self) -> GeometryModel {
        GeometryModel { vertices: self.vertices@, indices: self.indices@ }
    }
}

impl Geometry {
    /// Whether this buffer is well formed; established by `new` and kept by
    /// every append.
    pub open spec fn wf(&self) -> bool {
        geometry_wf(self@)
    }

    /// An empty buffer.
    pub fn new() -> (r: Geometry)
        ensures
            r.wf(),
            r@.vertices.len() == 0,
            r@.indices.len() == 0,
    {
        Geometry { vertices: Vec::new(), indices: Vec::new() }
    }

    /// How many vertices have accumulated.
    pub fn vertex_count(&self) -> (r: usize)
        ensures
            r == self@.vertices.len(),
    {
        self.vertices.len()
    }

    /// How many indices have accumulated.
    pub fn index_count(&self) -> (r: usize)
        ensures
            r == self@.indices.len(),
    {
        self.indices.len()
    }

    /// Append a tessellated fill region.  A region that would overflow
    /// 16-bit indexing is fatal for the upload: the buffer is left unchanged
    /// and a tessellation error is reported.
    pub fn append_fill(&mut self, vertices: &Vec<Vertex>, indices: &Vec<u16>) -> (r: Result<
        (),
        RenderError,
    >)
        requires
            old(self).wf(),
            piece_wf(vertices@, indices@),
        ensures
            final(self).wf(),
            old(self)@.vertices.len() + vertices@.len() <= MAX_VERTICES ==> (r is Ok
                && final(self)@ == append_model(old(self)@, vertices@, indices@)),
            old(self)@.vertices.len() + vertices@.len() > MAX_VERTICES ==> (r == Err::<
                (),
                RenderError,
            >(RenderError::Tessellation) && final(self)@ == old(self)@),
    {
        if vertices.len() > MAX_VERTICES - self.vertices.len() {
            return Err(RenderError::Tessellation);
        }
        let offset = self.vertices.len();
        let ghost rebased = indices@.map(|i: int, ix: u16| (ix + old(self)@.vertices.len()) as u16);
        let mut i: usize = 0;
        while i < vertices.len()
            invariant
                0 <= i <= vertices@.len(),
                self.vertices@ == old(self)@.vertices + vertices@.subrange(0, i as int),
                self.indices@ == old(self)@.indices,
            decreases vertices@.len() - i,
        {
            self.vertices.push(vertices[i]);
            proof {
                let prior = old(self)@.vertices;
                assert(prior + vertices@.subrange(0, i as int + 1) =~= (prior + vertices@.subrange(
                    0,
                    i as int,
                )).push(vertices@[i as int]));
            }
            i = i + 1;
        }
        proof {
            assert(vertices@.subrange(0, vertices@.len() as int) =~= vertices@);
        }
        let mut j: usize = 0;
        while j < indices.len()
            invariant
                0 <= j <= indices@.len(),
                offset == old(self)@.vertices.len(),
                offset + vertices@.len() <= MAX_VERTICES,
                piece_wf(vertices@, indices@),
                self.vertices@ == old(self)@.vertices + vertices@,
                self.indices@ == old(self)@.indices + rebased.subrange(0, j as int),
                rebased == indices@.map(
                    |i: int, ix: u16| (ix + old(self)@.vertices.len()) as u16,
                ),
            decreases indices@.len() - j,
        {
            let ix = indices[j];
            assert((ix as int) < vertices@.len());
            let rix = ix as usize + offset;
            assert(rix < MAX_VERTICES);
            self.indices.push(rix as u16);
            proof {
                assert(rebased[j as int] == (indices@[j as int] + old(self)@.vertices.len()) as u16);
                let prior = old(self)@.indices;
                assert(prior + rebased.subrange(0, j as int + 1) =~= (prior + rebased.subrange(
                    0,
                    j as int,
                )).push(rebased[j as int]));
            }
            j = j + 1;
        }
        proof {
            assert(rebased.subrange(0, rebased.len() as int) =~= rebased);
            assert(self@ == append_model(old(self)@, vertices@, indices@));
            assert(self.wf()) by {
                assert forall|k: int| 0 <= k < self@.indices.len() implies (self@.indices[k] as int)
                    < self@.vertices.len() by {
                    if k >= old(self)@.indices.len() {
                        let m = k - old(self)@.indices.len();
                        assert(self@.indices[k] == rebased[m]);
                        assert(rebased[m] == (indices@[m] + old(self)@.vertices.len()) as u16);
                    }
                }
            }
        }
        Ok(())
    }

    /// Append a tessellated stroke region.  A stroke that would overflow
    /// 16-bit indexing is recoverable: it is skipped and the fill result
    /// kept.
    pub fn append_stroke(&mut self, vertices: &Vec<Vertex>, indices: &Vec<u16>)
        requires
            old(self).wf(),
            piece_wf(vertices@, indices@),
        ensures
            final(self).wf(),
            old(self)@.vertices.len() + vertices@.len() <= MAX_VERTICES ==> final(self)@
                == append_model(old(self)@, vertices@, indices@),
            old(self)@.vertices.len() + vertices@.len() > MAX_VERTICES ==> final(self)@
                == old(self)@,
    {
        let _ = self.append_fill(vertices, indices);
    }

    /// Hand the accumulated buffers over, ending the build.
    pub fn into_buffers(self) -> (r: (Vec<Vertex>, Vec<u16>))
        ensures
            r.0@ == self@.vertices,
            r.1@ == self@.indices,
    {
        let Geometry { vertices, indices } = self;
        (vertices, indices)
    }
}

} // verus!
