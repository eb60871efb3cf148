//! Per-frame orchestration: staging the tessellated stroke mesh and deciding
//! what the host records into the command buffer.
//!
//! Each frame the canvas rebuilds its geometry from scratch: both caches are
//! cleared, the mesh assembled from the evaluated sub-steps is staged
//! together with its identity index range, and both caches settle their
//! capacity. The returned [`FramePlan`] tells the host exactly which buffer
//! uploads to perform and how many indices the stroke pass draws; the two
//! passes themselves — the additive stroke pass into the intermediate
//! target and the straight-alpha resolve pass onto the screen — are fixed
//! GPU work the host records. A frame with no vertices yields no plan at
//! all, so the host records neither pass and the screen keeps its previous
//! contents — a documented quirk of this design, kept deliberately rather
//! than silently changed.

use vstd::prelude::*;

use crate::cache::BufferCache;
use crate::cache::Span;
use crate::cache::UploadAction;
use crate::cache::grown_capacity;
use crate::cache::update_decision;
use crate::tessellate::CurveGeometry;
use crate::tessellate::StrokeVertex;
use crate::tessellate::assemble;
use crate::tessellate::tessellation;

pub use crate::options::Options;

verus! {

/// The most vertices one frame may stage: the indices are 16-bit, so every
/// vertex must be addressable by a `u16`.
pub const MAX_FRAME_VERTICES: usize = 65535;

/// What the host must do to draw one frame: the two buffer uploads, and the
/// number of indices the stroke pass draws as an indexed triangle list. The
/// resolve pass always draws the fixed six-vertex full-screen quad.
#[derive(Clone, Copy, PartialEq, Eq, Structural, Debug)]
pub struct FramePlan {
    pub vertex_upload: UploadAction,
    pub index_upload: UploadAction,
    pub index_count: u32,
}

/// The per-frame geometry state of the renderer: one cache for the stroke
/// mesh vertices and one for their identity indices.
pub struct Canvas<P> {
    vertices: BufferCache<StrokeVertex<P>>,
    indices: BufferCache<u16>,
}

impl<P: Copy> Canvas<P> {
    /// The staged stroke mesh.
    pub closed spec fn staged_vertices(self) -> Seq<StrokeVertex<P>> {
        self.vertices.contents()
    }

    /// The staged index list.
    pub closed spec fn staged_indices(self) -> Seq<u16> {
        self.indices.contents()
    }

    /// The capacity of the vertex buffer the host holds.
    pub closed spec fn vertex_capacity(self) -> int {
        self.vertices.cap()
    }

    /// The capacity of the index buffer the host holds.
    pub closed spec fn index_capacity(self) -> int {
        self.indices.cap()
    }

    /// A canvas with empty caches and no buffers allocated yet.
    pub fn new() -> (canvas: Self)
        ensures
            canvas.staged_vertices() == Seq::<StrokeVertex<P>>::empty(),
            canvas.staged_indices() == Seq::<u16>::empty(),
            canvas.vertex_capacity() == 0,
            canvas.index_capacity() == 0,
    {
        Canvas { vertices: BufferCache::new(), indices: BufferCache::new() }
    }

    /// The staged mesh vertices, for the host to upload when the plan's
    /// vertex action asks for a write.
    pub fn vertex_data(&self) -> (items: &Vec<StrokeVertex<P>>)
        ensures
            items@ == self.staged_vertices(),
    {
        self.vertices.staged_items()
    }

    /// The staged indices, for the host to upload when the plan's index
    /// action asks for a write.
    pub fn index_data(&self) -> (items: &Vec<u16>)
        ensures
            items@ == self.staged_indices(),
    {
        self.indices.staged_items()
    }

    /// Stage one frame of geometry and decide what the host records.
    ///
    /// The mesh assembled from `geoms` replaces both caches' contents, its
    /// index range is the identity over the emitted vertices, and both
    /// caches settle their capacity for the upload. The plan is `None`
    /// exactly when the mesh is empty — then no pass is recorded at all.
    pub fn render(&mut self, geoms: &Vec<CurveGeometry<P>>) -> (plan: Option<FramePlan>)
        requires
            18 * geoms@.len() <= MAX_FRAME_VERTICES,
        ensures
            final(self).staged_vertices() == tessellation(geoms@),
            final(self).staged_vertices().len() == 18 * geoms@.len(),
            final(self).staged_indices().len() == 18 * geoms@.len(),
            forall|i: int|
                0 <= i < final(self).staged_indices().len() ==> final(self).staged_indices()[i]
                    == i as u16,
            final(self).vertex_capacity() == grown_capacity(
                18 * geoms@.len() as int,
                old(self).vertex_capacity(),
            ),
            final(self).index_capacity() == grown_capacity(
                18 * geoms@.len() as int,
                old(self).index_capacity(),
            ),
            plan is Some <==> geoms@.len() > 0,
            plan matches Some(p) ==> {
                &&& p.vertex_upload == update_decision(
                    18 * geoms@.len() as int,
                    old(self).vertex_capacity(),
                )
                &&& p.index_upload == update_decision(
                    18 * geoms@.len() as int,
                    old(self).index_capacity(),
                )
                &&& p.index_count == 18 * geoms@.len()
            },
    {
        let verts = assemble(geoms);
        self.vertices.clear();
        self.indices.clear();
        let span: Span = self.vertices.append(&verts);
        proof {
            assert(Seq::<StrokeVertex<P>>::empty() + verts@ =~= verts@);
        }
        let mut index_list: Vec<u16> = Vec::new();
        let mut i: usize = span.start;
        while i < span.end
            invariant
                span.start == 0,
                span.end <= MAX_FRAME_VERTICES,
                i <= span.end,
                index_list@.len() == i,
                forall|j: int| 0 <= j < i ==> index_list@[j] == j as u16,
            decreases span.end - i,
        {
            index_list.push(i as u16);
            i = i + 1;
        }
        self.indices.append(&index_list);
        proof {
            assert(Seq::<u16>::empty() + index_list@ =~= index_list@);
        }
        let vertex_upload = self.vertices.update();
        let index_upload = self.indices.update();
        if self.vertices.is_empty() {
            None
        } else {
            let index_count = self.indices.length();
            Some(
                FramePlan {
                    vertex_upload,
                    index_upload,
                    index_count: index_count as u32,
                },
            )
        }
    }
}

} // verus!
