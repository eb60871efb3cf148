//! Fixed data consumed by the two render pipelines.
//!
//! The pipeline objects themselves are immutable GPU configuration built
//! once at startup by the host; what belongs here is the plain data that
//! feeds them: the running binding index used while declaring vertex
//! attributes and bind-group entries, and the pre-built full-screen quad
//! that the resolve pass draws. Quad positions are clip-space corners in
//! `{-1, 1}` and texture coordinates are in `{0, 1}`, so both are exact
//! small integers here; the host widens them for the vertex buffer.

use vstd::prelude::*;

verus! {

/// Hands out consecutive binding indices, starting at zero, while vertex
/// attributes or bind-group entries are declared in order.
#[derive(Clone, Copy, PartialEq, Eq, Structural, Debug)]
pub struct BindId {
    cur: u16,
}

impl BindId {
    /// The index the next call to `next` will hand out.
    pub closed spec fn current(self) -> u16 {
        self.cur
    }

    /// A counter that starts handing out indices at zero.
    pub fn new() -> (ids: Self)
        ensures
            ids.current() == 0,
    {
        BindId { cur: 0 }
    }

    /// Hand out the next binding index and advance the counter.
    pub fn next(&mut self) -> (id: u16)
        requires
            old(self).current() < u16::MAX,
        ensures
            id == old(self).current(),
            final(self).current() == old(self).current() + 1,
    {
        let out = self.cur;
        self.cur = self.cur + 1;
        out
    }
}

impl Default for BindId {
    /// A counter that starts handing out indices at zero.
    fn default() -> (ids: Self)
        ensures
            ids.current() == 0,
    {
        BindId { cur: 0 }
    }
}

/// One vertex of the full-screen quad the resolve pass draws: a clip-space
/// corner position with components in `{-1, 1}` and a texture coordinate
/// with components in `{0, 1}`.
#[derive(Clone, Copy, PartialEq, Eq, Debug)]
pub struct BlitVertex {
    pub pos: (i8, i8),
    pub uv: (u8, u8),
}

/// The six vertices of the full-screen quad, as two counter-clockwise
/// triangles covering the whole clip space, each corner carrying the
/// texture coordinate that samples the intermediate target right side up.
pub open spec fn blit_quad_spec() -> Seq<BlitVertex> {
    seq![
        BlitVertex { pos: (-1i8, -1i8), uv: (0u8, 1u8) },
        BlitVertex { pos: (1i8, -1i8), uv: (1u8, 1u8) },
        BlitVertex { pos: (1i8, 1i8), uv: (1u8, 0u8) },
        BlitVertex { pos: (1i8, 1i8), uv: (1u8, 0u8) },
        BlitVertex { pos: (-1i8, 1i8), uv: (0u8, 0u8) },
        BlitVertex { pos: (-1i8, -1i8), uv: (0u8, 1u8) },
    ]
}

/// Build the full-screen quad that the resolve pass draws with six
/// unindexed vertices.
pub fn blit_quad() -> (quad: Vec<BlitVertex>)
    ensures
        quad@ == blit_quad_spec(),
        quad@.len() == 6,
{
    let mut quad: Vec<BlitVertex> = Vec::new();
    quad.push(BlitVertex { pos: (-1i8, -1i8), uv: (0u8, 1u8) });
    quad.push(BlitVertex { pos: (1i8, -1i8), uv: (1u8, 1u8) });
    quad.push(BlitVertex { pos: (1i8, 1i8), uv: (1u8, 0u8) });
    quad.push(BlitVertex { pos: (1i8, 1i8), uv: (1u8, 0u8) });
    quad.push(BlitVertex { pos: (-1i8, 1i8), uv: (0u8, 0u8) });
    quad.push(BlitVertex { pos: (-1i8, -1i8), uv: (0u8, 1u8) });
    proof {
        assert(quad@ =~= blit_quad_spec());
    }
    quad
}

} // verus!
