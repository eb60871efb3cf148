//! Tessellation of a control-point path into a triangulated stroke mesh.
//!
//! A path is an ordered sequence of 2D control points read as a chain of
//! quadratic curves: a sliding window of three points (start, control, end)
//! advances by two per step, so each window shares its start with the
//! previous window's end. Every window is subdivided into `num_segments`
//! sub-steps; each sub-step spans three curve parameters that are exact
//! rationals over the common denominator `2 * num_segments`. The host
//! evaluates the curve, its offset curves and their midpoint at those
//! parameters (floating-point work this crate does not do) and hands the
//! resulting points back as a [`CurveGeometry`]; [`assemble`] then emits the
//! mesh, eighteen vertices per sub-step, in a fixed verified order.
//!
//! The construction assumes counter-clockwise curvature; clockwise segments
//! produce incorrect winding and visible stitching gaps. That limitation
//! belongs to the offset geometry the host computes and is preserved here.
//!
//! The point type is a parameter `P` everywhere: the tessellation structure
//! never looks inside a point, it only arranges points the host computed.

use vstd::prelude::*;

use crate::options::Options;

verus! {

/// Which edge of the stroke envelope a vertex belongs to: the outer offset
/// curve, the inner offset curve, or a stitching patch that fills the gap
/// between the two independent curve fits.
#[derive(Clone, Copy, PartialEq, Eq, Structural, Debug)]
pub enum Role {
    Outer,
    Inner,
    Stitch,
}

/// The texture coordinate a vertex carries for shading, one of the three
/// fixed values used along a sub-step — `Start` for (0, 0), `Mid` for
/// (0.5, 0), `End` for (1, 1) — or `Zero` for (0, 0) on stitching patches.
#[derive(Clone, Copy, PartialEq, Eq, Structural, Debug)]
pub enum Uv {
    Start,
    Mid,
    End,
    Zero,
}

/// One vertex of the stroke mesh: a position the host computed, and the
/// role and texture coordinate the coverage function reads.
#[derive(Clone, Copy, PartialEq, Eq, Debug)]
pub struct StrokeVertex<P> {
    pub pos: P,
    pub uv: Uv,
    pub role: Role,
}

/// One sub-step of one window: the `index`-th of `segments` equal slices of
/// the window's parameter range. Its three curve parameters are the exact
/// rationals `2 * index / (2 * segments)`, `(2 * index + 1) / (2 * segments)`
/// and `(2 * index + 2) / (2 * segments)`.
#[derive(Clone, Copy, PartialEq, Eq, Structural, Debug)]
pub struct SubStep {
    pub index: u8,
    pub segments: u8,
}

impl SubStep {
    /// A sub-step is meaningful only inside its window's subdivision.
    pub open spec fn wf(self) -> bool {
        1 <= self.segments && self.index < self.segments
    }

    /// The numerators of the sub-step's three curve parameters, over the
    /// denominator that `denominator` returns. The middle parameter halves
    /// the sub-step exactly, so the refit of an offset curve through the
    /// three sampled points always solves at relative parameter one half —
    /// never near zero or one, where the closed-form solve is unstable.
    pub fn numerators(&self) -> (n: (u16, u16, u16))
        ensures
            n.0 == 2 * self.index,
            n.1 == 2 * self.index + 1,
            n.2 == 2 * self.index + 2,
    {
        let twice: u16 = 2 * (self.index as u16);
        (twice, twice + 1, twice + 2)
    }

    /// The common denominator of the sub-step's curve parameters. It equals
    /// one more than the number of sample points of the window, so the last
    /// sub-step of a window ends exactly at parameter one.
    pub fn denominator(&self) -> (d: u16)
        ensures
            d == 2 * self.segments,
    {
        2 * (self.segments as u16)
    }
}

/// One unit of curve evaluation the host performs: the three control points
/// of a window, and the sub-step whose parameters to sample.
#[derive(Clone, Copy, PartialEq, Eq, Debug)]
pub struct CurveJob<P> {
    pub start: P,
    pub control: P,
    pub end: P,
    pub step: SubStep,
}

/// What the host's curve evaluation hands back for one job: the three
/// control points of the refit outer quadratic, the three of the refit inner
/// quadratic, and the outer quadratic's own midpoint, which anchors the two
/// stitching patches.
#[derive(Clone, Copy, PartialEq, Eq, Debug)]
pub struct CurveGeometry<P> {
    pub outer_start: P,
    pub outer_control: P,
    pub outer_end: P,
    pub inner_start: P,
    pub inner_control: P,
    pub inner_end: P,
    pub outer_mid: P,
}

/// How many three-point windows a path of `n` points yields: none below
/// three points, then one more for every further two points.
pub open spec fn window_count(n: int) -> int {
    if n < 3 {
        0
    } else {
        (n - 1) / 2
    }
}

/// How many curve jobs a path of `n` points yields under `segments`
/// sub-steps per window.
pub open spec fn job_count(n: int, segments: int) -> int {
    window_count(n) * segments
}

/// How many mesh vertices a path of `n` points yields under `segments`
/// sub-steps per window: eighteen per job — six for the two offset curves
/// and twelve for the two stitching patches. The index buffer is the
/// identity over the vertex range, so this is the index count too.
pub open spec fn vertex_count(n: int, segments: int) -> int {
    18 * job_count(n, segments)
}

/// The `j`-th curve job of a path: window `j / segments` — whose points are
/// the path's points `2w`, `2w + 1` and `2w + 2` — at sub-step
/// `j % segments`.
pub open spec fn job_at<P>(path: Seq<P>, segments: int, j: int) -> CurveJob<P> {
    let w = j / segments;
    let k = j % segments;
    CurveJob {
        start: path[2 * w],
        control: path[2 * w + 1],
        end: path[2 * w + 2],
        step: SubStep { index: k as u8, segments: segments as u8 },
    }
}

/// Cut a path into curve jobs: every three-point window, at every sub-step,
/// in order. A path with fewer than three points yields no jobs at all.
pub fn curve_jobs<P: Copy>(path: &Vec<P>, options: &Options) -> (jobs: Vec<CurveJob<P>>)
    requires
        options.wf(),
    ensures
        jobs@.len() == job_count(path@.len() as int, options.num_segments as int),
        forall|j: int|
            0 <= j < jobs@.len() ==> jobs@[j] == job_at(
                path@,
                options.num_segments as int,
                j,
            ),
{
    let n = path.len();
    let s = options.num_segments as usize;
    let mut jobs: Vec<CurveJob<P>> = Vec::new();
    if n < 3 {
        return jobs;
    }
    let windows = (n - 1) / 2;
    let mut w: usize = 0;
    while w < windows
        invariant
            options.wf(),
            s == options.num_segments as int,
            n == path@.len(),
            3 <= n,
            windows == window_count(n as int),
            w <= windows,
            jobs@.len() == w * s,
            forall|j: int|
                0 <= j < jobs@.len() ==> jobs@[j] == job_at(path@, s as int, j),
        decreases windows - w,
    {
        proof {
            assert(2 * w + 2 < n);
        }
        let start = path[2 * w];
        let control = path[2 * w + 1];
        let end = path[2 * w + 2];
        let mut k: usize = 0;
        while k < s
            invariant
                options.wf(),
                s == options.num_segments as int,
                n == path@.len(),
                3 <= n,
                windows == window_count(n as int),
                w < windows,
                k <= s,
                2 * w + 2 < n,
                start == path@[2 * w as int],
                control == path@[2 * w as int + 1],
                end == path@[2 * w as int + 2],
                jobs@.len() == w * s + k,
                forall|j: int|
                    0 <= j < jobs@.len() ==> jobs@[j] == job_at(path@, s as int, j),
            decreases s - k,
        {
            let job = CurveJob {
                start,
                control,
                end,
                step: SubStep { index: k as u8, segments: options.num_segments },
            };
            proof {
                assert((w * s + k) / (s as int) == w as int && (w * s + k) % (s as int)
                    == k as int) by (nonlinear_arith)
                    requires
                        1 <= s,
                        0 <= k < s,
                        0 <= w,
                ;
                assert(job == job_at(path@, s as int, jobs@.len() as int));
            }
            jobs.push(job);
            k = k + 1;
        }
        proof {
            assert((w + 1) * s == w * s + s) by (nonlinear_arith);
        }
        w = w + 1;
    }
    proof {
        assert(jobs@.len() == window_count(n as int) * s);
    }
    jobs
}

/// The eighteen vertices one sub-step contributes, in emission order: the
/// three outer offset points, the three inner offset points, then the two
/// stitching patches. Each patch triangulates a four-point input through
/// the fixed vertex pattern 0, 2, 3, 3, 1, 0 — the first patch over
/// [inner start, inner control, outer start, outer mid], the second over
/// [inner control, inner end, outer mid, outer end] — filling the gap the
/// two independent curve fits would otherwise leave at the midpoint.
pub open spec fn window_vertices<P>(g: CurveGeometry<P>) -> Seq<StrokeVertex<P>> {
    seq![
        StrokeVertex { pos: g.outer_start, uv: Uv::Start, role: Role::Outer },
        StrokeVertex { pos: g.outer_control, uv: Uv::Mid, role: Role::Outer },
        StrokeVertex { pos: g.outer_end, uv: Uv::End, role: Role::Outer },
        StrokeVertex { pos: g.inner_start, uv: Uv::Start, role: Role::Inner },
        StrokeVertex { pos: g.inner_control, uv: Uv::Mid, role: Role::Inner },
        StrokeVertex { pos: g.inner_end, uv: Uv::End, role: Role::Inner },
        StrokeVertex { pos: g.inner_start, uv: Uv::Zero, role: Role::Stitch },
        StrokeVertex { pos: g.outer_start, uv: Uv::Zero, role: Role::Stitch },
        StrokeVertex { pos: g.outer_mid, uv: Uv::Zero, role: Role::Stitch },
        StrokeVertex { pos: g.outer_mid, uv: Uv::Zero, role: Role::Stitch },
        StrokeVertex { pos: g.inner_control, uv: Uv::Zero, role: Role::Stitch },
        StrokeVertex { pos: g.inner_start, uv: Uv::Zero, role: Role::Stitch },
        StrokeVertex { pos: g.inner_control, uv: Uv::Zero, role: Role::Stitch },
        StrokeVertex { pos: g.outer_mid, uv: Uv::Zero, role: Role::Stitch },
        StrokeVertex { pos: g.outer_end, uv: Uv::Zero, role: Role::Stitch },
        StrokeVertex { pos: g.outer_end, uv: Uv::Zero, role: Role::Stitch },
        StrokeVertex { pos: g.inner_end, uv: Uv::Zero, role: Role::Stitch },
        StrokeVertex { pos: g.inner_control, uv: Uv::Zero, role: Role::Stitch },
    ]
}

/// The whole stroke mesh for a sequence of evaluated sub-steps: the
/// eighteen-vertex groups of all sub-steps, concatenated in order.
pub open spec fn tessellation<P>(geoms: Seq<CurveGeometry<P>>) -> Seq<StrokeVertex<P>>
    decreases geoms.len(),
{
    if geoms.len() == 0 {
        Seq::empty()
    } else {
        window_vertices(geoms[0]) + tessellation(geoms.drop_first())
    }
}

/// The mesh of a sequence of sub-steps has exactly eighteen vertices per
/// sub-step.
pub proof fn lemma_tessellation_len<P>(geoms: Seq<CurveGeometry<P>>)
    ensures
        tessellation(geoms).len() == 18 * geoms.len(),
    decreases geoms.len(),
{
    if geoms.len() > 0 {
        lemma_tessellation_len(geoms.drop_first());
    }
}

/// Extending the evaluated sub-steps by one extends the mesh by that
/// sub-step's eighteen vertices.
proof fn lemma_tessellation_push<P>(geoms: Seq<CurveGeometry<P>>, g: CurveGeometry<P>)
    ensures
        tessellation(geoms.push(g)) == tessellation(geoms) + window_vertices(g),
    decreases geoms.len(),
{
    let p = geoms.push(g);
    if geoms.len() == 0 {
        assert(p[0] == g);
        assert(p.drop_first() =~= Seq::<CurveGeometry<P>>::empty());
        assert(tessellation(p) == window_vertices(g) + tessellation(
            Seq::<CurveGeometry<P>>::empty(),
        ));
        assert(tessellation(p) =~= tessellation(geoms) + window_vertices(g));
    } else {
        assert(p[0] == geoms[0]);
        assert(p.drop_first() =~= geoms.drop_first().push(g));
        lemma_tessellation_push(geoms.drop_first(), g);
        assert(tessellation(p) == window_vertices(geoms[0]) + tessellation(p.drop_first()));
        assert(tessellation(geoms) == window_vertices(geoms[0]) + tessellation(
            geoms.drop_first(),
        ));
        assert(tessellation(p) =~= tessellation(geoms) + window_vertices(g));
    }
}

/// Push the eighteen vertices of one evaluated sub-step onto the mesh.
fn push_window<P: Copy>(verts: &mut Vec<StrokeVertex<P>>, g: &CurveGeometry<P>)
    ensures
        final(verts)@ == old(verts)@ + window_vertices(*g),
{
    verts.push(StrokeVertex { pos: g.outer_start, uv: Uv::Start, role: Role::Outer });
    verts.push(StrokeVertex { pos: g.outer_control, uv: Uv::Mid, role: Role::Outer });
    verts.push(StrokeVertex { pos: g.outer_end, uv: Uv::End, role: Role::Outer });
    verts.push(StrokeVertex { pos: g.inner_start, uv: Uv::Start, role: Role::Inner });
    verts.push(StrokeVertex { pos: g.inner_control, uv: Uv::Mid, role: Role::Inner });
    verts.push(StrokeVertex { pos: g.inner_end, uv: Uv::End, role: Role::Inner });
    verts.push(StrokeVertex { pos: g.inner_start, uv: Uv::Zero, role: Role::Stitch });
    verts.push(StrokeVertex { pos: g.outer_start, uv: Uv::Zero, role: Role::Stitch });
    verts.push(StrokeVertex { pos: g.outer_mid, uv: Uv::Zero, role: Role::Stitch });
    verts.push(StrokeVertex { pos: g.outer_mid, uv: Uv::Zero, role: Role::Stitch });
    verts.push(StrokeVertex { pos: g.inner_control, uv: Uv::Zero, role: Role::Stitch });
    verts.push(StrokeVertex { pos: g.inner_start, uv: Uv::Zero, role: Role::Stitch });
    verts.push(StrokeVertex { pos: g.inner_control, uv: Uv::Zero, role: Role::Stitch });
    verts.push(StrokeVertex { pos: g.outer_mid, uv: Uv::Zero, role: Role::Stitch });
    verts.push(StrokeVertex { pos: g.outer_end, uv: Uv::Zero, role: Role::Stitch });
    verts.push(StrokeVertex { pos: g.outer_end, uv: Uv::Zero, role: Role::Stitch });
    verts.push(StrokeVertex { pos: g.inner_end, uv: Uv::Zero, role: Role::Stitch });
    verts.push(StrokeVertex { pos: g.inner_control, uv: Uv::Zero, role: Role::Stitch });
    proof {
        assert(final(verts)@ =~= old(verts)@ + window_vertices(*g));
    }
}

/// Assemble the stroke mesh from the evaluated sub-steps, eighteen vertices
/// per sub-step, in the fixed emission order of [`window_vertices`]. No
/// vertex is shared or reused: the matching index buffer is the identity
/// over the emitted range.
pub fn assemble<P: Copy>(geoms: &Vec<CurveGeometry<P>>) -> (verts: Vec<StrokeVertex<P>>)
    ensures
        verts@ == tessellation(geoms@),
        verts@.len() == 18 * geoms@.len(),
{
    let mut verts: Vec<StrokeVertex<P>> = Vec::new();
    let mut q: usize = 0;
    while q < geoms.len()
        invariant
            q <= geoms@.len(),
            verts@ == tessellation(geoms@.take(q as int)),
        decreases geoms@.len() - q,
    {
        push_window(&mut verts, &geoms[q]);
        proof {
            assert(geoms@.take(q + 1) =~= geoms@.take(q as int).push(geoms@[q as int]));
            lemma_tessellation_push(geoms@.take(q as int), geoms@[q as int]);
        }
        q = q + 1;
    }
    proof {
        assert(geoms@.take(geoms@.len() as int) =~= geoms@);
        lemma_tessellation_len(geoms@);
    }
    verts
}

/// Law: the size of the assembled mesh is a function of the path's point
/// count and the subdivision level alone. Whatever points the host's curve
/// evaluation produced for the jobs of a path of `n` points, the mesh holds
/// exactly `vertex_count(n, segments)` vertices: no other state, and no
/// coordinate value, affects the count.
pub proof fn lemma_mesh_size_depends_only_on_sizes<P>(
    geoms: Seq<CurveGeometry<P>>,
    n: int,
    segments: int,
)
    requires
        geoms.len() == job_count(n, segments),
    ensures
        tessellation(geoms).len() == vertex_count(n, segments),
{
    lemma_tessellation_len(geoms);
}

/// Law: a path with fewer than three points yields no jobs, hence zero mesh
/// vertices and zero indices, under any subdivision level.
pub proof fn lemma_short_path_yields_nothing(n: int, segments: int)
    requires
        n < 3,
    ensures
        job_count(n, segments) == 0,
        vertex_count(n, segments) == 0,
{
}

/// Law: the vertex count — equal to the index count — is a function of the
/// path's point count and the subdivision level alone, and for a fixed path
/// of at least three points it grows strictly with the subdivision level.
pub proof fn lemma_vertex_count_monotonic(n: int, lower: int, higher: int)
    requires
        n >= 3,
        1 <= lower < higher,
    ensures
        vertex_count(n, lower) < vertex_count(n, higher),
{
    assert(window_count(n) >= 1);
    assert(window_count(n) * lower < window_count(n) * higher) by (nonlinear_arith)
        requires
            window_count(n) >= 1,
            lower < higher,
    ;
}

} // verus!
