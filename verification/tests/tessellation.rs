use strokes::options::Options;
use strokes::tessellate::assemble;
use strokes::tessellate::curve_jobs;
use strokes::tessellate::CurveGeometry;
use strokes::tessellate::Role;
use strokes::tessellate::SubStep;
use strokes::tessellate::Uv;

fn geometry(base: u32) -> CurveGeometry<u32> {
    CurveGeometry {
        outer_start: base,
        outer_control: base + 1,
        outer_end: base + 2,
        inner_start: base + 3,
        inner_control: base + 4,
        inner_end: base + 5,
        outer_mid: base + 6,
    }
}

#[test]
fn short_paths_yield_no_jobs_and_no_vertices() {
    let options = Options { num_segments: 4 };
    for n in 0..3usize {
        let path: Vec<u32> = (0..n as u32).collect();
        let jobs = curve_jobs(&path, &options);
        assert_eq!(jobs.len(), 0);
    }
    let no_geoms: Vec<CurveGeometry<u32>> = Vec::new();
    let verts = assemble(&no_geoms);
    assert_eq!(verts.len(), 0);
}

#[test]
fn three_points_two_segments_yield_two_substeps() {
    let path: Vec<(f32, f32)> = vec![(0.25, 0.0), (0.75, 0.75), (0.5, 0.5)];
    let options = Options { num_segments: 2 };
    let jobs = curve_jobs(&path, &options);
    // One window, subdivided into two sub-steps over three sample points.
    assert_eq!(jobs.len(), 2);
    for job in &jobs {
        assert_eq!(job.start, (0.25, 0.0));
        assert_eq!(job.control, (0.75, 0.75));
        assert_eq!(job.end, (0.5, 0.5));
    }
    // The sub-step parameters advance by dt = 1/4 and cover [0, 1] exactly.
    assert_eq!(jobs[0].step, SubStep { index: 0, segments: 2 });
    assert_eq!(jobs[0].step.numerators(), (0, 1, 2));
    assert_eq!(jobs[0].step.denominator(), 4);
    assert_eq!(jobs[1].step, SubStep { index: 1, segments: 2 });
    assert_eq!(jobs[1].step.numerators(), (2, 3, 4));
    assert_eq!(jobs[1].step.denominator(), 4);
}

#[test]
fn three_points_one_segment_yield_eighteen_vertices() {
    let path: Vec<u32> = vec![1, 2, 3];
    let options = Options { num_segments: 1 };
    let jobs = curve_jobs(&path, &options);
    assert_eq!(jobs.len(), 1);
    assert_eq!(jobs[0].step.numerators(), (0, 1, 2));
    assert_eq!(jobs[0].step.denominator(), 2);
    let geoms: Vec<CurveGeometry<u32>> = jobs.iter().map(|_| geometry(0)).collect();
    let verts = assemble(&geoms);
    assert_eq!(verts.len(), 18);
}

#[test]
fn windows_share_their_boundary_point() {
    let path: Vec<u32> = vec![1, 2, 3, 4, 5];
    let options = Options { num_segments: 1 };
    let jobs = curve_jobs(&path, &options);
    assert_eq!(jobs.len(), 2);
    assert_eq!((jobs[0].start, jobs[0].control, jobs[0].end), (1, 2, 3));
    assert_eq!((jobs[1].start, jobs[1].control, jobs[1].end), (3, 4, 5));
}

#[test]
fn an_even_path_leaves_the_trailing_point_unused() {
    let path: Vec<u32> = vec![1, 2, 3, 4];
    let options = Options { num_segments: 3 };
    let jobs = curve_jobs(&path, &options);
    // One window of three points; point 4 starts no window of its own.
    assert_eq!(jobs.len(), 3);
    for job in &jobs {
        assert_eq!((job.start, job.control, job.end), (1, 2, 3));
    }
}

#[test]
fn emission_order_of_one_substep() {
    let geoms = vec![geometry(10)];
    let verts = assemble(&geoms);
    assert_eq!(verts.len(), 18);
    // Outer curve fit: positions 10, 11, 12 at uv Start, Mid, End.
    assert_eq!(verts[0].pos, 10);
    assert_eq!(verts[0].uv, Uv::Start);
    assert_eq!(verts[0].role, Role::Outer);
    assert_eq!(verts[1].pos, 11);
    assert_eq!(verts[1].uv, Uv::Mid);
    assert_eq!(verts[2].pos, 12);
    assert_eq!(verts[2].uv, Uv::End);
    // Inner curve fit: positions 13, 14, 15 with the same uv pattern.
    assert_eq!(verts[3].pos, 13);
    assert_eq!(verts[3].role, Role::Inner);
    assert_eq!(verts[4].pos, 14);
    assert_eq!(verts[4].uv, Uv::Mid);
    assert_eq!(verts[5].pos, 15);
    assert_eq!(verts[5].uv, Uv::End);
    // First stitching patch over [inner_start, inner_control, outer_start,
    // outer_mid], triangulated by the fixed pattern 0, 2, 3, 3, 1, 0.
    let first_patch: Vec<u32> = verts[6..12].iter().map(|v| v.pos).collect();
    assert_eq!(first_patch, vec![13, 10, 16, 16, 14, 13]);
    // Second stitching patch over [inner_control, inner_end, outer_mid,
    // outer_end], triangulated by the same pattern.
    let second_patch: Vec<u32> = verts[12..18].iter().map(|v| v.pos).collect();
    assert_eq!(second_patch, vec![14, 16, 12, 12, 15, 14]);
    for v in &verts[6..18] {
        assert_eq!(v.role, Role::Stitch);
        assert_eq!(v.uv, Uv::Zero);
    }
}

#[test]
fn identical_inputs_give_identical_output() {
    let path: Vec<u32> = vec![9, 8, 7, 6, 5, 4, 3];
    let options = Options { num_segments: 5 };
    let first = curve_jobs(&path, &options);
    let second = curve_jobs(&path, &options);
    assert_eq!(first, second);
    let geoms: Vec<CurveGeometry<u32>> = first.iter().map(|j| geometry(j.step.index as u32)).collect();
    assert_eq!(assemble(&geoms), assemble(&geoms));
}

#[test]
fn counts_depend_only_on_point_count_and_segments() {
    let options = Options { num_segments: 3 };
    let one: Vec<u32> = vec![1, 2, 3, 4, 5];
    let other: Vec<u32> = vec![90, 80, 70, 60, 50];
    assert_eq!(curve_jobs(&one, &options).len(), curve_jobs(&other, &options).len());
}

#[test]
fn more_segments_emit_strictly_more_vertices() {
    let path: Vec<u32> = vec![1, 2, 3, 4, 5];
    let mut last = 0usize;
    for segments in 1..=6u8 {
        let options = Options { num_segments: segments };
        let jobs = curve_jobs(&path, &options);
        let geoms: Vec<CurveGeometry<u32>> = jobs.iter().map(|_| geometry(0)).collect();
        let count = assemble(&geoms).len();
        // Two windows, eighteen vertices per sub-step.
        assert_eq!(count, 2 * 18 * segments as usize);
        assert!(count > last);
        last = count;
    }
}
