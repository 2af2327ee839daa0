use terrain_gen::pipeline::{
    accepts_surface_size, compute_dispatch, frame_step, grid_resize_request, resolves_timestamps,
    workgroup_count, ComputeDispatch, ComputeKernel, FrameStep, NoiseBaseline, PipelineMode,
    SurfaceStatus, GRID_SIZES,
};

const ALL: [PipelineMode; 5] = [
    PipelineMode::ComputeStandard,
    PipelineMode::ComputeOptimized,
    PipelineMode::ComputeLut,
    PipelineMode::ComputeCombined,
    PipelineMode::VertexShader,
];

#[test]
fn labels() {
    assert_eq!(PipelineMode::ComputeStandard.label(), "Compute - Standard");
    assert_eq!(PipelineMode::ComputeOptimized.label(), "Compute - Shared Mem");
    assert_eq!(PipelineMode::ComputeLut.label(), "Compute - Gradient LUT");
    assert_eq!(PipelineMode::ComputeCombined.label(), "Compute - LUT + Shared Mem");
    assert_eq!(PipelineMode::VertexShader.label(), "Vertex Shader");
    for a in ALL {
        for b in ALL {
            assert_eq!(a == b, a.label() == b.label());
        }
    }
}

#[test]
fn next_cycles_through_all() {
    assert_eq!(PipelineMode::ComputeStandard.next(), PipelineMode::ComputeOptimized);
    assert_eq!(PipelineMode::VertexShader.next(), PipelineMode::ComputeStandard);
    for m in ALL {
        let mut cur = m;
        let mut seen = Vec::new();
        for _ in 0..5 {
            assert!(!seen.contains(&cur));
            seen.push(cur);
            assert_ne!(cur.next(), cur);
            cur = cur.next();
        }
        assert_eq!(cur, m);
    }
}

#[test]
fn kernels_and_baselines() {
    assert_eq!(PipelineMode::VertexShader.compute_kernel(), None);
    assert_eq!(PipelineMode::VertexShader.cpu_baseline(), None);
    assert_eq!(PipelineMode::ComputeLut.cpu_baseline(), Some(NoiseBaseline::GradientLut));
    assert_eq!(PipelineMode::ComputeCombined.cpu_baseline(), Some(NoiseBaseline::GradientLut));
    assert_eq!(PipelineMode::ComputeStandard.cpu_baseline(), Some(NoiseBaseline::Standard));
    assert_eq!(PipelineMode::ComputeOptimized.cpu_baseline(), Some(NoiseBaseline::Standard));
    for m in ALL {
        match m.compute_kernel() {
            None => assert!(!m.draws_heightmap()),
            Some(k) => {
                assert!(m.draws_heightmap());
                assert_eq!(
                    k.uses_gradient_lut(),
                    m.cpu_baseline() == Some(NoiseBaseline::GradientLut)
                );
            }
        }
    }
}

#[test]
fn workgroups_round_up() {
    assert_eq!(workgroup_count(0), 0);
    assert_eq!(workgroup_count(1), 1);
    assert_eq!(workgroup_count(16), 1);
    assert_eq!(workgroup_count(17), 2);
    assert_eq!(workgroup_count(1024), 64);
    assert_eq!(workgroup_count(u32::MAX), 268435456);
}

#[test]
fn dispatch_plan() {
    assert_eq!(
        compute_dispatch(PipelineMode::ComputeCombined, 1000, 33),
        Some(ComputeDispatch {
            kernel: ComputeKernel::LutSharedMemory,
            workgroups_x: 63,
            workgroups_y: 3
        })
    );
    assert_eq!(compute_dispatch(PipelineMode::VertexShader, 64, 64), None);
}

#[test]
fn surface_steps() {
    assert_eq!(frame_step(SurfaceStatus::Success), FrameStep::Draw);
    assert_eq!(frame_step(SurfaceStatus::Suboptimal), FrameStep::Reconfigure);
    assert_eq!(frame_step(SurfaceStatus::Outdated), FrameStep::Reconfigure);
    assert_eq!(frame_step(SurfaceStatus::Timeout), FrameStep::Skip);
    assert_eq!(frame_step(SurfaceStatus::Occluded), FrameStep::Skip);
    assert_eq!(frame_step(SurfaceStatus::Validation), FrameStep::Skip);
    assert_eq!(frame_step(SurfaceStatus::Lost), FrameStep::Fail);
}

#[test]
fn small_decisions() {
    assert!(accepts_surface_size(800, 600));
    assert!(!accepts_surface_size(0, 600));
    assert!(!accepts_surface_size(800, 0));
    assert!(resolves_timestamps(PipelineMode::ComputeLut, false, true));
    assert!(!resolves_timestamps(PipelineMode::VertexShader, false, true));
    assert!(!resolves_timestamps(PipelineMode::ComputeLut, true, true));
    assert!(!resolves_timestamps(PipelineMode::ComputeLut, false, false));
    assert_eq!(grid_resize_request(1024, 512), Some((512, 512)));
    assert_eq!(grid_resize_request(1024, 1024), None);
    assert_eq!(GRID_SIZES, [64, 128, 256, 512, 1024, 2048]);
}
