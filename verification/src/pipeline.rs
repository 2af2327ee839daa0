//! The terrain generation pipelines and the per-frame decisions that depend
//! on which one is active: which compute kernel runs and on how many
//! workgroups, which CPU baseline a GPU result is checked against, which
//! render pipeline draws the terrain, and what to do with the surface.
use vstd::prelude::*;

verus! {

/// Which terrain generation pipeline is active.
#[derive(Clone, Copy, Debug, PartialEq, Eq, Structural)]
pub enum PipelineMode {
    /// Baseline GPU compute shader (one trig call per gradient).
    ComputeStandard,
    /// GPU compute with shared workgroup memory caching the first-octave gradients.
    ComputeOptimized,
    /// GPU compute replacing cos/sin with a 256-entry gradient table.
    ComputeLut,
    /// Gradient table plus an all-octave shared-memory cache.
    ComputeCombined,
    /// Terrain height computed entirely inside the vertex shader; no compute pass.
    VertexShader,
}

/// The compute shaders that write the heightmap.
#[derive(Clone, Copy, Debug, PartialEq, Eq, Structural)]
pub enum ComputeKernel {
    Standard,
    SharedMemory,
    GradientLut,
    LutSharedMemory,
}

/// The CPU noise generators a GPU heightmap can be checked against.
#[derive(Clone, Copy, Debug, PartialEq, Eq, Structural)]
pub enum NoiseBaseline {
    /// Gradients from the hash angle.
    Standard,
    /// Gradients from the 256-entry table.
    GradientLut,
}

/// One compute pass over the heightmap.
#[derive(Clone, Copy, Debug, PartialEq, Eq, Structural)]
pub struct ComputeDispatch {
    pub kernel: ComputeKernel,
    pub workgroups_x: u32,
    pub workgroups_y: u32,
}

/// What became of asking the surface for its next texture.
#[derive(Clone, Copy, Debug, PartialEq, Eq, Structural)]
pub enum SurfaceStatus {
    Success,
    Suboptimal,
    Timeout,
    Occluded,
    Validation,
    Outdated,
    Lost,
}

/// What the frame does next, given the surface status.
#[derive(Clone, Copy, Debug, PartialEq, Eq, Structural)]
pub enum FrameStep {
    /// Draw into the texture and present it.
    Draw,
    /// Release the texture, configure the surface again and skip the frame.
    Reconfigure,
    /// Skip the frame.
    Skip,
    /// The device is lost: stop with an error.
    Fail,
}

/// Side of the square tile of grid points that one workgroup covers.
pub const WORKGROUP_SIDE: u32 = 16;

/// The side lengths of the square grids the user can pick.
pub const GRID_SIZES: [u32; 6] = [64, 128, 256, 512, 1024, 2048];

pub open spec fn label_spec(mode: PipelineMode) -> Seq<char> {
    match mode {
        PipelineMode::ComputeStandard => "Compute - Standard"@,
        PipelineMode::ComputeOptimized => "Compute - Shared Mem"@,
        PipelineMode::ComputeLut => "Compute - Gradient LUT"@,
        PipelineMode::ComputeCombined => "Compute - LUT + Shared Mem"@,
        PipelineMode::VertexShader => "Vertex Shader"@,
    }
}

pub open spec fn next_spec(mode: PipelineMode) -> PipelineMode {
    match mode {
        PipelineMode::ComputeStandard => PipelineMode::ComputeOptimized,
        PipelineMode::ComputeOptimized => PipelineMode::ComputeLut,
        PipelineMode::ComputeLut => PipelineMode::ComputeCombined,
        PipelineMode::ComputeCombined => PipelineMode::VertexShader,
        PipelineMode::VertexShader => PipelineMode::ComputeStandard,
    }
}

/// `mode` advanced `k` times by `next`.
pub open spec fn advance(mode: PipelineMode, k: nat) -> PipelineMode
    decreases k,
{
    if k == 0 {
        mode
    } else {
        next_spec(advance(mode, (k - 1) as nat))
    }
}

/// The compute kernel that writes the heightmap in `mode`; none in the
/// vertex-shader pipeline.
pub open spec fn kernel_spec(mode: PipelineMode) -> Option<ComputeKernel> {
    match mode {
        PipelineMode::ComputeStandard => Some(ComputeKernel::Standard),
        PipelineMode::ComputeOptimized => Some(ComputeKernel::SharedMemory),
        PipelineMode::ComputeLut => Some(ComputeKernel::GradientLut),
        PipelineMode::ComputeCombined => Some(ComputeKernel::LutSharedMemory),
        PipelineMode::VertexShader => None,
    }
}

pub open spec fn kernel_uses_lut(kernel: ComputeKernel) -> bool {
    kernel == ComputeKernel::GradientLut || kernel == ComputeKernel::LutSharedMemory
}

/// The CPU generator that `mode`'s heightmap is checked against; none where
/// no heightmap is computed.
pub open spec fn baseline_spec(mode: PipelineMode) -> Option<NoiseBaseline> {
    match mode {
        PipelineMode::VertexShader => None,
        PipelineMode::ComputeLut | PipelineMode::ComputeCombined => Some(
            NoiseBaseline::GradientLut,
        ),
        _ => Some(NoiseBaseline::Standard),
    }
}

/// Number of workgroups along an axis of `n` grid points: `ceil(n / 16)`.
pub open spec fn workgroups_spec(n: int) -> int {
    (n + WORKGROUP_SIDE - 1) / (WORKGROUP_SIDE as int)
}

pub open spec fn frame_step_spec(status: SurfaceStatus) -> FrameStep {
    match status {
        SurfaceStatus::Success => FrameStep::Draw,
        SurfaceStatus::Suboptimal => FrameStep::Reconfigure,
        SurfaceStatus::Timeout | SurfaceStatus::Occluded | SurfaceStatus::Validation => FrameStep::Skip,
        SurfaceStatus::Outdated => FrameStep::Reconfigure,
        SurfaceStatus::Lost => FrameStep::Fail,
    }
}

impl PipelineMode {
    /// The name shown for the pipeline.
    pub fn label(self) -> (s: &'static str)
        ensures
            s@ == label_spec(self),
    {
        match self {
            Self::ComputeStandard => "Compute - Standard",
            Self::ComputeOptimized => "Compute - Shared Mem",
            Self::ComputeLut => "Compute - Gradient LUT",
            Self::ComputeCombined => "Compute - LUT + Shared Mem",
            Self::VertexShader => "Vertex Shader",
        }
    }

    /// Cycle to the next mode.
    pub fn next(self) -> (m: Self)
        ensures
            m == next_spec(self),
    {
        match self {
            Self::ComputeStandard => Self::ComputeOptimized,
            Self::ComputeOptimized => Self::ComputeLut,
            Self::ComputeLut => Self::ComputeCombined,
            Self::ComputeCombined => Self::VertexShader,
            Self::VertexShader => Self::ComputeStandard,
        }
    }

    /// The compute kernel this mode runs, if any.
    pub fn compute_kernel(self) -> (k: Option<ComputeKernel>)
        ensures
            k == kernel_spec(self),
    {
        match self {
            Self::ComputeStandard => Some(ComputeKernel::Standard),
            Self::ComputeOptimized => Some(ComputeKernel::SharedMemory),
            Self::ComputeLut => Some(ComputeKernel::GradientLut),
            Self::ComputeCombined => Some(ComputeKernel::LutSharedMemory),
            Self::VertexShader => None,
        }
    }

    /// The CPU generator the GPU heightmap of this mode is checked against;
    /// none in the vertex-shader pipeline, which has no heightmap to check.
    pub fn cpu_baseline(self) -> (b: Option<NoiseBaseline>)
        ensures
            b == baseline_spec(self),
    {
        match self {
            Self::VertexShader => None,
            Self::ComputeLut | Self::ComputeCombined => Some(NoiseBaseline::GradientLut),
            _ => Some(NoiseBaseline::Standard),
        }
    }

    /// Whether the terrain is drawn from the computed heightmap (true) or
    /// generated inside the vertex shader (false).
    pub fn draws_heightmap(self) -> (b: bool)
        ensures
            b == (self != PipelineMode::VertexShader),
    {
        match self {
            Self::VertexShader => false,
            _ => true,
        }
    }
}

impl ComputeKernel {
    /// Whether the kernel reads the gradient table (and so needs the bind
    /// group that holds it).
    pub fn uses_gradient_lut(self) -> (b: bool)
        ensures
            b == kernel_uses_lut(self),
    {
        match self {
            Self::GradientLut | Self::LutSharedMemory => true,
            _ => false,
        }
    }
}

/// Number of workgroups that cover `n` grid points along one axis.
pub fn workgroup_count(n: u32) -> (c: u32)
    ensures
        c == workgroups_spec(n as int),
{
    let whole = n / WORKGROUP_SIDE;
    if n % WORKGROUP_SIDE == 0 {
        whole
    } else {
        whole + 1
    }
}

/// The compute pass of one frame: the kernel of `mode` over enough
/// workgroups to cover a `width` x `height` grid; none in the vertex-shader
/// pipeline.
pub fn compute_dispatch(mode: PipelineMode, width: u32, height: u32) -> (d: Option<
    ComputeDispatch,
>)
    ensures
        match kernel_spec(mode) {
            None => d is None,
            Some(k) => d == Some(
                ComputeDispatch {
                    kernel: k,
                    workgroups_x: workgroups_spec(width as int) as u32,
                    workgroups_y: workgroups_spec(height as int) as u32,
                },
            ),
        },
{
    match mode.compute_kernel() {
        None => None,
        Some(kernel) => {
            let wg_x = workgroup_count(width);
            let wg_y = workgroup_count(height);
            Some(ComputeDispatch { kernel, workgroups_x: wg_x, workgroups_y: wg_y })
        },
    }
}

/// Whether this frame copies the GPU timestamps out for reading: only when a
/// compute pass ran, no earlier read is still pending, and the device
/// offers timestamp queries.
pub fn resolves_timestamps(mode: PipelineMode, readback_pending: bool, has_timestamp_queries: bool) -> (b: bool)
    ensures
        b == (mode != PipelineMode::VertexShader && !readback_pending && has_timestamp_queries),
{
    mode.draws_heightmap() && !readback_pending && has_timestamp_queries
}

/// What the frame does for a given surface status.
pub fn frame_step(status: SurfaceStatus) -> (step: FrameStep)
    ensures
        step == frame_step_spec(status),
{
    match status {
        SurfaceStatus::Success => FrameStep::Draw,
        SurfaceStatus::Suboptimal => FrameStep::Reconfigure,
        SurfaceStatus::Timeout | SurfaceStatus::Occluded | SurfaceStatus::Validation => FrameStep::Skip,
        SurfaceStatus::Outdated => FrameStep::Reconfigure,
        SurfaceStatus::Lost => FrameStep::Fail,
    }
}

/// Whether the surface is configured for a new window size: only when both
/// sides are non-zero.
pub fn accepts_surface_size(width: u32, height: u32) -> (b: bool)
    ensures
        b == (width > 0 && height > 0),
{
    width > 0 && height > 0
}

/// The grid resize that picking `selected` asks for while the grid is
/// `current_width` wide: a square grid of side `selected`, or nothing when
/// the width is unchanged.
pub fn grid_resize_request(current_width: u32, selected: u32) -> (r: Option<(u32, u32)>)
    ensures
        r == (if selected != current_width {
            Some((selected, selected))
        } else {
            None::<(u32, u32)>
        }),
{
    if selected != current_width {
        Some((selected, selected))
    } else {
        None
    }
}

/// Cycling through the pipelines comes back to the start after five steps.
pub proof fn lemma_next_cycles(mode: PipelineMode)
    ensures
        advance(mode, 5) == mode,
{
    reveal_with_fuel(advance, 6);
}

/// Cycling from any pipeline reaches every pipeline within four steps, and
/// never stays put.
pub proof fn lemma_next_reaches_all(from: PipelineMode, to: PipelineMode)
    ensures
        exists|k: nat| k < 5 && #[trigger] advance(from, k) == to,
        next_spec(from) != from,
{
    reveal_with_fuel(advance, 5);
    assert(advance(from, 0) == from);
    assert(advance(from, 1) == next_spec(from));
    assert(advance(from, 2) == next_spec(next_spec(from)));
    assert(advance(from, 3) == next_spec(next_spec(next_spec(from))));
    assert(advance(from, 4) == next_spec(next_spec(next_spec(next_spec(from)))));
}

/// The pipelines have distinct names.
pub proof fn lemma_labels_distinct(a: PipelineMode, b: PipelineMode)
    requires
        a != b,
    ensures
        label_spec(a) != label_spec(b),
{
    reveal_strlit("Compute - Standard");
    reveal_strlit("Compute - Shared Mem");
    reveal_strlit("Compute - Gradient LUT");
    reveal_strlit("Compute - LUT + Shared Mem");
    reveal_strlit("Vertex Shader");
    assert(label_spec(a).len() != label_spec(b).len());
}

/// A GPU heightmap is checked against the CPU generator that computes
/// gradients the same way: the table-based baseline exactly when the kernel
/// reads the gradient table, and no baseline exactly when there is no
/// compute pass. The terrain is drawn from the heightmap exactly when a
/// compute pass writes it.
pub proof fn lemma_baseline_matches_kernel(mode: PipelineMode)
    ensures
        baseline_spec(mode) is None <==> kernel_spec(mode) is None,
        kernel_spec(mode) matches Some(k) ==> (baseline_spec(mode) == Some(
            NoiseBaseline::GradientLut,
        ) <==> kernel_uses_lut(k)),
        (mode != PipelineMode::VertexShader) <==> kernel_spec(mode) is Some,
{
}

/// Position of a mode in the order the modes are declared (and listed in the
/// pipeline selector).
pub open spec fn declaration_index(mode: PipelineMode) -> int {
    match mode {
        PipelineMode::ComputeStandard => 0,
        PipelineMode::ComputeOptimized => 1,
        PipelineMode::ComputeLut => 2,
        PipelineMode::ComputeCombined => 3,
        PipelineMode::VertexShader => 4,
    }
}

/// `next` steps through the modes in declaration order and wraps from the
/// last to the first: standard, shared memory, gradient table, table plus
/// shared memory, vertex shader, standard again.
pub proof fn lemma_next_follows_declaration_order(mode: PipelineMode)
    ensures
        declaration_index(next_spec(mode)) == (declaration_index(mode) + 1) % 5,
        next_spec(PipelineMode::ComputeStandard) == PipelineMode::ComputeOptimized,
        next_spec(PipelineMode::ComputeOptimized) == PipelineMode::ComputeLut,
        next_spec(PipelineMode::ComputeLut) == PipelineMode::ComputeCombined,
        next_spec(PipelineMode::ComputeCombined) == PipelineMode::VertexShader,
        next_spec(PipelineMode::VertexShader) == PipelineMode::ComputeStandard,
{
}

/// Each compute mode runs the kernel of its own name, and no two modes run
/// the same kernel.
pub proof fn lemma_each_mode_runs_its_kernel(a: PipelineMode, b: PipelineMode)
    ensures
        kernel_spec(PipelineMode::ComputeStandard) == Some(ComputeKernel::Standard),
        kernel_spec(PipelineMode::ComputeOptimized) == Some(ComputeKernel::SharedMemory),
        kernel_spec(PipelineMode::ComputeLut) == Some(ComputeKernel::GradientLut),
        kernel_spec(PipelineMode::ComputeCombined) == Some(ComputeKernel::LutSharedMemory),
        kernel_spec(PipelineMode::VertexShader) is None,
        a != b && kernel_spec(a) is Some ==> kernel_spec(a) != kernel_spec(b),
{
}

/// The workgroups cover the whole axis, and one workgroup fewer would not.
pub proof fn lemma_workgroups_cover(n: u32)
    ensures
        workgroups_spec(n as int) * 16 >= n,
        workgroups_spec(n as int) == 0 || (workgroups_spec(n as int) - 1) * 16 < n,
{
}

} // verus!
