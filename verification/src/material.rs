//! Render pipeline descriptors: blend, depth/stencil and color target
//! state, the [`Material`] description of a pipeline and its builder, and
//! the checks a material must pass before a pipeline is built from it.

use vstd::prelude::*;
use crate::binding::{BindingEntry, spec_visibility};
use crate::flags::{ColorWrites, ShaderStages};
use crate::layout::{GroupEntry, GlobalLayoutPool, MultipleOwnGroups, assemble_group_layouts, check_own_groups, find_own_entries, at_most_one_own, has_own, own_entries_of, first_two_owns, slot_layout};
use crate::limits::DeviceLimits;
use crate::texture_format::TextureFormat;
use crate::vertex_format::VertexBufferLayout;
use crate::binding::{DuplicateBinding, first_duplicate_binding, bindings_unique, is_first_duplicate};

verus! {

/// Face of a triangle considered for culling.
#[derive(Copy, Clone, Debug, PartialEq, Eq, Hash, Structural)]
pub enum Face {
    Front,
    Back,
}

/// Rasterizer polygon mode.
#[derive(Copy, Clone, Debug, PartialEq, Eq, Hash, Structural)]
pub enum PolygonMode {
    Fill,
    Line,
    Point,
}

/// Color/alpha blend factor.
#[derive(Copy, Clone, Debug, PartialEq, Eq, Hash, Structural)]
pub enum BlendFactor {
    Zero,
    One,
    Src,
    OneMinusSrc,
    SrcAlpha,
    OneMinusSrcAlpha,
    Dst,
    OneMinusDst,
    DstAlpha,
    OneMinusDstAlpha,
    SrcAlphaSaturated,
    Constant,
    OneMinusConstant,
    Src1,
    OneMinusSrc1,
    Src1Alpha,
    OneMinusSrc1Alpha,
}

/// Color/alpha blend operation.
#[derive(Copy, Clone, Debug, PartialEq, Eq, Hash, Structural)]
pub enum BlendOperation {
    Add,
    Subtract,
    ReverseSubtract,
    Min,
    Max,
}

/// Comparison function used for depth and stencil tests.
#[derive(Copy, Clone, Debug, PartialEq, Eq, Hash, Structural)]
pub enum CompareFunction {
    Never,
    Less,
    Equal,
    LessEqual,
    Greater,
    NotEqual,
    GreaterEqual,
    Always,
}

/// Operation performed on the stencil value.
#[derive(Copy, Clone, Debug, PartialEq, Eq, Hash, Structural)]
pub enum StencilOperation {
    Keep,
    Zero,
    Replace,
    Invert,
    IncrementClamp,
    DecrementClamp,
    IncrementWrap,
    DecrementWrap,
}
/// One color or alpha blend equation.
#[derive(Copy, Clone, Debug, PartialEq, Eq, Hash, Structural)]
pub struct BlendComponent {
    pub src_factor: BlendFactor,
    pub dst_factor: BlendFactor,
    pub operation: BlendOperation,
}

impl BlendComponent {
    /// Replaces the destination with the source outright.
    pub fn replace() -> (r: Self)
        ensures r == (BlendComponent { src_factor: BlendFactor::One, dst_factor: BlendFactor::Zero, operation: BlendOperation::Add }),
    {
        BlendComponent { src_factor: BlendFactor::One, dst_factor: BlendFactor::Zero, operation: BlendOperation::Add }
    }

    /// `(1 * src) + ((1 - src_alpha) * dst)`.
    pub fn over() -> (r: Self)
        ensures
            r == (BlendComponent {
                src_factor: BlendFactor::One,
                dst_factor: BlendFactor::OneMinusSrcAlpha,
                operation: BlendOperation::Add,
            }),
    {
        BlendComponent { src_factor: BlendFactor::One, dst_factor: BlendFactor::OneMinusSrcAlpha, operation: BlendOperation::Add }
    }
}

/// Blend state of a color target.
#[derive(Copy, Clone, Debug, PartialEq, Eq, Hash, Structural)]
pub struct BlendState {
    pub color: BlendComponent,
    pub alpha: BlendComponent,
}

impl BlendState {
    /// No blending: the target is overwritten with the shader's output.
    pub fn replace() -> (r: Self)
        ensures r.color == r.alpha, r.color.src_factor == BlendFactor::One, r.color.dst_factor == BlendFactor::Zero,
            r.color.operation == BlendOperation::Add,
    {
        BlendState { color: BlendComponent::replace(), alpha: BlendComponent::replace() }
    }

    /// Standard alpha blending with non-premultiplied alpha.
    pub fn alpha_blending() -> (r: Self)
        ensures
            r.color == (BlendComponent {
                src_factor: BlendFactor::SrcAlpha,
                dst_factor: BlendFactor::OneMinusSrcAlpha,
                operation: BlendOperation::Add,
            }),
            r.alpha == (BlendComponent {
                src_factor: BlendFactor::One,
                dst_factor: BlendFactor::OneMinusSrcAlpha,
                operation: BlendOperation::Add,
            }),
    {
        BlendState {
            color: BlendComponent {
                src_factor: BlendFactor::SrcAlpha,
                dst_factor: BlendFactor::OneMinusSrcAlpha,
                operation: BlendOperation::Add,
            },
            alpha: BlendComponent::over(),
        }
    }

    /// Standard alpha blending with premultiplied alpha.
    pub fn premultiplied_alpha_blending() -> (r: Self)
        ensures
            r.color == r.alpha,
            r.color == (BlendComponent {
                src_factor: BlendFactor::One,
                dst_factor: BlendFactor::OneMinusSrcAlpha,
                operation: BlendOperation::Add,
            }),
    {
        BlendState { color: BlendComponent::over(), alpha: BlendComponent::over() }
    }
}

/// The color state of a render pipeline's target.
#[derive(Copy, Clone, Debug, PartialEq, Eq, Hash, Structural)]
pub struct ColorTargetState {
    /// The format of the attachment this pipeline renders to.
    pub format: TextureFormat,
    /// Blending used for this target; `None` disables blending.
    pub blend: Option<BlendState>,
    /// Which color/alpha channels get written.
    pub write_mask: ColorWrites,
}

/// A single opaque `Rgba8Unorm` color target with no blending that writes
/// every channel.
pub fn default_target() -> (r: ColorTargetState)
    ensures r == (ColorTargetState { format: TextureFormat::Rgba8Unorm, blend: None, write_mask: ColorWrites(15) }),
{
    ColorTargetState { format: TextureFormat::Rgba8Unorm, blend: None, write_mask: ColorWrites::all() }
}

/// Per-face stencil test/operation state.
#[derive(Copy, Clone, Debug, PartialEq, Eq, Hash, Structural)]
pub struct StencilFaceState {
    pub compare: CompareFunction,
    pub fail_op: StencilOperation,
    pub depth_fail_op: StencilOperation,
    pub pass_op: StencilOperation,
}

/// The state of a face whose stencil test always passes and keeps the value.
pub open spec fn spec_stencil_ignore() -> StencilFaceState {
    StencilFaceState {
        compare: CompareFunction::Always,
        fail_op: StencilOperation::Keep,
        depth_fail_op: StencilOperation::Keep,
        pass_op: StencilOperation::Keep,
    }
}

impl StencilFaceState {
    /// A stencil test that always passes and keeps the stencil value.
    pub fn ignore() -> (r: Self)
        ensures r == spec_stencil_ignore(),
    {
        StencilFaceState {
            compare: CompareFunction::Always,
            fail_op: StencilOperation::Keep,
            depth_fail_op: StencilOperation::Keep,
            pass_op: StencilOperation::Keep,
        }
    }
}

impl Default for StencilFaceState {
    fn default() -> (r: Self)
        ensures r == spec_stencil_ignore(),
    {
        StencilFaceState::ignore()
    }
}

/// Full stencil test state; the default disables it.
#[derive(Copy, Clone, Debug, PartialEq, Eq, Hash, Structural)]
pub struct StencilState {
    pub front: StencilFaceState,
    pub back: StencilFaceState,
    pub read_mask: u32,
    pub write_mask: u32,
}

impl Default for StencilState {
    /// Both faces ignore the stencil, zero masks.
    fn default() -> (r: Self)
        ensures r.front == spec_stencil_ignore(), r.back == spec_stencil_ignore(), r.read_mask == 0, r.write_mask == 0,
    {
        StencilState { front: StencilFaceState::ignore(), back: StencilFaceState::ignore(), read_mask: 0, write_mask: 0 }
    }
}

/// Depth bias ("polygon offset") state. `slope_scale_bits` and `clamp_bits`
/// are the IEEE-754 bit patterns of the `f32` slope scale and clamp; all
/// zero (the default) disables the bias.
#[derive(Copy, Clone, Debug, PartialEq, Eq, Hash, Structural)]
pub struct DepthBiasState {
    pub constant: i32,
    pub slope_scale_bits: u32,
    pub clamp_bits: u32,
}

impl Default for DepthBiasState {
    fn default() -> (r: Self)
        ensures r.constant == 0, r.slope_scale_bits == 0, r.clamp_bits == 0,
    {
        DepthBiasState { constant: 0, slope_scale_bits: 0, clamp_bits: 0 }
    }
}

/// Depth/stencil state of a render pipeline.
#[derive(Copy, Clone, Debug, PartialEq, Eq, Hash, Structural)]
pub struct DepthStencilState {
    /// Format of the depth/stencil attachment.
    pub format: TextureFormat,
    /// Whether to write updated depth values; `None` if not depth-testing.
    pub depth_write_enabled: Option<bool>,
    /// Comparison function for the depth test; `None` if not depth-testing.
    pub depth_compare: Option<CompareFunction>,
    /// Stencil test state.
    pub stencil: StencilState,
    /// Depth bias state.
    pub bias: DepthBiasState,
}

/// The description of a render pipeline, as a value.
pub struct MaterialView<L> {
    pub label: Option<&'static str>,
    pub shader_source: &'static str,
    pub vertex_entry: Option<&'static str>,
    pub fragment_entry: Option<&'static str>,
    pub vertex_layouts: Seq<VertexBufferLayout>,
    pub groups: Seq<GroupEntry<L>>,
    pub cull_mode: Option<Face>,
    pub depth: Option<DepthStencilState>,
    pub targets: Seq<ColorTargetState>,
    pub polygon_mode: PolygonMode,
    pub sample_count: u32,
}

/// The defaults of a material: `vs_main`/`fs_main` entry points, back-face
/// culling, no depth, no targets, filled polygons, one sample.
pub open spec fn default_material_view<L>(shader_source: &'static str) -> MaterialView<L> {
    MaterialView {
        label: None,
        shader_source,
        vertex_entry: Some("vs_main"),
        fragment_entry: Some("fs_main"),
        vertex_layouts: Seq::empty(),
        groups: Seq::empty(),
        cull_mode: Some(Face::Back),
        depth: None,
        targets: Seq::empty(),
        polygon_mode: PolygonMode::Fill,
        sample_count: 1,
    }
}

/// Describes a render pipeline and its own bind group. Built only through
/// [`MaterialBuilder`]; `L` is the type of a built bind group layout.
pub struct Material<L> {
    label: Option<&'static str>,
    shader_source: &'static str,
    vertex_entry: Option<&'static str>,
    fragment_entry: Option<&'static str>,
    vertex_layouts: Vec<VertexBufferLayout>,
    groups: Vec<GroupEntry<L>>,
    cull_mode: Option<Face>,
    depth: Option<DepthStencilState>,
    targets: Vec<ColorTargetState>,
    polygon_mode: PolygonMode,
    sample_count: u32,
}

impl<L> View for Material<L> {
    type V = MaterialView<L>;

    closed spec fn view(&self) -> MaterialView<L> {
        MaterialView {
            label: self.label,
            shader_source: self.shader_source,
            vertex_entry: self.vertex_entry,
            fragment_entry: self.fragment_entry,
            vertex_layouts: self.vertex_layouts@,
            groups: self.groups@,
            cull_mode: self.cull_mode,
            depth: self.depth,
            targets: self.targets@,
            polygon_mode: self.polygon_mode,
            sample_count: self.sample_count,
        }
    }
}

impl<L> Material<L> {
    pub fn label(&self) -> (r: Option<&'static str>)
        ensures r == self@.label,
    {
        self.label
    }

    pub fn shader_source(&self) -> (r: &'static str)
        ensures r == self@.shader_source,
    {
        self.shader_source
    }

    pub fn vertex_entry(&self) -> (r: Option<&'static str>)
        ensures r == self@.vertex_entry,
    {
        self.vertex_entry
    }

    pub fn fragment_entry(&self) -> (r: Option<&'static str>)
        ensures r == self@.fragment_entry,
    {
        self.fragment_entry
    }

    pub fn vertex_layouts(&self) -> (r: &Vec<VertexBufferLayout>)
        ensures r@ == self@.vertex_layouts,
    {
        &self.vertex_layouts
    }

    /// This material's bind groups, in `@group(N)` order.
    pub fn entries(&self) -> (r: &Vec<GroupEntry<L>>)
        ensures r@ == self@.groups,
    {
        &self.groups
    }

    pub fn cull_mode(&self) -> (r: Option<Face>)
        ensures r == self@.cull_mode,
    {
        self.cull_mode
    }

    pub fn depth(&self) -> (r: Option<DepthStencilState>)
        ensures r == self@.depth,
    {
        self.depth
    }

    pub fn targets(&self) -> (r: &Vec<ColorTargetState>)
        ensures r@ == self@.targets,
    {
        &self.targets
    }

    pub fn polygon_mode(&self) -> (r: PolygonMode)
        ensures r == self@.polygon_mode,
    {
        self.polygon_mode
    }

    pub fn sample_count(&self) -> (r: u32)
        ensures r == self@.sample_count,
    {
        self.sample_count
    }
}

/// Something worth warning about in a finished material: not fatal, since
/// there are legitimate reasons for it, but unusual.
#[derive(Clone, Copy, Debug, PartialEq, Eq, Structural)]
pub enum MaterialWarning {
    /// No color target: the pipeline writes no color (fine for a
    /// depth-only pass, usually a forgotten `with_targets`).
    NoColorTargets,
}

/// Builds a [`Material`]: start from [`new`](Self::new), chain the setters,
/// finish with [`build`](Self::build).
pub struct MaterialBuilder<L> {
    material: Material<L>,
}

impl<L> View for MaterialBuilder<L> {
    type V = MaterialView<L>;

    closed spec fn view(&self) -> MaterialView<L> {
        self.material@
    }
}

impl<L> Default for MaterialBuilder<L> {
    /// A material with no shader source yet and every other field at its default.
    fn default() -> (r: Self)
        ensures r@ == default_material_view::<L>(""),
    {
        MaterialBuilder::new("")
    }
}

impl<L> MaterialBuilder<L> {
    /// Starts a material with the given WGSL source; every other field has
    /// its default.
    pub fn new(shader_source: &'static str) -> (r: Self)
        ensures r@ == default_material_view::<L>(shader_source),
    {
        let r = MaterialBuilder {
            material: Material {
                label: None,
                shader_source,
                vertex_entry: Some("vs_main"),
                fragment_entry: Some("fs_main"),
                vertex_layouts: Vec::new(),
                groups: Vec::new(),
                cull_mode: Some(Face::Back),
                depth: None,
                targets: Vec::new(),
                polygon_mode: PolygonMode::Fill,
                sample_count: 1,
            },
        };
        assert(r@ =~= default_material_view::<L>(shader_source));
        r
    }

    pub fn with_label(self, label: &'static str) -> (r: Self)
        ensures r@ == (MaterialView { label: Some(label), ..self@ }),
    {
        let mut m = self.material;
        m.label = Some(label);
        MaterialBuilder { material: m }
    }

    pub fn with_vertex_entry(self, entry: &'static str) -> (r: Self)
        ensures r@ == (MaterialView { vertex_entry: Some(entry), ..self@ }),
    {
        let mut m = self.material;
        m.vertex_entry = Some(entry);
        MaterialBuilder { material: m }
    }

    /// Clears the vertex entry point: the module's single `@vertex`
    /// function is used.
    pub fn without_vertex_entry(self) -> (r: Self)
        ensures r@ == (MaterialView { vertex_entry: None, ..self@ }),
    {
        let mut m = self.material;
        m.vertex_entry = None;
        MaterialBuilder { material: m }
    }

    pub fn with_fragment_entry(self, entry: &'static str) -> (r: Self)
        ensures r@ == (MaterialView { fragment_entry: Some(entry), ..self@ }),
    {
        let mut m = self.material;
        m.fragment_entry = Some(entry);
        MaterialBuilder { material: m }
    }

    /// Clears the fragment entry point: the module's single `@fragment`
    /// function is used.
    pub fn without_fragment_entry(self) -> (r: Self)
        ensures r@ == (MaterialView { fragment_entry: None, ..self@ }),
    {
        let mut m = self.material;
        m.fragment_entry = None;
        MaterialBuilder { material: m }
    }

    pub fn with_vertex_layouts(self, layouts: Vec<VertexBufferLayout>) -> (r: Self)
        ensures r@ == (MaterialView { vertex_layouts: layouts@, ..self@ }),
    {
        let mut m = self.material;
        m.vertex_layouts = layouts;
        MaterialBuilder { material: m }
    }

    /// This material's bind groups, in `@group(N)` order: position in
    /// `groups` is the `@group(N)` index the shader must declare.
    pub fn with_entries(self, groups: Vec<GroupEntry<L>>) -> (r: Self)
        ensures r@ == (MaterialView { groups: groups@, ..self@ }),
    {
        let mut m = self.material;
        m.groups = groups;
        MaterialBuilder { material: m }
    }

    pub fn with_cull_mode(self, mode: Face) -> (r: Self)
        ensures r@ == (MaterialView { cull_mode: Some(mode), ..self@ }),
    {
        let mut m = self.material;
        m.cull_mode = Some(mode);
        MaterialBuilder { material: m }
    }

    /// Renders both faces: no culling.
    pub fn without_cull_mode(self) -> (r: Self)
        ensures r@ == (MaterialView { cull_mode: None, ..self@ }),
    {
        let mut m = self.material;
        m.cull_mode = None;
        MaterialBuilder { material: m }
    }

    pub fn with_depth(self, depth: DepthStencilState) -> (r: Self)
        ensures r@ == (MaterialView { depth: Some(depth), ..self@ }),
    {
        let mut m = self.material;
        m.depth = Some(depth);
        MaterialBuilder { material: m }
    }

    pub fn with_targets(self, targets: Vec<ColorTargetState>) -> (r: Self)
        ensures r@ == (MaterialView { targets: targets@, ..self@ }),
    {
        let mut m = self.material;
        m.targets = targets;
        MaterialBuilder { material: m }
    }

    pub fn with_polygon_mode(self, mode: PolygonMode) -> (r: Self)
        ensures r@ == (MaterialView { polygon_mode: mode, ..self@ }),
    {
        let mut m = self.material;
        m.polygon_mode = mode;
        MaterialBuilder { material: m }
    }

    pub fn with_sample_count(self, count: u32) -> (r: Self)
        ensures r@ == (MaterialView { sample_count: count, ..self@ }),
    {
        let mut m = self.material;
        m.sample_count = count;
        MaterialBuilder { material: m }
    }

    /// Warns about a material without color targets.
    pub fn validate(&self) -> (r: Option<MaterialWarning>)
        ensures r == (if self@.targets.len() == 0 { Some(MaterialWarning::NoColorTargets) } else { None }),
    {
        if self.material.targets.len() == 0 {
            Some(MaterialWarning::NoColorTargets)
        } else {
            None
        }
    }

    /// The finished material.
    pub fn build(self) -> (r: Material<L>)
        ensures r@ == self@,
    {
        self.material
    }
}

#[allow(inconsistent_fields)]
/// A material needing more of a device's fixed-size pipeline resources
/// than the device has.
#[derive(Clone, Copy, Debug, PartialEq, Eq, Structural)]
pub enum MaterialLimitError {
    TooManyVertexBuffers { count: u64, max: u32 },
    /// Attributes summed across every vertex buffer layout.
    TooManyVertexAttributes { count: u128, max: u32 },
    TooManyColorTargets { count: u64, max: u32 },
}

/// The number of attributes summed across `layouts`.
pub open spec fn total_attributes(layouts: Seq<VertexBufferLayout>) -> int
    decreases layouts.len(),
{
    if layouts.len() == 0 {
        0
    } else {
        total_attributes(layouts.drop_last()) + layouts.last().attributes@.len()
    }
}

/// The first device limit (vertex buffers, then vertex attributes, then
/// color attachments) that a material exceeds, if any.
pub open spec fn spec_material_limit_error<L>(limits: DeviceLimits, m: MaterialView<L>) -> Option<MaterialLimitError> {
    if m.vertex_layouts.len() > limits.max_vertex_buffers {
        Some(MaterialLimitError::TooManyVertexBuffers { count: m.vertex_layouts.len() as u64, max: limits.max_vertex_buffers })
    } else if total_attributes(m.vertex_layouts) > limits.max_vertex_attributes {
        Some(MaterialLimitError::TooManyVertexAttributes {
            count: total_attributes(m.vertex_layouts) as u128,
            max: limits.max_vertex_attributes,
        })
    } else if m.targets.len() > limits.max_color_attachments {
        Some(MaterialLimitError::TooManyColorTargets { count: m.targets.len() as u64, max: limits.max_color_attachments })
    } else {
        None
    }
}

proof fn lemma_total_attributes_prefix(layouts: Seq<VertexBufferLayout>, i: int)
    requires 0 <= i < layouts.len(),
    ensures total_attributes(layouts.subrange(0, i + 1)) == total_attributes(layouts.subrange(0, i)) + layouts[i].attributes@.len(),
{
    assert(layouts.subrange(0, i + 1).drop_last() =~= layouts.subrange(0, i));
}

/// Checks a material's vertex buffers, summed vertex attributes and color
/// targets against the device's limits.
pub fn check_material_limits<L>(limits: &DeviceLimits, material: &Material<L>) -> (r: Result<(), MaterialLimitError>)
    ensures
        match r {
            Ok(()) => spec_material_limit_error(*limits, material@) is None,
            Err(e) => spec_material_limit_error(*limits, material@) == Some(e),
        },
{
    let layouts = &material.vertex_layouts;
    if layouts.len() > limits.max_vertex_buffers as usize {
        return Err(MaterialLimitError::TooManyVertexBuffers { count: layouts.len() as u64, max: limits.max_vertex_buffers });
    }
    let mut total: u128 = 0;
    let mut i: usize = 0;
    while i < layouts.len()
        invariant
            i <= layouts@.len(),
            layouts@.len() <= limits.max_vertex_buffers,
            total == total_attributes(layouts@.subrange(0, i as int)),
            total <= i * (u64::MAX as int),
        decreases layouts@.len() - i,
    {
        proof { lemma_total_attributes_prefix(layouts@, i as int); }
        let n = layouts[i].attributes.len() as u128;
        assert(total + n <= (i + 1) * (u64::MAX as int)) by (nonlinear_arith)
            requires total <= i * (u64::MAX as int), n <= u64::MAX;
        assert((i + 1) * (u64::MAX as int) <= (u32::MAX as int) * (u64::MAX as int)) by (nonlinear_arith)
            requires i + 1 <= u32::MAX;
        total = total + n;
        i = i + 1;
    }
    assert(layouts@.subrange(0, layouts@.len() as int) =~= layouts@);
    if total > limits.max_vertex_attributes as u128 {
        return Err(MaterialLimitError::TooManyVertexAttributes { count: total, max: limits.max_vertex_attributes });
    }
    if material.targets.len() > limits.max_color_attachments as usize {
        return Err(MaterialLimitError::TooManyColorTargets { count: material.targets.len() as u64, max: limits.max_color_attachments });
    }
    Ok(())
}

/// Why a material cannot be built into a pipeline.
#[derive(Clone, Copy, Debug)]
pub enum MaterialError {
    /// Exceeds one of the device's pipeline limits.
    Limits(MaterialLimitError),
    /// More than one [`GroupEntry::Own`] slot.
    MultipleOwnGroups(MultipleOwnGroups),
    /// An own entry visible to the compute stage.
    ComputeVisibleEntry { entry: &'static str },
    /// Two own entries claim one `@binding(N)`.
    DuplicateBinding(DuplicateBinding),
}

/// Entry `k` of `entries` is the first that the compute stage can see.
pub open spec fn is_first_compute_visible(entries: Seq<BindingEntry>, k: int) -> bool {
    &&& 0 <= k < entries.len()
    &&& spec_visibility(entries[k].kind).0 & 4 != 0
    &&& forall|j: int| 0 <= j < k ==> spec_visibility(#[trigger] entries[j].kind).0 & 4 == 0
}

/// The compute stage can see none of `entries`.
pub open spec fn none_compute_visible(entries: Seq<BindingEntry>) -> bool {
    forall|k: int| 0 <= k < entries.len() ==> spec_visibility(#[trigger] entries[k].kind).0 & 4 == 0
}

/// The first entry (in order) visible to the compute stage, if any.
pub fn first_compute_visible(entries: &Vec<BindingEntry>) -> (r: Option<usize>)
    ensures
        match r {
            Some(i) => is_first_compute_visible(entries@, i as int),
            None => none_compute_visible(entries@),
        },
{
    let mut i: usize = 0;
    while i < entries.len()
        invariant
            i <= entries@.len(),
            forall|k: int| 0 <= k < i ==> spec_visibility(entries@[k].kind).0 & 4 == 0,
        decreases entries@.len() - i,
    {
        if entries[i].kind.visibility().intersects(ShaderStages::compute()) {
            return Some(i);
        }
        i = i + 1;
    }
    None
}

/// A material a pipeline can be built from on a device with `limits`:
/// within the pipeline limits, at most one own group, and an own group (if
/// any) that the compute stage cannot see and that claims no `@binding(N)`
/// twice.
pub open spec fn material_valid<L>(limits: DeviceLimits, m: MaterialView<L>) -> bool {
    &&& spec_material_limit_error(limits, m) is None
    &&& at_most_one_own(m.groups)
    &&& has_own(m.groups) ==> none_compute_visible(own_entries_of(m.groups)) && bindings_unique(own_entries_of(m.groups))
}

/// Checks everything about a material that can be checked before touching
/// the device, in the order a pipeline build would hit each problem: the
/// device limits, at most one own group, no own entry visible to the
/// compute stage, and no `@binding(N)` claimed twice. On success, the own
/// group's entries (`None` when there is no own group).
pub fn validate_material<'a, L>(limits: &DeviceLimits, material: &'a Material<L>) -> (r: Result<Option<&'a Vec<BindingEntry>>, MaterialError>)
    ensures
        r is Ok <==> material_valid(*limits, material@),
        match r {
            Err(MaterialError::Limits(e)) => spec_material_limit_error(*limits, material@) == Some(e),
            _ => spec_material_limit_error(*limits, material@) is None,
        },
        match r {
            Err(MaterialError::Limits(_)) => true,
            Err(MaterialError::MultipleOwnGroups(e)) => !at_most_one_own(material@.groups) && first_two_owns(material@.groups, e),
            _ => at_most_one_own(material@.groups),
        },
        match r {
            Ok(None) => !has_own(material@.groups),
            Ok(Some(entries)) => {
                &&& has_own(material@.groups)
                &&& entries@ == own_entries_of(material@.groups)
                &&& none_compute_visible(entries@)
                &&& bindings_unique(entries@)
            },
            Err(MaterialError::ComputeVisibleEntry { entry }) => {
                &&& has_own(material@.groups)
                &&& exists|k: int| #[trigger] is_first_compute_visible(own_entries_of(material@.groups), k)
                    && own_entries_of(material@.groups)[k].name == entry
            },
            Err(MaterialError::DuplicateBinding(d)) => {
                &&& has_own(material@.groups)
                &&& none_compute_visible(own_entries_of(material@.groups))
                &&& is_first_duplicate(own_entries_of(material@.groups), d)
            },
            _ => true,
        },
{
    assert(material@.groups == material.groups@);
    match check_material_limits(limits, material) {
        Ok(()) => {},
        Err(e) => return Err(MaterialError::Limits(e)),
    }
    match check_own_groups(&material.groups) {
        Ok(()) => {},
        Err(e) => return Err(MaterialError::MultipleOwnGroups(e)),
    }
    match find_own_entries(&material.groups) {
        None => Ok(None),
        Some(entries) => {
            match first_compute_visible(entries) {
                Some(k) => {
                    assert(is_first_compute_visible(entries@, k as int));
                    assert(!none_compute_visible(entries@));
                    return Err(MaterialError::ComputeVisibleEntry { entry: entries[k].name });
                },
                None => {},
            }
            match first_duplicate_binding(entries) {
                Ok(()) => Ok(Some(entries)),
                Err(d) => Err(MaterialError::DuplicateBinding(d)),
            }
        },
    }
}

/// The pipeline-layout slots of a material that passed
/// [`validate_material`] and whose groups fit the device's bind group limit
/// (see [`check_bind_group_count`](crate::layout::check_bind_group_count)):
/// position is the `@group(N)` index, `own_layout` (built from the own
/// group's entries) fills the own slot and the pool resolves every global
/// name. `None` while some global name is not registered yet.
pub fn build_material_raw<'a, L>(
    limits: &DeviceLimits,
    material: &'a Material<L>,
    own_layout: &'a L,
    pool: &'a GlobalLayoutPool<L>,
) -> (r: Option<Vec<&'a L>>)
    requires
        pool.well_formed(),
        material_valid(*limits, material@),
        material@.groups.len() <= limits.max_bind_groups,
    ensures
        match r {
            None => exists|i: int| 0 <= i < material@.groups.len()
                && slot_layout(#[trigger] material@.groups[i], *own_layout, *pool) is None,
            Some(slots) => {
                &&& slots@.len() == material@.groups.len()
                &&& forall|i: int| 0 <= i < material@.groups.len()
                    ==> slot_layout(#[trigger] material@.groups[i], *own_layout, *pool) == Some(*slots@[i])
            },
        },
{
    assert(material@.groups == material.groups@);
    assemble_group_layouts(&material.groups, own_layout, pool, limits.max_bind_groups)
}

} // verus!
