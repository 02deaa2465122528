//! The render pipelines of the GPU renderer, described as plain data: the
//! bind group layout of each pipeline, its color state and the fixed
//! settings they share, and the bind group and buffers of each draw. The
//! device turns these descriptions into GPU objects.
use vstd::prelude::*;

verus! {

/// The entry point of every shader.
pub const ENTRY_POINT: &'static str = "main";
/// The size in bytes of one vertex: a position of two 32-bit floats and a
/// color of four.
pub const VERTEX_STRIDE: u64 = 24;
/// The write mask with every channel (red, green, blue, alpha) written.
pub const COLOR_WRITE_ALL: u32 = 0xf;

/// A shader stage that can see a binding.
#[derive(Clone, Copy, Debug, PartialEq, Eq, Structural)]
pub enum ShaderStage {
    Vertex,
    Fragment,
}

/// The kind of values a sampled texture holds.
#[derive(Clone, Copy, Debug, PartialEq, Eq, Structural)]
pub enum TextureComponentType {
    Float,
}

/// The shape of a texture view.
#[derive(Clone, Copy, Debug, PartialEq, Eq, Structural)]
pub enum TextureViewDimension {
    D2,
}

/// The kind of resource a binding holds.
#[derive(Clone, Copy, Debug, PartialEq, Eq, Structural)]
pub enum BindingType {
    UniformBuffer { dynamic: bool },
    SampledTexture {
        multisampled: bool,
        component_type: TextureComponentType,
        dimension: TextureViewDimension,
    },
    Sampler { comparison: bool },
}

/// One binding of a bind group layout.
#[derive(Clone, Copy, Debug, PartialEq, Eq, Structural)]
pub struct BindGroupLayoutEntry {
    pub binding: u32,
    pub visibility: ShaderStage,
    pub ty: BindingType,
}

/// A factor of a blend equation.
#[derive(Clone, Copy, Debug, PartialEq, Eq, Structural)]
pub enum BlendFactor {
    One,
    SrcAlpha,
    OneMinusSrcAlpha,
}

/// How the two terms of a blend equation combine.
#[derive(Clone, Copy, Debug, PartialEq, Eq, Structural)]
pub enum BlendOperation {
    Add,
}

/// A blend equation: `src * src_factor` combined with `dst * dst_factor`.
#[derive(Clone, Copy, Debug, PartialEq, Eq, Structural)]
pub struct BlendDescriptor {
    pub src_factor: BlendFactor,
    pub dst_factor: BlendFactor,
    pub operation: BlendOperation,
}

/// The format of a color target.
#[derive(Clone, Copy, Debug, PartialEq, Eq, Structural)]
pub enum TextureFormat {
    Bgra8Unorm,
}

/// How a pipeline writes its color target: the target's format, the blend
/// equations of color and alpha and the channels written.
#[derive(Clone, Copy, Debug, PartialEq, Eq, Structural)]
pub struct ColorStateDescriptor {
    pub format: TextureFormat,
    pub color_blend: BlendDescriptor,
    pub alpha_blend: BlendDescriptor,
    pub write_mask: u32,
}

/// How vertices are assembled into primitives.
#[derive(Clone, Copy, Debug, PartialEq, Eq, Structural)]
pub enum PrimitiveTopology {
    TriangleList,
}

/// Which winding faces the viewer.
#[derive(Clone, Copy, Debug, PartialEq, Eq, Structural)]
pub enum FrontFace {
    Ccw,
}

/// Which faces are culled.
#[derive(Clone, Copy, Debug, PartialEq, Eq, Structural)]
pub enum CullMode {
    NoCulling,
    Front,
    Back,
}

/// The type of the indices of a mesh.
#[derive(Clone, Copy, Debug, PartialEq, Eq, Structural)]
pub enum IndexFormat {
    Uint16,
}

/// How a vertex buffer advances.
#[derive(Clone, Copy, Debug, PartialEq, Eq, Structural)]
pub enum InputStepMode {
    Vertex,
}

/// The format of one vertex attribute.
#[derive(Clone, Copy, Debug, PartialEq, Eq, Structural)]
pub enum VertexFormat {
    Float2,
    Float4,
}

/// One attribute of a vertex: where it starts in the vertex, its format and
/// the shader location that reads it.
#[derive(Clone, Copy, Debug, PartialEq, Eq, Structural)]
pub struct VertexAttribute {
    pub offset: u64,
    pub format: VertexFormat,
    pub shader_location: u32,
}

/// The settings of a render pipeline. Its rasterizer has no depth bias (the
/// slope scale and clamp, which are floats, are 0 as well).
#[derive(Clone, Debug)]
pub struct RenderPipelineDescriptor<S, L, D> {
    pub vertex_shader: S,
    pub vertex_entry_point: &'static str,
    pub fragment_shader: S,
    pub fragment_entry_point: &'static str,
    pub layout: L,
    pub front_face: FrontFace,
    pub cull_mode: CullMode,
    pub depth_bias: i32,
    pub primitive_topology: PrimitiveTopology,
    pub color_states: Vec<ColorStateDescriptor>,
    pub depth_stencil_state: Option<D>,
    pub sample_count: u32,
    pub sample_mask: u32,
    pub alpha_to_coverage_enabled: bool,
    pub index_format: IndexFormat,
    pub vertex_stride: u64,
    pub step_mode: InputStepMode,
    pub vertex_attributes: Vec<VertexAttribute>,
}

/// The attributes of a vertex: its position (two floats) at location 0 and
/// its color (four floats) at location 1.
pub open spec fn vertex_attributes() -> Seq<VertexAttribute> {
    seq![
        VertexAttribute { offset: 0, format: VertexFormat::Float2, shader_location: 0 },
        VertexAttribute { offset: 8, format: VertexFormat::Float4, shader_location: 1 },
    ]
}

/// The settings that every pipeline shares: both shaders entered at
/// `main`, counter-clockwise front faces, no culling, no depth bias,
/// triangle lists, one sample with every sample written, no alpha to
/// coverage, 16-bit indices, and vertices of [`VERTEX_STRIDE`] bytes with
/// the attributes of [`vertex_attributes`].
pub open spec fn fixed_settings<S, L, D>(d: RenderPipelineDescriptor<S, L, D>) -> bool {
    &&& d.vertex_entry_point == ENTRY_POINT
    &&& d.fragment_entry_point == ENTRY_POINT
    &&& d.front_face == FrontFace::Ccw
    &&& d.cull_mode == CullMode::NoCulling
    &&& d.depth_bias == 0
    &&& d.primitive_topology == PrimitiveTopology::TriangleList
    &&& d.sample_count == 1
    &&& d.sample_mask == u32::MAX
    &&& !d.alpha_to_coverage_enabled
    &&& d.index_format == IndexFormat::Uint16
    &&& d.vertex_stride == VERTEX_STRIDE
    &&& d.step_mode == InputStepMode::Vertex
    &&& d.vertex_attributes@ == vertex_attributes()
}

/// The descriptor of a pipeline with the given shaders, layout and states.
pub fn create_pipeline_descriptor<S, L, D>(
    vertex_shader: S,
    fragment_shader: S,
    pipeline_layout: L,
    depth_stencil_state: Option<D>,
    color_states: Vec<ColorStateDescriptor>,
) -> (d: RenderPipelineDescriptor<S, L, D>)
    ensures
        d.vertex_shader == vertex_shader,
        d.fragment_shader == fragment_shader,
        d.layout == pipeline_layout,
        d.depth_stencil_state == depth_stencil_state,
        d.color_states@ == color_states@,
        fixed_settings(d),
{
    let mask: u32 = !0u32;
    assert(!0u32 == u32::MAX) by (bit_vector);
    let mut attributes: Vec<VertexAttribute> = Vec::new();
    attributes.push(VertexAttribute { offset: 0, format: VertexFormat::Float2, shader_location: 0 });
    attributes.push(VertexAttribute { offset: 8, format: VertexFormat::Float4, shader_location: 1 });
    assert(attributes@ =~= vertex_attributes());
    RenderPipelineDescriptor {
        vertex_shader,
        vertex_entry_point: ENTRY_POINT,
        fragment_shader,
        fragment_entry_point: ENTRY_POINT,
        layout: pipeline_layout,
        front_face: FrontFace::Ccw,
        cull_mode: CullMode::NoCulling,
        depth_bias: 0,
        primitive_topology: PrimitiveTopology::TriangleList,
        color_states,
        depth_stencil_state,
        sample_count: 1,
        sample_mask: mask,
        alpha_to_coverage_enabled: false,
        index_format: IndexFormat::Uint16,
        vertex_stride: VERTEX_STRIDE,
        step_mode: InputStepMode::Vertex,
        vertex_attributes: attributes,
    }
}

/// The color state of pipelines that draw straight colors: a BGRA target
/// with every channel written, color and alpha blended by the source's
/// alpha.
pub open spec fn straight_alpha_state() -> ColorStateDescriptor {
    ColorStateDescriptor {
        format: TextureFormat::Bgra8Unorm,
        color_blend: BlendDescriptor { src_factor: BlendFactor::SrcAlpha, dst_factor: BlendFactor::OneMinusSrcAlpha, operation: BlendOperation::Add },
        alpha_blend: BlendDescriptor { src_factor: BlendFactor::SrcAlpha, dst_factor: BlendFactor::OneMinusSrcAlpha, operation: BlendOperation::Add },
        write_mask: COLOR_WRITE_ALL,
    }
}

/// The color state of the bitmap pipeline: the same, except that colors,
/// which are premultiplied, are added with factor one.
pub open spec fn premultiplied_state() -> ColorStateDescriptor {
    ColorStateDescriptor {
        format: TextureFormat::Bgra8Unorm,
        color_blend: BlendDescriptor { src_factor: BlendFactor::One, dst_factor: BlendFactor::OneMinusSrcAlpha, operation: BlendOperation::Add },
        alpha_blend: BlendDescriptor { src_factor: BlendFactor::SrcAlpha, dst_factor: BlendFactor::OneMinusSrcAlpha, operation: BlendOperation::Add },
        write_mask: COLOR_WRITE_ALL,
    }
}

/// The bindings of the color pipeline: two vertex uniforms (transforms and
/// color adjustments).
pub open spec fn color_bindings() -> Seq<BindGroupLayoutEntry> {
    seq![
            BindGroupLayoutEntry { binding: 0, visibility: ShaderStage::Vertex, ty: BindingType::UniformBuffer { dynamic: false } },
            BindGroupLayoutEntry { binding: 1, visibility: ShaderStage::Vertex, ty: BindingType::UniformBuffer { dynamic: false } },
    ]
}

/// The bindings of the bitmap pipeline: two vertex uniforms, a fragment
/// uniform, a two-dimensional float texture and its sampler.
pub open spec fn bitmap_bindings() -> Seq<BindGroupLayoutEntry> {
    seq![
            BindGroupLayoutEntry { binding: 0, visibility: ShaderStage::Vertex, ty: BindingType::UniformBuffer { dynamic: false } },
            BindGroupLayoutEntry { binding: 1, visibility: ShaderStage::Vertex, ty: BindingType::UniformBuffer { dynamic: false } },
            BindGroupLayoutEntry { binding: 2, visibility: ShaderStage::Fragment, ty: BindingType::UniformBuffer { dynamic: false } },
            BindGroupLayoutEntry { binding: 3, visibility: ShaderStage::Fragment, ty: BindingType::SampledTexture { multisampled: false, component_type: TextureComponentType::Float, dimension: TextureViewDimension::D2 } },
            BindGroupLayoutEntry { binding: 4, visibility: ShaderStage::Fragment, ty: BindingType::Sampler { comparison: false } },
    ]
}

/// The bindings of the gradient pipeline: two vertex uniforms and two
/// fragment uniforms.
pub open spec fn gradient_bindings() -> Seq<BindGroupLayoutEntry> {
    seq![
            BindGroupLayoutEntry { binding: 0, visibility: ShaderStage::Vertex, ty: BindingType::UniformBuffer { dynamic: false } },
            BindGroupLayoutEntry { binding: 1, visibility: ShaderStage::Vertex, ty: BindingType::UniformBuffer { dynamic: false } },
            BindGroupLayoutEntry { binding: 2, visibility: ShaderStage::Fragment, ty: BindingType::UniformBuffer { dynamic: false } },
            BindGroupLayoutEntry { binding: 3, visibility: ShaderStage::Fragment, ty: BindingType::UniformBuffer { dynamic: false } },
    ]
}

/// The bind group layout of the color pipeline.
fn color_layout() -> (entries: Vec<BindGroupLayoutEntry>)
    ensures
        entries@ == color_bindings(),
{
    let mut entries: Vec<BindGroupLayoutEntry> = Vec::new();
    entries.push(BindGroupLayoutEntry { binding: 0, visibility: ShaderStage::Vertex, ty: BindingType::UniformBuffer { dynamic: false } });
    entries.push(BindGroupLayoutEntry { binding: 1, visibility: ShaderStage::Vertex, ty: BindingType::UniformBuffer { dynamic: false } });
    assert(entries@ =~= color_bindings());
    entries
}

/// The bind group layout of the bitmap pipeline.
fn bitmap_layout() -> (entries: Vec<BindGroupLayoutEntry>)
    ensures
        entries@ == bitmap_bindings(),
{
    let mut entries: Vec<BindGroupLayoutEntry> = Vec::new();
    entries.push(BindGroupLayoutEntry { binding: 0, visibility: ShaderStage::Vertex, ty: BindingType::UniformBuffer { dynamic: false } });
    entries.push(BindGroupLayoutEntry { binding: 1, visibility: ShaderStage::Vertex, ty: BindingType::UniformBuffer { dynamic: false } });
    entries.push(BindGroupLayoutEntry { binding: 2, visibility: ShaderStage::Fragment, ty: BindingType::UniformBuffer { dynamic: false } });
    entries.push(BindGroupLayoutEntry { binding: 3, visibility: ShaderStage::Fragment, ty: BindingType::SampledTexture { multisampled: false, component_type: TextureComponentType::Float, dimension: TextureViewDimension::D2 } });
    entries.push(BindGroupLayoutEntry { binding: 4, visibility: ShaderStage::Fragment, ty: BindingType::Sampler { comparison: false } });
    assert(entries@ =~= bitmap_bindings());
    entries
}

/// The bind group layout of the gradient pipeline.
fn gradient_layout() -> (entries: Vec<BindGroupLayoutEntry>)
    ensures
        entries@ == gradient_bindings(),
{
    let mut entries: Vec<BindGroupLayoutEntry> = Vec::new();
    entries.push(BindGroupLayoutEntry { binding: 0, visibility: ShaderStage::Vertex, ty: BindingType::UniformBuffer { dynamic: false } });
    entries.push(BindGroupLayoutEntry { binding: 1, visibility: ShaderStage::Vertex, ty: BindingType::UniformBuffer { dynamic: false } });
    entries.push(BindGroupLayoutEntry { binding: 2, visibility: ShaderStage::Fragment, ty: BindingType::UniformBuffer { dynamic: false } });
    entries.push(BindGroupLayoutEntry { binding: 3, visibility: ShaderStage::Fragment, ty: BindingType::UniformBuffer { dynamic: false } });
    assert(entries@ =~= gradient_bindings());
    entries
}

/// The bind group layout and the pipeline that draw solid colors.
pub fn create_color_pipeline<S, D>(vertex_shader: S, fragment_shader: S, depth_stencil_state: Option<D>) -> (r: (
    Vec<BindGroupLayoutEntry>,
    RenderPipelineDescriptor<S, Vec<BindGroupLayoutEntry>, D>,
))
    ensures
        r.0@ == color_bindings(),
        r.1.layout@ == color_bindings(),
        r.1.vertex_shader == vertex_shader,
        r.1.fragment_shader == fragment_shader,
        r.1.depth_stencil_state == depth_stencil_state,
        r.1.color_states@ == seq![straight_alpha_state()],
        fixed_settings(r.1),
{
    let bind_group_layout = color_layout();
    let pipeline_layout = color_layout();
    let mut color_states: Vec<ColorStateDescriptor> = Vec::new();
    color_states.push(ColorStateDescriptor {
        format: TextureFormat::Bgra8Unorm,
        color_blend: BlendDescriptor { src_factor: BlendFactor::SrcAlpha, dst_factor: BlendFactor::OneMinusSrcAlpha, operation: BlendOperation::Add },
        alpha_blend: BlendDescriptor { src_factor: BlendFactor::SrcAlpha, dst_factor: BlendFactor::OneMinusSrcAlpha, operation: BlendOperation::Add },
        write_mask: COLOR_WRITE_ALL,
    });
    assert(color_states@ =~= seq![straight_alpha_state()]);
    let d = create_pipeline_descriptor(
        vertex_shader,
        fragment_shader,
        pipeline_layout,
        depth_stencil_state,
        color_states,
    );
    (bind_group_layout, d)
}

/// The bind group layout and the pipeline that draw bitmaps.
pub fn create_bitmap_pipeline<S, D>(vertex_shader: S, fragment_shader: S, depth_stencil_state: Option<D>) -> (r: (
    Vec<BindGroupLayoutEntry>,
    RenderPipelineDescriptor<S, Vec<BindGroupLayoutEntry>, D>,
))
    ensures
        r.0@ == bitmap_bindings(),
        r.1.layout@ == bitmap_bindings(),
        r.1.vertex_shader == vertex_shader,
        r.1.fragment_shader == fragment_shader,
        r.1.depth_stencil_state == depth_stencil_state,
        r.1.color_states@ == seq![premultiplied_state()],
        fixed_settings(r.1),
{
    let bind_group_layout = bitmap_layout();
    let pipeline_layout = bitmap_layout();
    let mut color_states: Vec<ColorStateDescriptor> = Vec::new();
    color_states.push(ColorStateDescriptor {
        format: TextureFormat::Bgra8Unorm,
        color_blend: BlendDescriptor { src_factor: BlendFactor::One, dst_factor: BlendFactor::OneMinusSrcAlpha, operation: BlendOperation::Add },
        alpha_blend: BlendDescriptor { src_factor: BlendFactor::SrcAlpha, dst_factor: BlendFactor::OneMinusSrcAlpha, operation: BlendOperation::Add },
        write_mask: COLOR_WRITE_ALL,
    });
    assert(color_states@ =~= seq![premultiplied_state()]);
    let d = create_pipeline_descriptor(
        vertex_shader,
        fragment_shader,
        pipeline_layout,
        depth_stencil_state,
        color_states,
    );
    (bind_group_layout, d)
}

/// The bind group layout and the pipeline that draw gradients.
pub fn create_gradient_pipeline<S, D>(vertex_shader: S, fragment_shader: S, depth_stencil_state: Option<D>) -> (r: (
    Vec<BindGroupLayoutEntry>,
    RenderPipelineDescriptor<S, Vec<BindGroupLayoutEntry>, D>,
))
    ensures
        r.0@ == gradient_bindings(),
        r.1.layout@ == gradient_bindings(),
        r.1.vertex_shader == vertex_shader,
        r.1.fragment_shader == fragment_shader,
        r.1.depth_stencil_state == depth_stencil_state,
        r.1.color_states@ == seq![straight_alpha_state()],
        fixed_settings(r.1),
{
    let bind_group_layout = gradient_layout();
    let pipeline_layout = gradient_layout();
    let mut color_states: Vec<ColorStateDescriptor> = Vec::new();
    color_states.push(ColorStateDescriptor {
        format: TextureFormat::Bgra8Unorm,
        color_blend: BlendDescriptor { src_factor: BlendFactor::SrcAlpha, dst_factor: BlendFactor::OneMinusSrcAlpha, operation: BlendOperation::Add },
        alpha_blend: BlendDescriptor { src_factor: BlendFactor::SrcAlpha, dst_factor: BlendFactor::OneMinusSrcAlpha, operation: BlendOperation::Add },
        write_mask: COLOR_WRITE_ALL,
    });
    assert(color_states@ =~= seq![straight_alpha_state()]);
    let d = create_pipeline_descriptor(
        vertex_shader,
        fragment_shader,
        pipeline_layout,
        depth_stencil_state,
        color_states,
    );
    (bind_group_layout, d)
}

/// The size in bytes of the transforms uniform: two 4x4 matrices of 32-bit
/// floats.
pub const TRANSFORMS_SIZE: u64 = 128;
/// The size in bytes of the texture transform uniform: one 4x4 matrix.
pub const TEXTURE_TRANSFORMS_SIZE: u64 = 64;
/// The size in bytes of the color adjustments uniform: two RGBA vectors.
pub const COLOR_ADJUSTMENTS_SIZE: u64 = 32;
/// The size in bytes of the gradient uniform: four 4-byte fields and two
/// arrays of sixteen 4-float vectors.
pub const GRADIENT_UNIFORMS_SIZE: u64 = 528;

/// A buffer that a draw binds.
#[derive(Clone, Copy, Debug, PartialEq, Eq, Structural)]
pub enum UniformBuffer {
    /// The mesh's transforms.
    Transforms,
    /// The mesh's color adjustments.
    Colors,
    /// The draw's own texture transform.
    TextureTransforms,
    /// The draw's own gradient.
    Gradient,
}

/// How a texture is addressed outside its bounds.
#[derive(Clone, Copy, Debug, PartialEq, Eq, Structural)]
pub enum AddressMode {
    Repeat,
    ClampToEdge,
}

/// How a texture is filtered.
#[derive(Clone, Copy, Debug, PartialEq, Eq, Structural)]
pub enum FilterMode {
    Linear,
    Nearest,
}

/// A sampler: the same address mode on every axis, the same filter for
/// magnifying, minifying and between mipmaps, level of detail from 0 to 100,
/// and no comparison.
#[derive(Clone, Copy, Debug, PartialEq, Eq, Structural)]
pub struct SamplerDescriptor {
    pub address_mode: AddressMode,
    pub filter: FilterMode,
    pub lod_min_clamp: u32,
    pub lod_max_clamp: u32,
}

/// What one binding of a draw's bind group holds.
#[derive(Clone, Copy, Debug, PartialEq, Eq, Structural)]
pub enum BindingResource {
    /// The first `size` bytes of a buffer.
    Buffer { buffer: UniformBuffer, size: u64 },
    /// The bitmap's texture.
    TextureView,
    /// The bitmap's sampler.
    Sampler(SamplerDescriptor),
}

/// One binding of a draw's bind group.
#[derive(Clone, Copy, Debug, PartialEq, Eq, Structural)]
pub struct Binding {
    pub binding: u32,
    pub resource: BindingResource,
}

/// A draw before its bind group exists: what it fills with. A bitmap
/// draw carries the view of its texture, `T`, and the character it shows.
/// (The texture transform and gradient that gradients and bitmaps also
/// carry are floats and go to their own uniform buffers.)
#[derive(Clone, Debug)]
pub enum IncompleteDrawType<T> {
    Color,
    Gradient,
    Bitmap { is_smoothed: bool, is_repeating: bool, texture_view: T, id: u16 },
}

/// What a finished draw fills with, and what it keeps of it.
#[derive(Clone, Debug)]
pub enum DrawType<T> {
    Color,
    Gradient,
    Bitmap { texture_view: T, id: u16 },
}

/// A draw ready to be rendered: what it fills with, its mesh's vertex and
/// index buffers (`B`) and index count, and the bindings of its bind group,
/// in binding order.
#[derive(Clone, Debug)]
pub struct Draw<T, B> {
    pub draw_type: DrawType<T>,
    pub vertex_buffer: B,
    pub index_buffer: B,
    pub bindings: Vec<Binding>,
    pub index_count: u32,
}

pub open spec fn buffer_binding(binding: u32, buffer: UniformBuffer, size: u64) -> Binding {
    Binding { binding, resource: BindingResource::Buffer { buffer, size } }
}

/// The bindings of a draw of each kind.
pub open spec fn draw_bindings<T>(draw: IncompleteDrawType<T>) -> Seq<Binding> {
    match draw {
        IncompleteDrawType::Color => seq![
            buffer_binding(0, UniformBuffer::Transforms, TRANSFORMS_SIZE),
            buffer_binding(1, UniformBuffer::Colors, COLOR_ADJUSTMENTS_SIZE),
        ],
        IncompleteDrawType::Gradient => seq![
            buffer_binding(0, UniformBuffer::Transforms, TRANSFORMS_SIZE),
            buffer_binding(1, UniformBuffer::TextureTransforms, TEXTURE_TRANSFORMS_SIZE),
            buffer_binding(2, UniformBuffer::Colors, COLOR_ADJUSTMENTS_SIZE),
            buffer_binding(3, UniformBuffer::Gradient, GRADIENT_UNIFORMS_SIZE),
        ],
        IncompleteDrawType::Bitmap { is_smoothed, is_repeating, .. } => seq![
            buffer_binding(0, UniformBuffer::Transforms, TRANSFORMS_SIZE),
            buffer_binding(1, UniformBuffer::TextureTransforms, TEXTURE_TRANSFORMS_SIZE),
            buffer_binding(2, UniformBuffer::Colors, COLOR_ADJUSTMENTS_SIZE),
            Binding { binding: 3, resource: BindingResource::TextureView },
            Binding {
                binding: 4,
                resource: BindingResource::Sampler(
                    SamplerDescriptor {
                        address_mode: if is_repeating {
                            AddressMode::Repeat
                        } else {
                            AddressMode::ClampToEdge
                        },
                        filter: if is_smoothed {
                            FilterMode::Linear
                        } else {
                            FilterMode::Nearest
                        },
                        lod_min_clamp: 0,
                        lod_max_clamp: 100,
                    },
                ),
            },
        ],
    }
}

fn buffer_entry(binding: u32, buffer: UniformBuffer, size: u64) -> (b: Binding)
    ensures
        b == buffer_binding(binding, buffer, size),
{
    Binding { binding, resource: BindingResource::Buffer { buffer, size } }
}

/// What a finished draw keeps of what it fills with.
pub open spec fn draw_type_of<T>(draw: IncompleteDrawType<T>) -> DrawType<T> {
    match draw {
        IncompleteDrawType::Color => DrawType::Color,
        IncompleteDrawType::Gradient => DrawType::Gradient,
        IncompleteDrawType::Bitmap { texture_view, id, .. } => DrawType::Bitmap { texture_view, id },
    }
}

impl<T> IncompleteDrawType<T> {
    /// The draw, with its mesh's buffers and index count and its bind
    /// group: every draw binds the mesh's transforms first; gradients and
    /// bitmaps bind their texture transform next; then the mesh's colors; a
    /// gradient its gradient last; a bitmap its texture and a sampler that
    /// repeats when the bitmap repeats and filters linearly when it is
    /// smoothed.
    pub fn build<B>(self, vertex_buffer: B, index_buffer: B, index_count: u32) -> (d: Draw<T, B>)
        ensures
            d.bindings@ == draw_bindings(self),
            d.draw_type == draw_type_of(self),
            d.vertex_buffer == vertex_buffer,
            d.index_buffer == index_buffer,
            d.index_count == index_count,
    {
        let ghost this = self;
        let mut bindings: Vec<Binding> = Vec::new();
        match self {
            IncompleteDrawType::Color => {
                bindings.push(buffer_entry(0, UniformBuffer::Transforms, TRANSFORMS_SIZE));
                bindings.push(buffer_entry(1, UniformBuffer::Colors, COLOR_ADJUSTMENTS_SIZE));
                assert(bindings@ =~= draw_bindings(this));
                Draw { draw_type: DrawType::Color, vertex_buffer, index_buffer, bindings, index_count }
            },
            IncompleteDrawType::Gradient => {
                bindings.push(buffer_entry(0, UniformBuffer::Transforms, TRANSFORMS_SIZE));
                bindings.push(
                    buffer_entry(1, UniformBuffer::TextureTransforms, TEXTURE_TRANSFORMS_SIZE),
                );
                bindings.push(buffer_entry(2, UniformBuffer::Colors, COLOR_ADJUSTMENTS_SIZE));
                bindings.push(buffer_entry(3, UniformBuffer::Gradient, GRADIENT_UNIFORMS_SIZE));
                assert(bindings@ =~= draw_bindings(this));
                Draw { draw_type: DrawType::Gradient, vertex_buffer, index_buffer, bindings, index_count }
            },
            IncompleteDrawType::Bitmap { is_smoothed, is_repeating, texture_view, id } => {
                let address_mode = if is_repeating {
                    AddressMode::Repeat
                } else {
                    AddressMode::ClampToEdge
                };
                let filter = if is_smoothed {
                    FilterMode::Linear
                } else {
                    FilterMode::Nearest
                };
                let sampler = SamplerDescriptor {
                    address_mode,
                    filter,
                    lod_min_clamp: 0,
                    lod_max_clamp: 100,
                };
                bindings.push(buffer_entry(0, UniformBuffer::Transforms, TRANSFORMS_SIZE));
                bindings.push(
                    buffer_entry(1, UniformBuffer::TextureTransforms, TEXTURE_TRANSFORMS_SIZE),
                );
                bindings.push(buffer_entry(2, UniformBuffer::Colors, COLOR_ADJUSTMENTS_SIZE));
                bindings.push(Binding { binding: 3, resource: BindingResource::TextureView });
                bindings.push(Binding { binding: 4, resource: BindingResource::Sampler(sampler) });
                assert(bindings@ =~= draw_bindings(this));
                Draw {
                    draw_type: DrawType::Bitmap { texture_view, id },
                    vertex_buffer,
                    index_buffer,
                    bindings,
                    index_count,
                }
            },
        }
    }
}

/// The layout of the pipeline that draws `draw`.
pub open spec fn layout_for<T>(draw: IncompleteDrawType<T>) -> Seq<BindGroupLayoutEntry> {
    match draw {
        IncompleteDrawType::Color => color_bindings(),
        IncompleteDrawType::Gradient => gradient_bindings(),
        IncompleteDrawType::Bitmap { .. } => bitmap_bindings(),
    }
}

/// Whether a bound resource is of the kind that a layout entry expects.
pub open spec fn resource_fits(r: BindingResource, t: BindingType) -> bool {
    match r {
        BindingResource::Buffer { .. } => t is UniformBuffer,
        BindingResource::TextureView => t is SampledTexture,
        BindingResource::Sampler(_) => t is Sampler,
    }
}

/// Each draw's bind group matches the layout of the pipeline that draws it:
/// as many bindings, with the layout's binding numbers in its order, each
/// holding the kind of resource that its layout entry expects.
pub proof fn law_draw_matches_pipeline_layout<T>(draw: IncompleteDrawType<T>)
    ensures
        draw_bindings(draw).len() == layout_for(draw).len(),
        forall|i: int|
            0 <= i < draw_bindings(draw).len() ==> #[trigger] draw_bindings(draw)[i].binding
                == layout_for(draw)[i].binding && resource_fits(
                draw_bindings(draw)[i].resource,
                layout_for(draw)[i].ty,
            ),
{
}

/// A bitmap draw samples its texture as the bitmap asks: linear filtering
/// exactly when it is smoothed, repeating exactly when it repeats, each
/// independently of the other, over the full level-of-detail range.
pub proof fn law_bitmap_sampler_follows_its_flags<T>(draw: IncompleteDrawType<T>)
    requires
        draw is Bitmap,
    ensures
        draw_bindings(draw).len() == 5,
        draw_bindings(draw)[4].binding == 4,
        draw_bindings(draw)[4].resource matches BindingResource::Sampler(sd) && (sd.filter
            == FilterMode::Linear <==> draw->is_smoothed) && (sd.filter == FilterMode::Nearest
            <==> !draw->is_smoothed) && (sd.address_mode == AddressMode::Repeat
            <==> draw->is_repeating) && (sd.address_mode == AddressMode::ClampToEdge
            <==> !draw->is_repeating) && sd.lod_min_clamp == 0 && sd.lod_max_clamp == 100,
{
}

} // verus!
