use ruffle::bitmaps::{remove_invalid_jpeg_data, rgb_to_rgba, BitmapHandle, BitmapInfo, DecodedJpeg, TextureEntry, TextureRegistry};
use ruffle::null_renderer::{
    BitmapSize, NullBitmapHandle, NullBitmapSource, NullRenderer, RenderError, ShapeHandle,
    ViewportDimensions,
};
use ruffle::pipelines::{
    create_bitmap_pipeline, create_color_pipeline, create_gradient_pipeline,
    create_pipeline_descriptor, AddressMode, BindingResource, BindingType, BlendFactor,
    BlendOperation, CullMode, DrawType, FilterMode, FrontFace, IncompleteDrawType, IndexFormat,
    PrimitiveTopology, ShaderStage, TextureComponentType, TextureFormat, TextureViewDimension,
    UniformBuffer, VertexAttribute, VertexFormat, COLOR_WRITE_ALL, ENTRY_POINT, VERTEX_STRIDE,
};
use ruffle::system_classes::{playerglobal_classes, playerglobal_tag, SystemClasses, PLAYERGLOBAL_CLASSES};
use ruffle::uniform_buffer::{BufferStorage, StagingBuffersStorage, BLOCK_SIZE};

#[test]
fn pipeline_descriptor_keeps_its_parts_and_fixed_settings() {
    let (_, p) = create_color_pipeline("vs", "fs", None::<u8>);
    let color = p.color_states[0];
    let d = create_pipeline_descriptor("vs", "fs", 7u32, Some(3u8), vec![color]);
    assert_eq!(d.vertex_shader, "vs");
    assert_eq!(d.fragment_shader, "fs");
    assert_eq!(d.vertex_entry_point, "main");
    assert_eq!(d.fragment_entry_point, ENTRY_POINT);
    assert_eq!(d.layout, 7);
    assert_eq!(d.depth_stencil_state, Some(3));
    assert_eq!(d.color_states, vec![color]);
    assert_eq!(d.front_face, FrontFace::Ccw);
    assert_eq!(d.cull_mode, CullMode::NoCulling);
    assert_eq!(d.depth_bias, 0);
    assert_eq!(d.primitive_topology, PrimitiveTopology::TriangleList);
    assert_eq!(d.sample_count, 1);
    assert_eq!(d.sample_mask, u32::MAX);
    assert!(!d.alpha_to_coverage_enabled);
    assert_eq!(d.index_format, IndexFormat::Uint16);
    assert_eq!(d.vertex_stride, VERTEX_STRIDE);
    assert_eq!(VERTEX_STRIDE, 24);
    assert_eq!(
        d.vertex_attributes,
        vec![
            VertexAttribute { offset: 0, format: VertexFormat::Float2, shader_location: 0 },
            VertexAttribute { offset: 8, format: VertexFormat::Float4, shader_location: 1 },
        ]
    );
}

#[test]
fn pipeline_layouts_and_blending() {
    let (color_entries, color) = create_color_pipeline("vs", "fs", Some(1u8));
    assert_eq!(color_entries.len(), 2);
    assert_eq!(color.layout, color_entries);
    assert_eq!(color.depth_stencil_state, Some(1));
    assert!(color_entries.iter().all(|e| e.visibility == ShaderStage::Vertex));
    let state = color.color_states[0];
    assert_eq!(color.color_states.len(), 1);
    assert_eq!(state.format, TextureFormat::Bgra8Unorm);
    assert_eq!(state.write_mask, COLOR_WRITE_ALL);
    assert_eq!(state.color_blend.src_factor, BlendFactor::SrcAlpha);
    assert_eq!(state.alpha_blend.dst_factor, BlendFactor::OneMinusSrcAlpha);
    assert_eq!(state.alpha_blend.operation, BlendOperation::Add);

    let (bitmap_entries, bitmap) = create_bitmap_pipeline("vs", "fs", None::<u8>);
    assert_eq!(bitmap_entries.len(), 5);
    assert_eq!(
        bitmap_entries[3].ty,
        BindingType::SampledTexture {
            multisampled: false,
            component_type: TextureComponentType::Float,
            dimension: TextureViewDimension::D2,
        }
    );
    assert_eq!(bitmap_entries[4].ty, BindingType::Sampler { comparison: false });
    assert_eq!(bitmap.color_states[0].color_blend.src_factor, BlendFactor::One);
    assert_eq!(bitmap.color_states[0].alpha_blend.src_factor, BlendFactor::SrcAlpha);
    assert_eq!(bitmap.color_states[0].format, TextureFormat::Bgra8Unorm);

    let (gradient_entries, gradient) = create_gradient_pipeline("vs", "fs", None::<u8>);
    assert_eq!(gradient_entries.len(), 4);
    for (i, e) in gradient_entries.iter().enumerate() {
        assert_eq!(e.binding as usize, i);
        assert_eq!(e.ty, BindingType::UniformBuffer { dynamic: false });
    }
    assert_eq!(gradient.color_states[0].color_blend.src_factor, BlendFactor::SrcAlpha);
    assert_eq!(gradient.primitive_topology, PrimitiveTopology::TriangleList);
}

#[test]
fn draws_bind_what_their_pipeline_expects() {
    let pairs = [
        (IncompleteDrawType::Color, create_color_pipeline((), (), None::<u8>).0),
        (IncompleteDrawType::Gradient, create_gradient_pipeline((), (), None::<u8>).0),
        (
            IncompleteDrawType::Bitmap { is_smoothed: true, is_repeating: false, texture_view: "tex", id: 3 },
            create_bitmap_pipeline((), (), None::<u8>).0,
        ),
    ];
    for (draw, layout) in pairs {
        let d = draw.build(1u8, 2u8, 6);
        assert_eq!(d.bindings.len(), layout.len());
        for (b, e) in d.bindings.iter().zip(layout.iter()) {
            assert_eq!(b.binding, e.binding);
            let fits = match b.resource {
                BindingResource::Buffer { .. } => matches!(e.ty, BindingType::UniformBuffer { .. }),
                BindingResource::TextureView => matches!(e.ty, BindingType::SampledTexture { .. }),
                BindingResource::Sampler(_) => matches!(e.ty, BindingType::Sampler { .. }),
            };
            assert!(fits);
        }
    }
}

#[test]
fn draws_carry_their_mesh_and_texture() {
    let d = IncompleteDrawType::Bitmap { is_smoothed: false, is_repeating: true, texture_view: "tex", id: 9 }
        .build("vbo", "ibo", 12);
    assert_eq!(d.vertex_buffer, "vbo");
    assert_eq!(d.index_buffer, "ibo");
    assert_eq!(d.index_count, 12);
    assert!(matches!(d.draw_type, DrawType::Bitmap { texture_view: "tex", id: 9 }));
    match d.bindings[4].resource {
        BindingResource::Sampler(s) => {
            assert_eq!(s.address_mode, AddressMode::Repeat);
            assert_eq!(s.filter, FilterMode::Nearest);
            assert_eq!(s.lod_min_clamp, 0);
            assert_eq!(s.lod_max_clamp, 100);
        }
        _ => panic!("the fifth binding is the sampler"),
    }
    let g = IncompleteDrawType::<()>::Gradient.build(0u8, 0u8, 3);
    assert!(matches!(g.draw_type, DrawType::Gradient));
    assert_eq!(
        g.bindings[3].resource,
        BindingResource::Buffer { buffer: UniformBuffer::Gradient, size: 528 }
    );
    let c = IncompleteDrawType::<()>::Color.build(0u8, 0u8, 0);
    assert!(matches!(c.draw_type, DrawType::Color));
    assert_eq!(
        c.bindings[1].resource,
        BindingResource::Buffer { buffer: UniformBuffer::Colors, size: 32 }
    );
}

#[test]
fn playerglobal_tags_and_classes() {
    assert_eq!(playerglobal_tag(82), Ok(true));
    assert_eq!(playerglobal_tag(0), Ok(false));
    assert_eq!(
        playerglobal_tag(1),
        Err("playerglobal should only contain `DoAbc2` tag".to_string())
    );
    let names = playerglobal_classes();
    assert_eq!(names.len(), PLAYERGLOBAL_CLASSES);
    assert_eq!(names[0], ("", "ArgumentError"));
    assert_eq!(names[PLAYERGLOBAL_CLASSES - 1], ("flash.filters", "GradientGlowFilter"));
    let mut sc = SystemClasses::new(0u32, 1, 2, 3);
    let resolved: Vec<u32> = (100..100 + PLAYERGLOBAL_CLASSES as u32).collect();
    sc.fill_playerglobal_classes(&resolved);
    assert_eq!(sc.object, 0);
    assert_eq!(sc.string, 0);
    assert_eq!(sc.argumenterror, 100);
    assert_eq!(sc.stage, 100 + 18);
    assert_eq!(sc.gradientglowfilter, 100 + PLAYERGLOBAL_CLASSES as u32 - 1);
}

#[test]
fn null_renderer_ignores_everything() {
    let dims = ViewportDimensions { width: 640, height: 480, scale_factor_bits: 0x3ff0_0000_0000_0000 };
    let mut r = NullRenderer::new(dims);
    assert_eq!(r.viewport_dimensions(), dims);
    assert_eq!(r.register_shape_fills(&(), 1), ShapeHandle(0));
    assert_eq!(r.register_shape_strokes(&(), 2, ()), ShapeHandle(0));
    assert_eq!(r.register_glyph_shape(&()), ShapeHandle(0));
    assert_eq!(r.render_offscreen(NullBitmapHandle, 4, 4, ()), None);
    assert_eq!(r.register_bitmap(()), Ok(NullBitmapHandle));
    assert_eq!(r.update_texture(&NullBitmapHandle, 1, 1, vec![0, 0, 0, 0]), Ok(()));
    assert_eq!(
        r.create_context3d(),
        Err(RenderError::Unimplemented("createContext3D".to_string()))
    );
    assert_eq!(r.viewport_dimensions(), dims);
    let smaller = ViewportDimensions { width: 320, height: 240, scale_factor_bits: 0 };
    r.set_viewport_dimensions(smaller);
    assert_eq!(r.viewport_dimensions(), smaller);
    let source = NullBitmapSource;
    assert_eq!(source.bitmap_size(3), None::<BitmapSize>);
    assert!(source.bitmap_handle(3).is_none());
}

#[test]
fn uniform_storage_rounds_sizes_up_to_the_alignment() {
    let s: BufferStorage<[u8; 100]> = BufferStorage::from_alignment(64);
    assert_eq!(s.aligned_uniforms_size(), 128);
    let t: BufferStorage<[u8; 128]> = BufferStorage::from_alignment(64);
    assert_eq!(t.aligned_uniforms_size(), 128);
    let u: BufferStorage<[u8; 1]> = BufferStorage::from_alignment(1);
    assert_eq!(u.aligned_uniforms_size(), 1);
    let v: BufferStorage<()> = BufferStorage::from_alignment(256);
    assert_eq!(v.aligned_uniforms_size(), 0);
    assert_eq!(BLOCK_SIZE, 65536);
}

#[test]
fn uniform_storage_blocks_survive_recall() {
    let mut s: StagingBuffersStorage<[u8; 12], [u8; 40]> = StagingBuffersStorage::from_alignment(16);
    assert_eq!(s.uniforms.aligned_uniforms_size(), 16);
    assert_eq!(s.colors.aligned_uniforms_size(), 48);
    s.uniforms.allocate_block();
    s.uniforms.allocate_block();
    s.colors.allocate_block();
    s.recall();
    assert_eq!(s.uniforms.block_count(), 2);
    assert_eq!(s.colors.block_count(), 1);
}

#[test]
fn rgb_pixels_widen_to_opaque_rgba() {
    assert_eq!(rgb_to_rgba(&vec![1, 2, 3, 4, 5, 6]), vec![1, 2, 3, 255, 4, 5, 6, 255]);
    assert_eq!(rgb_to_rgba(&vec![]), Vec::<u8>::new());
}

#[test]
fn textures_get_handles_in_order() {
    let mut reg = TextureRegistry::new();
    assert_eq!(reg.get(BitmapHandle(0)), None);
    let a = reg.register(5, 10, 20);
    let b = reg.register_decoded(6, 30, 40);
    assert_eq!(a, BitmapInfo { handle: BitmapHandle(0), width: 10, height: 20 });
    assert_eq!(b.handle, BitmapHandle(1));
    assert_eq!(reg.get(a.handle), Some(TextureEntry { id: 5, width: 10, height: 20 }));
    assert_eq!(reg.get(b.handle), Some(TextureEntry { id: 6, width: 30, height: 40 }));
    assert_eq!(reg.get(BitmapHandle(2)), None);
}

#[test]
fn decoded_rgb_images_register_and_widen() {
    let mut reg = TextureRegistry::new();
    let img = DecodedJpeg { width: 2, height: 1, pixel_bytes: 3, pixels: vec![9, 8, 7, 6, 5, 4] };
    let (info, rgba) = reg.register_rgb_image(11, img).unwrap();
    assert_eq!(info, BitmapInfo { handle: BitmapHandle(0), width: 2, height: 1 });
    assert_eq!(rgba, vec![9, 8, 7, 255, 6, 5, 4, 255]);
    let ragged = DecodedJpeg { width: 1, height: 1, pixel_bytes: 3, pixels: vec![1, 2] };
    assert!(reg.register_rgb_image(12, ragged).is_err());
    assert_eq!(reg.get(BitmapHandle(1)), None);
}

#[test]
fn undecodable_jpeg_registers_nothing() {
    let mut reg = TextureRegistry::new();
    assert!(reg.register_bitmap_jpeg_2(1, &[0, 1, 2, 3]).is_err());
    assert!(reg.register_bitmap_jpeg_2(1, &[0xff, 0xd9, 0xff, 0xd8, 0xff, 0xd8, 0, 0]).is_err());
    assert_eq!(reg.get(BitmapHandle(0)), None);
}

#[test]
fn system_classes_start_as_object() {
    let s = SystemClasses::new(1u32, 2, 3, 4);
    assert_eq!((s.object, s.function, s.class, s.global), (1, 2, 3, 4));
    assert_eq!(s.string, 1);
    assert_eq!(s.stage, 1);
    assert_eq!(s.rectangletexture, 1);
}

#[test]
fn erroneous_jpeg_headers_are_removed() {
    let h = [0xffu8, 0xd9, 0xff, 0xd8];
    let mut leading = h.to_vec();
    leading.extend_from_slice(&[0xff, 0xd8, 1, 2, 3]);
    assert_eq!(remove_invalid_jpeg_data(&leading), vec![0xff, 0xd8, 1, 2, 3]);
    let mut inner = vec![0xff, 0xd8, 1];
    inner.extend_from_slice(&h);
    inner.extend_from_slice(&[2, 3, 4]);
    assert_eq!(remove_invalid_jpeg_data(&inner), vec![0xff, 0xd8, 1, 2, 3, 4]);
    let mut both = h.to_vec();
    both.extend_from_slice(&[9]);
    both.extend_from_slice(&h);
    both.extend_from_slice(&[8]);
    both.extend_from_slice(&h);
    both.extend_from_slice(&[7]);
    assert_eq!(remove_invalid_jpeg_data(&both), {
        let mut v = vec![9, 8];
        v.extend_from_slice(&h);
        v.push(7);
        v
    });
    let mut at_end = vec![1, 2];
    at_end.extend_from_slice(&h);
    assert_eq!(remove_invalid_jpeg_data(&at_end), at_end);
    assert_eq!(remove_invalid_jpeg_data(&[1, 2, 3, 4, 5]), vec![1, 2, 3, 4, 5]);
}
