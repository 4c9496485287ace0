use gltf_viewer::graphics::model::Vertex;
use gltf_viewer::graphics::pipeline::{
    create_base_color, create_bind_group_layouts, create_depth, create_pipeline,
    BindGroupLayoutEntry, BindingType, BlendMode, CompareFunction, DepthState, Face, Layouts,
    LayoutId, PipelineDescriptor, PrimitiveTopology, ShaderStage, TextureDescriptor,
    TextureFormat, TextureUse, MATRIX_BYTES,
};

#[test]
fn three_resource_set_layouts() {
    let uniform = BindGroupLayoutEntry {
        binding: 0,
        visibility: ShaderStage::Vertex,
        ty: BindingType::UniformBuffer,
    };
    assert_eq!(
        create_bind_group_layouts(),
        Layouts {
            camera_bgl: vec![uniform],
            model_bgl: vec![uniform],
            material_bgl: vec![
                BindGroupLayoutEntry {
                    binding: 0,
                    visibility: ShaderStage::Fragment,
                    ty: BindingType::Texture,
                },
                BindGroupLayoutEntry {
                    binding: 1,
                    visibility: ShaderStage::Fragment,
                    ty: BindingType::Sampler,
                },
            ],
        }
    );
}

#[test]
fn the_fixed_pipeline() {
    assert_eq!(
        create_pipeline(),
        PipelineDescriptor {
            bind_group_layouts: vec![LayoutId::Camera, LayoutId::Model, LayoutId::Material],
            vertex_buffers: vec![Vertex::layout()],
            topology: PrimitiveTopology::TriangleList,
            cull_mode: Some(Face::Back),
            blend: BlendMode::AlphaBlending,
            depth_stencil: DepthState {
                format: TextureFormat::Depth32Float,
                depth_write_enabled: true,
                depth_compare: CompareFunction::Less,
            },
            sample_count: 1,
        }
    );
}

#[test]
fn depth_texture_follows_the_surface_size() {
    assert_eq!(
        create_depth(800, 600),
        TextureDescriptor {
            width: 800,
            height: 600,
            sample_count: 1,
            format: TextureFormat::Depth32Float,
            usage: TextureUse::RenderAttachment,
        }
    );
    let pipeline = create_pipeline();
    let depth = create_depth(1, u32::MAX);
    assert_eq!((depth.width, depth.height), (1, u32::MAX));
    assert_eq!(depth.format, pipeline.depth_stencil.format);
    assert_eq!(depth.sample_count, pipeline.sample_count);
}

#[test]
fn base_colour_texture_is_srgb_and_sampled() {
    assert_eq!(
        create_base_color(4, 2),
        TextureDescriptor {
            width: 4,
            height: 2,
            sample_count: 1,
            format: TextureFormat::Rgba8UnormSrgb,
            usage: TextureUse::SampledCopyTarget,
        }
    );
}

#[test]
fn a_uniform_buffer_holds_one_matrix() {
    assert_eq!(MATRIX_BYTES, 64);
    assert_eq!(MATRIX_BYTES as usize, std::mem::size_of::<[f32; 16]>());
}
