use rendiation::pipeline::{
    BindGroupBuilder, BindGroupError, BindGroupLayoutBuilder, BindingKind, LayoutBinding,
    LayoutError, PipelineDescriptorBuilder, PipelineError, STAGE_FRAGMENT, STAGE_VERTEX,
};
use rendiation::shading::{tex_layout, PassCommand, TexShading};

fn binding(slot: u32, visibility: u32, kind: BindingKind) -> LayoutBinding {
    LayoutBinding { binding: slot, visibility, kind }
}

#[test]
fn matching_bind_group_builds_in_order() {
    let layout = tex_layout();
    let slots = BindGroupBuilder::new().buffer().texture().sampler().build(&layout);
    assert_eq!(slots, Ok(vec![0, 1, 2]));
}

#[test]
fn bind_group_with_wrong_count_fails() {
    let layout = tex_layout();
    assert_eq!(
        BindGroupBuilder::new().buffer().texture().build(&layout),
        Err(BindGroupError::CountMismatch { expected: 3, found: 2 })
    );
    assert_eq!(
        BindGroupBuilder::new().buffer().texture().sampler().sampler().build(&layout),
        Err(BindGroupError::CountMismatch { expected: 3, found: 4 })
    );
}

#[test]
fn bind_group_in_wrong_order_fails() {
    let layout = tex_layout();
    assert_eq!(
        BindGroupBuilder::new().buffer().sampler().texture().build(&layout),
        Err(BindGroupError::KindMismatch { position: 1 })
    );
    assert_eq!(
        BindGroupBuilder::new().texture().buffer().sampler().build(&layout),
        Err(BindGroupError::KindMismatch { position: 0 })
    );
}

#[test]
fn duplicate_slot_is_refused() {
    let r = BindGroupLayoutBuilder::new()
        .binding(binding(0, STAGE_VERTEX, BindingKind::UniformBuffer))
        .binding(binding(1, STAGE_FRAGMENT, BindingKind::Sampler))
        .binding(binding(0, STAGE_FRAGMENT, BindingKind::SampledTexture))
        .build();
    assert!(matches!(r, Err(LayoutError::DuplicateSlot { slot: 0 })));
}

#[test]
fn slots_need_not_be_dense() {
    let layout = BindGroupLayoutBuilder::new()
        .binding(binding(4, STAGE_VERTEX, BindingKind::StorageBuffer))
        .binding(binding(9, STAGE_FRAGMENT, BindingKind::Sampler))
        .build()
        .ok()
        .unwrap();
    assert_eq!(layout.len(), 2);
    assert_eq!(layout.binding_at(1).binding, 9);
    assert_eq!(
        BindGroupBuilder::new().buffer().sampler().build(&layout),
        Ok(vec![4, 9])
    );
}

#[test]
fn empty_layout_takes_empty_group() {
    let layout = BindGroupLayoutBuilder::new().build().ok().unwrap();
    assert_eq!(BindGroupBuilder::new().build(&layout), Ok(vec![]));
}

#[test]
fn pipeline_needs_both_stages() {
    let no_vertex = PipelineDescriptorBuilder::new()
        .frag_shader(String::from("f"))
        .build();
    assert!(matches!(no_vertex, Err(PipelineError::MissingVertexShader)));
    let no_fragment = PipelineDescriptorBuilder::new()
        .vertex_shader(String::from("v"))
        .build();
    assert!(matches!(no_fragment, Err(PipelineError::MissingFragmentShader)));
    let p = PipelineDescriptorBuilder::new()
        .vertex_shader(String::from("v"))
        .frag_shader(String::from("f"))
        .binding_group(tex_layout())
        .build()
        .ok()
        .unwrap();
    assert_eq!(p.vertex_source(), "v");
    assert_eq!(p.fragment_source(), "f");
    assert_eq!(p.group_count(), 1);
    assert_eq!(p.bind_group_layout(0).len(), 3);
}

#[test]
fn tex_shading_binds_pipeline_then_group_zero() {
    let shading = TexShading::new(String::from("vs"), String::from("fs"));
    assert_eq!(shading.bind_group_slots(), &vec![0, 1, 2]);
    let layout = shading.pipeline_descriptor().bind_group_layout(0);
    assert_eq!(layout.binding_at(0).kind, BindingKind::UniformBuffer);
    assert_eq!(layout.binding_at(0).visibility, STAGE_VERTEX);
    assert_eq!(layout.binding_at(1).kind, BindingKind::SampledTexture);
    assert_eq!(layout.binding_at(2).kind, BindingKind::Sampler);
    assert_eq!(layout.binding_at(2).visibility, STAGE_FRAGMENT);
    let mut pass = Vec::new();
    shading.use_shading(&mut pass);
    assert_eq!(
        pass,
        vec![PassCommand::SetPipeline, PassCommand::SetBindGroup { index: 0 }]
    );
}
