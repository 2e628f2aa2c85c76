use crate::pipeline::{
    BindGroupBuilder, BindGroupLayout, BindGroupLayoutBuilder, BindingKind, LayoutBinding,
    PipelineDescriptor, PipelineDescriptorBuilder, ResourceKind, STAGE_FRAGMENT, STAGE_VERTEX,
    resources_match, slots_unique,
};
use vstd::prelude::*;

verus! {

/// A command recorded into a render pass.
#[derive(PartialEq, Eq, Structural, Clone, Copy, Debug)]
pub enum PassCommand {
    /// Make the shading's pipeline current.
    SetPipeline,
    /// Bind the shading's bind group at group `index`.
    SetBindGroup { index: u32 },
}

/// The bindings of textured shading: the view-projection matrix as a uniform
/// block seen by the vertex stage, then a texture and its sampler seen by the
/// fragment stage.
pub open spec fn tex_bindings() -> Seq<LayoutBinding> {
    seq![
        LayoutBinding { binding: 0, visibility: STAGE_VERTEX, kind: BindingKind::UniformBuffer },
        LayoutBinding { binding: 1, visibility: STAGE_FRAGMENT, kind: BindingKind::SampledTexture },
        LayoutBinding { binding: 2, visibility: STAGE_FRAGMENT, kind: BindingKind::Sampler },
    ]
}

/// The resources of textured shading, in binding order.
pub open spec fn tex_resources() -> Seq<ResourceKind> {
    seq![ResourceKind::Buffer, ResourceKind::TextureView, ResourceKind::Sampler]
}

pub fn tex_layout() -> (r: BindGroupLayout)
    ensures
        r.bindings() == tex_bindings(),
{
    let b = BindGroupLayoutBuilder::new().binding(
        LayoutBinding { binding: 0, visibility: STAGE_VERTEX, kind: BindingKind::UniformBuffer },
    ).binding(
        LayoutBinding { binding: 1, visibility: STAGE_FRAGMENT, kind: BindingKind::SampledTexture },
    ).binding(
        LayoutBinding { binding: 2, visibility: STAGE_FRAGMENT, kind: BindingKind::Sampler },
    );
    assert(b.bindings() =~= tex_bindings());
    assert(slots_unique(b.bindings()));
    match b.build() {
        Ok(layout) => layout,
        Err(_) => unreached(),
    }
}

/// Textured shading: a pipeline with one bind group layout, and the slots
/// that the matrix buffer, the texture and the sampler are bound to.
pub struct TexShading {
    pipeline: PipelineDescriptor,
    bindgroup: Vec<u32>,
}

impl TexShading {
    pub closed spec fn pipeline(&self) -> PipelineDescriptor {
        self.pipeline
    }

    pub closed spec fn bind_slots(&self) -> Seq<u32> {
        self.bindgroup@
    }

    pub fn new(vertex_source: String, fragment_source: String) -> (r: TexShading)
        ensures
            r.pipeline().vertex() == vertex_source@,
            r.pipeline().fragment() == fragment_source@,
            r.pipeline().groups().len() == 1,
            r.pipeline().groups()[0].bindings() == tex_bindings(),
            r.bind_slots() == seq![0u32, 1, 2],
    {
        let pipeline = PipelineDescriptorBuilder::new().vertex_shader(vertex_source).frag_shader(
            fragment_source,
        ).binding_group(tex_layout()).build();
        let pipeline = match pipeline {
            Ok(p) => p,
            Err(_) => unreached(),
        };
        let group = BindGroupBuilder::new().buffer().texture().sampler();
        assert(group.resources() =~= tex_resources());
        let layout = pipeline.bind_group_layout(0);
        assert(resources_match(layout.bindings(), group.resources()));
        let bindgroup = match group.build(layout) {
            Ok(slots) => slots,
            Err(_) => unreached(),
        };
        assert(bindgroup@ =~= seq![0u32, 1, 2]);
        TexShading { pipeline, bindgroup }
    }

    pub fn pipeline_descriptor(&self) -> (r: &PipelineDescriptor)
        ensures
            *r == self.pipeline(),
    {
        &self.pipeline
    }

    pub fn bind_group_slots(&self) -> (r: &Vec<u32>)
        ensures
            r@ == self.bind_slots(),
    {
        &self.bindgroup
    }

    /// Records into `pass` that this shading's pipeline is made current and
    /// its bind group bound at group 0.
    pub fn use_shading(&self, pass: &mut Vec<PassCommand>)
        ensures
            final(pass)@ == old(pass)@ + seq![
                PassCommand::SetPipeline,
                PassCommand::SetBindGroup { index: 0 },
            ],
    {
        pass.push(PassCommand::SetPipeline);
        pass.push(PassCommand::SetBindGroup { index: 0 });
        assert(pass@ =~= old(pass)@ + seq![
            PassCommand::SetPipeline,
            PassCommand::SetBindGroup { index: 0 },
        ]);
    }
}

} // verus!
