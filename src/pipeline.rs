use vstd::prelude::*;

verus! {

/// Shader stage bit for the vertex stage.
pub const STAGE_VERTEX: u32 = 1;

/// Shader stage bit for the fragment stage.
pub const STAGE_FRAGMENT: u32 = 2;

/// What a layout binding slot expects.
#[derive(PartialEq, Eq, Structural, Clone, Copy, Debug)]
pub enum BindingKind {
    UniformBuffer,
    StorageBuffer,
    SampledTexture,
    Sampler,
}

/// What a bind group supplies to a slot.
#[derive(PartialEq, Eq, Structural, Clone, Copy, Debug)]
pub enum ResourceKind {
    Buffer,
    TextureView,
    Sampler,
}

/// One binding of a bind group layout: its slot number as the shader
/// names it, the stages that see it, and what it expects.
#[derive(PartialEq, Eq, Structural, Clone, Copy, Debug)]
pub struct LayoutBinding {
    pub binding: u32,
    pub visibility: u32,
    pub kind: BindingKind,
}

#[derive(PartialEq, Eq, Structural, Clone, Copy, Debug)]
pub enum LayoutError {
    /// Two bindings of one group use the same slot number.
    DuplicateSlot { slot: u32 },
}

#[derive(PartialEq, Eq, Structural, Clone, Copy, Debug)]
pub enum BindGroupError {
    /// The group supplies another number of resources than the layout declares.
    CountMismatch { expected: usize, found: usize },
    /// The resource at `position` cannot fill the binding declared there.
    KindMismatch { position: usize },
}

#[derive(PartialEq, Eq, Structural, Clone, Copy, Debug)]
pub enum PipelineError {
    MissingVertexShader,
    MissingFragmentShader,
}

pub open spec fn fits(kind: BindingKind, res: ResourceKind) -> bool {
    match kind {
        BindingKind::UniformBuffer | BindingKind::StorageBuffer => res == ResourceKind::Buffer,
        BindingKind::SampledTexture => res == ResourceKind::TextureView,
        BindingKind::Sampler => res == ResourceKind::Sampler,
    }
}

/// Whether no two bindings share a slot number.
pub open spec fn slots_unique(b: Seq<LayoutBinding>) -> bool {
    forall|i: int, j: int| 0 <= i < j < b.len() ==> b[i].binding != b[j].binding
}

/// Whether the resources fill the bindings one for one, in order.
pub open spec fn resources_match(b: Seq<LayoutBinding>, r: Seq<ResourceKind>) -> bool {
    &&& b.len() == r.len()
    &&& forall|i: int| 0 <= i < b.len() ==> fits(#[trigger] b[i].kind, r[i])
}

pub fn kind_fits(kind: BindingKind, res: ResourceKind) -> (r: bool)
    ensures
        r == fits(kind, res),
{
    match kind {
        BindingKind::UniformBuffer | BindingKind::StorageBuffer => match res {
            ResourceKind::Buffer => true,
            _ => false,
        },
        BindingKind::SampledTexture => match res {
            ResourceKind::TextureView => true,
            _ => false,
        },
        BindingKind::Sampler => match res {
            ResourceKind::Sampler => true,
            _ => false,
        },
    }
}

/// Collects the bindings of one bind group layout in order.
pub struct BindGroupLayoutBuilder {
    bindings: Vec<LayoutBinding>,
}

/// A checked bind group layout: its slot numbers are unique.
pub struct BindGroupLayout {
    bindings: Vec<LayoutBinding>,
}

impl BindGroupLayoutBuilder {
    pub closed spec fn bindings(&self) -> Seq<LayoutBinding> {
        self.bindings@
    }

    pub fn new() -> (r: BindGroupLayoutBuilder)
        ensures
            r.bindings() == Seq::<LayoutBinding>::empty(),
    {
        BindGroupLayoutBuilder { bindings: Vec::new() }
    }

    pub fn binding(self, b: LayoutBinding) -> (r: BindGroupLayoutBuilder)
        ensures
            r.bindings() == self.bindings().push(b),
    {
        let mut bindings = self.bindings;
        bindings.push(b);
        BindGroupLayoutBuilder { bindings }
    }

    /// The layout, or the slot number of the first binding that reuses the
    /// slot of an earlier one.
    pub fn build(self) -> (r: Result<BindGroupLayout, LayoutError>)
        ensures
            r is Ok <==> slots_unique(self.bindings()),
            r is Ok ==> r->Ok_0.bindings() == self.bindings(),
            r matches Err(LayoutError::DuplicateSlot { slot }) ==> exists|j: int|
                0 <= j < self.bindings().len() && #[trigger] self.bindings()[j].binding == slot
                    && slots_unique(self.bindings().take(j)) && exists|i: int|
                    0 <= i < j && #[trigger] self.bindings()[i].binding == slot,
    {
        let n = self.bindings.len();
        let mut j: usize = 0;
        while j < n
            invariant
                n == self.bindings@.len(),
                j <= n,
                forall|a: int, b: int| 0 <= a < b < j ==> self.bindings@[a].binding
                    != self.bindings@[b].binding,
            decreases n - j,
        {
            let mut i: usize = 0;
            while i < j
                invariant
                    n == self.bindings@.len(),
                    i <= j < n,
                    forall|a: int, b: int| 0 <= a < b < j ==> self.bindings@[a].binding
                        != self.bindings@[b].binding,
                    forall|a: int| 0 <= a < i ==> self.bindings@[a].binding
                        != self.bindings@[j as int].binding,
                decreases j - i,
            {
                if self.bindings[i].binding == self.bindings[j].binding {
                    proof {
                        let b = self.bindings@;
                        let t = b.take(j as int);
                        assert forall|x: int, y: int| 0 <= x < y < t.len() implies t[x].binding
                            != t[y].binding by {
                            assert(t[x] == b[x] && t[y] == b[y]);
                        }
                        let slot = b[j as int].binding;
                        assert(b[i as int].binding == slot);
                        assert(slots_unique(t));
                        assert(exists|k: int| 0 <= k < j && #[trigger] b[k].binding == slot);
                    }
                    return Err(LayoutError::DuplicateSlot { slot: self.bindings[j].binding });
                }
                i = i + 1;
            }
            j = j + 1;
        }
        Ok(BindGroupLayout { bindings: self.bindings })
    }
}

impl BindGroupLayout {
    pub closed spec fn bindings(&self) -> Seq<LayoutBinding> {
        self.bindings@
    }

    pub closed spec fn wf(&self) -> bool {
        slots_unique(self.bindings@)
    }

    pub fn len(&self) -> (r: usize)
        ensures
            r == self.bindings().len(),
    {
        self.bindings.len()
    }

    pub fn binding_at(&self, i: usize) -> (r: LayoutBinding)
        requires
            i < self.bindings().len(),
        ensures
            r == self.bindings()[i as int],
    {
        self.bindings[i]
    }
}

/// Collects, in order, the resources of one bind group.
pub struct BindGroupBuilder {
    resources: Vec<ResourceKind>,
}

impl BindGroupBuilder {
    pub closed spec fn resources(&self) -> Seq<ResourceKind> {
        self.resources@
    }

    pub fn new() -> (r: BindGroupBuilder)
        ensures
            r.resources() == Seq::<ResourceKind>::empty(),
    {
        BindGroupBuilder { resources: Vec::new() }
    }

    pub fn buffer(self) -> (r: BindGroupBuilder)
        ensures
            r.resources() == self.resources().push(ResourceKind::Buffer),
    {
        let mut resources = self.resources;
        resources.push(ResourceKind::Buffer);
        BindGroupBuilder { resources }
    }

    pub fn texture(self) -> (r: BindGroupBuilder)
        ensures
            r.resources() == self.resources().push(ResourceKind::TextureView),
    {
        let mut resources = self.resources;
        resources.push(ResourceKind::TextureView);
        BindGroupBuilder { resources }
    }

    pub fn sampler(self) -> (r: BindGroupBuilder)
        ensures
            r.resources() == self.resources().push(ResourceKind::Sampler),
    {
        let mut resources = self.resources;
        resources.push(ResourceKind::Sampler);
        BindGroupBuilder { resources }
    }

    /// Matches the resources against `layout` and returns, for each resource
    /// in order, the slot number it is bound to. Fails when the counts differ
    /// or a resource does not fit the binding at its position.
    pub fn build(&self, layout: &BindGroupLayout) -> (r: Result<Vec<u32>, BindGroupError>)
        ensures
            r is Ok <==> resources_match(layout.bindings(), self.resources()),
            r is Ok ==> r->Ok_0@ == layout.bindings().map_values(|b: LayoutBinding| b.binding),
            r matches Err(BindGroupError::CountMismatch { expected, found }) ==> expected
                == layout.bindings().len() && found == self.resources().len() && expected != found,
            r matches Err(BindGroupError::KindMismatch { position }) ==> position
                < self.resources().len() && !fits(
                layout.bindings()[position as int].kind,
                self.resources()[position as int],
            ),
    {
        let n = layout.bindings.len();
        if n != self.resources.len() {
            return Err(BindGroupError::CountMismatch { expected: n, found: self.resources.len() });
        }
        let mut slots: Vec<u32> = Vec::new();
        let mut i: usize = 0;
        while i < n
            invariant
                n == layout.bindings@.len(),
                n == self.resources@.len(),
                i <= n,
                slots@ == layout.bindings@.take(i as int).map_values(|b: LayoutBinding| b.binding),
                forall|k: int| 0 <= k < i ==> fits(#[trigger] layout.bindings@[k].kind, self.resources@[k]),
            decreases n - i,
        {
            let b = layout.bindings[i];
            if !kind_fits(b.kind, self.resources[i]) {
                return Err(BindGroupError::KindMismatch { position: i });
            }
            slots.push(b.binding);
            proof {
                assert(layout.bindings@.take(i + 1) == layout.bindings@.take(i as int).push(b));
            }
            i = i + 1;
        }
        proof {
            assert(layout.bindings@.take(n as int) == layout.bindings@);
        }
        Ok(slots)
    }
}

/// Collects the shader stages and bind group layouts of a render pipeline.
pub struct PipelineDescriptorBuilder {
    vertex: Option<String>,
    fragment: Option<String>,
    groups: Vec<BindGroupLayout>,
}

/// A render pipeline's description: both shader stages and the ordered bind
/// group layouts that it expects.
pub struct PipelineDescriptor {
    vertex: String,
    fragment: String,
    groups: Vec<BindGroupLayout>,
}

impl PipelineDescriptorBuilder {
    pub closed spec fn vertex(&self) -> Option<Seq<char>> {
        match self.vertex {
            Some(s) => Some(s@),
            None => None,
        }
    }

    pub closed spec fn fragment(&self) -> Option<Seq<char>> {
        match self.fragment {
            Some(s) => Some(s@),
            None => None,
        }
    }

    pub closed spec fn groups(&self) -> Seq<BindGroupLayout> {
        self.groups@
    }

    pub fn new() -> (r: PipelineDescriptorBuilder)
        ensures
            r.vertex() is None,
            r.fragment() is None,
            r.groups() == Seq::<BindGroupLayout>::empty(),
    {
        PipelineDescriptorBuilder { vertex: None, fragment: None, groups: Vec::new() }
    }

    pub fn vertex_shader(self, source: String) -> (r: PipelineDescriptorBuilder)
        ensures
            r.vertex() == Some(source@),
            r.fragment() == self.fragment(),
            r.groups() == self.groups(),
    {
        PipelineDescriptorBuilder { vertex: Some(source), fragment: self.fragment, groups: self.groups }
    }

    pub fn frag_shader(self, source: String) -> (r: PipelineDescriptorBuilder)
        ensures
            r.vertex() == self.vertex(),
            r.fragment() == Some(source@),
            r.groups() == self.groups(),
    {
        PipelineDescriptorBuilder { vertex: self.vertex, fragment: Some(source), groups: self.groups }
    }

    /// Appends the layout of the next bind group; group `k` is bound at index `k`.
    pub fn binding_group(self, layout: BindGroupLayout) -> (r: PipelineDescriptorBuilder)
        ensures
            r.vertex() == self.vertex(),
            r.fragment() == self.fragment(),
            r.groups() == self.groups().push(layout),
    {
        let mut groups = self.groups;
        groups.push(layout);
        PipelineDescriptorBuilder { vertex: self.vertex, fragment: self.fragment, groups }
    }

    /// The description, once both shader stages are given.
    pub fn build(self) -> (r: Result<PipelineDescriptor, PipelineError>)
        ensures
            self.vertex() is None ==> r == Err::<PipelineDescriptor, PipelineError>(
                PipelineError::MissingVertexShader,
            ),
            self.vertex() is Some && self.fragment() is None ==> r == Err::<
                PipelineDescriptor,
                PipelineError,
            >(PipelineError::MissingFragmentShader),
            r is Ok <==> self.vertex() is Some && self.fragment() is Some,
            r is Ok ==> Some(r->Ok_0.vertex()) == self.vertex() && Some(r->Ok_0.fragment())
                == self.fragment() && r->Ok_0.groups() == self.groups(),
    {
        match self.vertex {
            None => Err(PipelineError::MissingVertexShader),
            Some(vertex) => match self.fragment {
                None => Err(PipelineError::MissingFragmentShader),
                Some(fragment) => Ok(PipelineDescriptor { vertex, fragment, groups: self.groups }),
            },
        }
    }
}

impl PipelineDescriptor {
    pub closed spec fn vertex(&self) -> Seq<char> {
        self.vertex@
    }

    pub closed spec fn fragment(&self) -> Seq<char> {
        self.fragment@
    }

    pub closed spec fn groups(&self) -> Seq<BindGroupLayout> {
        self.groups@
    }

    pub fn vertex_source(&self) -> (r: &String)
        ensures
            r@ == self.vertex(),
    {
        &self.vertex
    }

    pub fn fragment_source(&self) -> (r: &String)
        ensures
            r@ == self.fragment(),
    {
        &self.fragment
    }

    pub fn group_count(&self) -> (r: usize)
        ensures
            r == self.groups().len(),
    {
        self.groups.len()
    }

    pub fn bind_group_layout(&self, index: usize) -> (r: &BindGroupLayout)
        requires
            index < self.groups().len(),
        ensures
            *r == self.groups()[index as int],
    {
        &self.groups[index]
    }
}

/// A bind group whose resource count differs from its layout's, or whose
/// resource at some position does not fit the binding declared there, never
/// matches that layout, so building it always fails.
pub proof fn lemma_mismatched_group_fails(
    layout: Seq<LayoutBinding>,
    resources: Seq<ResourceKind>,
    position: int,
)
    requires
        layout.len() != resources.len() || (0 <= position < layout.len() && position
            < resources.len() && !fits(layout[position].kind, resources[position])),
    ensures
        !resources_match(layout, resources),
{
}

} // verus!
