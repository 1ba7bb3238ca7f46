use vstd::prelude::*;

verus! {

/// The optional stages that a program variant wires in; they select which
/// resources setup, rebuild and teardown handle.
#[derive(Clone, Copy, Debug, PartialEq, Eq, Structural)]
pub struct Capabilities {
    pub has_depth: bool,
    pub has_texture: bool,
    pub has_model: bool,
    pub validation: bool,
}

/// A resource (or a group created and destroyed together) that the program
/// owns. Each is created by one call sequence and released by one.
#[derive(Clone, Copy, Debug, PartialEq, Eq, Structural)]
pub enum ResourceKind {
    Instance,
    DebugMessenger,
    Surface,
    Device,
    DescriptorSetLayout,
    CommandPool,
    TextureImage,
    TextureImageView,
    TextureSampler,
    VertexBuffer,
    IndexBuffer,
    SyncObjects,
    Swapchain,
    ImageViews,
    RenderPass,
    Pipeline,
    DepthResources,
    Framebuffers,
    UniformBuffers,
    Descriptors,
    CommandBuffers,
}

/// One step of rebuilding what derives from the presentation target.
#[derive(Clone, Copy, Debug, PartialEq, Eq, Structural)]
pub enum RebuildStep {
    WaitIdle,
    Destroy(ResourceKind),
    Create(ResourceKind),
}

/// Whether a resource must be rebuilt when the presentation target changes.
pub open spec fn derives_from_target(k: ResourceKind) -> bool {
    match k {
        ResourceKind::Swapchain | ResourceKind::ImageViews | ResourceKind::RenderPass
        | ResourceKind::Pipeline | ResourceKind::DepthResources | ResourceKind::Framebuffers
        | ResourceKind::UniformBuffers | ResourceKind::Descriptors
        | ResourceKind::CommandBuffers => true,
        _ => false,
    }
}

/// Resources that outlive every rebuild, in creation order.
pub open spec fn base_chain(caps: Capabilities) -> Seq<ResourceKind> {
    seq![ResourceKind::Instance] + (if caps.validation {
        seq![ResourceKind::DebugMessenger]
    } else {
        Seq::empty()
    }) + seq![
        ResourceKind::Surface,
        ResourceKind::Device,
        ResourceKind::DescriptorSetLayout,
        ResourceKind::CommandPool,
    ] + (if caps.has_texture {
        seq![
            ResourceKind::TextureImage,
            ResourceKind::TextureImageView,
            ResourceKind::TextureSampler,
        ]
    } else {
        Seq::empty()
    }) + seq![ResourceKind::VertexBuffer, ResourceKind::IndexBuffer, ResourceKind::SyncObjects]
}

/// Resources derived from the presentation target, in creation
/// (forward-dependency) order.
pub open spec fn target_chain(caps: Capabilities) -> Seq<ResourceKind> {
    seq![
        ResourceKind::Swapchain,
        ResourceKind::ImageViews,
        ResourceKind::RenderPass,
        ResourceKind::Pipeline,
    ] + (if caps.has_depth {
        seq![ResourceKind::DepthResources]
    } else {
        Seq::empty()
    }) + seq![
        ResourceKind::Framebuffers,
        ResourceKind::UniformBuffers,
        ResourceKind::Descriptors,
        ResourceKind::CommandBuffers,
    ]
}

/// Order in which setup acquires every resource.
pub open spec fn acquisition_order(caps: Capabilities) -> Seq<ResourceKind> {
    base_chain(caps) + target_chain(caps)
}

/// A full rebuild: an idle wait, the target-derived resources destroyed from
/// the last created to the first, then created again in forward order.
pub open spec fn rebuild_steps(caps: Capabilities) -> Seq<RebuildStep> {
    seq![RebuildStep::WaitIdle] + target_chain(caps).reverse().map_values(
        |k: ResourceKind| RebuildStep::Destroy(k),
    ) + target_chain(caps).map_values(|k: ResourceKind| RebuildStep::Create(k))
}

/// Whether a step creates or destroys the given resource.
pub open spec fn touches(step: RebuildStep, k: ResourceKind) -> bool {
    step == RebuildStep::Destroy(k) || step == RebuildStep::Create(k)
}

/// A rebuild waits for the device to go idle exactly once, before anything
/// else; it then destroys every target-derived resource, and creates them
/// again in the exact reverse of the order it destroyed them. No resource
/// that outlives rebuilds (the synchronization triples among them) is
/// touched.
pub proof fn lemma_rebuild_order(caps: Capabilities)
    ensures
        ({
            let p = rebuild_steps(caps);
            let t = target_chain(caps);
            let n = t.len();
            &&& p.len() == 2 * n + 1
            &&& p[0] == RebuildStep::WaitIdle
            &&& forall|i: int| 0 < i < p.len() ==> p[i] != RebuildStep::WaitIdle
            &&& forall|j: int| 0 <= j < n ==> p[n - j] == RebuildStep::Destroy(t[j])
            &&& forall|j: int| 0 <= j < n ==> p[n + 1 + j] == RebuildStep::Create(t[j])
            &&& forall|i: int, k: ResourceKind|
                0 <= i < p.len() && touches(p[i], k) ==> derives_from_target(k)
            &&& forall|j: int|
                0 <= j < base_chain(caps).len() ==> !derives_from_target(base_chain(caps)[j])
        }),
{
    let p = rebuild_steps(caps);
    let t = target_chain(caps);
    let n = t.len();
    let d = t.reverse().map_values(|k: ResourceKind| RebuildStep::Destroy(k));
    let c = t.map_values(|k: ResourceKind| RebuildStep::Create(k));
    assert(p == seq![RebuildStep::WaitIdle] + d + c);
    assert forall|j: int| 0 <= j < n implies p[n - j] == RebuildStep::Destroy(t[j]) by {
        assert(p[n - j] == d[n - j - 1]);
    }
    assert forall|j: int| 0 <= j < n implies p[n + 1 + j] == RebuildStep::Create(t[j]) by {
        assert(p[n + 1 + j] == c[j]);
    }
    assert forall|i: int| 0 <= i < n implies derives_from_target(t[i]) by {
        if caps.has_depth {
            assert(t =~= seq![
                ResourceKind::Swapchain,
                ResourceKind::ImageViews,
                ResourceKind::RenderPass,
                ResourceKind::Pipeline,
                ResourceKind::DepthResources,
                ResourceKind::Framebuffers,
                ResourceKind::UniformBuffers,
                ResourceKind::Descriptors,
                ResourceKind::CommandBuffers,
            ]);
        } else {
            assert(t =~= seq![
                ResourceKind::Swapchain,
                ResourceKind::ImageViews,
                ResourceKind::RenderPass,
                ResourceKind::Pipeline,
                ResourceKind::Framebuffers,
                ResourceKind::UniformBuffers,
                ResourceKind::Descriptors,
                ResourceKind::CommandBuffers,
            ]);
        }
    }
    assert forall|i: int| 0 < i < p.len() implies p[i] != RebuildStep::WaitIdle by {
        if i <= n {
            assert(p[i] == d[i - 1]);
        } else {
            assert(p[i] == c[i - 1 - n]);
        }
    }
    assert forall|i: int, k: ResourceKind|
        0 <= i < p.len() && touches(p[i], k) implies derives_from_target(k) by {
        if 1 <= i <= n {
            assert(p[i] == d[i - 1]);
            assert(d[i - 1] == RebuildStep::Destroy(t[n - 1 - (i - 1)]));
        } else if i > n {
            assert(p[i] == c[i - 1 - n]);
        }
    }
    let b = base_chain(caps);
    assert forall|j: int| 0 <= j < b.len() implies !derives_from_target(b[j]) by {
        let v = if caps.validation {
            seq![ResourceKind::DebugMessenger]
        } else {
            Seq::<ResourceKind>::empty()
        };
        let x = if caps.has_texture {
            seq![
                ResourceKind::TextureImage,
                ResourceKind::TextureImageView,
                ResourceKind::TextureSampler,
            ]
        } else {
            Seq::<ResourceKind>::empty()
        };
        let s1 = seq![ResourceKind::Instance];
        let s2 = seq![
            ResourceKind::Surface,
            ResourceKind::Device,
            ResourceKind::DescriptorSetLayout,
            ResourceKind::CommandPool,
        ];
        let s3 = seq![ResourceKind::VertexBuffer, ResourceKind::IndexBuffer, ResourceKind::SyncObjects];
        assert(b == s1 + v + s2 + x + s3);
        let l1 = s1.len() + v.len();
        let l2 = l1 + s2.len();
        let l3 = l2 + x.len();
        if j < 1 {
            assert(b[j] == s1[j]);
        } else if j < l1 {
            assert(b[j] == v[j - 1]);
        } else if j < l2 {
            assert(b[j] == s2[j - l1]);
        } else if j < l3 {
            assert(b[j] == x[j - l2]);
        } else {
            assert(b[j] == s3[j - l3]);
        }
    }
}

/// The resources derived from the presentation target, in creation order.
pub fn swapchain_resources(caps: Capabilities) -> (r: Vec<ResourceKind>)
    ensures
        r@ == target_chain(caps),
{
    let mut v: Vec<ResourceKind> = Vec::new();
    v.push(ResourceKind::Swapchain);
    v.push(ResourceKind::ImageViews);
    v.push(ResourceKind::RenderPass);
    v.push(ResourceKind::Pipeline);
    if caps.has_depth {
        v.push(ResourceKind::DepthResources);
    }
    v.push(ResourceKind::Framebuffers);
    v.push(ResourceKind::UniformBuffers);
    v.push(ResourceKind::Descriptors);
    v.push(ResourceKind::CommandBuffers);
    assert(v@ =~= target_chain(caps));
    v
}

/// Every resource in the order setup creates it: first those that outlive
/// rebuilds, then those derived from the presentation target.
pub fn setup_plan(caps: Capabilities) -> (r: Vec<ResourceKind>)
    ensures
        r@ == acquisition_order(caps),
{
    let mut v: Vec<ResourceKind> = Vec::new();
    v.push(ResourceKind::Instance);
    if caps.validation {
        v.push(ResourceKind::DebugMessenger);
    }
    v.push(ResourceKind::Surface);
    v.push(ResourceKind::Device);
    v.push(ResourceKind::DescriptorSetLayout);
    v.push(ResourceKind::CommandPool);
    if caps.has_texture {
        v.push(ResourceKind::TextureImage);
        v.push(ResourceKind::TextureImageView);
        v.push(ResourceKind::TextureSampler);
    }
    v.push(ResourceKind::VertexBuffer);
    v.push(ResourceKind::IndexBuffer);
    v.push(ResourceKind::SyncObjects);
    assert(v@ =~= base_chain(caps));
    let mut t = swapchain_resources(caps);
    v.append(&mut t);
    assert(v@ =~= acquisition_order(caps));
    v
}

/// Every resource in the order shutdown releases it: the exact reverse of
/// the order of acquisition.
pub fn teardown_plan(caps: Capabilities) -> (r: Vec<ResourceKind>)
    ensures
        r@ == acquisition_order(caps).reverse(),
{
    let order = setup_plan(caps);
    let n = order.len();
    let mut v: Vec<ResourceKind> = Vec::new();
    let mut i: usize = n;
    while i > 0
        invariant
            i <= n,
            n == order@.len(),
            order@ == acquisition_order(caps),
            v@.len() == n - i,
            forall|j: int| 0 <= j < n - i ==> v@[j] == order@[n - 1 - j],
        decreases i,
    {
        i = i - 1;
        v.push(order[i]);
    }
    assert(v@ =~= acquisition_order(caps).reverse());
    v
}

/// The steps of one rebuild of the presentation target and what derives
/// from it.
pub fn rebuild_plan(caps: Capabilities) -> (r: Vec<RebuildStep>)
    ensures
        r@ == rebuild_steps(caps),
{
    let chain = swapchain_resources(caps);
    let n = chain.len();
    let mut v: Vec<RebuildStep> = Vec::new();
    v.push(RebuildStep::WaitIdle);
    let mut i: usize = n;
    while i > 0
        invariant
            i <= n,
            n == chain@.len(),
            chain@ == target_chain(caps),
            v@.len() == 1 + n - i,
            v@[0] == RebuildStep::WaitIdle,
            forall|j: int| 1 <= j < 1 + n - i ==> v@[j] == RebuildStep::Destroy(chain@[n - j]),
        decreases i,
    {
        i = i - 1;
        v.push(RebuildStep::Destroy(chain[i]));
    }
    let mut k: usize = 0;
    while k < n
        invariant
            k <= n,
            n == chain@.len(),
            chain@ == target_chain(caps),
            v@.len() == 1 + n + k,
            v@[0] == RebuildStep::WaitIdle,
            forall|j: int| 1 <= j < 1 + n ==> v@[j] == RebuildStep::Destroy(chain@[n - j]),
            forall|j: int| 0 <= j < k ==> v@[1 + n + j] == RebuildStep::Create(chain@[j]),
        decreases n - k,
    {
        v.push(RebuildStep::Create(chain[k]));
        k = k + 1;
    }
    assert(v@ =~= rebuild_steps(caps));
    v
}

} // verus!
