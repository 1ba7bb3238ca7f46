use rust_game::resources::{
    rebuild_plan, setup_plan, swapchain_resources, teardown_plan, Capabilities, RebuildStep,
    ResourceKind,
};

fn all_caps() -> Vec<Capabilities> {
    let mut v = Vec::new();
    for bits in 0..16u8 {
        v.push(Capabilities {
            has_depth: bits & 1 != 0,
            has_texture: bits & 2 != 0,
            has_model: bits & 4 != 0,
            validation: bits & 8 != 0,
        });
    }
    v
}

#[test]
fn rebuild_waits_then_destroys_then_recreates_in_reverse() {
    for c in all_caps() {
        let plan = rebuild_plan(c);
        let chain = swapchain_resources(c);
        let n = chain.len();
        assert_eq!(plan.len(), 2 * n + 1);
        assert_eq!(plan[0], RebuildStep::WaitIdle);
        let destroyed: Vec<ResourceKind> = plan[1..=n]
            .iter()
            .map(|s| match s {
                RebuildStep::Destroy(k) => *k,
                _ => panic!("expected a destruction"),
            })
            .collect();
        let created: Vec<ResourceKind> = plan[n + 1..]
            .iter()
            .map(|s| match s {
                RebuildStep::Create(k) => *k,
                _ => panic!("expected a creation"),
            })
            .collect();
        let mut reversed = destroyed.clone();
        reversed.reverse();
        assert_eq!(created, reversed);
        assert_eq!(created, chain);
    }
}

#[test]
fn swapchain_resources_with_depth() {
    let c = Capabilities { has_depth: true, has_texture: false, has_model: true, validation: false };
    assert_eq!(
        swapchain_resources(c),
        vec![
            ResourceKind::Swapchain,
            ResourceKind::ImageViews,
            ResourceKind::RenderPass,
            ResourceKind::Pipeline,
            ResourceKind::DepthResources,
            ResourceKind::Framebuffers,
            ResourceKind::UniformBuffers,
            ResourceKind::Descriptors,
            ResourceKind::CommandBuffers,
        ]
    );
}

#[test]
fn setup_plan_without_options() {
    let c = Capabilities { has_depth: false, has_texture: false, has_model: false, validation: false };
    let plan = setup_plan(c);
    assert_eq!(plan.len(), 8 + 8);
    assert_eq!(plan[0], ResourceKind::Instance);
    assert_eq!(plan[1], ResourceKind::Surface);
    assert_eq!(plan[7], ResourceKind::SyncObjects);
    assert_eq!(plan[8], ResourceKind::Swapchain);
    assert!(!plan.contains(&ResourceKind::DepthResources));
    assert!(!plan.contains(&ResourceKind::TextureSampler));
}

#[test]
fn teardown_is_reverse_of_setup() {
    for c in all_caps() {
        let mut s = setup_plan(c);
        s.reverse();
        assert_eq!(teardown_plan(c), s);
    }
    let c = Capabilities { has_depth: true, has_texture: true, has_model: true, validation: true };
    let t = teardown_plan(c);
    assert_eq!(t[0], ResourceKind::CommandBuffers);
    assert_eq!(*t.last().unwrap(), ResourceKind::Instance);
    assert_eq!(t.len(), 12 + 9);
}
