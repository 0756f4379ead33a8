//! A chain generation: one image chain together with the targets that were
//! built for exactly that chain.
use vstd::prelude::*;
use crate::chain::{chain_teardown, lemma_chain_teardown_order, views_of, SwapchainManager};
use crate::targets::{bound_views, lemma_targets_teardown_order, targets_teardown, FrameTargets};
use crate::teardown::{leaf_to_root, lemma_leaf_to_root_concat, DestroyStep};

verus! {

/// A chain and its targets, which are made together and go together.
pub struct ChainGeneration {
    manager: SwapchainManager,
    targets: FrameTargets,
}

/// Whether the targets were built for the chain: same pixel format, same
/// extent, and one framebuffer per image that binds the view of that image.
pub open spec fn built_for(targets: FrameTargets, manager: SwapchainManager) -> bool {
    &&& targets.format() == manager.parameters().format.format
    &&& targets.extent() == manager.parameters().extent
    &&& bound_views(targets.framebuffers()) == views_of(manager.images())
}

/// What is destroyed with a generation: the targets, then the chain.
pub open spec fn generation_teardown(targets: FrameTargets, manager: SwapchainManager) -> Seq<
    DestroyStep,
> {
    targets_teardown(
        targets.framebuffers(),
        targets.pipeline(),
        targets.pipeline_layout(),
        targets.render_pass(),
    ) + chain_teardown(manager.chain(), manager.images())
}

/// A generation is destroyed leaf to root: framebuffers, pipeline, pipeline
/// layout, render pass, image views, chain.
pub proof fn lemma_generation_teardown_order(targets: FrameTargets, manager: SwapchainManager)
    ensures
        leaf_to_root(generation_teardown(targets, manager)),
{
    lemma_targets_teardown_order(
        targets.framebuffers(),
        targets.pipeline(),
        targets.pipeline_layout(),
        targets.render_pass(),
    );
    lemma_chain_teardown_order(manager.chain(), manager.images());
    let first = targets_teardown(
        targets.framebuffers(),
        targets.pipeline(),
        targets.pipeline_layout(),
        targets.render_pass(),
    );
    let second = chain_teardown(manager.chain(), manager.images());
    assert forall|i: int, j: int| 0 <= i < first.len() && 0 <= j < second.len() implies (
    #[trigger] first[i]).depth() <= (#[trigger] second[j]).depth() by {
        assert(first[i].depth() <= 3);
        assert(second[j].depth() >= 4);
    }
    lemma_leaf_to_root_concat(first, second);
}

/// Whether two lists hold the same handles in the same order.
fn same_handles(left: &Vec<u64>, right: &Vec<u64>) -> (same: bool)
    ensures
        same == (left@ == right@),
{
    if left.len() != right.len() {
        return false;
    }
    let mut i: usize = 0;
    while i < left.len()
        invariant
            0 <= i <= left@.len(),
            left@.len() == right@.len(),
            forall|k: int| 0 <= k < i ==> left@[k] == right@[k],
        decreases left@.len() - i,
    {
        if left[i] != right[i] {
            return false;
        }
        i += 1;
    }
    assert(left@ =~= right@);
    true
}

impl ChainGeneration {
    /// The chain of this generation.
    pub closed spec fn manager(&self) -> SwapchainManager {
        self.manager
    }

    /// The targets of this generation.
    pub closed spec fn targets(&self) -> FrameTargets {
        self.targets
    }

    /// Whether the targets were built for the chain.
    pub open spec fn wf(&self) -> bool {
        built_for(self.targets(), self.manager())
    }

    /// The number of images, each with its framebuffer.
    pub open spec fn image_count(&self) -> nat {
        self.targets().framebuffers().len()
    }

    /// Joins a chain and the targets that were built for it.
    ///
    /// Targets of another format, of another extent or over other views do
    /// not make a generation with this chain.
    pub fn new(manager: SwapchainManager, targets: FrameTargets) -> (made: Option<ChainGeneration>)
        ensures
            made is Some <==> built_for(targets, manager),
            made is Some ==> made->0.manager() == manager && made->0.targets() == targets
                && made->0.wf(),
    {
        let parameters = manager.chain_parameters();
        if targets.pixel_format() != parameters.format.format {
            return None;
        }
        let extent = targets.render_extent();
        if extent.width != parameters.extent.width || extent.height != parameters.extent.height {
            return None;
        }
        let bound = targets.bound_view_handles();
        let views = manager.view_handles();
        if !same_handles(&bound, &views) {
            return None;
        }
        Some(ChainGeneration { manager, targets })
    }

    /// The chain of this generation.
    pub fn chain(&self) -> (manager: &SwapchainManager)
        ensures
            *manager == self.manager(),
    {
        &self.manager
    }

    /// The targets of this generation.
    pub fn frame_targets(&self) -> (targets: &FrameTargets)
        ensures
            *targets == self.targets(),
    {
        &self.targets
    }

    /// Lists what is destroyed with the generation, in order: the targets
    /// first, then the chain. The caller sees to it that the device is idle
    /// before it carries the steps out.
    pub fn teardown(&self) -> (steps: Vec<DestroyStep>)
        ensures
            steps@ == generation_teardown(self.targets(), self.manager()),
            leaf_to_root(steps@),
    {
        let mut steps = self.targets.teardown();
        let mut rest = self.manager.teardown();
        steps.append(&mut rest);
        proof {
            lemma_generation_teardown_order(self.targets, self.manager);
        }
        steps
    }
}

} // verus!
