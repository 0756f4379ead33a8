//! What hangs on the image chain and is rebuilt with it: the render pass,
//! one framebuffer per chain image, and the pipeline.
use vstd::prelude::*;
use crate::codes::{all_color_components, COLOR_COMPONENTS_ALL};
use crate::surface::Extent;
use crate::teardown::{leaf_to_root, lemma_leaf_to_root_concat, steps_of, DestroyStep};

verus! {

/// A rectangle in pixels.
#[derive(Clone, Copy, Debug, PartialEq, Eq, Structural)]
pub struct Rect {
    pub x: i32,
    pub y: i32,
    pub extent: Extent,
}

/// What is asked for when the framebuffer of one chain image is created.
#[derive(Clone, Copy, Debug, PartialEq, Eq, Structural)]
pub struct FramebufferRequest {
    /// The view that the framebuffer binds.
    pub view: u64,
    pub width: u32,
    pub height: u32,
    pub layers: u32,
}

/// The part of the pipeline that follows from the chain: where it draws and
/// which colour components it writes.
#[derive(Clone, Copy, Debug, PartialEq, Eq, Structural)]
pub struct PipelineDescription {
    /// The viewport, whose depth range is the whole of 0 to 1.
    pub viewport: Rect,
    pub scissor: Rect,
    pub color_write_mask: u32,
}

/// A framebuffer with the view it binds.
#[derive(Clone, Copy, Debug, PartialEq, Eq, Structural)]
pub struct Framebuffer {
    pub handle: u64,
    pub view: u64,
}

/// The targets of one chain, by raw handles.
pub struct FrameTargets {
    format: i32,
    extent: Extent,
    render_pass: u64,
    pipeline_layout: u64,
    pipeline: u64,
    framebuffers: Vec<Framebuffer>,
}

/// The whole of an image of the given extent, from its origin.
pub open spec fn full_rect(extent: Extent) -> Rect {
    Rect { x: 0, y: 0, extent }
}

/// The pipeline of a chain of the given extent: viewport and scissor cover
/// the whole image, and all four colour components are written.
pub open spec fn pipeline_for(extent: Extent) -> PipelineDescription {
    PipelineDescription {
        viewport: full_rect(extent),
        scissor: full_rect(extent),
        color_write_mask: COLOR_COMPONENTS_ALL,
    }
}

/// One request per view, in order, each of the extent of the chain and with
/// a single layer.
pub open spec fn framebuffer_requests(views: Seq<u64>, extent: Extent) -> Seq<FramebufferRequest> {
    Seq::new(
        views.len(),
        |i: int|
            FramebufferRequest {
                view: views[i],
                width: extent.width,
                height: extent.height,
                layers: 1,
            },
    )
}

/// The handles of the framebuffers, in order.
pub open spec fn handles_of(framebuffers: Seq<Framebuffer>) -> Seq<u64> {
    Seq::new(framebuffers.len(), |i: int| framebuffers[i].handle)
}

/// The views that the framebuffers bind, in order.
pub open spec fn bound_views(framebuffers: Seq<Framebuffer>) -> Seq<u64> {
    Seq::new(framebuffers.len(), |i: int| framebuffers[i].view)
}

/// What is destroyed with the targets: every framebuffer, then the pipeline,
/// its layout and the render pass.
pub open spec fn targets_teardown(
    framebuffers: Seq<Framebuffer>,
    pipeline: u64,
    pipeline_layout: u64,
    render_pass: u64,
) -> Seq<DestroyStep> {
    steps_of(|h: u64| DestroyStep::Framebuffer(h), handles_of(framebuffers)) + seq![
        DestroyStep::Pipeline(pipeline),
        DestroyStep::PipelineLayout(pipeline_layout),
        DestroyStep::RenderPass(render_pass),
    ]
}

/// The framebuffers are destroyed before the pipeline and the render pass
/// that they refer to.
pub proof fn lemma_targets_teardown_order(
    framebuffers: Seq<Framebuffer>,
    pipeline: u64,
    pipeline_layout: u64,
    render_pass: u64,
)
    ensures
        leaf_to_root(targets_teardown(framebuffers, pipeline, pipeline_layout, render_pass)),
        targets_teardown(framebuffers, pipeline, pipeline_layout, render_pass).len()
            == framebuffers.len() + 3,
        forall|i: int|
            0 <= i < framebuffers.len() ==> #[trigger] targets_teardown(
                framebuffers,
                pipeline,
                pipeline_layout,
                render_pass,
            )[i] == DestroyStep::Framebuffer(framebuffers[i].handle),
        targets_teardown(framebuffers, pipeline, pipeline_layout, render_pass)[framebuffers.len()
            as int + 0] == DestroyStep::Pipeline(pipeline),
        targets_teardown(framebuffers, pipeline, pipeline_layout, render_pass)[framebuffers.len()
            as int + 1] == DestroyStep::PipelineLayout(pipeline_layout),
        targets_teardown(framebuffers, pipeline, pipeline_layout, render_pass)[framebuffers.len()
            as int + 2] == DestroyStep::RenderPass(render_pass),
{
    let first = steps_of(|h: u64| DestroyStep::Framebuffer(h), handles_of(framebuffers));
    let rest = seq![
        DestroyStep::Pipeline(pipeline),
        DestroyStep::PipelineLayout(pipeline_layout),
        DestroyStep::RenderPass(render_pass),
    ];
    lemma_leaf_to_root_concat(first, rest);
}

/// Describes the pipeline of a chain of the given extent.
pub fn describe_pipeline(extent: Extent) -> (description: PipelineDescription)
    ensures
        description == pipeline_for(extent),
{
    PipelineDescription {
        viewport: Rect { x: 0, y: 0, extent },
        scissor: Rect { x: 0, y: 0, extent },
        color_write_mask: all_color_components(),
    }
}

/// Lists what is asked for when the framebuffers of a chain are created.
pub fn plan_framebuffers(views: &Vec<u64>, extent: Extent) -> (requests: Vec<FramebufferRequest>)
    ensures
        requests@ == framebuffer_requests(views@, extent),
{
    let mut requests: Vec<FramebufferRequest> = Vec::new();
    let mut i: usize = 0;
    while i < views.len()
        invariant
            0 <= i <= views@.len(),
            requests@ == framebuffer_requests(views@.take(i as int), extent),
        decreases views@.len() - i,
    {
        requests.push(
            FramebufferRequest {
                view: views[i],
                width: extent.width,
                height: extent.height,
                layers: 1,
            },
        );
        i += 1;
        assert(requests@ =~= framebuffer_requests(views@.take(i as int), extent));
    }
    assert(views@.take(i as int) =~= views@);
    requests
}

impl FrameTargets {
    /// Raw code of the pixel format that the render pass was made for.
    pub closed spec fn format(&self) -> i32 {
        self.format
    }

    /// The extent that framebuffers and pipeline were made for.
    pub closed spec fn extent(&self) -> Extent {
        self.extent
    }

    pub closed spec fn render_pass(&self) -> u64 {
        self.render_pass
    }

    pub closed spec fn pipeline_layout(&self) -> u64 {
        self.pipeline_layout
    }

    pub closed spec fn pipeline(&self) -> u64 {
        self.pipeline
    }

    /// The framebuffers, by image index.
    pub closed spec fn framebuffers(&self) -> Seq<Framebuffer> {
        self.framebuffers@
    }

    /// Takes over targets that have been created for the given views.
    ///
    /// There are no targets unless every view has exactly one framebuffer.
    pub fn new(
        format: i32,
        extent: Extent,
        render_pass: u64,
        pipeline_layout: u64,
        pipeline: u64,
        views: &Vec<u64>,
        framebuffers: &Vec<u64>,
    ) -> (made: Option<FrameTargets>)
        ensures
            made is Some <==> views@.len() == framebuffers@.len(),
            made is Some ==> {
                let targets = made->0;
                &&& targets.format() == format
                &&& targets.extent() == extent
                &&& targets.render_pass() == render_pass
                &&& targets.pipeline_layout() == pipeline_layout
                &&& targets.pipeline() == pipeline
                &&& targets.framebuffers() == Seq::new(
                    views@.len(),
                    |i: int| Framebuffer { handle: framebuffers@[i], view: views@[i] },
                )
            },
    {
        if views.len() != framebuffers.len() {
            return None;
        }
        let mut bound: Vec<Framebuffer> = Vec::new();
        let mut i: usize = 0;
        while i < views.len()
            invariant
                0 <= i <= views@.len(),
                views@.len() == framebuffers@.len(),
                bound@ == Seq::new(
                    i as nat,
                    |k: int| Framebuffer { handle: framebuffers@[k], view: views@[k] },
                ),
            decreases views@.len() - i,
        {
            bound.push(Framebuffer { handle: framebuffers[i], view: views[i] });
            i += 1;
            assert(bound@ =~= Seq::new(
                i as nat,
                |k: int| Framebuffer { handle: framebuffers@[k], view: views@[k] },
            ));
        }
        Some(
            FrameTargets {
                format,
                extent,
                render_pass,
                pipeline_layout,
                pipeline,
                framebuffers: bound,
            },
        )
    }

    /// Raw code of the pixel format that the render pass was made for.
    pub fn pixel_format(&self) -> (format: i32)
        ensures
            format == self.format(),
    {
        self.format
    }

    /// The extent that framebuffers and pipeline were made for.
    pub fn render_extent(&self) -> (extent: Extent)
        ensures
            extent == self.extent(),
    {
        self.extent
    }

    /// The handle of the render pass.
    pub fn render_pass_handle(&self) -> (handle: u64)
        ensures
            handle == self.render_pass(),
    {
        self.render_pass
    }

    /// The handle of the pipeline.
    pub fn pipeline_handle(&self) -> (handle: u64)
        ensures
            handle == self.pipeline(),
    {
        self.pipeline
    }

    /// The number of framebuffers.
    pub fn framebuffer_count(&self) -> (count: usize)
        ensures
            count == self.framebuffers().len(),
    {
        self.framebuffers.len()
    }

    /// The views that the framebuffers bind, by image index.
    pub fn bound_view_handles(&self) -> (views: Vec<u64>)
        ensures
            views@ == bound_views(self.framebuffers()),
    {
        let mut views: Vec<u64> = Vec::new();
        let mut i: usize = 0;
        while i < self.framebuffers.len()
            invariant
                0 <= i <= self.framebuffers@.len(),
                views@ == bound_views(self.framebuffers@.take(i as int)),
            decreases self.framebuffers@.len() - i,
        {
            views.push(self.framebuffers[i].view);
            i += 1;
            assert(views@ =~= bound_views(self.framebuffers@.take(i as int)));
        }
        assert(self.framebuffers@.take(i as int) =~= self.framebuffers@);
        views
    }

    /// The framebuffer of the image with the given index, if there is one.
    pub fn framebuffer_for(&self, image_index: u32) -> (found: Option<Framebuffer>)
        ensures
            found == if image_index < self.framebuffers().len() {
                Some(self.framebuffers()[image_index as int])
            } else {
                None
            },
    {
        if (image_index as usize) < self.framebuffers.len() {
            Some(self.framebuffers[image_index as usize])
        } else {
            None
        }
    }

    /// Lists what is destroyed with the targets, in order. The caller sees
    /// to it that the device is idle before it carries the steps out.
    pub fn teardown(&self) -> (steps: Vec<DestroyStep>)
        ensures
            steps@ == targets_teardown(
                self.framebuffers(),
                self.pipeline(),
                self.pipeline_layout(),
                self.render_pass(),
            ),
            leaf_to_root(steps@),
    {
        let mut steps: Vec<DestroyStep> = Vec::new();
        let mut i: usize = 0;
        while i < self.framebuffers.len()
            invariant
                0 <= i <= self.framebuffers@.len(),
                steps@ == steps_of(
                    |h: u64| DestroyStep::Framebuffer(h),
                    handles_of(self.framebuffers@.take(i as int)),
                ),
            decreases self.framebuffers@.len() - i,
        {
            steps.push(DestroyStep::Framebuffer(self.framebuffers[i].handle));
            i += 1;
            assert(steps@ =~= steps_of(
                |h: u64| DestroyStep::Framebuffer(h),
                handles_of(self.framebuffers@.take(i as int)),
            ));
        }
        assert(self.framebuffers@.take(i as int) =~= self.framebuffers@);
        steps.push(DestroyStep::Pipeline(self.pipeline));
        steps.push(DestroyStep::PipelineLayout(self.pipeline_layout));
        steps.push(DestroyStep::RenderPass(self.render_pass));
        proof {
            assert(steps@ =~= targets_teardown(
                self.framebuffers@,
                self.pipeline,
                self.pipeline_layout,
                self.render_pass,
            ));
            lemma_targets_teardown_order(
                self.framebuffers@,
                self.pipeline,
                self.pipeline_layout,
                self.render_pass,
            );
        }
        steps
    }
}

} // verus!
