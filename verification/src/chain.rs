//! The owner of a presentable image chain: the chain itself, the parameters
//! it was created with, and its images with one view each.
use vstd::prelude::*;
use crate::swapchain::SwapchainParameters;
use crate::teardown::{
    leaf_to_root, lemma_leaf_to_root_concat, steps_of, DestroyStep,
};

verus! {

/// One image of the chain with the view that was made of it.
///
/// The image belongs to the chain and goes with it; the view is created and
/// destroyed by the manager.
#[derive(Clone, Copy, Debug, PartialEq, Eq, Structural)]
pub struct PresentableImage {
    pub image: u64,
    pub view: u64,
}

/// What is asked for when a view of a chain image is created.
#[derive(Clone, Copy, Debug, PartialEq, Eq, Structural)]
pub struct ImageViewRequest {
    pub image: u64,
    /// Raw code of the pixel format, which is that of the chain.
    pub format: i32,
}

/// A chain that has been created, by raw handles.
pub struct SwapchainManager {
    chain: u64,
    parameters: SwapchainParameters,
    images: Vec<PresentableImage>,
}

/// The views of the images, in order.
pub open spec fn views_of(images: Seq<PresentableImage>) -> Seq<u64> {
    Seq::new(images.len(), |i: int| images[i].view)
}

/// One request per image, in order, each with the format of the chain.
pub open spec fn view_requests(images: Seq<u64>, format: i32) -> Seq<ImageViewRequest> {
    Seq::new(images.len(), |i: int| ImageViewRequest { image: images[i], format })
}

/// What is destroyed with a chain: every view, then the chain.
pub open spec fn chain_teardown(chain: u64, images: Seq<PresentableImage>) -> Seq<DestroyStep> {
    steps_of(|h: u64| DestroyStep::ImageView(h), views_of(images)) + seq![
        DestroyStep::Swapchain(chain),
    ]
}

/// The views are destroyed before the chain.
pub proof fn lemma_chain_teardown_order(chain: u64, images: Seq<PresentableImage>)
    ensures
        leaf_to_root(chain_teardown(chain, images)),
        chain_teardown(chain, images).len() == images.len() + 1,
        chain_teardown(chain, images).last() == DestroyStep::Swapchain(chain),
        forall|i: int|
            0 <= i < images.len() ==> #[trigger] chain_teardown(chain, images)[i]
                == DestroyStep::ImageView(images[i].view),
{
    let views = steps_of(|h: u64| DestroyStep::ImageView(h), views_of(images));
    lemma_leaf_to_root_concat(views, seq![DestroyStep::Swapchain(chain)]);
}

/// Lists what is asked for when the views of the chain images are created.
pub fn plan_image_views(images: &Vec<u64>, format: i32) -> (requests: Vec<ImageViewRequest>)
    ensures
        requests@ == view_requests(images@, format),
{
    let mut requests: Vec<ImageViewRequest> = Vec::new();
    let mut i: usize = 0;
    while i < images.len()
        invariant
            0 <= i <= images@.len(),
            requests@ == view_requests(images@.take(i as int), format),
        decreases images@.len() - i,
    {
        requests.push(ImageViewRequest { image: images[i], format });
        i += 1;
        assert(requests@ =~= view_requests(images@.take(i as int), format));
    }
    assert(images@.take(i as int) =~= images@);
    requests
}

impl SwapchainManager {
    /// The handle of the chain.
    pub closed spec fn chain(&self) -> u64 {
        self.chain
    }

    /// The parameters the chain was created with.
    pub closed spec fn parameters(&self) -> SwapchainParameters {
        self.parameters
    }

    /// The images with their views, by image index.
    pub closed spec fn images(&self) -> Seq<PresentableImage> {
        self.images@
    }

    /// Takes over a chain that has been created, with its images and the
    /// view made of each.
    ///
    /// There is no manager unless every image has exactly one view.
    pub fn new(
        chain: u64,
        parameters: SwapchainParameters,
        images: &Vec<u64>,
        views: &Vec<u64>,
    ) -> (made: Option<SwapchainManager>)
        ensures
            made is Some <==> images@.len() == views@.len(),
            made is Some ==> {
                let manager = made->0;
                &&& manager.chain() == chain
                &&& manager.parameters() == parameters
                &&& manager.images() == Seq::new(
                    images@.len(),
                    |i: int| PresentableImage { image: images@[i], view: views@[i] },
                )
            },
    {
        if images.len() != views.len() {
            return None;
        }
        let mut pairs: Vec<PresentableImage> = Vec::new();
        let mut i: usize = 0;
        while i < images.len()
            invariant
                0 <= i <= images@.len(),
                images@.len() == views@.len(),
                pairs@ == Seq::new(
                    i as nat,
                    |k: int| PresentableImage { image: images@[k], view: views@[k] },
                ),
            decreases images@.len() - i,
        {
            pairs.push(PresentableImage { image: images[i], view: views[i] });
            i += 1;
            assert(pairs@ =~= Seq::new(
                i as nat,
                |k: int| PresentableImage { image: images@[k], view: views@[k] },
            ));
        }
        Some(SwapchainManager { chain, parameters, images: pairs })
    }

    /// The handle of the chain.
    pub fn handle(&self) -> (chain: u64)
        ensures
            chain == self.chain(),
    {
        self.chain
    }

    /// The parameters the chain was created with.
    pub fn chain_parameters(&self) -> (parameters: SwapchainParameters)
        ensures
            parameters == self.parameters(),
    {
        self.parameters
    }

    /// The number of images in the chain.
    pub fn image_count(&self) -> (count: usize)
        ensures
            count == self.images().len(),
    {
        self.images.len()
    }

    /// The image with the given index and its view, if the chain has one.
    pub fn image(&self, index: u32) -> (found: Option<PresentableImage>)
        ensures
            found == if index < self.images().len() {
                Some(self.images()[index as int])
            } else {
                None
            },
    {
        if (index as usize) < self.images.len() {
            Some(self.images[index as usize])
        } else {
            None
        }
    }

    /// The views of the images, by image index.
    pub fn view_handles(&self) -> (views: Vec<u64>)
        ensures
            views@ == views_of(self.images()),
    {
        let mut views: Vec<u64> = Vec::new();
        let mut i: usize = 0;
        while i < self.images.len()
            invariant
                0 <= i <= self.images@.len(),
                views@ == views_of(self.images@.take(i as int)),
            decreases self.images@.len() - i,
        {
            views.push(self.images[i].view);
            i += 1;
            assert(views@ =~= views_of(self.images@.take(i as int)));
        }
        assert(self.images@.take(i as int) =~= self.images@);
        views
    }

    /// Lists what is destroyed with the chain, in order. The caller sees to
    /// it that the device is idle before it carries the steps out.
    pub fn teardown(&self) -> (steps: Vec<DestroyStep>)
        ensures
            steps@ == chain_teardown(self.chain(), self.images()),
            leaf_to_root(steps@),
    {
        let mut steps: Vec<DestroyStep> = Vec::new();
        let mut i: usize = 0;
        while i < self.images.len()
            invariant
                0 <= i <= self.images@.len(),
                steps@ == steps_of(
                    |h: u64| DestroyStep::ImageView(h),
                    views_of(self.images@.take(i as int)),
                ),
            decreases self.images@.len() - i,
        {
            steps.push(DestroyStep::ImageView(self.images[i].view));
            i += 1;
            assert(steps@ =~= steps_of(
                |h: u64| DestroyStep::ImageView(h),
                views_of(self.images@.take(i as int)),
            ));
        }
        assert(self.images@.take(i as int) =~= self.images@);
        steps.push(DestroyStep::Swapchain(self.chain));
        proof {
            lemma_chain_teardown_order(self.chain, self.images@);
        }
        steps
    }
}

} // verus!
