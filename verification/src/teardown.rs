//! The order in which GPU objects are destroyed.
//!
//! Every owner hands out the destruction of what it owns as a list of steps.
//! The lists are ordered leaf to root: an object is destroyed before anything
//! that it refers to.
use vstd::prelude::*;

verus! {

/// The destruction of one object, named by its raw handle where it has one.
#[derive(Clone, Copy, Debug, PartialEq, Eq, Structural)]
pub enum DestroyStep {
    Framebuffer(u64),
    Pipeline(u64),
    PipelineLayout(u64),
    RenderPass(u64),
    ImageView(u64),
    Swapchain(u64),
    Semaphore(u64),
    Fence(u64),
    CommandPool(u64),
    Device,
    Surface(u64),
    DebugMessenger(u64),
    Instance,
}

impl DestroyStep {
    /// The depth of the object in the dependency order: an object refers
    /// only to objects of a greater depth.
    pub open spec fn depth(self) -> nat {
        match self {
            DestroyStep::Framebuffer(_) => 0,
            DestroyStep::Pipeline(_) => 1,
            DestroyStep::PipelineLayout(_) => 2,
            DestroyStep::RenderPass(_) => 3,
            DestroyStep::ImageView(_) => 4,
            DestroyStep::Swapchain(_) => 5,
            DestroyStep::Semaphore(_) => 6,
            DestroyStep::Fence(_) => 6,
            DestroyStep::CommandPool(_) => 6,
            DestroyStep::Device => 7,
            DestroyStep::Surface(_) => 8,
            DestroyStep::DebugMessenger(_) => 9,
            DestroyStep::Instance => 10,
        }
    }
}

/// Whether the steps run leaf to root: no step comes after one of a greater
/// depth.
pub open spec fn leaf_to_root(steps: Seq<DestroyStep>) -> bool {
    forall|i: int, j: int|
        0 <= i < j < steps.len() ==> (#[trigger] steps[i]).depth() <= (#[trigger] steps[j]).depth()
}

/// The steps that destroy the given handles, one step each, in order.
pub open spec fn steps_of(wrap: spec_fn(u64) -> DestroyStep, handles: Seq<u64>) -> Seq<
    DestroyStep,
> {
    Seq::new(handles.len(), |i: int| wrap(handles[i]))
}

/// Two lists that each run leaf to root still do so one after the other, if
/// nothing in the first is deeper than anything in the second.
pub proof fn lemma_leaf_to_root_concat(first: Seq<DestroyStep>, second: Seq<DestroyStep>)
    requires
        leaf_to_root(first),
        leaf_to_root(second),
        forall|i: int, j: int|
            0 <= i < first.len() && 0 <= j < second.len() ==> (#[trigger] first[i]).depth() <= (
            #[trigger] second[j]).depth(),
    ensures
        leaf_to_root(first + second),
{
    let all = first + second;
    assert forall|i: int, j: int| 0 <= i < j < all.len() implies (#[trigger] all[i]).depth() <= (
    #[trigger] all[j]).depth() by {
        if j < first.len() {
            assert(all[i] == first[i] && all[j] == first[j]);
        } else if i < first.len() {
            assert(all[i] == first[i] && all[j] == second[j - first.len()]);
        } else {
            assert(all[i] == second[i - first.len()] && all[j] == second[j - first.len()]);
        }
    }
}

/// What is destroyed when the program shuts down, after the device has gone
/// idle and after the image chain and what hangs on it have been destroyed:
/// the per-frame primitives, the command pool, the device, the surface, the
/// debug messenger where there is one, and the instance.
pub open spec fn shutdown_steps(
    semaphores: Seq<u64>,
    fences: Seq<u64>,
    command_pool: u64,
    surface: u64,
    debug_messenger: Option<u64>,
) -> Seq<DestroyStep> {
    steps_of(|h: u64| DestroyStep::Semaphore(h), semaphores) + steps_of(
        |h: u64| DestroyStep::Fence(h),
        fences,
    ) + seq![
        DestroyStep::CommandPool(command_pool),
        DestroyStep::Device,
        DestroyStep::Surface(surface),
    ] + (match debug_messenger {
        Some(handle) => seq![DestroyStep::DebugMessenger(handle)],
        None => Seq::<DestroyStep>::empty(),
    }) + seq![DestroyStep::Instance]
}

/// Lists what is destroyed at shutdown, in order.
pub fn shutdown_sequence(
    semaphores: &Vec<u64>,
    fences: &Vec<u64>,
    command_pool: u64,
    surface: u64,
    debug_messenger: Option<u64>,
) -> (steps: Vec<DestroyStep>)
    ensures
        steps@ == shutdown_steps(semaphores@, fences@, command_pool, surface, debug_messenger),
        leaf_to_root(steps@),
{
    let mut steps: Vec<DestroyStep> = Vec::new();
    let mut i: usize = 0;
    while i < semaphores.len()
        invariant
            0 <= i <= semaphores@.len(),
            steps@ == steps_of(|h: u64| DestroyStep::Semaphore(h), semaphores@.take(i as int)),
        decreases semaphores@.len() - i,
    {
        steps.push(DestroyStep::Semaphore(semaphores[i]));
        i += 1;
        assert(steps@ =~= steps_of(
            |h: u64| DestroyStep::Semaphore(h),
            semaphores@.take(i as int),
        ));
    }
    assert(semaphores@.take(i as int) =~= semaphores@);
    let ghost first = steps@;
    let mut j: usize = 0;
    while j < fences.len()
        invariant
            0 <= j <= fences@.len(),
            steps@ == first + steps_of(|h: u64| DestroyStep::Fence(h), fences@.take(j as int)),
        decreases fences@.len() - j,
    {
        steps.push(DestroyStep::Fence(fences[j]));
        j += 1;
        assert(steps@ =~= first + steps_of(
            |h: u64| DestroyStep::Fence(h),
            fences@.take(j as int),
        ));
    }
    assert(fences@.take(j as int) =~= fences@);
    steps.push(DestroyStep::CommandPool(command_pool));
    steps.push(DestroyStep::Device);
    steps.push(DestroyStep::Surface(surface));
    match debug_messenger {
        Some(handle) => {
            steps.push(DestroyStep::DebugMessenger(handle));
        },
        None => {},
    }
    steps.push(DestroyStep::Instance);
    proof {
        assert(steps@ =~= shutdown_steps(
            semaphores@,
            fences@,
            command_pool,
            surface,
            debug_messenger,
        ));
        lemma_shutdown_leaf_to_root(semaphores@, fences@, command_pool, surface, debug_messenger);
    }
    steps
}

/// The shutdown list runs leaf to root.
pub proof fn lemma_shutdown_leaf_to_root(
    semaphores: Seq<u64>,
    fences: Seq<u64>,
    command_pool: u64,
    surface: u64,
    debug_messenger: Option<u64>,
)
    ensures
        leaf_to_root(shutdown_steps(semaphores, fences, command_pool, surface, debug_messenger)),
{
    let primitives = steps_of(|h: u64| DestroyStep::Semaphore(h), semaphores) + steps_of(
        |h: u64| DestroyStep::Fence(h),
        fences,
    );
    let fixed = seq![
        DestroyStep::CommandPool(command_pool),
        DestroyStep::Device,
        DestroyStep::Surface(surface),
    ];
    let messenger = match debug_messenger {
        Some(handle) => seq![DestroyStep::DebugMessenger(handle)],
        None => Seq::<DestroyStep>::empty(),
    };
    let last = seq![DestroyStep::Instance];
    assert(forall|i: int| 0 <= i < primitives.len() ==> (#[trigger] primitives[i]).depth() == 6);
    lemma_leaf_to_root_concat(primitives, fixed);
    lemma_leaf_to_root_concat(primitives + fixed, messenger);
    lemma_leaf_to_root_concat(primitives + fixed + messenger, last);
}

} // verus!
