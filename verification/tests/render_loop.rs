use vulkan_frame::chain::SwapchainManager;
use vulkan_frame::generation::ChainGeneration;
use vulkan_frame::queue_family::QueueFamilyIndices;
use vulkan_frame::recorder::Command;
use vulkan_frame::render_loop::{
    Action, Event, LoopError, Phase, RenderLoop, ACQUIRE_TIMEOUT_NS,
};
use vulkan_frame::surface::{
    Extent, SurfaceCapabilities, SurfaceFormat, SwapChainSupportDetails, ANY_EXTENT,
};
use vulkan_frame::swapchain::{SharingMode, SwapchainParameters};
use vulkan_frame::sync::FrameSlot;
use vulkan_frame::targets::FrameTargets;
use vulkan_frame::teardown::DestroyStep;

const OK: i32 = 0;
const SUBOPTIMAL: i32 = 1_000_001_003;
const OUT_OF_DATE: i32 = -1_000_001_004;
const DEVICE_LOST: i32 = -4;

fn loop_slot(n: u64) -> FrameSlot {
    FrameSlot {
        image_available: 100 + n,
        render_finished: 200 + n,
        in_flight_fence: 300 + n,
        command_buffer: 400 + n,
    }
}

fn wait_fence(n: u64) -> Action {
    Action::WaitFence { fence: 300 + n }
}

fn acquire(n: u64) -> Action {
    Action::Acquire { signal: 100 + n, timeout: 1_000_000_000 }
}

fn record_into(n: u64, image_index: u32) -> Action {
    Action::Record { fence: 300 + n, command_buffer: 400 + n, image_index }
}

fn submit(n: u64) -> Action {
    Action::Submit {
        wait: 100 + n,
        wait_stage: ash::vk::PipelineStageFlags::COLOR_ATTACHMENT_OUTPUT.as_raw(),
        command_buffer: 400 + n,
        signal: 200 + n,
        fence: 300 + n,
    }
}

fn present(n: u64, image_index: u32) -> Action {
    Action::Present { wait: 200 + n, image_index }
}

fn generation_of(images: u64, extent: Extent) -> ChainGeneration {
    let parameters = SwapchainParameters {
        format: SurfaceFormat { format: 43, color_space: 0 },
        present_mode: 2,
        extent,
        image_count: images as u32,
        sharing: SharingMode::Exclusive,
    };
    let image_handles: Vec<u64> = (0..images).map(|i| 10 + i).collect();
    let views: Vec<u64> = (0..images).map(|i| 20 + i).collect();
    let framebuffers: Vec<u64> = (0..images).map(|i| 30 + i).collect();
    let manager = SwapchainManager::new(9, parameters, &image_handles, &views).unwrap();
    let targets = FrameTargets::new(43, extent, 71, 72, 73, &views, &framebuffers).unwrap();
    ChainGeneration::new(manager, targets).unwrap()
}

fn started_loop(frames: u64, images: u64) -> RenderLoop {
    let extent = Extent { width: 800, height: 600 };
    let slots: Vec<FrameSlot> = (0..frames).map(loop_slot).collect();
    RenderLoop::new(slots, generation_of(images, extent), extent).unwrap()
}

fn run_normal_tick(render_loop: &mut RenderLoop, image_index: u32) -> Action {
    let n = render_loop.current_frame_index() as u64;
    assert_eq!(render_loop.current_slot(), loop_slot(n));
    assert_eq!(render_loop.pending_action(), wait_fence(n));
    assert_eq!(render_loop.step(Event::FenceWaited { code: OK }), acquire(n));
    assert_eq!(
        render_loop.step(Event::Acquired { code: OK, image_index }),
        record_into(n, image_index)
    );
    assert_eq!(render_loop.step(Event::Recorded { code: OK }), submit(n));
    assert_eq!(render_loop.step(Event::Submitted { code: OK }), present(n, image_index));
    render_loop.step(Event::Presented { code: OK })
}

fn loop_presenting(frames: u64, images: u64, image_index: u32) -> RenderLoop {
    let mut render_loop = started_loop(frames, images);
    render_loop.step(Event::FenceWaited { code: OK });
    render_loop.step(Event::Acquired { code: OK, image_index });
    render_loop.step(Event::Recorded { code: OK });
    render_loop.step(Event::Submitted { code: OK });
    assert_eq!(render_loop.phase(), Phase::Presenting { image_index });
    render_loop
}

#[test]
fn loop_needs_a_slot() {
    let extent = Extent { width: 800, height: 600 };
    assert!(RenderLoop::new(vec![], generation_of(3, extent), extent).is_none());
}

#[test]
fn loop_starts_between_ticks_at_slot_zero() {
    let render_loop = started_loop(2, 3);
    assert_eq!(render_loop.phase(), Phase::Idle);
    assert_eq!(render_loop.current_frame_index(), 0);
    assert_eq!(render_loop.current_slot(), loop_slot(0));
    assert_eq!(render_loop.frames_in_flight(), 0);
    assert_eq!(render_loop.pending_resize(), None);
    assert_eq!(render_loop.target_extent(), Extent { width: 800, height: 600 });
    assert_eq!(render_loop.pending_action(), wait_fence(0));
    assert_eq!(render_loop.chain_generation().chain().image_count(), 3);
}

#[test]
fn normal_frame_advances_the_index_without_a_rebuild() {
    let mut render_loop = started_loop(2, 3);
    let next = run_normal_tick(&mut render_loop, 0);
    assert_eq!(next, wait_fence(1));
    assert_eq!(render_loop.phase(), Phase::Idle);
    assert_eq!(render_loop.current_frame_index(), 1);
    assert_eq!(render_loop.frames_in_flight(), 1);
}

#[test]
fn frame_index_rotates_over_many_normal_frames() {
    for frames in 1u64..4 {
        let mut render_loop = started_loop(frames, 3);
        for ticks in 0u64..17 {
            assert_eq!(render_loop.current_frame_index() as u64, ticks % frames);
            let next = run_normal_tick(&mut render_loop, (ticks % 3) as u32);
            assert_eq!(next, wait_fence((ticks + 1) % frames));
            assert!(render_loop.frames_in_flight() as u64 <= frames);
        }
        assert_eq!(render_loop.frames_in_flight() as u64, frames);
    }
}

#[test]
fn resize_between_ticks_rebuilds_after_the_next_present() {
    let mut render_loop = started_loop(2, 3);
    run_normal_tick(&mut render_loop, 0);
    let waiting = render_loop.step(Event::Resized { width: 400, height: 300 });
    assert_eq!(waiting, wait_fence(1));
    assert_eq!(render_loop.pending_resize(), Some(Extent { width: 400, height: 300 }));
    let next = run_normal_tick(&mut render_loop, 1);
    assert_eq!(next, Action::Rebuild { extent: Extent { width: 400, height: 300 } });
    assert_eq!(render_loop.phase(), Phase::Rebuilding);
    assert_eq!(render_loop.current_frame_index(), 0);
    assert_eq!(render_loop.pending_resize(), None);

    let capabilities = SurfaceCapabilities {
        min_image_count: 2,
        max_image_count: 0,
        current_extent: Extent { width: ANY_EXTENT, height: ANY_EXTENT },
        min_image_extent: Extent { width: 1, height: 1 },
        max_image_extent: Extent { width: 320, height: 4096 },
    };
    let support = SwapChainSupportDetails::new(
        capabilities,
        vec![SurfaceFormat { format: 43, color_space: 0 }],
        vec![2],
    );
    let indices = QueueFamilyIndices { graphics_family: Some(0), present_family: Some(0) };
    let parameters = render_loop.rebuild_parameters(&support, &indices).unwrap().unwrap();
    assert_eq!(parameters.extent, Extent { width: 320, height: 300 });
    assert_eq!(Ok(parameters), SwapchainParameters::build(&support, &indices, 400, 300));

    let rebuilt = render_loop.step(Event::Rebuilt(generation_of(3, parameters.extent)));
    assert_eq!(rebuilt, wait_fence(0));
    assert_eq!(render_loop.phase(), Phase::Idle);
    assert_eq!(render_loop.target_extent(), Extent { width: 400, height: 300 });
    assert_eq!(
        render_loop.chain_generation().chain().chain_parameters().extent,
        Extent { width: 320, height: 300 }
    );
}

#[test]
fn parameters_are_derived_while_rebuilding_only() {
    let support = SwapChainSupportDetails::new(
        SurfaceCapabilities {
            min_image_count: 2,
            max_image_count: 3,
            current_extent: Extent { width: 1024, height: 768 },
            min_image_extent: Extent { width: 1, height: 1 },
            max_image_extent: Extent { width: 4096, height: 4096 },
        },
        vec![],
        vec![],
    );
    let indices = QueueFamilyIndices { graphics_family: Some(0), present_family: Some(0) };
    let mut render_loop = loop_presenting(2, 3, 0);
    assert!(render_loop.rebuild_parameters(&support, &indices).is_none());
    render_loop.step(Event::Presented { code: OUT_OF_DATE });
    assert_eq!(
        render_loop.rebuild_parameters(&support, &indices),
        Some(Err(vulkan_frame::swapchain::BuildError::NoSurfaceFormat))
    );
    let with_format = SwapChainSupportDetails::new(
        support.capabilities,
        vec![SurfaceFormat { format: 44, color_space: 0 }],
        vec![0],
    );
    let first = render_loop.rebuild_parameters(&with_format, &indices).unwrap().unwrap();
    let second = render_loop.rebuild_parameters(&with_format, &indices).unwrap().unwrap();
    assert_eq!(first, second);
    assert_eq!(first.extent, Extent { width: 1024, height: 768 });
    assert_eq!(first.image_count, 3);
    assert_eq!(first.present_mode, 2);
}

#[test]
fn latest_resize_counts() {
    let mut render_loop = started_loop(2, 3);
    render_loop.step(Event::Resized { width: 400, height: 300 });
    render_loop.step(Event::Resized { width: 410, height: 310 });
    render_loop.step(Event::Resized { width: 420, height: 320 });
    let next = run_normal_tick(&mut render_loop, 0);
    assert_eq!(next, Action::Rebuild { extent: Extent { width: 420, height: 320 } });
}

#[test]
fn out_of_date_acquire_rebuilds_without_recording_or_advancing() {
    let mut render_loop = started_loop(2, 3);
    run_normal_tick(&mut render_loop, 0);
    assert_eq!(render_loop.current_frame_index(), 1);
    render_loop.step(Event::FenceWaited { code: OK });
    let next = render_loop.step(Event::Acquired { code: OUT_OF_DATE, image_index: 0 });
    assert_eq!(next, Action::Rebuild { extent: Extent { width: 800, height: 600 } });
    assert_eq!(render_loop.phase(), Phase::Rebuilding);
    assert_eq!(render_loop.current_frame_index(), 1);
    assert_eq!(render_loop.frames_in_flight(), 1);
    assert!(render_loop.recording().is_none());
    let after = render_loop.step(Event::Rebuilt(generation_of(3, Extent { width: 800, height: 600 })));
    assert_eq!(after, wait_fence(1));
    assert_eq!(render_loop.current_frame_index(), 1);
}

#[test]
fn suboptimal_present_advances_and_rebuilds_before_the_next_acquire() {
    let mut render_loop = loop_presenting(2, 3, 1);
    let next = render_loop.step(Event::Presented { code: SUBOPTIMAL });
    assert_eq!(next, Action::Rebuild { extent: Extent { width: 800, height: 600 } });
    assert_eq!(render_loop.phase(), Phase::Rebuilding);
    assert_eq!(render_loop.current_frame_index(), 1);
    let ignored = render_loop.step(Event::Acquired { code: OK, image_index: 0 });
    assert_eq!(ignored, next);
    assert_eq!(render_loop.phase(), Phase::Rebuilding);
}

#[test]
fn out_of_date_present_advances_and_rebuilds() {
    let mut render_loop = loop_presenting(3, 3, 2);
    let next = render_loop.step(Event::Presented { code: OUT_OF_DATE });
    assert_eq!(next, Action::Rebuild { extent: Extent { width: 800, height: 600 } });
    assert_eq!(render_loop.current_frame_index(), 1);
}

#[test]
fn suboptimal_acquire_draws_the_frame_and_rebuilds_after_it() {
    let mut render_loop = started_loop(2, 3);
    render_loop.step(Event::FenceWaited { code: OK });
    assert_eq!(
        render_loop.step(Event::Acquired { code: SUBOPTIMAL, image_index: 2 }),
        record_into(0, 2)
    );
    render_loop.step(Event::Recorded { code: OK });
    render_loop.step(Event::Submitted { code: OK });
    let next = render_loop.step(Event::Presented { code: OK });
    assert_eq!(next, Action::Rebuild { extent: Extent { width: 800, height: 600 } });
    assert_eq!(render_loop.current_frame_index(), 1);
    render_loop.step(Event::Rebuilt(generation_of(3, Extent { width: 800, height: 600 })));
    let after = run_normal_tick(&mut render_loop, 0);
    assert_eq!(after, wait_fence(0));
}

#[test]
fn resize_and_suboptimal_present_make_one_rebuild() {
    let mut render_loop = loop_presenting(2, 3, 0);
    render_loop.step(Event::Resized { width: 400, height: 300 });
    let next = render_loop.step(Event::Presented { code: SUBOPTIMAL });
    assert_eq!(next, Action::Rebuild { extent: Extent { width: 400, height: 300 } });
    let rebuilt = render_loop.step(Event::Rebuilt(generation_of(2, Extent { width: 400, height: 300 })));
    assert_eq!(rebuilt, wait_fence(1));
    let after = run_normal_tick(&mut render_loop, 1);
    assert_eq!(after, wait_fence(0));
}

#[test]
fn second_rebuild_asks_for_the_same_extent() {
    let mut render_loop = started_loop(2, 3);
    render_loop.step(Event::Resized { width: 400, height: 300 });
    let first = run_normal_tick(&mut render_loop, 0);
    render_loop.step(Event::Rebuilt(generation_of(3, Extent { width: 400, height: 300 })));
    render_loop.step(Event::FenceWaited { code: OK });
    let second = render_loop.step(Event::Acquired { code: OUT_OF_DATE, image_index: 0 });
    assert_eq!(first, second);
    assert_eq!(second, Action::Rebuild { extent: Extent { width: 400, height: 300 } });
}

#[test]
fn recording_is_for_the_acquired_image_and_the_current_slot() {
    let mut render_loop = started_loop(2, 3);
    assert!(render_loop.recording().is_none());
    render_loop.step(Event::FenceWaited { code: OK });
    assert!(render_loop.recording().is_none());
    render_loop.step(Event::Acquired { code: OK, image_index: 2 });
    let recording = render_loop.recording().unwrap();
    assert_eq!(recording.command_buffer, 400);
    assert_eq!(recording.commands.len(), 7);
    match recording.commands[2] {
        Command::BeginRenderPass { render_pass, framebuffer, .. } => {
            assert_eq!(render_pass, 71);
            assert_eq!(framebuffer, 32);
        }
        _ => panic!("the third command begins the render pass"),
    }
    render_loop.step(Event::Recorded { code: OK });
    assert!(render_loop.recording().is_none());
}

#[test]
fn acquired_image_without_a_framebuffer_is_fatal() {
    let mut render_loop = started_loop(2, 3);
    render_loop.step(Event::FenceWaited { code: OK });
    let next = render_loop.step(Event::Acquired { code: OK, image_index: 3 });
    assert_eq!(next, Action::Fail(LoopError::UnknownImage(3)));
    assert_eq!(render_loop.phase(), Phase::Failed(LoopError::UnknownImage(3)));
}

#[test]
fn every_step_fails_with_its_own_error_and_code() {
    let mut waiting = started_loop(2, 3);
    assert_eq!(
        waiting.step(Event::FenceWaited { code: DEVICE_LOST }),
        Action::Fail(LoopError::FenceWait(-4))
    );

    let mut acquiring = started_loop(2, 3);
    acquiring.step(Event::FenceWaited { code: OK });
    assert_eq!(
        acquiring.step(Event::Acquired { code: DEVICE_LOST, image_index: 0 }),
        Action::Fail(LoopError::Acquire(-4))
    );

    let mut recording = started_loop(2, 3);
    recording.step(Event::FenceWaited { code: OK });
    recording.step(Event::Acquired { code: OK, image_index: 0 });
    assert_eq!(
        recording.step(Event::Recorded { code: -1 }),
        Action::Fail(LoopError::Record(-1))
    );

    let mut submitting = started_loop(2, 3);
    submitting.step(Event::FenceWaited { code: OK });
    submitting.step(Event::Acquired { code: OK, image_index: 0 });
    submitting.step(Event::Recorded { code: OK });
    assert_eq!(
        submitting.step(Event::Submitted { code: -2 }),
        Action::Fail(LoopError::Submit(-2))
    );
    assert_eq!(submitting.frames_in_flight(), 0);

    let mut presenting = loop_presenting(2, 3, 0);
    assert_eq!(
        presenting.step(Event::Presented { code: DEVICE_LOST }),
        Action::Fail(LoopError::Present(-4))
    );
    assert_eq!(presenting.current_frame_index(), 0);

    let mut rebuilding = loop_presenting(2, 3, 0);
    rebuilding.step(Event::Presented { code: OUT_OF_DATE });
    assert_eq!(
        rebuilding.step(Event::RebuildFailed { code: -3 }),
        Action::Fail(LoopError::Rebuild(-3))
    );
}

#[test]
fn failed_loop_stays_failed() {
    let mut render_loop = started_loop(2, 3);
    render_loop.step(Event::FenceWaited { code: DEVICE_LOST });
    let failed = Action::Fail(LoopError::FenceWait(-4));
    assert_eq!(render_loop.step(Event::FenceWaited { code: OK }), failed);
    assert_eq!(render_loop.step(Event::Resized { width: 1, height: 1 }), failed);
    assert_eq!(render_loop.step(Event::CloseRequested), failed);
    assert_eq!(render_loop.pending_resize(), None);
    assert_eq!(render_loop.phase(), Phase::Failed(LoopError::FenceWait(-4)));
}

#[test]
fn report_out_of_turn_changes_nothing() {
    let mut render_loop = started_loop(2, 3);
    let waiting = wait_fence(0);
    assert_eq!(render_loop.step(Event::Acquired { code: OK, image_index: 0 }), waiting);
    assert_eq!(render_loop.step(Event::Recorded { code: OK }), waiting);
    assert_eq!(render_loop.step(Event::Submitted { code: OK }), waiting);
    assert_eq!(render_loop.step(Event::Presented { code: OK }), waiting);
    assert_eq!(render_loop.step(Event::RebuildFailed { code: -1 }), waiting);
    assert_eq!(render_loop.step(Event::Drained { code: OK }), waiting);
    let other = generation_of(5, Extent { width: 1, height: 1 });
    assert_eq!(render_loop.step(Event::Rebuilt(other)), waiting);
    assert_eq!(render_loop.chain_generation().chain().image_count(), 3);
    assert_eq!(render_loop.phase(), Phase::Idle);
    assert_eq!(render_loop.frames_in_flight(), 0);
}

#[test]
fn close_request_drains_the_device_before_the_loop_stops() {
    let mut render_loop = started_loop(2, 3);
    run_normal_tick(&mut render_loop, 0);
    render_loop.step(Event::FenceWaited { code: OK });
    assert_eq!(render_loop.step(Event::CloseRequested), Action::Drain);
    assert_eq!(render_loop.phase(), Phase::Draining);
    assert_eq!(render_loop.step(Event::Acquired { code: OK, image_index: 0 }), Action::Drain);
    assert_eq!(render_loop.step(Event::Drained { code: OK }), Action::Stop);
    assert_eq!(render_loop.phase(), Phase::Stopped);
    assert_eq!(render_loop.step(Event::FenceWaited { code: OK }), Action::Stop);
}

#[test]
fn acquire_that_runs_out_of_time_is_fatal() {
    let mut render_loop = started_loop(2, 3);
    assert_eq!(
        render_loop.step(Event::FenceWaited { code: OK }),
        Action::Acquire { signal: 100, timeout: ACQUIRE_TIMEOUT_NS }
    );
    let timed_out = ash::vk::Result::TIMEOUT.as_raw();
    assert_eq!(
        render_loop.step(Event::Acquired { code: timed_out, image_index: 0 }),
        Action::Fail(LoopError::Acquire(2))
    );
}

#[test]
fn failed_drain_is_an_error() {
    let mut render_loop = started_loop(2, 3);
    render_loop.step(Event::CloseRequested);
    assert_eq!(
        render_loop.step(Event::Drained { code: DEVICE_LOST }),
        Action::Fail(LoopError::Drain(-4))
    );
}

#[test]
fn rebuilt_generation_replaces_the_old_one() {
    let mut render_loop = loop_presenting(2, 3, 0);
    render_loop.step(Event::Presented { code: OUT_OF_DATE });
    render_loop.step(Event::Rebuilt(generation_of(2, Extent { width: 800, height: 600 })));
    assert_eq!(render_loop.chain_generation().chain().image_count(), 2);
    render_loop.step(Event::FenceWaited { code: OK });
    assert_eq!(
        render_loop.step(Event::Acquired { code: OK, image_index: 2 }),
        Action::Fail(LoopError::UnknownImage(2))
    );
}

#[test]
fn running_loop_hands_out_no_teardown() {
    let mut render_loop = started_loop(2, 2);
    assert!(render_loop.teardown(50, 60, None).is_none());
    render_loop.step(Event::CloseRequested);
    assert!(render_loop.teardown(50, 60, None).is_none());
}

#[test]
fn stopped_loop_is_torn_down_leaf_to_root() {
    let mut render_loop = started_loop(2, 2);
    run_normal_tick(&mut render_loop, 0);
    render_loop.step(Event::CloseRequested);
    render_loop.step(Event::Drained { code: OK });
    assert_eq!(
        render_loop.teardown(50, 60, Some(70)),
        Some(vec![
            DestroyStep::Framebuffer(30),
            DestroyStep::Framebuffer(31),
            DestroyStep::Pipeline(73),
            DestroyStep::PipelineLayout(72),
            DestroyStep::RenderPass(71),
            DestroyStep::ImageView(20),
            DestroyStep::ImageView(21),
            DestroyStep::Swapchain(9),
            DestroyStep::Semaphore(100),
            DestroyStep::Semaphore(200),
            DestroyStep::Semaphore(101),
            DestroyStep::Semaphore(201),
            DestroyStep::Fence(300),
            DestroyStep::Fence(301),
            DestroyStep::CommandPool(50),
            DestroyStep::Device,
            DestroyStep::Surface(60),
            DestroyStep::DebugMessenger(70),
            DestroyStep::Instance,
        ])
    );
}

#[test]
fn failed_loop_is_torn_down_too() {
    let mut render_loop = started_loop(1, 1);
    render_loop.step(Event::FenceWaited { code: DEVICE_LOST });
    let steps = render_loop.teardown(50, 60, None).unwrap();
    assert_eq!(steps.len(), 13);
    assert_eq!(steps[0], DestroyStep::Framebuffer(30));
    assert_eq!(steps[12], DestroyStep::Instance);
}
