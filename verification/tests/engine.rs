use voxeller::engine::{
    camera_request, device_is_usable, image_barrier, init_barrier, select_device,
    select_queue_family, storage_image, sync_plan, Command, Engine, FrameStep, ImageBarrier,
    ImageLayout, Offset, Outcome, Semaphore, StepSync, Target, Teardown, FRAMES_IN_FLIGHT,
};
use voxeller::error::EngineError;
use voxeller::memory::whole_image;
use voxeller::swapchain::Extent;

fn names(list: &[&str]) -> Vec<String> {
    list.iter().map(|s| s.to_string()).collect()
}

fn full() -> Vec<String> {
    names(&[
        "VK_KHR_deferred_host_operations",
        "VK_KHR_swapchain",
        "VK_EXT_debug_utils",
        "VK_KHR_ray_tracing_pipeline",
        "VK_KHR_acceleration_structure",
    ])
}

fn engine() -> Engine {
    Engine::new(Extent { width: 640, height: 480 }, 3)
}

#[test]
fn a_device_needs_every_extension() {
    assert!(device_is_usable(&full()));
    for missing in 0..5 {
        let mut offered = full();
        let name = offered.remove(missing);
        assert_eq!(device_is_usable(&offered), name == "VK_EXT_debug_utils");
    }
    assert!(!device_is_usable(&names(&[])));
}

#[test]
fn the_first_usable_device_is_selected() {
    let devices = vec![names(&["VK_KHR_swapchain"]), full(), full()];
    assert_eq!(select_device(&devices), Ok(1));
    assert_eq!(select_device(&vec![names(&[])]), Err(EngineError::NoDevice));
    assert_eq!(select_device(&vec![]), Err(EngineError::NoDevice));
    assert!(EngineError::NoDevice.message().starts_with("No GPU with Vulkan raytracing support"));
}

#[test]
fn a_queue_family_needs_graphics_and_compute() {
    assert_eq!(select_queue_family(&[0x4, 0x2, 0x1, 0x7, 0x3]), Ok(3));
    assert_eq!(select_queue_family(&[0x3]), Ok(0));
    assert_eq!(select_queue_family(&[0x1, 0x2]), Err(EngineError::NoQueueFamily));
    assert_eq!(EngineError::NoQueueFamily.message(), "No suitable queue family");
}

#[test]
fn a_frame_without_trouble() {
    let mut e = engine();
    let mut step = e.render();
    let outcomes = [
        (FrameStep::WaitFence { slot: 0 }, Outcome::Done),
        (FrameStep::Acquire { slot: 0 }, Outcome::Acquired { image: 2, suboptimal: false }),
        (FrameStep::ResetFence { slot: 0, image: 2 }, Outcome::Done),
        (FrameStep::ResetCommands { slot: 0, image: 2 }, Outcome::Done),
        (FrameStep::Record { slot: 0, image: 2 }, Outcome::Done),
        (FrameStep::Submit { slot: 0, image: 2 }, Outcome::Done),
        (FrameStep::Present { slot: 0, image: 2 }, Outcome::Done),
    ];
    for (expected, outcome) in outcomes {
        assert_eq!(step, expected);
        assert_eq!(e.frame_index, 0);
        step = e.draw_frame(step, outcome);
    }
    assert_eq!(step, FrameStep::Presented);
    assert_eq!(e.frame_index, 1);
    assert_eq!(e.render(), FrameStep::WaitFence { slot: 1 });
}

#[test]
fn frames_without_a_fitting_image_are_skipped() {
    for outcome in [Outcome::OutOfDate, Outcome::Acquired { image: 0, suboptimal: true }] {
        let mut e = engine();
        let step = e.draw_frame(FrameStep::Acquire { slot: 0 }, outcome);
        assert_eq!(step, FrameStep::Skipped);
        assert_eq!(e.frame_index, 0);
    }
}

#[test]
fn presenting_to_an_outdated_swapchain_completes_the_frame() {
    let mut e = engine();
    let step = e.draw_frame(FrameStep::Present { slot: 0, image: 1 }, Outcome::OutOfDate);
    assert_eq!(step, FrameStep::Presented);
    assert_eq!(e.frame_index, 1);
}

#[test]
fn errors_end_the_frame() {
    let steps = [
        FrameStep::WaitFence { slot: 0 },
        FrameStep::Acquire { slot: 0 },
        FrameStep::ResetFence { slot: 0, image: 0 },
        FrameStep::ResetCommands { slot: 0, image: 0 },
        FrameStep::Record { slot: 0, image: 0 },
        FrameStep::Submit { slot: 0, image: 0 },
        FrameStep::Present { slot: 0, image: 0 },
    ];
    for step in steps {
        let mut e = engine();
        assert_eq!(e.draw_frame(step, Outcome::Failed), FrameStep::Failed);
        assert_eq!(e.frame_index, 0);
    }
    // Only acquiring and presenting put up with an outdated swapchain.
    let mut e = engine();
    assert_eq!(e.draw_frame(steps[5], Outcome::OutOfDate), FrameStep::Failed);
}

#[test]
fn slots_take_turns() {
    let mut e = engine();
    for i in 0..7 {
        assert_eq!(e.render(), FrameStep::WaitFence { slot: i % FRAMES_IN_FLIGHT });
        e.draw_frame(FrameStep::Present { slot: i % FRAMES_IN_FLIGHT, image: 0 }, Outcome::Done);
    }
}

#[test]
fn layouts_through_a_frame() {
    let commands = engine().record();
    assert_eq!(commands.len(), 8);
    let mut storage = ImageLayout::General;
    let mut swapchain = ImageLayout::PresentSrc;
    for command in &commands {
        match command {
            Command::Barrier(b) => {
                let layout = if b.target == Target::Storage { &mut storage } else { &mut swapchain };
                assert!(b.old_layout == *layout || b.old_layout == ImageLayout::Undefined);
                *layout = b.new_layout;
            }
            Command::TraceRays { width, height, depth } => {
                assert_eq!((*width, *height, *depth), (640, 480, 1));
                assert_eq!(storage, ImageLayout::General);
            }
            Command::Blit { near, far, src_layout, dst_layout, range, filter } => {
                assert_eq!(*range, whole_image());
                assert_eq!((*src_layout, *dst_layout), (storage, swapchain));
                assert_eq!(*filter, 0);
                assert_eq!(*near, Offset { x: 0, y: 0, z: 0 });
                assert_eq!(*far, Offset { x: 640, y: 480, z: 1 });
                assert_eq!(storage, ImageLayout::TransferSrc);
                assert_eq!(swapchain, ImageLayout::TransferDst);
            }
            _ => {}
        }
    }
    assert_eq!(commands[0], Command::BindPipeline);
    assert_eq!(commands[1], Command::BindDescriptorSets);
    assert_eq!(storage, ImageLayout::General);
    assert_eq!(swapchain, ImageLayout::PresentSrc);
}

#[test]
fn barriers_wait_for_the_right_work() {
    let commands = engine().record();
    assert_eq!(
        commands[3],
        Command::Barrier(ImageBarrier {
            target: Target::Storage,
            old_layout: ImageLayout::General,
            new_layout: ImageLayout::TransferSrc,
            src_access: 0x40,
            dst_access: 0x800,
            src_stage: 0x20_0000,
            dst_stage: 0x1000,
        })
    );
    assert_eq!(
        init_barrier(),
        ImageBarrier {
            target: Target::Storage,
            old_layout: ImageLayout::Undefined,
            new_layout: ImageLayout::General,
            src_access: 0,
            dst_access: 0x40,
            src_stage: 0x1,
            dst_stage: 0x20_0000,
        }
    );
}

#[test]
fn the_storage_image_can_be_traced_into_and_copied_from() {
    assert_eq!(storage_image(), (37, 0x9));
}

#[test]
fn fences_start_out_signalled() {
    let plan = sync_plan();
    assert_eq!(plan.slots, 2);
    assert!(plan.fences_signalled);
    assert_eq!(plan.wait_stage, 0x20_0000);
    assert_eq!(plan.timeout, u64::MAX);
    assert!(plan.resettable_commands);
}

#[test]
fn teardown_ends_with_device_and_instance() {
    let order = engine().teardown(3);
    assert_eq!(
        order,
        vec![
            Teardown::WaitIdle,
            Teardown::ImageReady(0),
            Teardown::ImageReady(1),
            Teardown::RenderDone(0),
            Teardown::RenderDone(1),
            Teardown::InFlight(0),
            Teardown::InFlight(1),
            Teardown::Pipeline,
            Teardown::AccelStructures,
            Teardown::CameraBuffer,
            Teardown::CameraMemory,
            Teardown::StorageView,
            Teardown::StorageImage,
            Teardown::StorageMemory,
            Teardown::SwapchainView(0),
            Teardown::SwapchainView(1),
            Teardown::SwapchainView(2),
            Teardown::Swapchain,
            Teardown::Surface,
            Teardown::CommandPool,
            Teardown::Device,
            Teardown::Instance,
        ]
    );
}

#[test]
fn users_go_before_what_they_use() {
    for views in 0..4 {
        let order = engine().teardown(views);
        let place = |step: Teardown| order.iter().position(|&s| s == step).unwrap();
        assert!(place(Teardown::Pipeline) < place(Teardown::StorageView));
        assert!(place(Teardown::Pipeline) < place(Teardown::AccelStructures));
        assert!(place(Teardown::StorageView) < place(Teardown::StorageImage));
        assert!(place(Teardown::StorageImage) < place(Teardown::StorageMemory));
        assert!(place(Teardown::CameraBuffer) < place(Teardown::CameraMemory));
        for k in 0..views {
            assert!(place(Teardown::SwapchainView(k)) < place(Teardown::Swapchain));
        }
        assert!(place(Teardown::Swapchain) < place(Teardown::Surface));
    }
}

#[test]
fn semaphores_of_a_frame() {
    let none = StepSync {
        wait_fence: None,
        reset_fence: None,
        signal_fence: None,
        wait: None,
        signal: None,
        commands: None,
    };
    for slot in 0..2 {
        let ready = Some(Semaphore::ImageReady(slot));
        let done = Some(Semaphore::RenderDone(slot));
        let expected = [
            (FrameStep::WaitFence { slot }, StepSync { wait_fence: Some(slot), ..none }),
            (FrameStep::Acquire { slot }, StepSync { signal: ready, ..none }),
            (FrameStep::ResetFence { slot, image: 1 }, StepSync { reset_fence: Some(slot), ..none }),
            (FrameStep::ResetCommands { slot, image: 1 }, StepSync { commands: Some(slot), ..none }),
            (FrameStep::Record { slot, image: 1 }, StepSync { commands: Some(slot), ..none }),
            (
                FrameStep::Submit { slot, image: 1 },
                StepSync {
                    signal_fence: Some(slot),
                    wait: ready,
                    signal: done,
                    commands: Some(slot),
                    ..none
                },
            ),
            (FrameStep::Present { slot, image: 1 }, StepSync { wait: done, ..none }),
            (FrameStep::Skipped, none),
            (FrameStep::Presented, none),
            (FrameStep::Failed, none),
        ];
        for (step, sync) in expected {
            assert_eq!(step.sync(), sync);
        }
    }
}

#[test]
fn frames_wait_only_for_what_they_signalled() {
    let mut e = engine();
    for frame in 0..4 {
        let mut signalled = vec![];
        let mut step = e.render();
        assert_eq!(step.sync().wait_fence, Some(frame % 2));
        while step != FrameStep::Presented {
            let sync = step.sync();
            if let Some(semaphore) = sync.wait {
                assert_eq!(signalled.pop(), Some(semaphore));
            }
            signalled.extend(sync.signal);
            let outcome = match step {
                FrameStep::Acquire { .. } => Outcome::Acquired { image: 0, suboptimal: false },
                _ => Outcome::Done,
            };
            step = e.draw_frame(step, outcome);
        }
        assert_eq!(signalled, vec![]);
    }
}

#[test]
fn barriers_are_recorded_alone() {
    let barrier = init_barrier();
    let call = image_barrier(&barrier);
    assert_eq!((call.src_stage, call.dst_stage), (0x1, 0x20_0000));
    assert_eq!((call.dependency_flags, call.memory_barriers, call.buffer_barriers), (0, 0, 0));
    assert_eq!(call.image.target, Target::Storage);
    assert_eq!(call.image.old_layout, ImageLayout::Undefined);
    assert_eq!(call.image.new_layout, ImageLayout::General);
    assert_eq!((call.image.src_access, call.image.dst_access), (0, 0x40));
    assert_eq!(call.image.src_queue_family, u32::MAX);
    assert_eq!(call.image.dst_queue_family, u32::MAX);
    assert_eq!(call.image.range.aspect, 1);
    assert_eq!((call.image.range.base_level, call.image.range.level_count), (0, 1));
    assert_eq!((call.image.range.base_layer, call.image.range.layer_count), (0, 1));
}

#[test]
fn the_camera_is_read_as_a_uniform() {
    let request = camera_request(128);
    assert_eq!((request.size, request.usage, request.memory), (128, 0x10, 0x6));
}
