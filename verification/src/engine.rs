//! Decisions of the Vulkan engine: which device and queue to use, the course of a frame, the
//! commands that a frame records and the order in which everything is taken down.

use crate::error::EngineError;
use crate::memory::{upload_buffer, whole_image, BufferRequest, ImageRange};
use crate::swapchain::Extent;
use crate::vulkan::{
    queue_flags_contain, ACCESS_SHADER_WRITE, ACCESS_TRANSFER_READ, ACCESS_TRANSFER_WRITE,
    BUFFER_UNIFORM, FILTER_NEAREST, FORMAT_R8G8B8A8_UNORM, IMAGE_STORAGE, IMAGE_TRANSFER_SRC,
    MEMORY_HOST_COHERENT, MEMORY_HOST_VISIBLE, QUEUE_COMPUTE, QUEUE_FAMILY_IGNORED, QUEUE_GRAPHICS,
    STAGE_BOTTOM_OF_PIPE, STAGE_RAY_TRACING_SHADER, STAGE_TOP_OF_PIPE, STAGE_TRANSFER,
};
use vstd::prelude::*;

verus! {

/// Number of frames that can be worked on at the same time.
pub const FRAMES_IN_FLIGHT: usize = 2;

/// The version of the Vulkan interface that the engine asks for: 1.3.
pub fn api_version() -> (version: u32)
    ensures
        version == 0x0040_3000,
{
    assert((0u32 << 29) | (1u32 << 22) | (3u32 << 12) | 0u32 == 0x0040_3000u32) by (bit_vector);
    ash::vk::make_api_version(0, 1, 3, 0)
}

/// The names of the extensions that a device must offer.
pub open spec fn required_names() -> Seq<Seq<char>> {
    seq![
        "VK_KHR_swapchain"@,
        "VK_KHR_acceleration_structure"@,
        "VK_KHR_ray_tracing_pipeline"@,
        "VK_KHR_deferred_host_operations"@,
    ]
}

/// The texts that a list of strings holds.
pub open spec fn texts(names: Seq<String>) -> Seq<Seq<char>> {
    names.map_values(|name: String| name@)
}

/// The names of the extensions that a device must offer.
pub fn required_device_extensions() -> (names: Vec<String>)
    ensures
        texts(names@) == required_names(),
{
    let names = vec![
        "VK_KHR_swapchain".to_owned(),
        "VK_KHR_acceleration_structure".to_owned(),
        "VK_KHR_ray_tracing_pipeline".to_owned(),
        "VK_KHR_deferred_host_operations".to_owned(),
    ];
    assert(texts(names@) =~= required_names());
    names
}

/// The layers of the instance.
pub fn instance_layers() -> (names: Vec<String>)
    ensures
        texts(names@) == seq!["VK_LAYER_KHRONOS_validation"@],
{
    let names = vec!["VK_LAYER_KHRONOS_validation".to_owned()];
    assert(texts(names@) =~= seq!["VK_LAYER_KHRONOS_validation"@]);
    names
}

/// The extensions of the instance: those that the window needs, and the one for debugging.
pub fn instance_extensions(window: Vec<String>) -> (names: Vec<String>)
    ensures
        texts(names@) == texts(window@).push("VK_EXT_debug_utils"@),
{
    let mut names = window;
    names.push("VK_EXT_debug_utils".to_owned());
    assert(texts(names@) =~= texts(window@).push("VK_EXT_debug_utils"@));
    names
}

/// The features that the device is created with.
#[derive(Clone, Copy, Debug, PartialEq, Eq, Structural)]
pub struct DeviceFeatures {
    pub buffer_device_address: bool,
    pub acceleration_structure: bool,
    pub ray_tracing_pipeline: bool,
}

/// The features that the device is created with.
pub fn device_features() -> (features: DeviceFeatures)
    ensures
        features.buffer_device_address,
        features.acceleration_structure,
        features.ray_tracing_pipeline,
{
    DeviceFeatures {
        buffer_device_address: true,
        acceleration_structure: true,
        ray_tracing_pipeline: true,
    }
}

/// Every required name is among those that are offered.
pub open spec fn offers_all(offered: Seq<String>, required: Seq<Seq<char>>) -> bool {
    forall|i: int|
        0 <= i < required.len() ==> texts(offered).contains(#[trigger] required[i])
}

/// Some string of the list holds the given text.
pub open spec fn has_name(list: Seq<String>, text: Seq<char>) -> bool {
    exists|j: int| 0 <= j < list.len() && (#[trigger] list[j])@ == text
}

/// A device is usable exactly if each of the four extensions is among those that it offers, in
/// whatever order and beside whatever others.
pub proof fn law_usable_devices(offered: Seq<String>)
    ensures
        offers_all(offered, required_names()) <==> {
            &&& exists|j: int|
                0 <= j < offered.len() && (#[trigger] offered[j])@ == "VK_KHR_swapchain"@
            &&& exists|j: int|
                0 <= j < offered.len() && (#[trigger] offered[j])@
                    == "VK_KHR_acceleration_structure"@
            &&& exists|j: int|
                0 <= j < offered.len() && (#[trigger] offered[j])@
                    == "VK_KHR_ray_tracing_pipeline"@
            &&& exists|j: int|
                0 <= j < offered.len() && (#[trigger] offered[j])@
                    == "VK_KHR_deferred_host_operations"@
        },
{
    lemma_has_name(offered, "VK_KHR_swapchain"@);
    lemma_has_name(offered, "VK_KHR_acceleration_structure"@);
    lemma_has_name(offered, "VK_KHR_ray_tracing_pipeline"@);
    lemma_has_name(offered, "VK_KHR_deferred_host_operations"@);
    let required = required_names();
    assert(required.len() == 4);
    assert(required[0] == "VK_KHR_swapchain"@);
    assert(required[1] == "VK_KHR_acceleration_structure"@);
    assert(required[2] == "VK_KHR_ray_tracing_pipeline"@);
    assert(required[3] == "VK_KHR_deferred_host_operations"@);
}

proof fn lemma_has_name(list: Seq<String>, text: Seq<char>)
    ensures
        texts(list).contains(text) <==> has_name(list, text),
{
    if texts(list).contains(text) {
        let j = choose|j: int| 0 <= j < texts(list).len() && texts(list)[j] == text;
        assert(list[j]@ == text);
    }
    if has_name(list, text) {
        let j = choose|j: int| 0 <= j < list.len() && (#[trigger] list[j])@ == text;
        assert(texts(list)[j] == text);
    }
}

/// An extension more never makes a device unusable.
pub proof fn law_more_extensions_do_no_harm(offered: Seq<String>, more: Seq<String>)
    requires
        offers_all(offered, required_names()),
        forall|i: int|
            0 <= i < offered.len() ==> has_name(more, (#[trigger] offered[i])@),
    ensures
        offers_all(more, required_names()),
{
    law_usable_devices(offered);
    law_usable_devices(more);
}

fn offers(offered: &Vec<String>, name: &String) -> (r: bool)
    ensures
        r == texts(offered@).contains(name@),
{
    let mut i: usize = 0;
    while i < offered.len()
        invariant
            i <= offered@.len(),
            forall|j: int| 0 <= j < i ==> (#[trigger] texts(offered@)[j]) != name@,
        decreases offered@.len() - i,
    {
        if offered[i] == *name {
            assert(texts(offered@)[i as int] == name@);
            return true;
        }
        i += 1;
    }
    false
}

/// The device with the given extensions can be used.
pub fn device_is_usable(offered: &Vec<String>) -> (r: bool)
    ensures
        r == offers_all(offered@, required_names()),
        r <==> has_name(offered@, "VK_KHR_swapchain"@) && has_name(
            offered@,
            "VK_KHR_acceleration_structure"@,
        ) && has_name(offered@, "VK_KHR_ray_tracing_pipeline"@) && has_name(
            offered@,
            "VK_KHR_deferred_host_operations"@,
        ),
{
    let required = required_device_extensions();
    let mut i: usize = 0;
    while i < required.len()
        invariant
            i <= required@.len(),
            texts(required@) == required_names(),
            forall|j: int|
                0 <= j < i ==> texts(offered@).contains(#[trigger] required_names()[j]),
        decreases required@.len() - i,
    {
        assert(texts(required@)[i as int] == required@[i as int]@);
        if !offers(offered, &required[i]) {
            proof {
                assert(!texts(offered@).contains(required_names()[i as int]));
                law_usable_devices(offered@);
            }
            return false;
        }
        i += 1;
    }
    proof {
        law_usable_devices(offered@);
    }
    true
}

/// Selects the first physical device that offers all required extensions. The extensions of the
/// devices are given in `devices`.
pub fn select_device(devices: &Vec<Vec<String>>) -> (r: Result<usize, EngineError>)
    ensures
        match r {
            Ok(i) => {
                &&& i < devices@.len()
                &&& offers_all(devices@[i as int]@, required_names())
                &&& forall|j: int|
                    0 <= j < i ==> !offers_all((#[trigger] devices@[j])@, required_names())
            },
            Err(e) => {
                &&& e == EngineError::NoDevice
                &&& forall|j: int|
                    0 <= j < devices@.len() ==> !offers_all(
                        (#[trigger] devices@[j])@,
                        required_names(),
                    )
            },
        },
{
    let mut i: usize = 0;
    while i < devices.len()
        invariant
            i <= devices@.len(),
            forall|j: int| 0 <= j < i ==> !offers_all((#[trigger] devices@[j])@, required_names()),
        decreases devices@.len() - i,
    {
        if device_is_usable(&devices[i]) {
            return Ok(i);
        }
        i += 1;
    }
    Err(EngineError::NoDevice)
}

/// A queue family with the given flags can do graphics and compute work.
pub open spec fn family_is_usable(flags: u32) -> bool {
    crate::vulkan::contains_flags(flags, QUEUE_GRAPHICS | QUEUE_COMPUTE)
}

/// A usable queue family can do graphics work and can do compute work; what else it can do does not
/// matter.
pub proof fn law_usable_families(flags: u32)
    ensures
        family_is_usable(flags) <==> flags & 0x1 != 0 && flags & 0x2 != 0,
{
    assert(QUEUE_GRAPHICS | QUEUE_COMPUTE == 0x3) by (bit_vector);
    assert((flags & 0x3 == 0x3) <==> (flags & 0x1 != 0 && flags & 0x2 != 0)) by (bit_vector);
}

/// Selects the first queue family for graphics and compute work. The flags of the families are
/// given in `families`.
pub fn select_queue_family(families: &[u32]) -> (r: Result<u32, EngineError>)
    requires
        families@.len() <= u32::MAX,
    ensures
        match r {
            Ok(i) => {
                &&& i < families@.len()
                &&& family_is_usable(families@[i as int])
                &&& forall|j: int| 0 <= j < i ==> !family_is_usable(#[trigger] families@[j])
            },
            Err(e) => {
                &&& e == EngineError::NoQueueFamily
                &&& forall|j: int|
                    0 <= j < families@.len() ==> !family_is_usable(#[trigger] families@[j])
            },
        },
        r matches Ok(i) ==> families@[i as int] & 0x3 == 0x3 && forall|j: int|
            0 <= j < i ==> (#[trigger] families@[j]) & 0x3 != 0x3,
        r is Err ==> forall|j: int|
            0 <= j < families@.len() ==> (#[trigger] families@[j]) & 0x3 != 0x3,
{
    assert(QUEUE_GRAPHICS | QUEUE_COMPUTE == 0x3) by (bit_vector);
    let mut i: usize = 0;
    while i < families.len()
        invariant
            families@.len() <= u32::MAX,
            QUEUE_GRAPHICS | QUEUE_COMPUTE == 0x3,
            i <= families@.len(),
            forall|j: int| 0 <= j < i ==> !family_is_usable(#[trigger] families@[j]),
        decreases families@.len() - i,
    {
        if queue_flags_contain(families[i], QUEUE_GRAPHICS | QUEUE_COMPUTE) {
            return Ok(i as u32);
        }
        i += 1;
    }
    Err(EngineError::NoQueueFamily)
}

/// The layout of an image's memory.
#[derive(Clone, Copy, Debug, PartialEq, Eq, Structural)]
pub enum ImageLayout {
    Undefined,
    General,
    TransferSrc,
    TransferDst,
    PresentSrc,
}

/// The images that a frame works on.
#[derive(Clone, Copy, Debug, PartialEq, Eq, Structural)]
pub enum Target {
    /// The image that rays are traced into.
    Storage,
    /// The swapchain image that is presented.
    Swapchain,
}

/// A layout transition together with the work that it waits for and that waits for it.
#[derive(Clone, Copy, Debug, PartialEq, Eq, Structural)]
pub struct ImageBarrier {
    pub target: Target,
    pub old_layout: ImageLayout,
    pub new_layout: ImageLayout,
    pub src_access: u32,
    pub dst_access: u32,
    pub src_stage: u32,
    pub dst_stage: u32,
}

/// The transition of one image in a recorded barrier.
#[derive(Clone, Copy, Debug, PartialEq, Eq, Structural)]
pub struct ImageTransition {
    pub target: Target,
    pub old_layout: ImageLayout,
    pub new_layout: ImageLayout,
    pub src_access: u32,
    pub dst_access: u32,
    pub src_queue_family: u32,
    pub dst_queue_family: u32,
    pub range: ImageRange,
}

/// A pipeline barrier as it is recorded.
#[derive(Clone, Copy, Debug, PartialEq, Eq, Structural)]
pub struct BarrierCall {
    pub src_stage: u32,
    pub dst_stage: u32,
    pub dependency_flags: u32,
    /// The numbers of memory and buffer barriers that are recorded with the image's.
    pub memory_barriers: usize,
    pub buffer_barriers: usize,
    /// The one image barrier.
    pub image: ImageTransition,
}

/// The recorded form of a layout transition: one barrier, for all of the image and nothing else,
/// which leaves the image with its queue family.
pub open spec fn barrier_call(barrier: ImageBarrier) -> BarrierCall {
    BarrierCall {
        src_stage: barrier.src_stage,
        dst_stage: barrier.dst_stage,
        dependency_flags: 0,
        memory_barriers: 0,
        buffer_barriers: 0,
        image: ImageTransition {
            target: barrier.target,
            old_layout: barrier.old_layout,
            new_layout: barrier.new_layout,
            src_access: barrier.src_access,
            dst_access: barrier.dst_access,
            src_queue_family: QUEUE_FAMILY_IGNORED,
            dst_queue_family: QUEUE_FAMILY_IGNORED,
            range: crate::memory::whole_image_spec(),
        },
    }
}

/// The recorded form of a layout transition.
pub fn image_barrier(barrier: &ImageBarrier) -> (call: BarrierCall)
    ensures
        call == barrier_call(*barrier),
        call.src_stage == barrier.src_stage && call.dst_stage == barrier.dst_stage,
        call.dependency_flags == 0,
        call.memory_barriers == 0 && call.buffer_barriers == 0,
        call.image.target == barrier.target,
        call.image.old_layout == barrier.old_layout,
        call.image.new_layout == barrier.new_layout,
        call.image.src_access == barrier.src_access,
        call.image.dst_access == barrier.dst_access,
        call.image.src_queue_family == QUEUE_FAMILY_IGNORED,
        call.image.dst_queue_family == QUEUE_FAMILY_IGNORED,
{
    BarrierCall {
        src_stage: barrier.src_stage,
        dst_stage: barrier.dst_stage,
        dependency_flags: 0,
        memory_barriers: 0,
        buffer_barriers: 0,
        image: ImageTransition {
            target: barrier.target,
            old_layout: barrier.old_layout,
            new_layout: barrier.new_layout,
            src_access: barrier.src_access,
            dst_access: barrier.dst_access,
            src_queue_family: QUEUE_FAMILY_IGNORED,
            dst_queue_family: QUEUE_FAMILY_IGNORED,
            range: whole_image(),
        },
    }
}

/// A recorded barrier carries stages, accesses and layouts over as they are. It is for all of one
/// image's colours and for nothing else, and the image stays with its queue family.
pub proof fn law_barriers_touch_one_image(barrier: ImageBarrier)
    ensures
        ({
            let call = barrier_call(barrier);
            &&& (call.src_stage, call.dst_stage) == (barrier.src_stage, barrier.dst_stage)
            &&& (call.image.src_access, call.image.dst_access) == (
                barrier.src_access,
                barrier.dst_access,
            )
            &&& (call.image.old_layout, call.image.new_layout) == (
                barrier.old_layout,
                barrier.new_layout,
            )
            &&& call.image.target == barrier.target
            &&& call.memory_barriers == 0 && call.buffer_barriers == 0 && call.dependency_flags == 0
            &&& call.image.src_queue_family == 0xFFFF_FFFF
            &&& call.image.dst_queue_family == 0xFFFF_FFFF
            &&& call.image.range.aspect == 1
            &&& call.image.range.base_level == 0 && call.image.range.level_count == 1
            &&& call.image.range.base_layer == 0 && call.image.range.layer_count == 1
        }),
{
}

/// A corner of a region of an image.
#[derive(Clone, Copy, Debug, PartialEq, Eq, Structural)]
pub struct Offset {
    pub x: i32,
    pub y: i32,
    pub z: i32,
}

/// A command of a frame.
#[derive(Clone, Copy, Debug, PartialEq, Eq, Structural)]
pub enum Command {
    BindPipeline,
    BindDescriptorSets,
    TraceRays { width: u32, height: u32, depth: u32 },
    Barrier(ImageBarrier),
    /// Copies the region between two corners from the storage image to the same region of the
    /// swapchain image. The layouts are those that the two images are expected in; the range is the
    /// part of either image that the copy works on.
    Blit {
        near: Offset,
        far: Offset,
        src_layout: ImageLayout,
        dst_layout: ImageLayout,
        range: ImageRange,
        filter: i32,
    },
}

/// The barrier that brings the new storage image into the layout that frames expect.
pub open spec fn init_barrier_spec() -> ImageBarrier {
    ImageBarrier {
        target: Target::Storage,
        old_layout: ImageLayout::Undefined,
        new_layout: ImageLayout::General,
        src_access: 0,
        dst_access: ACCESS_SHADER_WRITE,
        src_stage: STAGE_TOP_OF_PIPE,
        dst_stage: STAGE_RAY_TRACING_SHADER,
    }
}

/// The barrier that brings the new storage image into the layout that frames expect.
pub fn init_barrier() -> (barrier: ImageBarrier)
    ensures
        barrier == init_barrier_spec(),
        barrier.target == Target::Storage,
        barrier.old_layout == ImageLayout::Undefined,
        barrier.new_layout == ImageLayout::General,
        barrier.src_access == 0,
        barrier.dst_access == ACCESS_SHADER_WRITE,
        barrier.src_stage == STAGE_TOP_OF_PIPE,
        barrier.dst_stage == STAGE_RAY_TRACING_SHADER,
{
    ImageBarrier {
        target: Target::Storage,
        old_layout: ImageLayout::Undefined,
        new_layout: ImageLayout::General,
        src_access: 0,
        dst_access: ACCESS_SHADER_WRITE,
        src_stage: STAGE_TOP_OF_PIPE,
        dst_stage: STAGE_RAY_TRACING_SHADER,
    }
}

/// The pixel format and the usage of the storage image.
pub fn storage_image() -> (r: (i32, u32))
    ensures
        r.0 == FORMAT_R8G8B8A8_UNORM,
        r.1 == IMAGE_STORAGE | IMAGE_TRANSFER_SRC,
{
    (FORMAT_R8G8B8A8_UNORM, IMAGE_STORAGE | IMAGE_TRANSFER_SRC)
}

/// The buffer into which the camera's matrices are uploaded.
pub fn camera_request(byte_len: u64) -> (r: BufferRequest)
    ensures
        r.size == byte_len,
        r.usage == BUFFER_UNIFORM,
        r.memory == MEMORY_HOST_VISIBLE | MEMORY_HOST_COHERENT,
{
    upload_buffer(BUFFER_UNIFORM, byte_len)
}

/// The objects that keep the frames in flight apart.
#[derive(Clone, Copy, Debug, PartialEq, Eq, Structural)]
pub struct SyncPlan {
    /// The number of frame slots; each has two semaphores, a fence and a command buffer.
    pub slots: usize,
    /// The fences start out signalled, so that the first frame of a slot need not wait.
    pub fences_signalled: bool,
    /// The stage of a frame's commands that waits for the swapchain image.
    pub wait_stage: u32,
    /// How long the host waits for fences and images: for ever.
    pub timeout: u64,
    /// Command buffers can be cleared one by one.
    pub resettable_commands: bool,
}

/// The objects that keep the frames in flight apart.
pub fn sync_plan() -> (plan: SyncPlan)
    ensures
        plan == (SyncPlan {
            slots: FRAMES_IN_FLIGHT,
            fences_signalled: fence_ready(FrameStep::WaitFence { slot: 0 }),
            wait_stage: STAGE_RAY_TRACING_SHADER,
            timeout: u64::MAX,
            resettable_commands: true,
        }),
        plan.slots == 2,
        plan.fences_signalled,
{
    SyncPlan {
        slots: FRAMES_IN_FLIGHT,
        fences_signalled: true,
        wait_stage: STAGE_RAY_TRACING_SHADER,
        timeout: u64::MAX,
        resettable_commands: true,
    }
}

/// The commands of a frame: trace rays into the storage image, copy it to the swapchain image, and
/// leave the one ready for the next frame and the other for presentation.
pub open spec fn frame_commands(extent: Extent) -> Seq<Command> {
    seq![
        Command::BindPipeline,
        Command::BindDescriptorSets,
        Command::TraceRays { width: extent.width, height: extent.height, depth: 1 },
        Command::Barrier(
            ImageBarrier {
                target: Target::Storage,
                old_layout: ImageLayout::General,
                new_layout: ImageLayout::TransferSrc,
                src_access: ACCESS_SHADER_WRITE,
                dst_access: ACCESS_TRANSFER_READ,
                src_stage: STAGE_RAY_TRACING_SHADER,
                dst_stage: STAGE_TRANSFER,
            },
        ),
        Command::Barrier(
            ImageBarrier {
                target: Target::Swapchain,
                old_layout: ImageLayout::Undefined,
                new_layout: ImageLayout::TransferDst,
                src_access: 0,
                dst_access: ACCESS_TRANSFER_WRITE,
                src_stage: STAGE_TOP_OF_PIPE,
                dst_stage: STAGE_TRANSFER,
            },
        ),
        Command::Blit {
            near: Offset { x: 0, y: 0, z: 0 },
            far: Offset { x: extent.width as i32, y: extent.height as i32, z: 1 },
            src_layout: ImageLayout::TransferSrc,
            dst_layout: ImageLayout::TransferDst,
            range: crate::memory::whole_image_spec(),
            filter: FILTER_NEAREST,
        },
        Command::Barrier(
            ImageBarrier {
                target: Target::Storage,
                old_layout: ImageLayout::TransferSrc,
                new_layout: ImageLayout::General,
                src_access: ACCESS_TRANSFER_READ,
                dst_access: ACCESS_SHADER_WRITE,
                src_stage: STAGE_TRANSFER,
                dst_stage: STAGE_RAY_TRACING_SHADER,
            },
        ),
        Command::Barrier(
            ImageBarrier {
                target: Target::Swapchain,
                old_layout: ImageLayout::TransferDst,
                new_layout: ImageLayout::PresentSrc,
                src_access: ACCESS_TRANSFER_WRITE,
                dst_access: 0,
                src_stage: STAGE_TRANSFER,
                dst_stage: STAGE_BOTTOM_OF_PIPE,
            },
        ),
    ]
}

/// What the commands recorded so far have brought about.
#[derive(Clone, Copy, Debug, PartialEq, Eq, Structural)]
pub struct Recording {
    pub storage: ImageLayout,
    pub swapchain: ImageLayout,
    pub pipeline_bound: bool,
    pub descriptors_bound: bool,
}

/// The effect of a command, where it is valid: a barrier must start from the image's layout (or
/// discard its contents), rays need the pipeline, its descriptors and a general storage image, and
/// a copy needs both images in their transfer layouts.
pub open spec fn apply_command(state: Recording, command: Command) -> Option<Recording> {
    match command {
        Command::BindPipeline => Some(Recording { pipeline_bound: true, ..state }),
        Command::BindDescriptorSets => Some(Recording { descriptors_bound: true, ..state }),
        Command::TraceRays { .. } => if state.pipeline_bound && state.descriptors_bound
            && state.storage == ImageLayout::General {
            Some(state)
        } else {
            None
        },
        Command::Barrier(b) => match b.target {
            Target::Storage => if b.old_layout == state.storage || b.old_layout
                == ImageLayout::Undefined {
                Some(Recording { storage: b.new_layout, ..state })
            } else {
                None
            },
            Target::Swapchain => if b.old_layout == state.swapchain || b.old_layout
                == ImageLayout::Undefined {
                Some(Recording { swapchain: b.new_layout, ..state })
            } else {
                None
            },
        },
        Command::Blit { src_layout, dst_layout, .. } => if state.storage == src_layout && src_layout
            == ImageLayout::TransferSrc && state.swapchain == dst_layout && dst_layout
            == ImageLayout::TransferDst {
            Some(state)
        } else {
            None
        },
    }
}

/// The effect of the first `n` commands.
pub open spec fn run_commands(state: Recording, commands: Seq<Command>, n: int) -> Option<Recording>
    decreases n,
{
    if n <= 0 {
        Some(state)
    } else {
        match run_commands(state, commands, n - 1) {
            Some(before) => apply_command(before, commands[n - 1]),
            None => None,
        }
    }
}

/// A frame shows the rays that it has traced. It traces once, with its pipeline and descriptors
/// bound, a ray for each pixel; it copies once, the whole image as it is; and between the two a
/// barrier makes the ray-tracing shader's writes visible to the copy.
pub proof fn law_frames_show_their_own_rays(extent: Extent) -> (places: (int, int, int, int, int))
    ensures
        ({
            let c = frame_commands(extent);
            let (pipeline, descriptors, trace, barrier, copy) = places;
            &&& places == (0int, 1int, 2int, 3int, 5int)
            &&& 0 <= pipeline < trace < barrier < copy < c.len()
            &&& 0 <= descriptors < trace
            &&& c[pipeline] == Command::BindPipeline
            &&& c[descriptors] == Command::BindDescriptorSets
            &&& c[trace] == Command::TraceRays {
                width: extent.width,
                height: extent.height,
                depth: 1,
            }
            &&& c[barrier] == Command::Barrier(
                ImageBarrier {
                    target: Target::Storage,
                    old_layout: ImageLayout::General,
                    new_layout: ImageLayout::TransferSrc,
                    src_access: 0x40,
                    dst_access: 0x800,
                    src_stage: 0x20_0000,
                    dst_stage: 0x1000,
                },
            )
            &&& c[copy] == Command::Blit {
                near: Offset { x: 0, y: 0, z: 0 },
                far: Offset { x: extent.width as i32, y: extent.height as i32, z: 1 },
                src_layout: ImageLayout::TransferSrc,
                dst_layout: ImageLayout::TransferDst,
                range: ImageRange {
                    aspect: 1,
                    base_level: 0,
                    level_count: 1,
                    base_layer: 0,
                    layer_count: 1,
                },
                filter: 0,
            }
            &&& forall|i: int| 0 <= i < c.len() && (#[trigger] c[i]) is TraceRays ==> i == trace
            &&& forall|i: int| 0 <= i < c.len() && (#[trigger] c[i]) is Blit ==> i == copy
        }),
{
    let c = frame_commands(extent);
    assert forall|i: int| 0 <= i < c.len() && (#[trigger] c[i]) is TraceRays implies i == 2 by {
        assert(i == 0 || i == 1 || i == 2 || i == 3 || i == 4 || i == 5 || i == 6 || i == 7);
    }
    assert forall|i: int| 0 <= i < c.len() && (#[trigger] c[i]) is Blit implies i == 5 by {
        assert(i == 0 || i == 1 || i == 2 || i == 3 || i == 4 || i == 5 || i == 6 || i == 7);
    }
    (0, 1, 2, 3, 5)
}

/// Before the copy the swapchain image is made ready for it, and its old contents are dropped; after
/// the copy it is handed on to presentation, and the storage image back to the shaders. A frame
/// consists of eight commands, so beside what the laws on it name it does nothing.
pub proof fn law_frames_hand_their_images_on(extent: Extent) -> (places: (int, int, int, int))
    ensures
        ({
            let c = frame_commands(extent);
            let (ready, copy, back, present) = places;
            &&& places == (4int, 5int, 6int, 7int)
            &&& c.len() == 8
            &&& 0 <= ready < copy < back < c.len()
            &&& copy < present < c.len()
            &&& c[copy] is Blit
            &&& c[ready] == Command::Barrier(
                ImageBarrier {
                    target: Target::Swapchain,
                    old_layout: ImageLayout::Undefined,
                    new_layout: ImageLayout::TransferDst,
                    src_access: 0,
                    dst_access: 0x1000,
                    src_stage: 0x1,
                    dst_stage: 0x1000,
                },
            )
            &&& c[back] == Command::Barrier(
                ImageBarrier {
                    target: Target::Storage,
                    old_layout: ImageLayout::TransferSrc,
                    new_layout: ImageLayout::General,
                    src_access: 0x800,
                    dst_access: 0x40,
                    src_stage: 0x1000,
                    dst_stage: 0x20_0000,
                },
            )
            &&& c[present] == Command::Barrier(
                ImageBarrier {
                    target: Target::Swapchain,
                    old_layout: ImageLayout::TransferDst,
                    new_layout: ImageLayout::PresentSrc,
                    src_access: 0x1000,
                    dst_access: 0,
                    src_stage: 0x1000,
                    dst_stage: 0x2000,
                },
            )
        }),
{
    (4, 5, 6, 7)
}

/// Whatever layout the swapchain image has, a frame's commands are valid from a general storage
/// image on; they leave the storage image general, for the next frame, and the swapchain image
/// ready for presentation.
pub proof fn law_frame_layouts(extent: Extent, swapchain: ImageLayout)
    ensures
        run_commands(
            Recording {
                storage: ImageLayout::General,
                swapchain,
                pipeline_bound: false,
                descriptors_bound: false,
            },
            frame_commands(extent),
            frame_commands(extent).len() as int,
        ) == Some(
            Recording {
                storage: ImageLayout::General,
                swapchain: ImageLayout::PresentSrc,
                pipeline_bound: true,
                descriptors_bound: true,
            },
        ),
{
    reveal_with_fuel(run_commands, 9);
    assert(frame_commands(extent).len() == 8);
}

/// The initial barrier makes the storage image general, as the first frame expects it.
pub proof fn law_init_layout(state: Recording)
    ensures
        apply_command(state, Command::Barrier(init_barrier_spec())) == Some(
            Recording { storage: ImageLayout::General, ..state },
        ),
{
}

/// Where a frame stands. The slot names the frame's fence, semaphores and command buffer; the image
/// is the index of the swapchain image.
#[derive(Clone, Copy, Debug, PartialEq, Eq, Structural)]
pub enum FrameStep {
    /// Wait until the slot's fence is signalled.
    WaitFence { slot: usize },
    /// Ask the swapchain for an image.
    Acquire { slot: usize },
    /// Make the slot's fence unsignalled.
    ResetFence { slot: usize, image: u32 },
    /// Clear the slot's command buffer.
    ResetCommands { slot: usize, image: u32 },
    /// Record the frame's commands.
    Record { slot: usize, image: u32 },
    /// Submit the command buffer; its completion signals the slot's fence.
    Submit { slot: usize, image: u32 },
    /// Present the image.
    Present { slot: usize, image: u32 },
    /// The frame is over: nothing was drawn.
    Skipped,
    /// The frame is over: its image was presented.
    Presented,
    /// The frame is over: a step failed.
    Failed,
}

/// How a step ended.
#[derive(Clone, Copy, Debug, PartialEq, Eq, Structural)]
pub enum Outcome {
    Done,
    /// The swapchain handed out an image.
    Acquired { image: u32, suboptimal: bool },
    /// The swapchain no longer fits its surface.
    OutOfDate,
    /// Any other error.
    Failed,
}

/// The frame is over.
pub open spec fn is_over(step: FrameStep) -> bool {
    step == FrameStep::Skipped || step == FrameStep::Presented || step == FrameStep::Failed
}

/// The step that follows.
pub open spec fn next_step(step: FrameStep, outcome: Outcome) -> FrameStep {
    match (step, outcome) {
        (FrameStep::WaitFence { slot }, Outcome::Done) => FrameStep::Acquire { slot },
        (FrameStep::Acquire { slot }, Outcome::Acquired { image, suboptimal }) => if suboptimal {
            FrameStep::Skipped
        } else {
            FrameStep::ResetFence { slot, image }
        },
        (FrameStep::Acquire { .. }, Outcome::OutOfDate) => FrameStep::Skipped,
        (FrameStep::ResetFence { slot, image }, Outcome::Done) => FrameStep::ResetCommands {
            slot,
            image,
        },
        (FrameStep::ResetCommands { slot, image }, Outcome::Done) => FrameStep::Record {
            slot,
            image,
        },
        (FrameStep::Record { slot, image }, Outcome::Done) => FrameStep::Submit { slot, image },
        (FrameStep::Submit { slot, image }, Outcome::Done) => FrameStep::Present { slot, image },
        (FrameStep::Present { .. }, Outcome::Done) => FrameStep::Presented,
        (FrameStep::Present { .. }, Outcome::OutOfDate) => FrameStep::Presented,
        (FrameStep::Skipped, _) => FrameStep::Skipped,
        (FrameStep::Presented, _) => FrameStep::Presented,
        _ => FrameStep::Failed,
    }
}

/// A semaphore of a frame slot.
#[derive(Clone, Copy, Debug, PartialEq, Eq, Structural)]
pub enum Semaphore {
    /// Tells that the swapchain image can be drawn to.
    ImageReady(usize),
    /// Tells that the swapchain image can be presented.
    RenderDone(usize),
}

/// The objects of the frame slots that a step works with.
#[derive(Clone, Copy, Debug, PartialEq, Eq, Structural)]
pub struct StepSync {
    /// The fence that the host waits for.
    pub wait_fence: Option<usize>,
    /// The fence that is made unsignalled.
    pub reset_fence: Option<usize>,
    /// The fence that the submitted work signals.
    pub signal_fence: Option<usize>,
    /// The semaphore that the step's work on the device waits for.
    pub wait: Option<Semaphore>,
    /// The semaphore that the step's work on the device signals.
    pub signal: Option<Semaphore>,
    /// The command buffer that is cleared, recorded or submitted.
    pub commands: Option<usize>,
}

/// A step that works with none of the slots' objects.
pub open spec fn no_sync() -> StepSync {
    StepSync {
        wait_fence: None,
        reset_fence: None,
        signal_fence: None,
        wait: None,
        signal: None,
        commands: None,
    }
}

/// The objects that a step works with. Acquiring an image signals that it is ready; the submitted
/// commands wait for that and signal that they are done; presenting waits for that.
pub open spec fn step_sync(step: FrameStep) -> StepSync {
    match step {
        FrameStep::WaitFence { slot } => StepSync { wait_fence: Some(slot), ..no_sync() },
        FrameStep::Acquire { slot } => StepSync {
            signal: Some(Semaphore::ImageReady(slot)),
            ..no_sync()
        },
        FrameStep::ResetFence { slot, .. } => StepSync { reset_fence: Some(slot), ..no_sync() },
        FrameStep::ResetCommands { slot, .. } => StepSync { commands: Some(slot), ..no_sync() },
        FrameStep::Record { slot, .. } => StepSync { commands: Some(slot), ..no_sync() },
        FrameStep::Submit { slot, .. } => StepSync {
            signal_fence: Some(slot),
            wait: Some(Semaphore::ImageReady(slot)),
            signal: Some(Semaphore::RenderDone(slot)),
            commands: Some(slot),
            ..no_sync()
        },
        FrameStep::Present { slot, .. } => StepSync {
            wait: Some(Semaphore::RenderDone(slot)),
            ..no_sync()
        },
        _ => no_sync(),
    }
}

impl FrameStep {
    /// The objects of the frame slots that the step works with.
    pub fn sync(&self) -> (sync: StepSync)
        ensures
            sync == step_sync(*self),
            sync.wait_fence == (match *self {
                FrameStep::WaitFence { slot } => Some(slot),
                _ => None,
            }),
            sync.reset_fence == (match *self {
                FrameStep::ResetFence { slot, .. } => Some(slot),
                _ => None,
            }),
            sync.signal_fence == (match *self {
                FrameStep::Submit { slot, .. } => Some(slot),
                _ => None,
            }),
            sync.wait == (match *self {
                FrameStep::Submit { slot, .. } => Some(Semaphore::ImageReady(slot)),
                FrameStep::Present { slot, .. } => Some(Semaphore::RenderDone(slot)),
                _ => None,
            }),
            sync.signal == (match *self {
                FrameStep::Acquire { slot } => Some(Semaphore::ImageReady(slot)),
                FrameStep::Submit { slot, .. } => Some(Semaphore::RenderDone(slot)),
                _ => None,
            }),
            sync.commands == (match *self {
                FrameStep::ResetCommands { slot, .. } => Some(slot),
                FrameStep::Record { slot, .. } => Some(slot),
                FrameStep::Submit { slot, .. } => Some(slot),
                _ => None,
            }),
    {
        let mut sync = StepSync {
            wait_fence: None,
            reset_fence: None,
            signal_fence: None,
            wait: None,
            signal: None,
            commands: None,
        };
        match *self {
            FrameStep::WaitFence { slot } => {
                sync.wait_fence = Some(slot);
            },
            FrameStep::Acquire { slot } => {
                sync.signal = Some(Semaphore::ImageReady(slot));
            },
            FrameStep::ResetFence { slot, .. } => {
                sync.reset_fence = Some(slot);
            },
            FrameStep::ResetCommands { slot, .. } => {
                sync.commands = Some(slot);
            },
            FrameStep::Record { slot, .. } => {
                sync.commands = Some(slot);
            },
            FrameStep::Submit { slot, .. } => {
                sync.signal_fence = Some(slot);
                sync.wait = Some(Semaphore::ImageReady(slot));
                sync.signal = Some(Semaphore::RenderDone(slot));
                sync.commands = Some(slot);
            },
            FrameStep::Present { slot, .. } => {
                sync.wait = Some(Semaphore::RenderDone(slot));
            },
            FrameStep::Skipped => {},
            FrameStep::Presented => {},
            FrameStep::Failed => {},
        }
        sync
    }
}

/// The state of the engine between frames.
#[derive(Clone, Copy, Debug, PartialEq, Eq, Structural)]
pub struct Engine {
    /// The number of frames presented so far.
    pub frame_index: usize,
    /// The size of the images.
    pub extent: Extent,
    /// The number of swapchain images.
    pub image_count: usize,
}

impl Engine {
    /// An engine that has not presented a frame yet.
    pub fn new(extent: Extent, image_count: usize) -> (engine: Engine)
        ensures
            engine == (Engine { frame_index: 0, extent, image_count }),
    {
        Engine { frame_index: 0, extent, image_count }
    }

    /// The slot of the next frame.
    pub open spec fn slot(self) -> int {
        self.frame_index as int % FRAMES_IN_FLIGHT as int
    }

    /// Starts a frame.
    pub fn render(&self) -> (step: FrameStep)
        ensures
            step == (FrameStep::WaitFence { slot: self.slot() as usize }),
            step == (FrameStep::WaitFence { slot: (self.frame_index % 2) as usize }),
            self.slot() < FRAMES_IN_FLIGHT,
    {
        FrameStep::WaitFence { slot: self.frame_index % FRAMES_IN_FLIGHT }
    }

    /// The outcome can follow the step: an image that is drawn to belongs to the swapchain.
    pub open spec fn can_happen(self, step: FrameStep, outcome: Outcome) -> bool {
        match (step, outcome) {
            (FrameStep::Acquire { .. }, Outcome::Acquired { image, suboptimal }) => suboptimal
                || image < self.image_count,
            _ => true,
        }
    }

    /// The engine after a step of the frame: presenting an image completes the frame.
    pub open spec fn after(self, step: FrameStep, outcome: Outcome) -> Engine {
        if step is Present && next_step(step, outcome) == FrameStep::Presented {
            Engine { frame_index: (self.frame_index + 1) as usize, ..self }
        } else {
            self
        }
    }

    /// Takes note of how a step of the frame ended, and decides what follows. Presenting an image
    /// completes the frame, even if the swapchain has just gone out of date.
    pub fn draw_frame(&mut self, step: FrameStep, outcome: Outcome) -> (next: FrameStep)
        requires
            step is Present ==> old(self).frame_index < usize::MAX,
            old(self).can_happen(step, outcome),
        ensures
            next == next_step(step, outcome),
            *final(self) == old(self).after(step, outcome),
            final(self).extent == old(self).extent,
            final(self).image_count == old(self).image_count,
            step is Present && (outcome == Outcome::Done || outcome == Outcome::OutOfDate)
                ==> final(self).frame_index == old(self).frame_index + 1 && next
                == FrameStep::Presented,
            !(step is Present) || outcome == Outcome::Failed || outcome is Acquired
                ==> final(self).frame_index == old(self).frame_index,
            outcome == Outcome::Failed && step != FrameStep::Skipped && step
                != FrameStep::Presented ==> next == FrameStep::Failed,
    {
        match (step, outcome) {
            (FrameStep::WaitFence { slot }, Outcome::Done) => FrameStep::Acquire { slot },
            (FrameStep::Acquire { slot }, Outcome::Acquired { image, suboptimal }) => {
                if suboptimal {
                    FrameStep::Skipped
                } else {
                    FrameStep::ResetFence { slot, image }
                }
            },
            (FrameStep::Acquire { .. }, Outcome::OutOfDate) => FrameStep::Skipped,
            (FrameStep::ResetFence { slot, image }, Outcome::Done) => FrameStep::ResetCommands {
                slot,
                image,
            },
            (FrameStep::ResetCommands { slot, image }, Outcome::Done) => FrameStep::Record {
                slot,
                image,
            },
            (FrameStep::Record { slot, image }, Outcome::Done) => FrameStep::Submit { slot, image },
            (FrameStep::Submit { slot, image }, Outcome::Done) => FrameStep::Present {
                slot,
                image,
            },
            (FrameStep::Present { .. }, Outcome::Done) => {
                self.frame_index = self.frame_index + 1;
                FrameStep::Presented
            },
            (FrameStep::Present { .. }, Outcome::OutOfDate) => {
                self.frame_index = self.frame_index + 1;
                FrameStep::Presented
            },
            (FrameStep::Skipped, _) => FrameStep::Skipped,
            (FrameStep::Presented, _) => FrameStep::Presented,
            _ => FrameStep::Failed,
        }
    }

    /// The commands of a frame.
    pub fn record(&self) -> (commands: Vec<Command>)
        ensures
            commands@ == frame_commands(self.extent),
    {
        let width = self.extent.width;
        let height = self.extent.height;
        let commands = vec![
            Command::BindPipeline,
            Command::BindDescriptorSets,
            Command::TraceRays { width, height, depth: 1 },
            // The storage image is read by the copy once the rays have been traced.
            barrier_command(
                Target::Storage,
                ImageLayout::General,
                ImageLayout::TransferSrc,
                ACCESS_SHADER_WRITE,
                ACCESS_TRANSFER_READ,
                STAGE_RAY_TRACING_SHADER,
                STAGE_TRANSFER,
            ),
            // The old contents of the swapchain image are not needed.
            barrier_command(
                Target::Swapchain,
                ImageLayout::Undefined,
                ImageLayout::TransferDst,
                0,
                ACCESS_TRANSFER_WRITE,
                STAGE_TOP_OF_PIPE,
                STAGE_TRANSFER,
            ),
            Command::Blit {
                near: Offset { x: 0, y: 0, z: 0 },
                far: Offset { x: width as i32, y: height as i32, z: 1 },
                src_layout: ImageLayout::TransferSrc,
                dst_layout: ImageLayout::TransferDst,
                range: whole_image(),
                filter: FILTER_NEAREST,
            },
            barrier_command(
                Target::Storage,
                ImageLayout::TransferSrc,
                ImageLayout::General,
                ACCESS_TRANSFER_READ,
                ACCESS_SHADER_WRITE,
                STAGE_TRANSFER,
                STAGE_RAY_TRACING_SHADER,
            ),
            barrier_command(
                Target::Swapchain,
                ImageLayout::TransferDst,
                ImageLayout::PresentSrc,
                ACCESS_TRANSFER_WRITE,
                0,
                STAGE_TRANSFER,
                STAGE_BOTTOM_OF_PIPE,
            ),
        ];
        assert(commands@ =~= frame_commands(self.extent));
        commands
    }

    /// The order in which the engine takes its objects down.
    pub fn teardown(&self, view_count: usize) -> (order: Vec<Teardown>)
        ensures
            order@ == teardown_order(FRAMES_IN_FLIGHT as int, view_count as int),
    {
        let mut order: Vec<Teardown> = Vec::new();
        order.push(Teardown::WaitIdle);
        let mut i: usize = 0;
        while i < FRAMES_IN_FLIGHT
            invariant
                i <= FRAMES_IN_FLIGHT,
                order@ == seq![Teardown::WaitIdle] + Seq::new(
                    i as nat,
                    |k: int| Teardown::ImageReady(k as usize),
                ),
            decreases FRAMES_IN_FLIGHT - i,
        {
            order.push(Teardown::ImageReady(i));
            i += 1;
            assert(order@ =~= seq![Teardown::WaitIdle] + Seq::new(
                i as nat,
                |k: int| Teardown::ImageReady(k as usize),
            ));
        }
        let ghost first = order@;
        i = 0;
        while i < FRAMES_IN_FLIGHT
            invariant
                i <= FRAMES_IN_FLIGHT,
                order@ =~= first + Seq::new(i as nat, |k: int| Teardown::RenderDone(k as usize)),
            decreases FRAMES_IN_FLIGHT - i,
        {
            order.push(Teardown::RenderDone(i));
            i += 1;
        }
        let ghost second = order@;
        i = 0;
        while i < FRAMES_IN_FLIGHT
            invariant
                i <= FRAMES_IN_FLIGHT,
                order@ =~= second + Seq::new(i as nat, |k: int| Teardown::InFlight(k as usize)),
            decreases FRAMES_IN_FLIGHT - i,
        {
            order.push(Teardown::InFlight(i));
            i += 1;
        }
        order.push(Teardown::Pipeline);
        order.push(Teardown::AccelStructures);
        order.push(Teardown::CameraBuffer);
        order.push(Teardown::CameraMemory);
        order.push(Teardown::StorageView);
        order.push(Teardown::StorageImage);
        order.push(Teardown::StorageMemory);
        let ghost third = order@;
        i = 0;
        while i < view_count
            invariant
                i <= view_count,
                order@ =~= third + Seq::new(i as nat, |k: int| Teardown::SwapchainView(k as usize)),
            decreases view_count - i,
        {
            order.push(Teardown::SwapchainView(i));
            i += 1;
        }
        order.push(Teardown::Swapchain);
        order.push(Teardown::Surface);
        order.push(Teardown::CommandPool);
        order.push(Teardown::Device);
        order.push(Teardown::Instance);
        assert(order@ =~= teardown_order(FRAMES_IN_FLIGHT as int, view_count as int));
        order
    }
}

/// The command for a layout transition.
fn barrier_command(
    target: Target,
    old_layout: ImageLayout,
    new_layout: ImageLayout,
    src_access: u32,
    dst_access: u32,
    src_stage: u32,
    dst_stage: u32,
) -> (command: Command)
    ensures
        command == Command::Barrier(
            ImageBarrier {
                target,
                old_layout,
                new_layout,
                src_access,
                dst_access,
                src_stage,
                dst_stage,
            },
        ),
{
    Command::Barrier(
        ImageBarrier {
            target,
            old_layout,
            new_layout,
            src_access,
            dst_access,
            src_stage,
            dst_stage,
        },
    )
}

/// A step of taking the engine down. Numbers tell apart the objects of the frame slots and of the
/// swapchain images.
#[derive(Clone, Copy, Debug, PartialEq, Eq, Structural)]
pub enum Teardown {
    /// Wait until the device has no work left.
    WaitIdle,
    /// The semaphore that tells that an image is available.
    ImageReady(usize),
    /// The semaphore that tells that an image can be presented.
    RenderDone(usize),
    /// The fence of a frame.
    InFlight(usize),
    /// The pipeline's objects, in their own order.
    Pipeline,
    /// The acceleration structures' objects, in their own order.
    AccelStructures,
    CameraBuffer,
    CameraMemory,
    StorageView,
    StorageImage,
    StorageMemory,
    SwapchainView(usize),
    Swapchain,
    Surface,
    CommandPool,
    Device,
    Instance,
}

/// The order in which an engine with the given numbers of frame slots and image views takes its
/// objects down.
pub open spec fn teardown_order(frames: int, views: int) -> Seq<Teardown> {
    seq![Teardown::WaitIdle] + Seq::new(frames as nat, |k: int| Teardown::ImageReady(k as usize))
        + Seq::new(frames as nat, |k: int| Teardown::RenderDone(k as usize)) + Seq::new(
        frames as nat,
        |k: int| Teardown::InFlight(k as usize),
    ) + seq![
        Teardown::Pipeline,
        Teardown::AccelStructures,
        Teardown::CameraBuffer,
        Teardown::CameraMemory,
        Teardown::StorageView,
        Teardown::StorageImage,
        Teardown::StorageMemory,
    ] + Seq::new(views as nat, |k: int| Teardown::SwapchainView(k as usize)) + seq![
        Teardown::Swapchain,
        Teardown::Surface,
        Teardown::CommandPool,
        Teardown::Device,
        Teardown::Instance,
    ]
}

/// Nothing is taken down before the device is idle, or twice, or after the device and the instance
/// that it belongs to.
pub proof fn law_teardown_order(frames: int, views: int)
    requires
        0 <= frames <= usize::MAX,
        0 <= views <= usize::MAX,
    ensures
        ({
            let order = teardown_order(frames, views);
            &&& order.len() == 3 * frames + views + 13
            &&& order[0] == Teardown::WaitIdle
            &&& order[order.len() - 2] == Teardown::Device
            &&& order[order.len() - 1] == Teardown::Instance
            &&& order.no_duplicates()
        }),
{
    let order = teardown_order(frames, views);
    assert(order.len() == 3 * frames + views + 13);
    assert forall|i: int, j: int| 0 <= i < j < order.len() implies order[i] != order[j] by {
        lemma_teardown_rank(frames, views, i);
        lemma_teardown_rank(frames, views, j);
    }
}

/// Step `a` has to come before step `b`: everything waits for the device to be idle, and what
/// refers to an object or belongs to it goes before the object.
pub open spec fn has_to_precede(a: Teardown, b: Teardown) -> bool {
    ||| a == Teardown::WaitIdle && b != Teardown::WaitIdle
    ||| match b {
        Teardown::Instance => a != Teardown::Instance,
        Teardown::Device => a != Teardown::Instance && a != Teardown::Device,
        Teardown::Surface => a == Teardown::Swapchain,
        Teardown::Swapchain => a is SwapchainView,
        Teardown::StorageMemory => a == Teardown::StorageImage,
        Teardown::StorageImage => a == Teardown::StorageView,
        Teardown::StorageView => a == Teardown::Pipeline,
        Teardown::CameraMemory => a == Teardown::CameraBuffer,
        Teardown::CameraBuffer => a == Teardown::Pipeline,
        Teardown::AccelStructures => a == Teardown::Pipeline,
        _ => false,
    }
}

/// Whatever refers to an object or belongs to it is taken down before the object.
pub proof fn law_users_go_first(frames: int, views: int, i: int, j: int)
    requires
        0 <= frames <= usize::MAX,
        0 <= views <= usize::MAX,
        0 <= i < teardown_order(frames, views).len(),
        0 <= j < teardown_order(frames, views).len(),
        has_to_precede(teardown_order(frames, views)[i], teardown_order(frames, views)[j]),
    ensures
        i < j,
{
    lemma_teardown_rank(frames, views, i);
    lemma_teardown_rank(frames, views, j);
}

/// Everything is taken down: the three objects of each frame slot, the view of each swapchain image
/// and all the rest; and nothing that is not there.
pub proof fn law_everything_is_taken_down(frames: int, views: int, step: Teardown)
    requires
        0 <= frames <= usize::MAX,
        0 <= views <= usize::MAX,
    ensures
        teardown_order(frames, views).contains(step) <==> match step {
            Teardown::ImageReady(k) => k < frames,
            Teardown::RenderDone(k) => k < frames,
            Teardown::InFlight(k) => k < frames,
            Teardown::SwapchainView(k) => k < views,
            _ => true,
        },
{
    let order = teardown_order(frames, views);
    let place = teardown_place(frames, views, step);
    let there = match step {
        Teardown::ImageReady(k) => k < frames,
        Teardown::RenderDone(k) => k < frames,
        Teardown::InFlight(k) => k < frames,
        Teardown::SwapchainView(k) => k < views,
        _ => true,
    };
    if there {
        assert(order[place] == step);
    }
    if order.contains(step) {
        let i = choose|i: int| 0 <= i < order.len() && order[i] == step;
        assert(order[i] == step);
    }
}

/// The sequence of the teardown: slot by slot the semaphores and then the fences, the pipeline and what
/// its descriptors refer to, the views, and what the views belong to.
pub proof fn law_teardown_sequence(frames: int, views: int, k: int, v: int)
    requires
        0 <= frames <= usize::MAX,
        0 <= views <= usize::MAX,
    ensures
        ({
            let order = teardown_order(frames, views);
            let rest = 1 + 3 * frames;
            &&& 0 <= k < frames ==> order[1 + k] == Teardown::ImageReady(k as usize)
            &&& 0 <= k < frames ==> order[1 + frames + k] == Teardown::RenderDone(k as usize)
            &&& 0 <= k < frames ==> order[1 + 2 * frames + k] == Teardown::InFlight(k as usize)
            &&& order[rest] == Teardown::Pipeline
            &&& order[rest + 1] == Teardown::AccelStructures
            &&& order[rest + 2] == Teardown::CameraBuffer
            &&& order[rest + 3] == Teardown::CameraMemory
            &&& order[rest + 4] == Teardown::StorageView
            &&& order[rest + 5] == Teardown::StorageImage
            &&& order[rest + 6] == Teardown::StorageMemory
            &&& 0 <= v < views ==> order[rest + 7 + v] == Teardown::SwapchainView(v as usize)
            &&& order[rest + 7 + views] == Teardown::Swapchain
            &&& order[rest + 8 + views] == Teardown::Surface
            &&& order[rest + 9 + views] == Teardown::CommandPool
        }),
{
}

/// The place of each step in the teardown order.
spec fn teardown_place(frames: int, views: int, step: Teardown) -> int {
    match step {
        Teardown::WaitIdle => 0,
        Teardown::ImageReady(k) => 1 + k,
        Teardown::RenderDone(k) => 1 + frames + k,
        Teardown::InFlight(k) => 1 + 2 * frames + k,
        Teardown::Pipeline => 1 + 3 * frames,
        Teardown::AccelStructures => 2 + 3 * frames,
        Teardown::CameraBuffer => 3 + 3 * frames,
        Teardown::CameraMemory => 4 + 3 * frames,
        Teardown::StorageView => 5 + 3 * frames,
        Teardown::StorageImage => 6 + 3 * frames,
        Teardown::StorageMemory => 7 + 3 * frames,
        Teardown::SwapchainView(k) => 8 + 3 * frames + k,
        Teardown::Swapchain => 8 + 3 * frames + views,
        Teardown::Surface => 9 + 3 * frames + views,
        Teardown::CommandPool => 10 + 3 * frames + views,
        Teardown::Device => 11 + 3 * frames + views,
        Teardown::Instance => 12 + 3 * frames + views,
    }
}

proof fn lemma_teardown_rank(frames: int, views: int, i: int)
    requires
        0 <= frames <= usize::MAX,
        0 <= views <= usize::MAX,
        0 <= i < teardown_order(frames, views).len(),
    ensures
        teardown_place(frames, views, teardown_order(frames, views)[i]) == i,
{
}

/// What ends a frame and what carries it on. A step that is done leads to the next one. Acquiring
/// goes on only with an image that fits; without one the frame is left out. Presenting completes the
/// frame even if the swapchain has gone out of date. Anything else fails, and a frame that is over
/// stays over.
pub proof fn law_outcomes(slot: usize, image: u32, got: u32, step: FrameStep, outcome: Outcome)
    ensures
        next_step(FrameStep::WaitFence { slot }, Outcome::Done) == (FrameStep::Acquire { slot }),
        next_step(
            FrameStep::Acquire { slot },
            Outcome::Acquired { image: got, suboptimal: false },
        ) == (FrameStep::ResetFence { slot, image: got }),
        next_step(FrameStep::Acquire { slot }, Outcome::Acquired { image: got, suboptimal: true })
            == FrameStep::Skipped,
        next_step(FrameStep::Acquire { slot }, Outcome::OutOfDate) == FrameStep::Skipped,
        next_step(FrameStep::ResetFence { slot, image }, Outcome::Done)
            == (FrameStep::ResetCommands { slot, image }),
        next_step(FrameStep::ResetCommands { slot, image }, Outcome::Done) == (FrameStep::Record {
            slot,
            image,
        }),
        next_step(FrameStep::Record { slot, image }, Outcome::Done) == (FrameStep::Submit {
            slot,
            image,
        }),
        next_step(FrameStep::Submit { slot, image }, Outcome::Done) == (FrameStep::Present {
            slot,
            image,
        }),
        next_step(FrameStep::Present { slot, image }, Outcome::Done) == FrameStep::Presented,
        next_step(FrameStep::Present { slot, image }, Outcome::OutOfDate) == FrameStep::Presented,
        step == FrameStep::Skipped || step == FrameStep::Presented || step == FrameStep::Failed
            ==> next_step(step, outcome) == step,
        outcome == Outcome::Failed && step != FrameStep::Skipped && step != FrameStep::Presented
            ==> next_step(step, outcome) == FrameStep::Failed,
        step is Acquire && outcome == Outcome::Done ==> next_step(step, outcome)
            == FrameStep::Failed,
        outcome is Acquired && (step is WaitFence || step is ResetFence || step is ResetCommands
            || step is Record || step is Submit || step is Present) ==> next_step(step, outcome)
            == FrameStep::Failed,
        outcome == Outcome::OutOfDate && (step is WaitFence || step is ResetFence
            || step is ResetCommands || step is Record || step is Submit) ==> next_step(
            step,
            outcome,
        ) == FrameStep::Failed,
{
}

/// Only a step that presents can move the engine on, and it does so exactly if it succeeds or the
/// swapchain has just gone out of date; size and number of images never change.
pub proof fn law_only_presenting_counts(engine: Engine, step: FrameStep, outcome: Outcome)
    requires
        engine.frame_index < usize::MAX,
    ensures
        ({
            let later = engine.after(step, outcome);
            &&& later.extent == engine.extent
            &&& later.image_count == engine.image_count
            &&& step is Present && (outcome == Outcome::Done || outcome == Outcome::OutOfDate)
                ==> later.frame_index == engine.frame_index + 1
            &&& !(step is Present) || outcome == Outcome::Failed || outcome is Acquired
                ==> later.frame_index == engine.frame_index
        }),
{
}

/// The number of steps that a frame can still take.
pub open spec fn steps_left(step: FrameStep) -> int {
    match step {
        FrameStep::WaitFence { .. } => 7,
        FrameStep::Acquire { .. } => 6,
        FrameStep::ResetFence { .. } => 5,
        FrameStep::ResetCommands { .. } => 4,
        FrameStep::Record { .. } => 3,
        FrameStep::Submit { .. } => 2,
        FrameStep::Present { .. } => 1,
        _ => 0,
    }
}

/// Every frame comes to its end: each step leaves fewer steps to take.
pub proof fn law_frames_end(step: FrameStep, outcome: Outcome)
    ensures
        is_over(step) <==> steps_left(step) == 0,
        !is_over(step) ==> 0 <= steps_left(next_step(step, outcome)) < steps_left(step),
{
}

/// A frame in which nothing fails presents the image that it was given.
pub proof fn law_course_of_a_frame(slot: usize, image: u32)
    ensures
        ({
            let acquire = next_step(FrameStep::WaitFence { slot }, Outcome::Done);
            let reset = next_step(acquire, Outcome::Acquired { image, suboptimal: false });
            let clear = next_step(reset, Outcome::Done);
            let record = next_step(clear, Outcome::Done);
            let submit = next_step(record, Outcome::Done);
            let present = next_step(submit, Outcome::Done);
            &&& present == (FrameStep::Present { slot, image })
            &&& next_step(present, Outcome::Done) == FrameStep::Presented
        }),
{
}

/// The slot's fence is signalled, or will be once the submitted work is done, when the frame is at
/// the given step.
pub open spec fn fence_ready(step: FrameStep) -> bool {
    match step {
        FrameStep::ResetCommands { .. } => false,
        FrameStep::Record { .. } => false,
        FrameStep::Submit { .. } => false,
        FrameStep::Failed => false,
        _ => true,
    }
}

/// Whether the slot's fence is ready after a step: resetting makes it unready, submitting makes it
/// ready again.
pub open spec fn fence_after(ready: bool, step: FrameStep) -> bool {
    match step {
        FrameStep::ResetFence { .. } => false,
        FrameStep::Submit { .. } => true,
        _ => ready,
    }
}

/// Unless a step fails, the fence of a frame that is over is ready, so the next frame of the slot
/// does not wait in vain. In particular a skipped frame has not touched its fence.
pub proof fn law_fence_is_ready_again(step: FrameStep, outcome: Outcome)
    requires
        next_step(step, outcome) != FrameStep::Failed,
    ensures
        fence_ready(next_step(step, outcome)) == fence_after(fence_ready(step), step),
        is_over(next_step(step, outcome)) ==> fence_ready(next_step(step, outcome)),
        next_step(step, outcome) == FrameStep::Skipped && step != FrameStep::Skipped ==> step
            is Acquire,
{
}

/// Where a frame in the given slot stands after `n` steps with the given outcomes.
pub open spec fn course(slot: usize, outcomes: Seq<Outcome>, n: int) -> FrameStep
    decreases n,
{
    if n <= 0 {
        FrameStep::WaitFence { slot }
    } else {
        next_step(course(slot, outcomes, n - 1), outcomes[n - 1])
    }
}

impl Engine {
    /// Where the engine's next frame stands after `n` steps with the given outcomes.
    pub open spec fn frame(self, outcomes: Seq<Outcome>, n: int) -> FrameStep {
        course(self.slot() as usize, outcomes, n)
    }

    /// The engine after `n` steps of its next frame with the given outcomes.
    pub open spec fn after_steps(self, outcomes: Seq<Outcome>, n: int) -> Engine
        decreases n,
    {
        if n <= 0 {
            self
        } else {
            self.after_steps(outcomes, n - 1).after(
                self.frame(outcomes, n - 1),
                outcomes[n - 1],
            )
        }
    }
}

proof fn lemma_course(slot: usize, outcomes: Seq<Outcome>, n: int)
    requires
        0 <= n,
        !is_over(course(slot, outcomes, n)),
    ensures
        forall|m: int|
            0 <= m <= n ==> steps_left(#[trigger] course(slot, outcomes, m)) == 7 - m && slot_of(
                course(slot, outcomes, m),
            ) == Some(slot),
    decreases n,
{
    if n > 0 {
        lemma_course(slot, outcomes, n - 1);
    }
}

/// All objects that a step works with belong to the given slot.
pub open spec fn stays_in(sync: StepSync, slot: usize) -> bool {
    &&& sync.wait_fence is None || sync.wait_fence == Some(slot)
    &&& sync.reset_fence is None || sync.reset_fence == Some(slot)
    &&& sync.signal_fence is None || sync.signal_fence == Some(slot)
    &&& sync.wait is None || sync.wait == Some(Semaphore::ImageReady(slot)) || sync.wait == Some(
        Semaphore::RenderDone(slot),
    )
    &&& sync.signal is None || sync.signal == Some(Semaphore::ImageReady(slot)) || sync.signal
        == Some(Semaphore::RenderDone(slot))
    &&& sync.commands is None || sync.commands == Some(slot)
}

/// The synchronisation of a frame, whatever the outcomes of its steps. Only the objects of its slot
/// are used. Before anything else the slot's fence is waited for; only then it is reset, and only
/// after that the submitted work signals it. The commands that are submitted were recorded before.
/// Each semaphore that a step waits for was signalled by an earlier step of the frame and has not
/// been waited for in between.
pub proof fn law_frame_is_synchronised(engine: Engine, outcomes: Seq<Outcome>, n: int)
    requires
        0 <= n <= outcomes.len(),
    ensures
        ({
            let slot = engine.slot() as usize;
            let sync = step_sync(engine.frame(outcomes, n));
            &&& stays_in(sync, slot)
            &&& n == 0 ==> sync == (StepSync { wait_fence: Some(slot), ..no_sync() })
            &&& n > 0 ==> sync.wait_fence is None
            &&& sync.signal_fence is Some ==> engine.frame(outcomes, n) is Submit && exists|m: int|
                0 < m < n && step_sync(#[trigger] engine.frame(outcomes, m)).reset_fence == Some(
                    slot,
                )
            &&& engine.frame(outcomes, n) is Submit ==> sync.signal_fence == Some(slot)
                && sync.commands == Some(slot)
            &&& engine.frame(outcomes, n) is Submit ==> exists|m: int|
                0 < m < n && (#[trigger] engine.frame(outcomes, m)) is Record && step_sync(
                    engine.frame(outcomes, m),
                ).commands == Some(slot)
            &&& engine.frame(outcomes, n) is Submit ==> exists|m: int|
                0 < m < n && (#[trigger] engine.frame(outcomes, m)) is ResetCommands && step_sync(
                    engine.frame(outcomes, m),
                ).commands == Some(slot)
            &&& sync.wait is Some ==> exists|m: int|
                {
                    &&& 0 < m < n
                    &&& step_sync(#[trigger] engine.frame(outcomes, m)).signal == sync.wait
                    &&& forall|k: int|
                        m < k < n ==> step_sync(#[trigger] engine.frame(outcomes, k)).wait
                            != sync.wait
                }
        }),
{
    let slot = engine.slot() as usize;
    let step = engine.frame(outcomes, n);
    if !is_over(step) {
        lemma_course(slot, outcomes, n);
        if step is Submit {
            assert(engine.frame(outcomes, 1) == course(slot, outcomes, 1));
            assert(engine.frame(outcomes, 1) == FrameStep::Acquire { slot });
            assert(engine.frame(outcomes, 2) == course(slot, outcomes, 2));
            assert(engine.frame(outcomes, 2) is ResetFence);
            assert(engine.frame(outcomes, 3) == course(slot, outcomes, 3));
            assert(engine.frame(outcomes, 3) is ResetCommands);
            assert(engine.frame(outcomes, 4) == course(slot, outcomes, 4));
            assert(engine.frame(outcomes, 4) is Record);
            assert forall|k: int| 1 < k < n implies step_sync(
                #[trigger] engine.frame(outcomes, k),
            ).wait != step_sync(step).wait by {
                assert(steps_left(course(slot, outcomes, k)) == 7 - k);
            }
        }
        if step is Present {
            assert(engine.frame(outcomes, 5) == course(slot, outcomes, 5));
            assert(engine.frame(outcomes, 5) is Submit);
        }
    }
}

/// A frame that presents an image has signalled and waited for both semaphores of its slot, so they
/// are free for the slot's next frame.
pub proof fn law_presented_frames_use_their_semaphores(
    engine: Engine,
    outcomes: Seq<Outcome>,
    n: int,
)
    requires
        0 <= n <= outcomes.len(),
        engine.frame(outcomes, n) is Present,
    ensures
        ({
            let slot = engine.slot() as usize;
            let sync = |m: int| step_sync(engine.frame(outcomes, m));
            &&& n == 6
            &&& sync(1).signal == Some(Semaphore::ImageReady(slot))
            &&& sync(5).wait == Some(Semaphore::ImageReady(slot))
            &&& sync(5).signal == Some(Semaphore::RenderDone(slot))
            &&& sync(6).wait == Some(Semaphore::RenderDone(slot))
        }),
{
    let slot = engine.slot() as usize;
    lemma_course(slot, outcomes, n);
    assert(steps_left(course(slot, outcomes, 1)) == 6);
    assert(steps_left(course(slot, outcomes, 5)) == 2);
    assert(slot_of(course(slot, outcomes, 6)) == Some(slot));
}

/// A presented frame moves the engine on to the other slot; a frame that is not presented leaves
/// the engine as it was.
pub proof fn law_slots_take_turns(engine: Engine, outcomes: Seq<Outcome>, n: int)
    requires
        0 <= n <= outcomes.len(),
        engine.frame_index < usize::MAX,
    ensures
        ({
            let later = engine.after_steps(outcomes, n);
            &&& 0 <= engine.slot() < FRAMES_IN_FLIGHT
            &&& engine.frame(outcomes, n) != FrameStep::Presented ==> later == engine
            &&& engine.frame(outcomes, n) == FrameStep::Presented ==> {
                &&& later == Engine { frame_index: (engine.frame_index + 1) as usize, ..engine }
                &&& later.slot() == (engine.slot() + 1) % FRAMES_IN_FLIGHT as int
                &&& later.slot() != engine.slot()
            }
        }),
    decreases n,
{
    if n > 0 {
        law_slots_take_turns(engine, outcomes, n - 1);
    }
}

/// A frame stays with its slot, and from the moment it has an image also with that.
pub proof fn law_frame_keeps_slot_and_image(step: FrameStep, outcome: Outcome)
    ensures
        slot_of(step) is Some && slot_of(next_step(step, outcome)) is Some ==> slot_of(
            next_step(step, outcome),
        ) == slot_of(step),
        image_of(step) is Some && image_of(next_step(step, outcome)) is Some ==> image_of(
            next_step(step, outcome),
        ) == image_of(step),
{
}

/// The slot that a step works with.
pub open spec fn slot_of(step: FrameStep) -> Option<usize> {
    match step {
        FrameStep::WaitFence { slot } => Some(slot),
        FrameStep::Acquire { slot } => Some(slot),
        FrameStep::ResetFence { slot, .. } => Some(slot),
        FrameStep::ResetCommands { slot, .. } => Some(slot),
        FrameStep::Record { slot, .. } => Some(slot),
        FrameStep::Submit { slot, .. } => Some(slot),
        FrameStep::Present { slot, .. } => Some(slot),
        _ => None,
    }
}

/// The image that a step works with.
pub open spec fn image_of(step: FrameStep) -> Option<u32> {
    match step {
        FrameStep::ResetFence { image, .. } => Some(image),
        FrameStep::ResetCommands { image, .. } => Some(image),
        FrameStep::Record { image, .. } => Some(image),
        FrameStep::Submit { image, .. } => Some(image),
        FrameStep::Present { image, .. } => Some(image),
        _ => None,
    }
}

} // verus!
