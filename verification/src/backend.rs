//! The render backends as seen from the window: each event is answered with what to do.

use crate::engine::{Engine, FrameStep};
use crate::metal::MetalBackend;
use crate::swapchain::Extent;
use vstd::prelude::*;

verus! {

/// Input that is passed on to the engine behind a backend.
#[derive(Clone, Copy, Debug, PartialEq, Eq, Structural)]
pub enum Input {
    /// The key with the given code went down or up.
    Key { code: u32, pressed: bool },
    /// The left mouse button went down or up.
    MouseButton { pressed: bool },
    /// The mouse was moved, by distances given as the words of double-precision numbers.
    MouseMotion { dx: u64, dy: u64 },
    /// The wheel was turned by a number of lines, given as the word of a single-precision number.
    Scroll { lines: u32 },
}

/// What a backend wants to have done.
#[derive(Clone, Copy, Debug, PartialEq, Eq, Structural)]
pub enum BackendAction {
    /// Draw a frame, beginning with the given step.
    Frame(FrameStep),
    /// Ask the layer for a drawable, and draw a frame into it.
    NextDrawable,
    /// Wait until the device has no work left.
    WaitIdle,
    /// Adapt layer, output texture and camera to a new size.
    Resize { width: u64, height: u64 },
    /// Have the window ask for a redraw.
    RequestRedraw,
    /// Hand the input to the engine.
    Forward(Input),
    Nothing,
}

/// A backend that draws into a window.
pub trait RenderBackend: Sized {
    /// What drawing a frame takes.
    spec fn render_action(&self) -> BackendAction;

    /// What a new window size takes.
    spec fn resize_action(&self, size: Extent) -> BackendAction;

    /// The backend has taken note of a new window size.
    spec fn resized(&self, before: &Self, size: Extent) -> bool;

    /// What input takes.
    spec fn input_action(&self, input: Input) -> BackendAction;

    fn render(&mut self) -> (action: BackendAction)
        ensures
            action == old(self).render_action(),
            *final(self) == *old(self),
    ;

    fn handle_resize(&mut self, size: Extent) -> (action: BackendAction)
        ensures
            action == old(self).resize_action(size),
            final(self).resized(old(self), size),
    ;

    fn request_redraw(&self) -> (action: BackendAction)
        ensures
            action == BackendAction::RequestRedraw,
    ;

    fn handle_key(&mut self, code: u32, pressed: bool) -> (action: BackendAction)
        ensures
            action == old(self).input_action(Input::Key { code, pressed }),
            *final(self) == *old(self),
    ;

    fn handle_mouse_motion(&mut self, dx: u64, dy: u64) -> (action: BackendAction)
        ensures
            action == old(self).input_action(Input::MouseMotion { dx, dy }),
            *final(self) == *old(self),
    ;

    fn handle_mouse_button(&mut self, pressed: bool) -> (action: BackendAction)
        ensures
            action == old(self).input_action(Input::MouseButton { pressed }),
            *final(self) == *old(self),
    ;

    fn handle_scroll(&mut self, lines: u32) -> (action: BackendAction)
        ensures
            action == old(self).input_action(Input::Scroll { lines }),
            *final(self) == *old(self),
    ;
}

/// Thin adapter that wraps the Vulkan engine as a backend.
#[derive(Clone, Copy, Debug, PartialEq, Eq, Structural)]
pub struct VulkanBackend(pub Engine);

impl VulkanBackend {
    /// A backend for an engine with images of the given size and number.
    pub fn new(extent: Extent, image_count: usize) -> (backend: VulkanBackend)
        ensures
            backend.0 == (Engine { frame_index: 0, extent, image_count }),
    {
        VulkanBackend(Engine::new(extent, image_count))
    }
}

impl RenderBackend for VulkanBackend {
    /// The first step of the engine's next frame.
    open spec fn render_action(&self) -> BackendAction {
        BackendAction::Frame(FrameStep::WaitFence { slot: self.0.slot() as usize })
    }

    /// The engine only waits; its swapchain keeps its size.
    open spec fn resize_action(&self, size: Extent) -> BackendAction {
        BackendAction::WaitIdle
    }

    open spec fn resized(&self, before: &Self, size: Extent) -> bool {
        self == before
    }

    /// All input goes to the engine.
    open spec fn input_action(&self, input: Input) -> BackendAction {
        BackendAction::Forward(input)
    }

    fn render(&mut self) -> (action: BackendAction)
        ensures
            action == BackendAction::Frame(
                FrameStep::WaitFence { slot: (old(self).0.frame_index % 2) as usize },
            ),
    {
        BackendAction::Frame(self.0.render())
    }

    fn handle_resize(&mut self, size: Extent) -> (action: BackendAction)
        ensures
            action == BackendAction::WaitIdle,
            *final(self) == *old(self),
    {
        BackendAction::WaitIdle
    }

    fn request_redraw(&self) -> (action: BackendAction) {
        BackendAction::RequestRedraw
    }

    fn handle_key(&mut self, code: u32, pressed: bool) -> (action: BackendAction)
        ensures
            action == BackendAction::Forward(Input::Key { code, pressed }),
    {
        BackendAction::Forward(Input::Key { code, pressed })
    }

    fn handle_mouse_motion(&mut self, dx: u64, dy: u64) -> (action: BackendAction)
        ensures
            action == BackendAction::Forward(Input::MouseMotion { dx, dy }),
    {
        BackendAction::Forward(Input::MouseMotion { dx, dy })
    }

    fn handle_mouse_button(&mut self, pressed: bool) -> (action: BackendAction)
        ensures
            action == BackendAction::Forward(Input::MouseButton { pressed }),
    {
        BackendAction::Forward(Input::MouseButton { pressed })
    }

    fn handle_scroll(&mut self, lines: u32) -> (action: BackendAction)
        ensures
            action == BackendAction::Forward(Input::Scroll { lines }),
    {
        BackendAction::Forward(Input::Scroll { lines })
    }
}

impl RenderBackend for MetalBackend {
    open spec fn render_action(&self) -> BackendAction {
        BackendAction::NextDrawable
    }

    /// Nothing happens unless the size has changed.
    open spec fn resize_action(&self, size: Extent) -> BackendAction {
        if self.width == size.width && self.height == size.height {
            BackendAction::Nothing
        } else {
            BackendAction::Resize { width: size.width as u64, height: size.height as u64 }
        }
    }

    open spec fn resized(&self, before: &Self, size: Extent) -> bool {
        self.width == size.width && self.height == size.height
    }

    /// The camera is fixed, so input has no effect.
    open spec fn input_action(&self, input: Input) -> BackendAction {
        BackendAction::Nothing
    }

    fn render(&mut self) -> (action: BackendAction)
        ensures
            action == BackendAction::NextDrawable,
    {
        BackendAction::NextDrawable
    }

    fn handle_resize(&mut self, size: Extent) -> (action: BackendAction)
        ensures
            final(self).width == size.width,
            final(self).height == size.height,
            old(self).width != size.width || old(self).height != size.height ==> action
                == (BackendAction::Resize { width: size.width as u64, height: size.height as u64 }),
            old(self).width == size.width && old(self).height == size.height ==> action
                == BackendAction::Nothing,
    {
        let width = size.width as u64;
        let height = size.height as u64;
        if width == self.width && height == self.height {
            return BackendAction::Nothing;
        }
        self.width = width;
        self.height = height;
        BackendAction::Resize { width, height }
    }

    fn request_redraw(&self) -> (action: BackendAction) {
        BackendAction::RequestRedraw
    }

    fn handle_key(&mut self, code: u32, pressed: bool) -> (action: BackendAction)
        ensures
            action == BackendAction::Nothing,
    {
        BackendAction::Nothing
    }

    fn handle_mouse_motion(&mut self, dx: u64, dy: u64) -> (action: BackendAction)
        ensures
            action == BackendAction::Nothing,
    {
        BackendAction::Nothing
    }

    fn handle_mouse_button(&mut self, pressed: bool) -> (action: BackendAction)
        ensures
            action == BackendAction::Nothing,
    {
        BackendAction::Nothing
    }

    fn handle_scroll(&mut self, lines: u32) -> (action: BackendAction)
        ensures
            action == BackendAction::Nothing,
    {
        BackendAction::Nothing
    }
}

/// After a resize the Metal backend has the new width and the new height, whatever it had before.
/// What depends on the size is made anew, for exactly the new size, whenever one of the two has
/// changed, and only then.
pub proof fn law_resize_follows_the_window(before: MetalBackend, after: MetalBackend, size: Extent)
    requires
        after.resized(&before, size),
    ensures
        after.width == size.width,
        after.height == size.height,
        before.width != size.width ==> before.resize_action(size) == (BackendAction::Resize {
            width: size.width as u64,
            height: size.height as u64,
        }),
        before.height != size.height ==> before.resize_action(size) == (BackendAction::Resize {
            width: size.width as u64,
            height: size.height as u64,
        }),
        before.width == size.width && before.height == size.height ==> before.resize_action(size)
            == BackendAction::Nothing,
{
}

/// Whatever sizes a window goes through, only the last one counts.
pub proof fn law_last_size_counts(
    a: MetalBackend,
    b: MetalBackend,
    first: Extent,
    after_first: MetalBackend,
    last: Extent,
    end_a: MetalBackend,
    end_b: MetalBackend,
)
    requires
        after_first.resized(&a, first),
        end_a.resized(&after_first, last),
        end_b.resized(&b, last),
    ensures
        end_a == end_b,
{
}

/// The Vulkan backend keeps its size and waits for the device on every resize. Its frames begin by
/// waiting in the slot that is next in turn, and its input goes to the engine as it came.
pub proof fn law_vulkan_backend(
    before: VulkanBackend,
    after: VulkanBackend,
    size: Extent,
    input: Input,
)
    requires
        after.resized(&before, size),
    ensures
        after.0.frame_index == before.0.frame_index,
        after.0.extent == before.0.extent,
        after.0.image_count == before.0.image_count,
        before.resize_action(size) == BackendAction::WaitIdle,
        before.render_action() == BackendAction::Frame(
            FrameStep::WaitFence { slot: (before.0.frame_index % 2) as usize },
        ),
        before.input_action(input) == BackendAction::Forward(input),
{
}

/// The Metal backend draws into the layer's next drawable, and no input has an effect on it.
pub proof fn law_metal_backend(backend: MetalBackend, input: Input)
    ensures
        backend.render_action() == BackendAction::NextDrawable,
        backend.input_action(input) == BackendAction::Nothing,
{
}

/// Handling the same size twice in a row changes nothing the second time.
pub proof fn law_resize_settles(before: MetalBackend, after: MetalBackend, size: Extent)
    requires
        after.resized(&before, size),
    ensures
        after.resize_action(size) == BackendAction::Nothing,
{
}

} // verus!
