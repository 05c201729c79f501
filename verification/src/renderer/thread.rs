//! The decisions of the render thread: the fences that pace the frames it
//! renders, and what it answers the main thread.
use vstd::prelude::*;

verus! {

/// How many frames the main thread may queue ahead of the render thread.
pub const MAX_QUEUED_FRAMES: usize = 3;

/// Whether a queued frame is being rendered. The main thread takes a fence
/// before queueing a frame and waits while it is taken; the render thread
/// gives it back when the frame is done.
pub struct ThreadFence {
    pub acquired: bool,
}

impl ThreadFence {
    /// A fence that is free.
    pub fn new() -> (r: Self)
        ensures
            !r.acquired,
    {
        ThreadFence { acquired: false }
    }

    /// Takes the fence if it is free; returns whether it did. A caller that
    /// could not take it waits for a signal and tries again.
    pub fn try_acquire(&mut self) -> (r: bool)
        ensures
            r == !old(self).acquired,
            final(self).acquired,
    {
        if self.acquired {
            false
        } else {
            self.acquired = true;
            true
        }
    }

    /// Gives the fence back: the frame has finished rendering.
    pub fn signal(&mut self)
        ensures
            !final(self).acquired,
    {
        self.acquired = false;
    }
}

/// The fences of the queued frames and the one the next frame takes.
pub struct FrameSync {
    pub fences: Vec<ThreadFence>,
    pub fence_index: usize,
}

impl FrameSync {
    /// One free fence per queued frame, the first one next.
    pub fn new() -> (r: Self)
        ensures
            r.fences@.len() == MAX_QUEUED_FRAMES,
            forall|i: int| 0 <= i < MAX_QUEUED_FRAMES ==> !(#[trigger] r.fences@[i]).acquired,
            r.fence_index == 0,
    {
        let fences = vec![ThreadFence::new(), ThreadFence::new(), ThreadFence::new()];
        FrameSync { fences, fence_index: 0 }
    }

    /// Moves on to the next frame's fence, in turn; returns the index of the
    /// fence the current frame takes.
    pub fn advance(&mut self) -> (r: usize)
        requires
            old(self).fence_index < MAX_QUEUED_FRAMES,
        ensures
            r == old(self).fence_index,
            final(self).fence_index == (old(self).fence_index + 1) % (MAX_QUEUED_FRAMES as int),
            final(self).fences@ == old(self).fences@,
    {
        let current = self.fence_index;
        self.fence_index = (self.fence_index + 1) % MAX_QUEUED_FRAMES;
        current
    }
}

/// The messages the main thread sends the render thread, without their
/// payloads.
#[derive(Debug, Clone, Copy, PartialEq, Eq, Structural)]
pub enum RenderThreadCommandKind {
    DestroyRenderer,
    SubmitCommandList,
    RenderFrame,
    Resize,
}

/// A list of commands from the render thread to the main thread.
pub struct RtrCommandList {}

/// What the render thread answers the main thread.
#[derive(Debug, Clone, Copy, PartialEq, Eq, Structural)]
pub enum RenderThreadResponse {
    RenderFrameDone,
    RendererShutdown,
    SubmitCommandList,
}

/// What the render thread answers a message, once it has handled it: a
/// finished frame or a shutdown is answered, command lists and resizes are
/// not.
pub fn response_for(kind: RenderThreadCommandKind) -> (r: Option<RenderThreadResponse>)
    ensures
        r == (match kind {
            RenderThreadCommandKind::DestroyRenderer => Some(RenderThreadResponse::RendererShutdown),
            RenderThreadCommandKind::SubmitCommandList => None,
            RenderThreadCommandKind::RenderFrame => Some(RenderThreadResponse::RenderFrameDone),
            RenderThreadCommandKind::Resize => None,
        }),
{
    match kind {
        RenderThreadCommandKind::DestroyRenderer => Some(RenderThreadResponse::RendererShutdown),
        RenderThreadCommandKind::SubmitCommandList => None,
        RenderThreadCommandKind::RenderFrame => Some(RenderThreadResponse::RenderFrameDone),
        RenderThreadCommandKind::Resize => None,
    }
}

/// Whether the render thread stops after sending this answer.
pub fn is_shutdown(response: RenderThreadResponse) -> (r: bool)
    ensures
        r == (response == RenderThreadResponse::RendererShutdown),
{
    match response {
        RenderThreadResponse::RendererShutdown => true,
        _ => false,
    }
}

} // verus!
