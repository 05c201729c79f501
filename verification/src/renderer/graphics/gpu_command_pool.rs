//! Command pools, which command buffers are allocated from.
use vstd::prelude::*;
use crate::renderer::graphics::api::VkCommandPool;

verus! {

/// The driver functions a command pool calls.
pub struct CommandPoolFnTable {}

/// A command pool of the device.
pub struct CommandPool {
    pub fns: CommandPoolFnTable,
    pub handle: VkCommandPool,
}

impl CommandPool {
    /// The pool with the given handle.
    pub fn new(handle: VkCommandPool) -> (r: Self)
        ensures
            r.handle == handle,
    {
        CommandPool { fns: CommandPoolFnTable {}, handle }
    }
}

} // verus!
