//! A GPU buffer of fixed-size elements, split into one region per buffered
//! frame; one frame's region is mapped and filled at a time.
use vstd::prelude::*;
use crate::renderer::graphics::api::{VkDeviceAddress};
use crate::renderer::graphics::AllocatedBuffer;

verus! {

/// A buffer of `capacity` elements of `element_size` bytes for each of
/// `buffered_frames` frames. While a frame is mapped, `count_in_frame`
/// elements of it have been written.
pub struct StructuredBuffer {
    pub handle: AllocatedBuffer,
    pub address: VkDeviceAddress,
    pub capacity: usize,
    pub buffered_frames: usize,
    pub element_size: usize,
    pub mapped: bool,
    pub frame_index: usize,
    pub count_in_frame: usize,
}

/// The device address of the region of `frame`.
pub open spec fn frame_address(b: StructuredBuffer, frame: int) -> int {
    b.address + b.capacity * frame * b.element_size
}

/// The regions of consecutive frames follow each other: each starts one
/// frame's worth of elements after the one before.
pub proof fn lemma_frame_regions_adjacent(b: StructuredBuffer, frame: int)
    ensures
        frame_address(b, frame + 1) == frame_address(b, frame) + b.capacity * b.element_size,
{
    assert(b.capacity * (frame + 1) * b.element_size == b.capacity * frame * b.element_size + b.capacity
        * b.element_size) by (nonlinear_arith);
}

impl StructuredBuffer {
    /// The number of bytes a buffer of this shape needs.
    pub fn required_size(max_elements: usize, buffered_frames: usize, element_size: usize) -> (r: usize)
        requires
            max_elements * element_size <= usize::MAX,
            max_elements * element_size * buffered_frames <= usize::MAX,
        ensures
            r == max_elements * element_size * buffered_frames,
    {
        max_elements * element_size * buffered_frames
    }

    /// A buffer over a created device buffer at `address`, with no frame
    /// mapped.
    pub fn new(
        handle: AllocatedBuffer,
        address: VkDeviceAddress,
        max_elements: usize,
        buffered_frames: usize,
        element_size: usize,
    ) -> (r: Self)
        ensures
            r.handle == handle,
            r.address == address,
            r.capacity == max_elements,
            r.buffered_frames == buffered_frames,
            r.element_size == element_size,
            !r.mapped,
            r.frame_index == 0,
            r.count_in_frame == 0,
    {
        StructuredBuffer {
            handle,
            address,
            capacity: max_elements,
            buffered_frames,
            element_size,
            mapped: false,
            frame_index: 0,
            count_in_frame: 0,
        }
    }

    /// Forgets the buffer; returns it, for the caller to free on the GPU.
    pub fn destroy(&mut self) -> (r: AllocatedBuffer)
        ensures
            r == old(self).handle,
            final(self).address == 0,
            final(self).capacity == 0,
            final(self).buffered_frames == 0,
            !final(self).mapped,
            final(self).count_in_frame == 0,
            final(self).element_size == old(self).element_size,
            final(self).frame_index == old(self).frame_index,
            final(self).handle == old(self).handle,
    {
        self.address = 0;
        self.capacity = 0;
        self.buffered_frames = 0;
        self.mapped = false;
        self.count_in_frame = 0;
        self.handle
    }

    /// Maps the region of `frame`, with nothing written to it yet. Returns
    /// the element offset of the region in the buffer.
    pub fn map_frame(&mut self, frame: usize) -> (r: usize)
        requires
            frame < old(self).buffered_frames,
            old(self).capacity * frame <= usize::MAX,
        ensures
            r == old(self).capacity * frame,
            *final(self) == (StructuredBuffer { mapped: true, frame_index: frame, count_in_frame: 0, ..*old(self) }),
    {
        let offset = self.capacity * frame;
        self.mapped = true;
        self.frame_index = frame;
        self.count_in_frame = 0;
        offset
    }

    /// Unmaps the mapped region.
    pub fn unmap_frame(&mut self)
        ensures
            *final(self) == (StructuredBuffer { mapped: false, ..*old(self) }),
    {
        self.mapped = false;
    }

    /// The element offset, in the buffer, of the element at `index` of the
    /// mapped frame, which must already have been written once.
    pub fn write(&self, index: usize) -> (r: usize)
        requires
            self.mapped,
            index < self.capacity,
            index < self.count_in_frame,
            self.capacity * self.frame_index + index <= usize::MAX,
        ensures
            r == self.capacity * self.frame_index + index,
    {
        assert(self.capacity * self.frame_index <= usize::MAX) by (nonlinear_arith)
            requires
                self.capacity * self.frame_index + index <= usize::MAX,
        ;
        self.capacity * self.frame_index + index
    }

    /// Takes the next element of the mapped frame for writing; returns its
    /// index in the frame. At least one element of the frame is always left
    /// unused.
    pub fn write_next(&mut self) -> (r: u64)
        requires
            old(self).mapped,
            old(self).count_in_frame + 1 < old(self).capacity,
        ensures
            r == old(self).count_in_frame,
            *final(self) == (StructuredBuffer { count_in_frame: (old(self).count_in_frame + 1) as usize, ..*old(self) }),
    {
        let result = self.count_in_frame;
        self.count_in_frame = self.count_in_frame + 1;
        result as u64
    }

    /// The device address of the mapped frame's region.
    pub fn get_device_address(&self) -> (r: VkDeviceAddress)
        requires
            self.mapped,
            self.capacity * self.frame_index <= usize::MAX,
            self.capacity * self.frame_index * self.element_size <= usize::MAX,
            self.address + self.capacity * self.frame_index * self.element_size <= u64::MAX,
        ensures
            r == self.address + self.capacity * self.frame_index * self.element_size,
            r == frame_address(*self, self.frame_index as int),
    {
        let offset = self.capacity * self.frame_index * self.element_size;
        self.address + offset as u64
    }
}

} // verus!
