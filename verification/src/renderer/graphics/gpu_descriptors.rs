//! Descriptor set layouts, descriptor pools and descriptor writes.
use std::collections::VecDeque;
use vstd::prelude::*;
use crate::renderer::graphics::api::{VK_DESCRIPTOR_TYPE_COMBINED_IMAGE_SAMPLER, VK_DESCRIPTOR_TYPE_SAMPLED_IMAGE, VK_DESCRIPTOR_TYPE_SAMPLER, VK_DESCRIPTOR_TYPE_STORAGE_BUFFER, VK_DESCRIPTOR_TYPE_STORAGE_BUFFER_DYNAMIC, VK_DESCRIPTOR_TYPE_STORAGE_IMAGE, VK_DESCRIPTOR_TYPE_UNIFORM_BUFFER, VK_DESCRIPTOR_TYPE_UNIFORM_BUFFER_DYNAMIC, VkBuffer, VkDescriptorBufferInfo, VkDescriptorImageInfo, VkDescriptorPool, VkDescriptorSet, VkDescriptorSetLayoutBinding, VkImageView, VkSampler, VkWriteDescriptorSet};

verus! {

/// Whether descriptor sets of a pool may be freed one by one.
#[derive(Debug, Clone, Copy, PartialEq, Eq, Structural)]
pub enum DescriptorAllocatorFlags {
    NoFlags,
    AllowFree,
}

/// A descriptor pool.
#[derive(Debug, Clone, Copy, PartialEq, Eq, Structural)]
pub struct DescriptorAllocator {
    pub pool: VkDescriptorPool,
}

/// How many descriptors of a type a pool holds per set it can allocate; the
/// ratio is kept as the bits of an IEEE single-precision number.
#[derive(Debug, Clone, Copy, PartialEq, Eq, Structural)]
pub struct PoolSizeRatio {
    pub descriptor_type: u32,
    pub ratio_bits: u32,
}

/// Where the next descriptor set is allocated from: a pool that is ready, or
/// a new pool for the given number of sets, which the caller creates.
#[derive(Debug, Clone, Copy, PartialEq, Eq, Structural)]
pub enum PoolRequest {
    Ready(DescriptorAllocator),
    Create(u32),
}

/// The most sets a new pool of a growable allocator is made for.
pub const MAX_SETS_PER_POOL: u32 = 4092;

/// The size of the next pool after one of `n` sets was made: half as large
/// again, rounded down, but no more than the cap.
pub open spec fn grown_sets_per_pool(n: u32) -> u32 {
    if n >= 2728 {
        MAX_SETS_PER_POOL
    } else {
        (n + n / 2) as u32
    }
}

/// Each new pool is at most `MAX_SETS_PER_POOL` sets, and while the pool
/// size is within the cap it never shrinks.
pub proof fn lemma_sets_per_pool_growth(n: u32)
    ensures
        grown_sets_per_pool(n) <= MAX_SETS_PER_POOL,
        n <= MAX_SETS_PER_POOL ==> n <= grown_sets_per_pool(n),
{
}

/// The state of a growable allocator: the ratios its pools are made with,
/// the size of the next pool, and its full and ready pools in order.
pub struct GrowableState {
    pub ratios: Seq<PoolSizeRatio>,
    pub sets_per_pool: u32,
    pub full_pools: Seq<DescriptorAllocator>,
    pub ready_pools: Seq<DescriptorAllocator>,
}

/// A descriptor allocator that makes a new, larger pool whenever its pools
/// run full.
pub struct DescriptorAllocatorGrowable {
    ratios: Vec<PoolSizeRatio>,
    sets_per_pool: u32,
    full_pools: VecDeque<DescriptorAllocator>,
    ready_pools: VecDeque<DescriptorAllocator>,
}

impl View for DescriptorAllocatorGrowable {
    type V = GrowableState;

    closed spec fn view(&self) -> GrowableState {
        GrowableState {
            ratios: self.ratios@,
            sets_per_pool: self.sets_per_pool,
            full_pools: self.full_pools@,
            ready_pools: self.ready_pools@,
        }
    }
}

/// Taking the last ready pool (what `get_pool` does when a pool is ready)
/// and putting it back (what `mark_ready` does) leaves the allocator as it
/// was.
pub proof fn lemma_ready_pool_round_trip(s: GrowableState)
    requires
        s.ready_pools.len() > 0,
    ensures
        ({
            let taken = GrowableState { ready_pools: s.ready_pools.drop_last(), ..s };
            GrowableState { ready_pools: taken.ready_pools.push(s.ready_pools.last()), ..taken }
        }) == s,
{
    assert(s.ready_pools.drop_last().push(s.ready_pools.last()) =~= s.ready_pools);
}

impl DescriptorAllocatorGrowable {
    /// An allocator whose first pool, made for `sets_per_pool` sets with
    /// these ratios, is ready; the next pool is made larger.
    pub fn new(ratios: &Vec<PoolSizeRatio>, sets_per_pool: u32, first_pool: DescriptorAllocator) -> (r: Self)
        ensures
            r@.ratios == ratios@,
            r@.sets_per_pool == grown_sets_per_pool(sets_per_pool),
            r@.full_pools == Seq::<DescriptorAllocator>::empty(),
            r@.ready_pools == seq![first_pool],
    {
        let mut own_ratios: Vec<PoolSizeRatio> = Vec::new();
        let mut i: usize = 0;
        while i < ratios.len()
            invariant
                i <= ratios.len(),
                own_ratios@ == ratios@.take(i as int),
            decreases ratios.len() - i,
        {
            own_ratios.push(ratios[i]);
            assert(own_ratios@ =~= ratios@.take(i as int + 1));
            i = i + 1;
        }
        assert(ratios@.take(i as int) =~= ratios@);
        let mut result = DescriptorAllocatorGrowable {
            ratios: own_ratios,
            sets_per_pool,
            full_pools: VecDeque::new(),
            ready_pools: VecDeque::new(),
        };
        result.grow();
        result.ready_pools.push_back(first_pool);
        assert(result.ready_pools@ =~= seq![first_pool]);
        result
    }

    fn grow(&mut self)
        ensures
            final(self)@ == (GrowableState { sets_per_pool: grown_sets_per_pool(old(self)@.sets_per_pool), ..old(self)@ }),
    {
        if self.sets_per_pool >= 2728 {
            self.sets_per_pool = MAX_SETS_PER_POOL;
        } else {
            self.sets_per_pool = self.sets_per_pool + self.sets_per_pool / 2;
        }
    }

    /// The ratios new pools are made with.
    pub fn ratios(&self) -> (r: &Vec<PoolSizeRatio>)
        ensures
            r@ == self@.ratios,
    {
        &self.ratios
    }

    /// The number of sets the next new pool is made for.
    pub fn sets_per_pool(&self) -> (r: u32)
        ensures
            r == self@.sets_per_pool,
    {
        self.sets_per_pool
    }

    /// Takes the last ready pool; where none is ready, asks for a new pool
    /// of the current size and makes the next one larger.
    pub fn get_pool(&mut self) -> (r: PoolRequest)
        ensures
            old(self)@.ready_pools.len() > 0 ==> {
                &&& r == PoolRequest::Ready(old(self)@.ready_pools.last())
                &&& final(self)@ == (GrowableState { ready_pools: old(self)@.ready_pools.drop_last(), ..old(self)@ })
            },
            old(self)@.ready_pools.len() == 0 ==> {
                &&& r == PoolRequest::Create(old(self)@.sets_per_pool)
                &&& final(self)@ == (GrowableState {
                    sets_per_pool: grown_sets_per_pool(old(self)@.sets_per_pool),
                    ..old(self)@
                })
            },
    {
        match self.ready_pools.pop_back() {
            Some(pool) => {
                assert(self.ready_pools@ =~= old(self)@.ready_pools.drop_last());
                PoolRequest::Ready(pool)
            },
            None => {
                let sets = self.sets_per_pool;
                self.grow();
                PoolRequest::Create(sets)
            },
        }
    }

    /// Puts away a pool that could not allocate a set.
    pub fn mark_full(&mut self, pool: DescriptorAllocator)
        ensures
            final(self)@ == (GrowableState { full_pools: old(self)@.full_pools.push(pool), ..old(self)@ }),
    {
        self.full_pools.push_back(pool);
    }

    /// Puts back a pool that allocated a set.
    pub fn mark_ready(&mut self, pool: DescriptorAllocator)
        ensures
            final(self)@ == (GrowableState { ready_pools: old(self)@.ready_pools.push(pool), ..old(self)@ }),
    {
        self.ready_pools.push_back(pool);
    }

    fn all_pools(&self) -> (r: Vec<DescriptorAllocator>)
        ensures
            r@ == self@.ready_pools + self@.full_pools,
    {
        let mut pools: Vec<DescriptorAllocator> = Vec::new();
        let mut i: usize = 0;
        while i < self.ready_pools.len()
            invariant
                i <= self.ready_pools@.len(),
                pools@ == self.ready_pools@.take(i as int),
            decreases self.ready_pools@.len() - i,
        {
            pools.push(self.ready_pools[i]);
            assert(pools@ =~= self.ready_pools@.take(i as int + 1));
            i = i + 1;
        }
        assert(self.ready_pools@.take(i as int) =~= self.ready_pools@);
        let mut j: usize = 0;
        while j < self.full_pools.len()
            invariant
                j <= self.full_pools@.len(),
                pools@ == self.ready_pools@ + self.full_pools@.take(j as int),
            decreases self.full_pools@.len() - j,
        {
            pools.push(self.full_pools[j]);
            assert(pools@ =~= self.ready_pools@ + self.full_pools@.take(j as int + 1));
            j = j + 1;
        }
        assert(self.full_pools@.take(j as int) =~= self.full_pools@);
        pools
    }

    /// Makes every pool ready again; returns the pools to reset, the ready
    /// ones first.
    pub fn clear_pools(&mut self) -> (r: Vec<DescriptorAllocator>)
        ensures
            r@ == old(self)@.ready_pools + old(self)@.full_pools,
            final(self)@ == (GrowableState {
                ready_pools: old(self)@.ready_pools + old(self)@.full_pools,
                full_pools: Seq::<DescriptorAllocator>::empty(),
                ..old(self)@
            }),
    {
        let pools = self.all_pools();
        self.ready_pools.append(&mut self.full_pools);
        self.full_pools.clear();
        pools
    }

    /// Forgets every pool; returns the pools to destroy, the ready ones
    /// first.
    pub fn destroy_pools(&mut self) -> (r: Vec<DescriptorAllocator>)
        ensures
            r@ == old(self)@.ready_pools + old(self)@.full_pools,
            final(self)@ == (GrowableState {
                ready_pools: Seq::<DescriptorAllocator>::empty(),
                full_pools: Seq::<DescriptorAllocator>::empty(),
                ..old(self)@
            }),
    {
        let pools = self.all_pools();
        self.ready_pools.clear();
        self.full_pools.clear();
        pools
    }

    /// Same as `destroy_pools`.
    pub fn destroy(&mut self) -> (r: Vec<DescriptorAllocator>)
        ensures
            r@ == old(self)@.ready_pools + old(self)@.full_pools,
            final(self)@ == (GrowableState {
                ready_pools: Seq::<DescriptorAllocator>::empty(),
                full_pools: Seq::<DescriptorAllocator>::empty(),
                ..old(self)@
            }),
    {
        self.destroy_pools()
    }
}

/// A layout to be created: its bindings and creation flags.
pub struct DescriptorSetLayoutDesc {
    pub bindings: Vec<VkDescriptorSetLayoutBinding>,
    pub flags: u32,
}

/// One single-descriptor binding of `descriptor_type` at `binding`, visible to no stage yet.
pub open spec fn layout_binding(binding: u32, descriptor_type: u32) -> VkDescriptorSetLayoutBinding {
    VkDescriptorSetLayoutBinding { binding: binding, descriptorType: descriptor_type, descriptorCount: 1, stageFlags: 0 }
}

/// Collects the bindings of a descriptor set layout.
pub struct DescriptorLayoutBuilder {
    bindings: Vec<VkDescriptorSetLayoutBinding>,
}

impl View for DescriptorLayoutBuilder {
    type V = Seq<VkDescriptorSetLayoutBinding>;

    closed spec fn view(&self) -> Seq<VkDescriptorSetLayoutBinding> {
        self.bindings@
    }
}

impl DescriptorLayoutBuilder {
    /// A builder with no bindings.
    pub fn new() -> (r: Self)
        ensures
            r@ == Seq::<VkDescriptorSetLayoutBinding>::empty(),
    {
        DescriptorLayoutBuilder { bindings: Vec::new() }
    }

    /// Appends a single-descriptor binding.
    pub fn add_binding(&mut self, binding: u32, descriptor_type: u32) -> (r: &mut Self)
        ensures
            r@ == old(self)@.push(layout_binding(binding, descriptor_type)),
            *final(self) == *final(r),
    {
        let b = VkDescriptorSetLayoutBinding { binding, descriptorType: descriptor_type, descriptorCount: 1, stageFlags: 0 };
        self.bindings.push(b);
        self
    }

    /// Removes every binding.
    pub fn clear(&mut self)
        ensures
            final(self)@ == Seq::<VkDescriptorSetLayoutBinding>::empty(),
    {
        self.bindings.clear();
    }

    /// Makes every binding visible to `stages` (keeping the stages it had) and
    /// returns the layout to create with `flags`.
    pub fn build(&mut self, stages: u32, flags: u32) -> (r: DescriptorSetLayoutDesc)
        ensures
            final(self)@.len() == old(self)@.len(),
            forall|k: int| 0 <= k < old(self)@.len() ==> #[trigger] final(self)@[k] == (VkDescriptorSetLayoutBinding {
                stageFlags: old(self)@[k].stageFlags | stages,
                ..old(self)@[k]
            }),
            r.bindings@ == final(self)@,
            r.flags == flags,
    {
        let mut k: usize = 0;
        while k < self.bindings.len()
            invariant
                k <= self.bindings@.len(),
                self.bindings@.len() == old(self)@.len(),
                forall|j: int| 0 <= j < k ==> #[trigger] self.bindings@[j] == (VkDescriptorSetLayoutBinding {
                    stageFlags: old(self)@[j].stageFlags | stages,
                    ..old(self)@[j]
                }),
                forall|j: int| k <= j < self.bindings@.len() ==> #[trigger] self.bindings@[j] == old(self)@[j],
            decreases self.bindings@.len() - k,
        {
            let mut b = self.bindings[k];
            b.stageFlags = b.stageFlags | stages;
            self.bindings.set(k, b);
            k = k + 1;
        }
        let mut copy: Vec<VkDescriptorSetLayoutBinding> = Vec::new();
        let mut j: usize = 0;
        while j < self.bindings.len()
            invariant
                j <= self.bindings@.len(),
                copy@ == self.bindings@.subrange(0, j as int),
            decreases self.bindings@.len() - j,
        {
            copy.push(self.bindings[j]);
            j = j + 1;
            assert(copy@ =~= self.bindings@.subrange(0, j as int));
        }
        assert(copy@ =~= self.bindings@);
        DescriptorSetLayoutDesc { bindings: copy, flags }
    }
}

/// Whether `t` is a descriptor type that refers to an image or a sampler.
pub open spec fn is_image_descriptor_type(t: u32) -> bool {
    t == VK_DESCRIPTOR_TYPE_SAMPLER || t == VK_DESCRIPTOR_TYPE_SAMPLED_IMAGE
        || t == VK_DESCRIPTOR_TYPE_COMBINED_IMAGE_SAMPLER || t == VK_DESCRIPTOR_TYPE_STORAGE_IMAGE
}

/// Whether `t` is a descriptor type that refers to a buffer.
pub open spec fn is_buffer_descriptor_type(t: u32) -> bool {
    t == VK_DESCRIPTOR_TYPE_UNIFORM_BUFFER || t == VK_DESCRIPTOR_TYPE_STORAGE_BUFFER
        || t == VK_DESCRIPTOR_TYPE_UNIFORM_BUFFER_DYNAMIC || t == VK_DESCRIPTOR_TYPE_STORAGE_BUFFER_DYNAMIC
}

/// The write of one image descriptor at `binding`, for no set yet.
pub open spec fn image_write(binding: u32, info: VkDescriptorImageInfo, descriptor_type: u32) -> VkWriteDescriptorSet {
    VkWriteDescriptorSet {
        sType: 0,
        dstSet: 0,
        dstBinding: binding,
        dstArrayElement: 0,
        descriptorCount: 1,
        descriptorType: descriptor_type,
        imageInfo: Some(info),
        bufferInfo: None,
    }
}

/// The write of one buffer descriptor at `binding`, for no set yet.
pub open spec fn buffer_write(binding: u32, info: VkDescriptorBufferInfo, descriptor_type: u32) -> VkWriteDescriptorSet {
    VkWriteDescriptorSet {
        sType: 0,
        dstSet: 0,
        dstBinding: binding,
        dstArrayElement: 0,
        descriptorCount: 1,
        descriptorType: descriptor_type,
        imageInfo: None,
        bufferInfo: Some(info),
    }
}

/// What a descriptor writer holds: the image and buffer infos and the writes, in order.
pub ghost struct DescriptorWriterState {
    pub image_infos: Seq<VkDescriptorImageInfo>,
    pub buffer_infos: Seq<VkDescriptorBufferInfo>,
    pub writes: Seq<VkWriteDescriptorSet>,
}

/// Collects descriptor writes to apply to a set.
pub struct DescriptorWriter {
    image_infos: VecDeque<VkDescriptorImageInfo>,
    buffer_infos: VecDeque<VkDescriptorBufferInfo>,
    writes: Vec<VkWriteDescriptorSet>,
}

impl View for DescriptorWriter {
    type V = DescriptorWriterState;

    closed spec fn view(&self) -> DescriptorWriterState {
        DescriptorWriterState { image_infos: self.image_infos@, buffer_infos: self.buffer_infos@, writes: self.writes@ }
    }
}

impl DescriptorWriter {
    /// A writer with nothing to write.
    pub fn new() -> (r: Self)
        ensures
            r@.image_infos == Seq::<VkDescriptorImageInfo>::empty(),
            r@.buffer_infos == Seq::<VkDescriptorBufferInfo>::empty(),
            r@.writes == Seq::<VkWriteDescriptorSet>::empty(),
    {
        DescriptorWriter { image_infos: VecDeque::new(), buffer_infos: VecDeque::new(), writes: Vec::new() }
    }

    /// The writes collected so far.
    pub fn writes(&self) -> (r: &Vec<VkWriteDescriptorSet>)
        ensures
            r@ == self@.writes,
    {
        &self.writes
    }

    /// Writes a sampler at `binding`.
    pub fn write_sampler(&mut self, binding: u32, sampler: VkSampler)
        ensures
            final(self)@.image_infos == old(self)@.image_infos.push(VkDescriptorImageInfo { sampler: sampler, imageView: 0, imageLayout: 0 }),
            final(self)@.buffer_infos == old(self)@.buffer_infos,
            final(self)@.writes == old(self)@.writes.push(image_write(
                binding,
                VkDescriptorImageInfo { sampler: sampler, imageView: 0, imageLayout: 0 },
                VK_DESCRIPTOR_TYPE_SAMPLER,
            )),
    {
        self.write_image(binding, 0, sampler, 0, VK_DESCRIPTOR_TYPE_SAMPLER);
    }

    /// Writes a sampled image view in `layout` at `binding`.
    pub fn write_sampled_image(&mut self, binding: u32, image: VkImageView, layout: u32)
        ensures
            final(self)@.image_infos == old(self)@.image_infos.push(VkDescriptorImageInfo { sampler: 0, imageView: image, imageLayout: layout }),
            final(self)@.buffer_infos == old(self)@.buffer_infos,
            final(self)@.writes == old(self)@.writes.push(image_write(
                binding,
                VkDescriptorImageInfo { sampler: 0, imageView: image, imageLayout: layout },
                VK_DESCRIPTOR_TYPE_SAMPLED_IMAGE,
            )),
    {
        self.write_image(binding, image, 0, layout, VK_DESCRIPTOR_TYPE_SAMPLED_IMAGE);
    }

    /// Writes a storage image view in `layout` at `binding`.
    pub fn write_storage_image(&mut self, binding: u32, image: VkImageView, layout: u32)
        ensures
            final(self)@.image_infos == old(self)@.image_infos.push(VkDescriptorImageInfo { sampler: 0, imageView: image, imageLayout: layout }),
            final(self)@.buffer_infos == old(self)@.buffer_infos,
            final(self)@.writes == old(self)@.writes.push(image_write(
                binding,
                VkDescriptorImageInfo { sampler: 0, imageView: image, imageLayout: layout },
                VK_DESCRIPTOR_TYPE_STORAGE_IMAGE,
            )),
    {
        self.write_image(binding, image, 0, layout, VK_DESCRIPTOR_TYPE_STORAGE_IMAGE);
    }

    /// Writes an image view with its sampler, in `layout`, at `binding`.
    pub fn write_combined_image_sampler(&mut self, binding: u32, image: VkImageView, sampler: VkSampler, layout: u32)
        ensures
            final(self)@.image_infos == old(self)@.image_infos.push(VkDescriptorImageInfo { sampler: sampler, imageView: image, imageLayout: layout }),
            final(self)@.buffer_infos == old(self)@.buffer_infos,
            final(self)@.writes == old(self)@.writes.push(image_write(
                binding,
                VkDescriptorImageInfo { sampler: sampler, imageView: image, imageLayout: layout },
                VK_DESCRIPTOR_TYPE_COMBINED_IMAGE_SAMPLER,
            )),
    {
        self.write_image(binding, image, sampler, layout, VK_DESCRIPTOR_TYPE_COMBINED_IMAGE_SAMPLER);
    }

    /// Records an image descriptor write; the type must be an image or sampler type.
    pub fn write_image(&mut self, binding: u32, image: VkImageView, sampler: VkSampler, layout: u32, descriptor_type: u32)
        requires
            is_image_descriptor_type(descriptor_type),
        ensures
            final(self)@.image_infos == old(self)@.image_infos.push(VkDescriptorImageInfo { sampler: sampler, imageView: image, imageLayout: layout }),
            final(self)@.buffer_infos == old(self)@.buffer_infos,
            final(self)@.writes == old(self)@.writes.push(image_write(
                binding,
                VkDescriptorImageInfo { sampler: sampler, imageView: image, imageLayout: layout },
                descriptor_type,
            )),
    {
        let info = VkDescriptorImageInfo { sampler, imageView: image, imageLayout: layout };
        self.image_infos.push_back(info);
        let write = VkWriteDescriptorSet {
            sType: 0,
            dstSet: 0,
            dstBinding: binding,
            dstArrayElement: 0,
            descriptorCount: 1,
            descriptorType: descriptor_type,
            imageInfo: Some(info),
            bufferInfo: None,
        };
        self.writes.push(write);
    }

    /// Records a buffer descriptor write of `size` bytes at `offset`; the type
    /// must be a uniform or storage buffer type.
    pub fn write_buffer(&mut self, binding: u32, buffer: VkBuffer, size: u64, offset: u64, descriptor_type: u32)
        requires
            is_buffer_descriptor_type(descriptor_type),
        ensures
            final(self)@.image_infos == old(self)@.image_infos,
            final(self)@.buffer_infos == old(self)@.buffer_infos.push(VkDescriptorBufferInfo { buffer: buffer, offset: offset, range: size }),
            final(self)@.writes == old(self)@.writes.push(buffer_write(
                binding,
                VkDescriptorBufferInfo { buffer: buffer, offset: offset, range: size },
                descriptor_type,
            )),
    {
        let info = VkDescriptorBufferInfo { buffer, offset, range: size };
        self.buffer_infos.push_back(info);
        let write = VkWriteDescriptorSet {
            sType: 0,
            dstSet: 0,
            dstBinding: binding,
            dstArrayElement: 0,
            descriptorCount: 1,
            descriptorType: descriptor_type,
            imageInfo: None,
            bufferInfo: Some(info),
        };
        self.writes.push(write);
    }

    /// Forgets every write and info.
    pub fn clear(&mut self)
        ensures
            final(self)@.image_infos == Seq::<VkDescriptorImageInfo>::empty(),
            final(self)@.buffer_infos == Seq::<VkDescriptorBufferInfo>::empty(),
            final(self)@.writes == Seq::<VkWriteDescriptorSet>::empty(),
    {
        self.writes.clear();
        self.buffer_infos.clear();
        self.image_infos.clear();
    }

    /// Directs every collected write at `set`; the writes are then applied with
    /// one descriptor update.
    pub fn update_set(&mut self, set: VkDescriptorSet)
        ensures
            final(self)@.image_infos == old(self)@.image_infos,
            final(self)@.buffer_infos == old(self)@.buffer_infos,
            final(self)@.writes.len() == old(self)@.writes.len(),
            forall|k: int| 0 <= k < old(self)@.writes.len() ==> #[trigger] final(self)@.writes[k] == (VkWriteDescriptorSet {
                dstSet: set,
                ..old(self)@.writes[k]
            }),
    {
        let mut k: usize = 0;
        while k < self.writes.len()
            invariant
                k <= self.writes@.len(),
                self.writes@.len() == old(self)@.writes.len(),
                self.image_infos@ == old(self)@.image_infos,
                self.buffer_infos@ == old(self)@.buffer_infos,
                forall|j: int| 0 <= j < k ==> #[trigger] self.writes@[j] == (VkWriteDescriptorSet { dstSet: set, ..old(self)@.writes[j] }),
                forall|j: int| k <= j < self.writes@.len() ==> #[trigger] self.writes@[j] == old(self)@.writes[j],
            decreases self.writes@.len() - k,
        {
            let mut w = self.writes[k];
            w.dstSet = set;
            self.writes.set(k, w);
            k = k + 1;
        }
    }
}

} // verus!
