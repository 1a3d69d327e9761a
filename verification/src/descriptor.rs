//! Descriptor pools and sets: one pool sized by a descriptor-type
//! histogram, one or more (layout, set) pairs drawn from it, and
//! out-of-band binding updates that write exactly one descriptor.

use vstd::prelude::*;

use crate::device::{Device, Event, device_identity};
use crate::flags::ImageLayout;

verus! {

/// One declared binding of a set layout.
#[derive(Clone, Copy, Debug, PartialEq, Eq, Structural)]
pub struct LayoutBinding {
    pub binding: u32,
    pub descriptor_type: u32,
    pub descriptor_count: u32,
    pub stage_flags: u32,
}

/// A buffer bound into a descriptor slot.
#[derive(Clone, Copy, Debug, PartialEq, Eq, Structural)]
pub struct DescriptorBufferInfo {
    pub buffer: u64,
    pub offset: u64,
    pub range: u64,
}

/// An image view (with optional sampler) bound into a descriptor slot.
#[derive(Clone, Copy, Debug, PartialEq, Eq, Structural)]
pub struct DescriptorImageInfo {
    pub image_view: u64,
    pub sampler: Option<u64>,
    pub image_layout: ImageLayout,
}

/// A pool sized by (descriptor type, count) pairs and a maximum set count.
#[derive(Debug)]
pub struct DescriptorPool {
    pub descriptor_pool: u64,
    pub pool_sizes: Vec<(u32, u32)>,
    pub max_sets: u32,
}

impl DescriptorPool {
    /// Creates a pool that can serve `max_set` sets drawing descriptors
    /// from the given type histogram.
    pub fn new(device: &mut Device, descriptor_types: Vec<(u32, u32)>, max_set: u32) -> (r:
        DescriptorPool)
        requires
            old(device).next_id < u64::MAX,
        ensures
            r.descriptor_pool == old(device).next_id,
            r.pool_sizes@ == descriptor_types@,
            r.max_sets == max_set,
            final(device).next_id == old(device).next_id + 1,
            final(device).events@ == old(device).events@.push(
                Event::CreateDescriptorPool { handle: r.descriptor_pool },
            ),
            device_identity(*old(device), *final(device)),
    {
        let handle = device.fresh_id();
        device.record(Event::CreateDescriptorPool { handle });
        DescriptorPool { descriptor_pool: handle, pool_sizes: descriptor_types, max_sets: max_set }
    }

    /// Destroys the pool, and with it every set drawn from it.
    pub fn destroy(self, device: &mut Device)
        ensures
            final(device).next_id == old(device).next_id,
            final(device).events@ == old(device).events@.push(
                Event::DestroyDescriptorPool { handle: self.descriptor_pool },
            ),
            device_identity(*old(device), *final(device)),
    {
        device.record(Event::DestroyDescriptorPool { handle: self.descriptor_pool });
    }
}

/// One pool and the (layout, set) pairs drawn from it, with the binding
/// declarations of the first layout kept for update-time type lookup.
#[derive(Debug)]
pub struct DescriptorSet {
    pub descriptor_set: Vec<u64>,
    pub descriptor_set_layout: Vec<u64>,
    pub descriptor_pool: DescriptorPool,
    pub bindings_info: Vec<LayoutBinding>,
}

impl DescriptorSet {
    /// Creates the pool, one layout from the declared bindings, and one
    /// set allocated from the pool against that layout.
    pub fn new(
        device: &mut Device,
        descriptor_types: Vec<(u32, u32)>,
        max_set: u32,
        bindings: Vec<LayoutBinding>,
    ) -> (r: DescriptorSet)
        requires
            old(device).next_id + 3 <= u64::MAX,
        ensures
            r.descriptor_pool.descriptor_pool == old(device).next_id,
            r.descriptor_pool.pool_sizes@ == descriptor_types@,
            r.descriptor_pool.max_sets == max_set,
            r.descriptor_set_layout@ == seq![(old(device).next_id + 1) as u64],
            r.descriptor_set@ == seq![(old(device).next_id + 2) as u64],
            r.bindings_info@ == bindings@,
            final(device).next_id == old(device).next_id + 3,
            final(device).events@ == old(device).events@ + seq![
                Event::CreateDescriptorPool { handle: old(device).next_id },
                Event::CreateDescriptorSetLayout { handle: (old(device).next_id + 1) as u64 },
                Event::AllocateDescriptorSet { handle: (old(device).next_id + 2) as u64 },
            ],
            device_identity(*old(device), *final(device)),
    {
        let descriptor_pool = DescriptorPool::new(device, descriptor_types, max_set);
        let layout = device.fresh_id();
        device.record(Event::CreateDescriptorSetLayout { handle: layout });
        let set = device.fresh_id();
        device.record(Event::AllocateDescriptorSet { handle: set });
        let mut descriptor_set_layout: Vec<u64> = Vec::new();
        descriptor_set_layout.push(layout);
        let mut descriptor_set: Vec<u64> = Vec::new();
        descriptor_set.push(set);
        proof {
            assert(final(device).events@ =~= old(device).events@ + seq![
                Event::CreateDescriptorPool { handle: old(device).next_id },
                Event::CreateDescriptorSetLayout { handle: (old(device).next_id + 1) as u64 },
                Event::AllocateDescriptorSet { handle: (old(device).next_id + 2) as u64 },
            ]);
            assert(descriptor_set_layout@ =~= seq![(old(device).next_id + 1) as u64]);
            assert(descriptor_set@ =~= seq![(old(device).next_id + 2) as u64]);
        }
        DescriptorSet { descriptor_set, descriptor_set_layout, descriptor_pool, bindings_info: bindings }
    }

    /// Appends another (layout, set) pair drawn from the same pool. The
    /// pool's histogram was fixed at creation: the caller answers for it
    /// covering every set ever appended. The binding declarations kept for
    /// update-time lookup stay those of the first layout.
    pub fn create_another_set(&mut self, device: &mut Device, bindings: Vec<LayoutBinding>)
        requires
            old(device).next_id + 2 <= u64::MAX,
        ensures
            final(self).descriptor_set_layout@ == old(self).descriptor_set_layout@.push(
                old(device).next_id,
            ),
            final(self).descriptor_set@ == old(self).descriptor_set@.push(
                (old(device).next_id + 1) as u64,
            ),
            final(self).descriptor_pool == old(self).descriptor_pool,
            final(self).bindings_info@ == old(self).bindings_info@,
            final(device).next_id == old(device).next_id + 2,
            final(device).events@ == old(device).events@ + seq![
                Event::CreateDescriptorSetLayout { handle: old(device).next_id },
                Event::AllocateDescriptorSet { handle: (old(device).next_id + 1) as u64 },
            ],
            device_identity(*old(device), *final(device)),
    {
        let _ = bindings;
        let layout = device.fresh_id();
        device.record(Event::CreateDescriptorSetLayout { handle: layout });
        let set = device.fresh_id();
        device.record(Event::AllocateDescriptorSet { handle: set });
        self.descriptor_set_layout.push(layout);
        self.descriptor_set.push(set);
        proof {
            assert(final(device).events@ =~= old(device).events@ + seq![
                Event::CreateDescriptorSetLayout { handle: old(device).next_id },
                Event::AllocateDescriptorSet { handle: (old(device).next_id + 1) as u64 },
            ]);
        }
    }

    /// Performs exactly one descriptor write: into set `dst_set` at
    /// binding `dst_binding`, with the descriptor type that binding
    /// declared at construction. Whether the buffer or the image list is
    /// honored follows from that declared type; handing the wrong kind is
    /// a caller error that is not validated here.
    pub fn update_descriptor_set(
        &self,
        device: &mut Device,
        dst_set: u32,
        dst_binding: u32,
        buffer_info: Option<Vec<DescriptorBufferInfo>>,
        image_info: Option<Vec<DescriptorImageInfo>>,
    )
        requires
            dst_set < self.descriptor_set@.len(),
            dst_binding < self.bindings_info@.len(),
        ensures
            final(device).next_id == old(device).next_id,
            final(device).events@ == old(device).events@.push(
                Event::UpdateDescriptorSet {
                    set: self.descriptor_set@[dst_set as int],
                    binding: dst_binding,
                    descriptor_type: self.bindings_info@[dst_binding as int].descriptor_type,
                },
            ),
            device_identity(*old(device), *final(device)),
    {
        let _ = buffer_info;
        let _ = image_info;
        let set = self.descriptor_set[dst_set as usize];
        let descriptor_type = self.bindings_info[dst_binding as usize].descriptor_type;
        device.record(
            Event::UpdateDescriptorSet { set, binding: dst_binding, descriptor_type },
        );
    }

    /// Destroys the layouts this set object created; the sets themselves
    /// go with the pool.
    pub fn destroy(self, device: &mut Device)
        ensures
            final(device).next_id == old(device).next_id,
            final(device).events@ == old(device).events@ + Seq::new(
                self.descriptor_set_layout@.len(),
                |i: int| Event::DestroyDescriptorSetLayout {
                    handle: self.descriptor_set_layout@[i],
                },
            ).push(Event::DestroyDescriptorPool { handle: self.descriptor_pool.descriptor_pool }),
            device_identity(*old(device), *final(device)),
    {
        let DescriptorSet { descriptor_set_layout, descriptor_pool, .. } = self;
        let ghost base = device.events@;
        let count = descriptor_set_layout.len();
        let mut i: usize = 0;
        while i < count
            invariant
                i <= count,
                count == descriptor_set_layout@.len(),
                device.next_id == old(device).next_id,
                device.events@ == base + Seq::new(
                    i as nat,
                    |j: int| Event::DestroyDescriptorSetLayout {
                        handle: descriptor_set_layout@[j],
                    },
                ),
                device_identity(*old(device), *device),
            decreases count - i,
        {
            let handle = descriptor_set_layout[i];
            device.record(Event::DestroyDescriptorSetLayout { handle });
            proof {
                assert(device.events@ =~= base + Seq::new(
                    (i + 1) as nat,
                    |j: int| Event::DestroyDescriptorSetLayout {
                        handle: descriptor_set_layout@[j],
                    },
                ));
            }
            i = i + 1;
        }
        descriptor_pool.destroy(device);
    }
}

} // verus!
