//! The logical device model: queue-family selection, queue handles, the
//! sub-allocating memory pool, and the ordered log of every driver-visible
//! action the resource layer takes. The log is the ground truth that the
//! destruction-ordering contracts speak about.

use vstd::prelude::*;

use crate::flags::{ImageLayout, QUEUE_COMPUTE, QUEUE_GRAPHICS, QUEUE_TRANSFER};

verus! {

/// One driver-visible action, in the order the device receives them.
#[derive(Clone, Copy, Debug, PartialEq, Eq, Structural)]
pub enum Event {
    /// A sub-allocation handed out by the memory pool.
    Alloc { block: u64 },
    /// A sub-allocation returned to the memory pool.
    Dealloc { block: u64 },
    CreateBuffer { handle: u64 },
    DestroyBuffer { handle: u64 },
    CreateImage { handle: u64 },
    DestroyImage { handle: u64 },
    CreateImageView { handle: u64 },
    DestroyImageView { handle: u64 },
    CreateSampler { handle: u64 },
    DestroySampler { handle: u64 },
    CreateCommandPool { handle: u64 },
    DestroyCommandPool { handle: u64 },
    AllocateCommandBuffer { handle: u64 },
    FreeCommandBuffer { handle: u64 },
    CreateFence { handle: u64 },
    DestroyFence { handle: u64 },
    CreateSemaphore { handle: u64 },
    DestroySemaphore { handle: u64 },
    CreateDescriptorPool { handle: u64 },
    DestroyDescriptorPool { handle: u64 },
    CreateDescriptorSetLayout { handle: u64 },
    DestroyDescriptorSetLayout { handle: u64 },
    AllocateDescriptorSet { handle: u64 },
    UpdateDescriptorSet { set: u64, binding: u32, descriptor_type: u32 },
    CreateShaderModule { handle: u64 },
    DestroyShaderModule { handle: u64 },
    CreatePipelineLayout { handle: u64 },
    DestroyPipelineLayout { handle: u64 },
    CreatePipeline { handle: u64 },
    DestroyPipeline { handle: u64 },
    CreateRenderPass { handle: u64 },
    DestroyRenderPass { handle: u64 },
    CreateSwapchain { handle: u64 },
    DestroySwapchain { handle: u64 },
    CreateFramebuffer { handle: u64 },
    DestroyFramebuffer { handle: u64 },
    /// A recorded buffer-to-buffer copy region.
    CopyBuffer { src: u64, dst: u64, src_offset: u64, dst_offset: u64, size: u64 },
    CopyBufferToImage { src: u64, dst: u64 },
    CopyImageToBuffer { src: u64, dst: u64 },
    CopyImage { src: u64, dst: u64 },
    /// A recorded image-layout transition barrier.
    LayoutBarrier { image: u64, old_layout: ImageLayout, new_layout: ImageLayout },
    /// A synchronous submission to a queue.
    Submit { queue: u32 },
    /// Blocking until a queue drains.
    WaitQueueIdle { queue: u32 },
    /// Blocking until the whole device drains.
    WaitDeviceIdle,
    /// Draining and cleaning the memory pool.
    AllocatorCleanup,
    /// Destroying the logical device handle.
    DestroyDevice,
}

/// An opaque sub-allocation handle from the memory pool, owned exclusively
/// by the buffer or image that requested it. It must go back to the pool
/// before that owner's native handle is destroyed.
#[derive(Clone, Copy, Debug, PartialEq, Eq, Structural)]
pub struct MemoryBlock {
    pub id: u64,
    pub size: u64,
}

/// What one queue family of a physical device offers.
#[derive(Clone, Copy, Debug, PartialEq, Eq, Structural)]
pub struct QueueFamilyProps {
    pub queue_count: u32,
    pub queue_flags: u32,
}

/// The queue-family search result: the index of a family with graphics,
/// compute and transfer capability, if one exists.
#[derive(Clone, Copy, Debug, PartialEq, Eq, Structural)]
pub struct QueueFamilyIndices {
    pub family_index: Option<u32>,
}

impl QueueFamilyIndices {
    /// Whether a suitable queue family was found.
    pub fn is_complete(&self) -> (r: bool)
        ensures
            r == self.family_index is Some,
    {
        self.family_index.is_some()
    }
}

/// A family can drive this engine when it has at least one queue and
/// carries graphics, transfer and compute capability all at once.
pub open spec fn family_suitable(f: QueueFamilyProps) -> bool {
    f.queue_count > 0 && f.queue_flags & QUEUE_GRAPHICS != 0 && f.queue_flags & QUEUE_TRANSFER
        != 0 && f.queue_flags & QUEUE_COMPUTE != 0
}

/// A physical device is suitable when one of its families is.
pub open spec fn device_suitable(families: Seq<QueueFamilyProps>) -> bool {
    exists|i: int| 0 <= i < families.len() && family_suitable(#[trigger] families[i])
}

/// Scans the queue families for the first one with graphics, transfer and
/// compute capability together; there is no multi-family fallback.
pub fn find_queue_family(families: &Vec<QueueFamilyProps>) -> (r: QueueFamilyIndices)
    requires
        families@.len() <= u32::MAX,
    ensures
        r.family_index is Some <==> device_suitable(families@),
        r.family_index matches Some(i) ==> 0 <= i < families@.len() && family_suitable(
            families@[i as int],
        ) && forall|j: int| 0 <= j < i ==> !family_suitable(#[trigger] families@[j]),
{
    let mut queue_family_indices = QueueFamilyIndices { family_index: None };
    let mut index: usize = 0;
    while index < families.len()
        invariant
            index <= families@.len(),
            families@.len() <= u32::MAX,
            queue_family_indices.family_index is None,
            forall|j: int| 0 <= j < index ==> !family_suitable(#[trigger] families@[j]),
        decreases families@.len() - index,
    {
        let queue_family = families[index];
        if queue_family.queue_count > 0 && queue_family.queue_flags & QUEUE_GRAPHICS != 0
            && queue_family.queue_flags & QUEUE_TRANSFER != 0 && queue_family.queue_flags
            & QUEUE_COMPUTE != 0 {
            queue_family_indices.family_index = Some(index as u32);
            return queue_family_indices;
        }
        index = index + 1;
    }
    queue_family_indices
}

/// Picks the first physical device that exposes a suitable queue family;
/// `None` when no device can drive the engine, which is fatal upstream.
pub fn pick_physical_device(physical_devices: &Vec<Vec<QueueFamilyProps>>) -> (r: Option<
    usize,
>)
    requires
        forall|i: int|
            0 <= i < physical_devices@.len() ==> (#[trigger] physical_devices@[i])@.len()
                <= u32::MAX,
    ensures
        r is Some <==> exists|i: int|
            0 <= i < physical_devices@.len() && device_suitable(
                (#[trigger] physical_devices@[i])@,
            ),
        r matches Some(d) ==> 0 <= d < physical_devices@.len() && device_suitable(
            physical_devices@[d as int]@,
        ) && forall|j: int|
            0 <= j < d ==> !device_suitable((#[trigger] physical_devices@[j])@),
{
    let mut index: usize = 0;
    while index < physical_devices.len()
        invariant
            index <= physical_devices@.len(),
            forall|i: int|
                0 <= i < physical_devices@.len() ==> (#[trigger] physical_devices@[i])@.len()
                    <= u32::MAX,
            forall|j: int|
                0 <= j < index ==> !device_suitable((#[trigger] physical_devices@[j])@),
        decreases physical_devices@.len() - index,
    {
        let indices = find_queue_family(&physical_devices[index]);
        if indices.is_complete() {
            return Some(index);
        }
        index = index + 1;
    }
    None
}

/// The queue slot each role uses within the family: the first four queues,
/// each clamped to the family's queue count.
pub fn device_queue_indices(queue_count: u32) -> (r: (u32, u32, u32, u32))
    ensures
        r.0 == 0,
        r.1 == if 1 <= queue_count { 1u32 } else { queue_count },
        r.2 == if 2 <= queue_count { 2u32 } else { queue_count },
        r.3 == if 3 <= queue_count { 3u32 } else { queue_count },
{
    let graphic = if 0 <= queue_count { 0 } else { queue_count };
    let compute = if 1 <= queue_count { 1 } else { queue_count };
    let transfer = if 2 <= queue_count { 2 } else { queue_count };
    let present = if 3 <= queue_count { 3 } else { queue_count };
    (graphic, compute, transfer, present)
}

/// The logical device: the chosen physical device and queue family, the
/// four (possibly aliased) queue slots, the memory pool's id counter, and
/// the ordered log of driver-visible actions.
#[derive(Debug)]
pub struct Device {
    pub physical_device: usize,
    pub queue_family_index: u32,
    pub graphic_queue: u32,
    pub compute_queue: u32,
    pub transfer_queue: u32,
    pub present_queue: u32,
    pub next_id: u64,
    pub events: Vec<Event>,
}

/// True when `a` and `b` are the same device but for its id counter and
/// its log: the selection results never change after construction.
pub open spec fn device_identity(a: Device, b: Device) -> bool {
    a.physical_device == b.physical_device && a.queue_family_index == b.queue_family_index
        && a.graphic_queue == b.graphic_queue && a.compute_queue == b.compute_queue
        && a.transfer_queue == b.transfer_queue && a.present_queue == b.present_queue
}

impl Device {
    /// Selects the first suitable physical device and its first suitable
    /// queue family, and assigns the four queue roles. The caller must have
    /// checked that some device is suitable; without one, startup is fatal.
    pub fn new(
        physical_devices: &Vec<Vec<QueueFamilyProps>>,
    ) -> (r: Device)
        requires
            exists|i: int|
                0 <= i < physical_devices@.len() && device_suitable(
                    (#[trigger] physical_devices@[i])@,
                ),
            forall|i: int|
                0 <= i < physical_devices@.len() ==> (#[trigger] physical_devices@[i])@.len()
                    <= u32::MAX,
        ensures
            r.physical_device < physical_devices@.len(),
            device_suitable(physical_devices@[r.physical_device as int]@),
            forall|j: int|
                0 <= j < r.physical_device ==> !device_suitable(
                    (#[trigger] physical_devices@[j])@,
                ),
            ({
                let fams = physical_devices@[r.physical_device as int]@;
                &&& r.queue_family_index < fams.len()
                &&& family_suitable(fams[r.queue_family_index as int])
                &&& forall|j: int|
                    0 <= j < r.queue_family_index ==> !family_suitable(#[trigger] fams[j])
                &&& {
                    let qc = fams[r.queue_family_index as int].queue_count;
                    &&& r.graphic_queue == 0
                    &&& r.compute_queue == if 1 <= qc { 1u32 } else { qc }
                    &&& r.transfer_queue == if 2 <= qc { 2u32 } else { qc }
                    &&& r.present_queue == if 3 <= qc { 3u32 } else { qc }
                }
            }),
            r.events@ =~= Seq::<Event>::empty(),
            r.next_id == 1,
    {
        let picked = pick_physical_device(physical_devices);
        let physical_device = picked.unwrap();
        let indices = find_queue_family(&physical_devices[physical_device]);
        let queue_family_index = indices.family_index.unwrap();
        let queue_count = physical_devices[physical_device][queue_family_index as usize]
            .queue_count;
        let (graphic_queue, compute_queue, transfer_queue, present_queue) =
            device_queue_indices(queue_count);
        Device {
            physical_device,
            queue_family_index,
            graphic_queue,
            compute_queue,
            transfer_queue,
            present_queue,
            next_id: 1,
            events: Vec::new(),
        }
    }

    /// Hands out the next unused handle or block id.
    pub fn fresh_id(&mut self) -> (id: u64)
        requires
            old(self).next_id < u64::MAX,
        ensures
            id == old(self).next_id,
            final(self).next_id == old(self).next_id + 1,
            final(self).events == old(self).events,
            device_identity(*old(self), *final(self)),
    {
        let id = self.next_id;
        self.next_id = self.next_id + 1;
        id
    }

    /// Appends one action to the device log.
    pub fn record(&mut self, event: Event)
        ensures
            final(self).events@ == old(self).events@.push(event),
            final(self).next_id == old(self).next_id,
            device_identity(*old(self), *final(self)),
    {
        self.events.push(event);
    }

    /// One serialized request to the memory pool: a fresh block of exactly
    /// the requested size, logged in order.
    pub fn alloc_block(&mut self, size: u64) -> (b: MemoryBlock)
        requires
            old(self).next_id < u64::MAX,
        ensures
            b.id == old(self).next_id,
            b.size == size,
            final(self).next_id == old(self).next_id + 1,
            final(self).events@ == old(self).events@.push(Event::Alloc { block: b.id }),
            device_identity(*old(self), *final(self)),
    {
        let id = self.fresh_id();
        self.record(Event::Alloc { block: id });
        MemoryBlock { id, size }
    }

    /// Returns a block to the memory pool, logged in order.
    pub fn dealloc_block(&mut self, block: MemoryBlock)
        ensures
            final(self).next_id == old(self).next_id,
            final(self).events@ == old(self).events@.push(Event::Dealloc { block: block.id }),
            device_identity(*old(self), *final(self)),
    {
        self.record(Event::Dealloc { block: block.id });
    }

    /// Blocks until the device is fully idle, as the stop-the-world resize
    /// path does before tearing anything down.
    pub fn wait_idle(&mut self)
        ensures
            final(self).next_id == old(self).next_id,
            final(self).events@ == old(self).events@.push(Event::WaitDeviceIdle),
            device_identity(*old(self), *final(self)),
    {
        self.record(Event::WaitDeviceIdle);
    }

    /// Teardown, in the mandatory order: the memory pool is drained and
    /// cleaned strictly before the logical device handle is destroyed.
    /// Returns the complete log of the device's life.
    pub fn destroy(self) -> (log: Vec<Event>)
        ensures
            log@ == self.events@ + seq![Event::AllocatorCleanup, Event::DestroyDevice],
    {
        let mut log = self.events;
        log.push(Event::AllocatorCleanup);
        log.push(Event::DestroyDevice);
        proof {
            assert(log@ =~= self.events@ + seq![Event::AllocatorCleanup, Event::DestroyDevice]);
        }
        log
    }
}

} // verus!
