//! Fences and semaphores: batches of synchronization primitives created
//! together and destroyed together.

use vstd::prelude::*;

use crate::device::{Device, Event, device_identity};

verus! {

/// The creation flag of a fence born already signaled.
pub const FENCE_CREATE_SIGNALED: u32 = 0x1;

/// A batch of fences sharing one signaled-at-birth setting.
#[derive(Debug)]
pub struct Fence {
    pub fences: Vec<u64>,
    pub flags: u32,
}

impl Fence {
    /// Creates `number` fences, each signaled at birth exactly when
    /// `signaled` asks for it.
    pub fn new(device: &mut Device, signaled: bool, number: usize) -> (r: Fence)
        requires
            old(device).next_id + number <= u64::MAX,
        ensures
            r.fences@.len() == number,
            forall|i: int| 0 <= i < number ==> r.fences@[i] == old(device).next_id + i,
            r.flags == if signaled {
                FENCE_CREATE_SIGNALED
            } else {
                0u32
            },
            final(device).next_id == old(device).next_id + number,
            final(device).events@ == old(device).events@ + Seq::new(
                number as nat,
                |i: int| Event::CreateFence { handle: (old(device).next_id + i) as u64 },
            ),
            device_identity(*old(device), *final(device)),
    {
        let flags: u32 = if signaled {
            FENCE_CREATE_SIGNALED
        } else {
            0
        };
        let mut fences: Vec<u64> = Vec::new();
        let mut k: usize = 0;
        while k < number
            invariant
                k <= number,
                old(device).next_id + number <= u64::MAX,
                device.next_id == old(device).next_id + k,
                fences@.len() == k,
                forall|i: int| 0 <= i < k ==> fences@[i] == old(device).next_id + i,
                device.events@ == old(device).events@ + Seq::new(
                    k as nat,
                    |i: int| Event::CreateFence { handle: (old(device).next_id + i) as u64 },
                ),
                device_identity(*old(device), *device),
            decreases number - k,
        {
            let handle = device.fresh_id();
            device.record(Event::CreateFence { handle });
            fences.push(handle);
            proof {
                assert(device.events@ =~= old(device).events@ + Seq::new(
                    (k + 1) as nat,
                    |i: int| Event::CreateFence { handle: (old(device).next_id + i) as u64 },
                ));
            }
            k = k + 1;
        }
        Fence { fences, flags }
    }

    /// Destroys every fence of the batch.
    pub fn destroy(self, device: &mut Device)
        ensures
            final(device).next_id == old(device).next_id,
            final(device).events@ == old(device).events@ + Seq::new(
                self.fences@.len(),
                |i: int| Event::DestroyFence { handle: self.fences@[i] },
            ),
            device_identity(*old(device), *final(device)),
    {
        let Fence { fences, .. } = self;
        let ghost base = device.events@;
        let count = fences.len();
        let mut i: usize = 0;
        while i < count
            invariant
                i <= count,
                count == fences@.len(),
                device.next_id == old(device).next_id,
                device.events@ == base + Seq::new(
                    i as nat,
                    |j: int| Event::DestroyFence { handle: fences@[j] },
                ),
                device_identity(*old(device), *device),
            decreases count - i,
        {
            let handle = fences[i];
            device.record(Event::DestroyFence { handle });
            proof {
                assert(device.events@ =~= base + Seq::new(
                    (i + 1) as nat,
                    |j: int| Event::DestroyFence { handle: fences@[j] },
                ));
            }
            i = i + 1;
        }
    }
}

/// A batch of semaphores created together.
#[derive(Debug)]
pub struct Semaphore {
    pub semaphores: Vec<u64>,
}

impl Semaphore {
    /// Creates `number` semaphores.
    pub fn new(device: &mut Device, number: usize) -> (r: Semaphore)
        requires
            old(device).next_id + number <= u64::MAX,
        ensures
            r.semaphores@.len() == number,
            forall|i: int| 0 <= i < number ==> r.semaphores@[i] == old(device).next_id + i,
            final(device).next_id == old(device).next_id + number,
            final(device).events@ == old(device).events@ + Seq::new(
                number as nat,
                |i: int| Event::CreateSemaphore { handle: (old(device).next_id + i) as u64 },
            ),
            device_identity(*old(device), *final(device)),
    {
        let mut semaphores: Vec<u64> = Vec::new();
        let mut k: usize = 0;
        while k < number
            invariant
                k <= number,
                old(device).next_id + number <= u64::MAX,
                device.next_id == old(device).next_id + k,
                semaphores@.len() == k,
                forall|i: int| 0 <= i < k ==> semaphores@[i] == old(device).next_id + i,
                device.events@ == old(device).events@ + Seq::new(
                    k as nat,
                    |i: int| Event::CreateSemaphore { handle: (old(device).next_id + i) as u64 },
                ),
                device_identity(*old(device), *device),
            decreases number - k,
        {
            let handle = device.fresh_id();
            device.record(Event::CreateSemaphore { handle });
            semaphores.push(handle);
            proof {
                assert(device.events@ =~= old(device).events@ + Seq::new(
                    (k + 1) as nat,
                    |i: int| Event::CreateSemaphore {
                        handle: (old(device).next_id + i) as u64,
                    },
                ));
            }
            k = k + 1;
        }
        Semaphore { semaphores }
    }

    /// Destroys every semaphore of the batch.
    pub fn destroy(self, device: &mut Device)
        ensures
            final(device).next_id == old(device).next_id,
            final(device).events@ == old(device).events@ + Seq::new(
                self.semaphores@.len(),
                |i: int| Event::DestroySemaphore { handle: self.semaphores@[i] },
            ),
            device_identity(*old(device), *final(device)),
    {
        let Semaphore { semaphores } = self;
        let ghost base = device.events@;
        let count = semaphores.len();
        let mut i: usize = 0;
        while i < count
            invariant
                i <= count,
                count == semaphores@.len(),
                device.next_id == old(device).next_id,
                device.events@ == base + Seq::new(
                    i as nat,
                    |j: int| Event::DestroySemaphore { handle: semaphores@[j] },
                ),
                device_identity(*old(device), *device),
            decreases count - i,
        {
            let handle = semaphores[i];
            device.record(Event::DestroySemaphore { handle });
            proof {
                assert(device.events@ =~= base + Seq::new(
                    (i + 1) as nat,
                    |j: int| Event::DestroySemaphore { handle: semaphores@[j] },
                ));
            }
            i = i + 1;
        }
    }
}

} // verus!
