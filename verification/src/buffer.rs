//! The buffer: a device-memory-backed linear resource with host read and
//! write, a staged path in and out of device-local memory, and a teardown
//! that returns its memory block to the pool strictly before the native
//! handle is destroyed.

use vstd::prelude::*;

use crate::align::round_up_to_64;
use crate::command_buffer::CommandBufferBuilder;
use crate::device::{Device, Event, MemoryBlock, device_identity};
use crate::flags::{
    spec_host_visible, BUFFER_USAGE_TRANSFER_DST, BUFFER_USAGE_TRANSFER_SRC,
    BUFFER_USAGE_UNIFORM_BUFFER, ALLOC_DOWNLOAD, ALLOC_UPLOAD, SharingMode,
};

verus! {

/// A linear device resource: native handle, its exclusive memory block,
/// the logical and allocated sizes, and the bytes its memory holds.
#[derive(Debug)]
pub struct Buffer {
    pub buffer: u64,
    pub block: Option<MemoryBlock>,
    pub data_size: u64,
    pub allocated_size: u64,
    pub usage: u32,
    pub alloc_flags: u8,
    pub contents: Vec<u8>,
}

/// The contents after writing `data` into `contents` at `offset`: the
/// written range holds the new bytes, everything else is untouched.
pub open spec fn write_bytes_spec(contents: Seq<u8>, offset: int, data: Seq<u8>) -> Seq<u8> {
    Seq::new(
        contents.len(),
        |i: int|
            if offset <= i < offset + data.len() {
                data[i - offset]
            } else {
                contents[i]
            },
    )
}

/// The two teardown actions of a buffer, in the only order the driver
/// allows: the memory block back to the pool, then the handle destroyed.
pub open spec fn buffer_destroy_events(buffer: Buffer) -> Seq<Event> {
    seq![
        Event::Dealloc { block: buffer.block->Some_0.id },
        Event::DestroyBuffer { handle: buffer.buffer },
    ]
}

/// True when `a` and `b` are the same resource: handle, block and sizes
/// agree, only the held bytes may differ.
pub open spec fn same_buffer_resource(a: Buffer, b: Buffer) -> bool {
    a.buffer == b.buffer && a.block == b.block && a.data_size == b.data_size
        && a.allocated_size == b.allocated_size && a.usage == b.usage && a.alloc_flags
        == b.alloc_flags
}

impl Buffer {
    /// A buffer that still owns its memory block, whose allocation covers
    /// its logical size, and whose held bytes span the whole block.
    pub open spec fn wf(&self) -> bool {
        &&& self.block is Some
        &&& self.block->Some_0.size == self.allocated_size
        &&& self.data_size <= self.allocated_size
        &&& self.contents@.len() == self.allocated_size
    }

    /// Creates a buffer of `size` bytes. A uniform buffer's size is
    /// rounded up to the allocator's 64-byte alignment (with an upstream
    /// warning), so the realized size is the smallest multiple of 64 at or
    /// above the request; any other usage keeps the requested size.
    pub fn new(
        device: &mut Device,
        flags: u32,
        size: u64,
        usage: u32,
        sharing_mode: SharingMode,
        allocation_type: u8,
    ) -> (r: Buffer)
        requires
            size + 64 <= usize::MAX,
            old(device).next_id + 2 <= u64::MAX,
        ensures
            r.wf(),
            r.data_size == if usage & BUFFER_USAGE_UNIFORM_BUFFER
                == BUFFER_USAGE_UNIFORM_BUFFER {
                round_up_to_64(size as int)
            } else {
                size as int
            },
            r.allocated_size == r.data_size,
            r.usage == usage,
            r.alloc_flags == allocation_type,
            r.contents@ == Seq::new(r.allocated_size as nat, |i: int| 0u8),
            r.buffer == old(device).next_id,
            r.block->Some_0.id == old(device).next_id + 1,
            final(device).next_id == old(device).next_id + 2,
            final(device).events@ == old(device).events@ + seq![
                Event::CreateBuffer { handle: r.buffer },
                Event::Alloc { block: r.block->Some_0.id },
            ],
            device_identity(*old(device), *final(device)),
    {
        let mut size = size;
        if usage & BUFFER_USAGE_UNIFORM_BUFFER == BUFFER_USAGE_UNIFORM_BUFFER && size % 64 != 0 {
            size = size - size % 64;
            size = size + 64;
        }
        let handle = device.fresh_id();
        device.record(Event::CreateBuffer { handle });
        let block = device.alloc_block(size);
        let allocated_size = block.size;

        let mut contents: Vec<u8> = Vec::new();
        let len = size as usize;
        while contents.len() < len
            invariant
                contents@.len() <= len,
                contents@ =~= Seq::new(contents@.len(), |i: int| 0u8),
            decreases len - contents@.len(),
        {
            contents.push(0);
        }
        proof {
            assert(final(device).events@ =~= old(device).events@ + seq![
                Event::CreateBuffer { handle },
                Event::Alloc { block: block.id },
            ]);
        }
        let _ = flags;
        let _ = sharing_mode;
        Buffer {
            buffer: handle,
            block: Some(block),
            data_size: size,
            allocated_size,
            usage,
            alloc_flags: allocation_type,
            contents,
        }
    }

    /// Direct host write of `data` at `offset`; the allocation must be
    /// host-accessible and the range must lie inside the block.
    pub fn write(&mut self, offset: u64, data: Vec<u8>)
        requires
            old(self).wf(),
            spec_host_visible(old(self).alloc_flags),
            offset + data@.len() <= old(self).allocated_size,
        ensures
            final(self).wf(),
            same_buffer_resource(*old(self), *final(self)),
            final(self).contents@ == write_bytes_spec(
                old(self).contents@,
                offset as int,
                data@,
            ),
    {
        let clen = self.contents.len();
        let base = offset as usize;
        let mut k: usize = 0;
        while k < data.len()
            invariant
                old(self).wf(),
                same_buffer_resource(*old(self), *self),
                k <= data@.len(),
                base == offset,
                offset + data@.len() <= old(self).allocated_size,
                self.contents@.len() == old(self).contents@.len(),
                self.contents@.len() == clen,
                forall|i: int|
                    0 <= i < self.contents@.len() ==> self.contents@[i] == if offset <= i
                        < offset + k {
                        data@[i - offset]
                    } else {
                        old(self).contents@[i]
                    },
            decreases data@.len() - k,
        {
            let idx = base + k;
            self.contents.set(idx, data[k]);
            k = k + 1;
        }
        proof {
            assert(self.contents@ =~= write_bytes_spec(
                old(self).contents@,
                offset as int,
                data@,
            ));
        }
    }

    /// Direct host read of `len` bytes from `offset`; the allocation must
    /// be host-accessible and the range must lie inside the block.
    pub fn read(&self, offset: u64, len: usize) -> (r: Vec<u8>)
        requires
            self.wf(),
            spec_host_visible(self.alloc_flags),
            offset + len <= self.allocated_size,
        ensures
            r@ == self.contents@.subrange(offset as int, offset + len),
    {
        let clen = self.contents.len();
        let base = offset as usize;
        let mut r: Vec<u8> = Vec::new();
        let mut k: usize = 0;
        while k < len
            invariant
                self.wf(),
                k <= len,
                base == offset,
                clen == self.contents@.len(),
                offset + len <= self.allocated_size,
                r@ =~= self.contents@.subrange(offset as int, offset + k),
            decreases len - k,
        {
            r.push(self.contents[base + k]);
            proof {
                assert(r@ =~= self.contents@.subrange(offset as int, offset + k + 1));
            }
            k = k + 1;
        }
        r
    }

    /// Staged upload: a transient host-visible staging buffer is created
    /// and filled, a copy into this buffer at `offset` is recorded and
    /// submitted on the transfer queue, the call blocks until that queue
    /// drains, and the command buffer and staging buffer are released.
    pub fn write_to_vram(
        &mut self,
        device: &mut Device,
        command_builder: &CommandBufferBuilder,
        offset: u64,
        data: Vec<u8>,
    )
        requires
            old(self).wf(),
            data@.len() <= old(self).data_size,
            offset + data@.len() <= old(self).allocated_size,
            old(self).data_size + 64 <= usize::MAX,
            old(device).next_id + 3 <= u64::MAX,
        ensures
            final(self).wf(),
            same_buffer_resource(*old(self), *final(self)),
            final(self).contents@ == write_bytes_spec(
                old(self).contents@,
                offset as int,
                data@,
            ),
            final(device).next_id == old(device).next_id + 3,
            final(device).events@ == old(device).events@ + seq![
                Event::CreateBuffer { handle: old(device).next_id },
                Event::Alloc { block: (old(device).next_id + 1) as u64 },
                Event::AllocateCommandBuffer { handle: (old(device).next_id + 2) as u64 },
                Event::CopyBuffer {
                    src: old(device).next_id,
                    dst: old(self).buffer,
                    src_offset: 0,
                    dst_offset: offset,
                    size: data@.len() as u64,
                },
                Event::Submit { queue: old(device).transfer_queue },
                Event::WaitQueueIdle { queue: old(device).transfer_queue },
                Event::FreeCommandBuffer { handle: (old(device).next_id + 2) as u64 },
                Event::Dealloc { block: (old(device).next_id + 1) as u64 },
                Event::DestroyBuffer { handle: old(device).next_id },
            ],
            device_identity(*old(device), *final(device)),
    {
        let size = data.len() as u64;

        let mut staging_buffer = Buffer::new(
            device,
            0,
            self.data_size,
            BUFFER_USAGE_TRANSFER_SRC,
            SharingMode::Exclusive,
            ALLOC_UPLOAD,
        );
        proof {
            crate::flags::lemma_alloc_intent_visibility();
        }
        staging_buffer.write(0, data);

        let command_buffer = command_builder.build(device);
        device.record(
            Event::CopyBuffer {
                src: staging_buffer.buffer,
                dst: self.buffer,
                src_offset: 0,
                dst_offset: offset,
                size,
            },
        );

        // The recorded copy, replayed on the model's bytes.
        let clen = self.contents.len();
        let base = offset as usize;
        let mut k: usize = 0;
        let len = size as usize;
        while k < len
            invariant
                old(self).wf(),
                same_buffer_resource(*old(self), *self),
                staging_buffer.wf(),
                k <= len,
                base == offset,
                clen == self.contents@.len(),
                len <= staging_buffer.allocated_size,
                offset + len <= old(self).allocated_size,
                self.contents@.len() == old(self).contents@.len(),
                forall|i: int|
                    0 <= i < len ==> staging_buffer.contents@[i] == data@[i],
                forall|i: int|
                    0 <= i < self.contents@.len() ==> self.contents@[i] == if offset <= i
                        < offset + k {
                        data@[i - offset]
                    } else {
                        old(self).contents@[i]
                    },
            decreases len - k,
        {
            let byte = staging_buffer.contents[k];
            self.contents.set(base + k, byte);
            k = k + 1;
        }

        let transfer_queue = device.transfer_queue;
        device.record(Event::Submit { queue: transfer_queue });
        device.record(Event::WaitQueueIdle { queue: transfer_queue });
        device.record(Event::FreeCommandBuffer { handle: command_buffer });

        staging_buffer.destroy(device);

        proof {
            assert(self.contents@ =~= write_bytes_spec(
                old(self).contents@,
                offset as int,
                data@,
            ));
            assert(final(device).events@ =~= old(device).events@ + seq![
                Event::CreateBuffer { handle: old(device).next_id },
                Event::Alloc { block: (old(device).next_id + 1) as u64 },
                Event::AllocateCommandBuffer { handle: (old(device).next_id + 2) as u64 },
                Event::CopyBuffer {
                    src: old(device).next_id,
                    dst: old(self).buffer,
                    src_offset: 0,
                    dst_offset: offset,
                    size,
                },
                Event::Submit { queue: old(device).transfer_queue },
                Event::WaitQueueIdle { queue: old(device).transfer_queue },
                Event::FreeCommandBuffer { handle: (old(device).next_id + 2) as u64 },
                Event::Dealloc { block: (old(device).next_id + 1) as u64 },
                Event::DestroyBuffer { handle: old(device).next_id },
            ]);
        }
    }

    /// Staged download of the whole block: a transient staging buffer is
    /// created, a copy of this buffer into it is recorded and submitted on
    /// the transfer queue, the call blocks until that queue drains, the
    /// transients are released, and the staged bytes are read back. The
    /// recorded copy spans the full allocated size, so it only fits the
    /// block when it starts at its beginning.
    pub fn read_from_vram(
        &self,
        device: &mut Device,
        command_builder: &CommandBufferBuilder,
        offset: u64,
    ) -> (r: Vec<u8>)
        requires
            self.wf(),
            offset == 0,
            self.allocated_size + 64 <= usize::MAX,
            old(device).next_id + 3 <= u64::MAX,
        ensures
            r@ == self.contents@,
            final(device).next_id == old(device).next_id + 3,
            final(device).events@ == old(device).events@ + seq![
                Event::CreateBuffer { handle: old(device).next_id },
                Event::Alloc { block: (old(device).next_id + 1) as u64 },
                Event::AllocateCommandBuffer { handle: (old(device).next_id + 2) as u64 },
                Event::CopyBuffer {
                    src: self.buffer,
                    dst: old(device).next_id,
                    src_offset: offset,
                    dst_offset: 0,
                    size: self.allocated_size,
                },
                Event::Submit { queue: old(device).transfer_queue },
                Event::WaitQueueIdle { queue: old(device).transfer_queue },
                Event::FreeCommandBuffer { handle: (old(device).next_id + 2) as u64 },
                Event::Dealloc { block: (old(device).next_id + 1) as u64 },
                Event::DestroyBuffer { handle: old(device).next_id },
            ],
            device_identity(*old(device), *final(device)),
    {
        let mut staging_buffer = Buffer::new(
            device,
            0,
            self.allocated_size,
            BUFFER_USAGE_TRANSFER_DST,
            SharingMode::Exclusive,
            ALLOC_DOWNLOAD,
        );

        let command_buffer = command_builder.build(device);
        device.record(
            Event::CopyBuffer {
                src: self.buffer,
                dst: staging_buffer.buffer,
                src_offset: offset,
                dst_offset: 0,
                size: self.allocated_size,
            },
        );

        proof {
            crate::flags::lemma_alloc_intent_visibility();
        }
        // The recorded copy, replayed on the model's bytes.
        let mut copied: Vec<u8> = Vec::new();
        let len = self.contents.len();
        let mut k: usize = 0;
        while k < len
            invariant
                self.wf(),
                k <= len,
                len == self.allocated_size,
                copied@ =~= self.contents@.subrange(0, k as int),
            decreases len - k,
        {
            copied.push(self.contents[k]);
            proof {
                assert(copied@ =~= self.contents@.subrange(0, k + 1));
            }
            k = k + 1;
        }
        staging_buffer.write(0, copied);

        let transfer_queue = device.transfer_queue;
        device.record(Event::Submit { queue: transfer_queue });
        device.record(Event::WaitQueueIdle { queue: transfer_queue });
        device.record(Event::FreeCommandBuffer { handle: command_buffer });

        let r = staging_buffer.read(0, len);
        staging_buffer.destroy(device);

        proof {
            assert(r@ =~= self.contents@);
            assert(final(device).events@ =~= old(device).events@ + seq![
                Event::CreateBuffer { handle: old(device).next_id },
                Event::Alloc { block: (old(device).next_id + 1) as u64 },
                Event::AllocateCommandBuffer { handle: (old(device).next_id + 2) as u64 },
                Event::CopyBuffer {
                    src: self.buffer,
                    dst: old(device).next_id,
                    src_offset: offset,
                    dst_offset: 0,
                    size: self.allocated_size,
                },
                Event::Submit { queue: old(device).transfer_queue },
                Event::WaitQueueIdle { queue: old(device).transfer_queue },
                Event::FreeCommandBuffer { handle: (old(device).next_id + 2) as u64 },
                Event::Dealloc { block: (old(device).next_id + 1) as u64 },
                Event::DestroyBuffer { handle: old(device).next_id },
            ]);
        }
        r
    }

    /// Teardown, in the mandatory order: the memory block goes back to the
    /// pool first, and only then is the buffer handle destroyed.
    pub fn destroy(self, device: &mut Device)
        requires
            self.wf(),
        ensures
            final(device).next_id == old(device).next_id,
            final(device).events@ == old(device).events@ + buffer_destroy_events(self),
            device_identity(*old(device), *final(device)),
    {
        let ghost snapshot = self;
        let Buffer { buffer, block, .. } = self;
        let block = block.unwrap();
        device.dealloc_block(block);
        device.record(Event::DestroyBuffer { handle: buffer });
        proof {
            assert(final(device).events@ =~= old(device).events@ + buffer_destroy_events(
                snapshot,
            ));
        }
    }
}

/// Destruction order of a buffer: its teardown holds exactly one return of
/// the memory block and exactly one handle destruction, and the block goes
/// back to the pool strictly before the handle is destroyed.
pub proof fn lemma_buffer_destroy_order(buffer: Buffer)
    ensures
        ({
            let s = buffer_destroy_events(buffer);
            &&& s.len() == 2
            &&& s[0] is Dealloc
            &&& s[1] is DestroyBuffer
            &&& forall|i: int, j: int|
                0 <= i < s.len() && 0 <= j < s.len() && (#[trigger] s[i]) is Dealloc && (
                #[trigger] s[j]) is DestroyBuffer ==> i < j
        }),
{
}

/// Round trip of the staged paths: after `write_to_vram` at offset zero
/// the buffer's bytes are `write_bytes_spec(contents, 0, data)`, and
/// `read_from_vram` returns the buffer's bytes — so a payload whose size
/// matches the buffer's logical size comes back byte-identical.
pub proof fn lemma_staged_round_trip(buffer: Buffer, data: Seq<u8>)
    requires
        buffer.wf(),
        buffer.allocated_size == buffer.data_size,
        data.len() == buffer.data_size,
    ensures
        write_bytes_spec(buffer.contents@, 0, data) == data,
{
    assert(write_bytes_spec(buffer.contents@, 0, data) =~= data);
}

/// A view into a slice of a shared buffer.
#[derive(Clone, Copy, Debug, PartialEq, Eq, Structural)]
pub struct BufferOffsetRange {
    pub buffer_ref: u64,
    pub offset: usize,
    pub range: usize,
}

impl BufferOffsetRange {
    /// A range of `range` bytes at `offset` of the given buffer.
    pub fn new(buffer_ref: &Buffer, offset: usize, range: usize) -> (r: BufferOffsetRange)
        ensures
            r.buffer_ref == buffer_ref.buffer,
            r.offset == offset,
            r.range == range,
    {
        BufferOffsetRange { buffer_ref: buffer_ref.buffer, offset, range }
    }
}

} // verus!
