//! Command pools and command buffers: the model keeps the usage-to-flags
//! mapping and logs allocation and release, so that the staged transfer
//! paths can show their transient command buffers being freed.

use vstd::prelude::*;

use crate::device::{Device, Event, device_identity};
use crate::flags::{
    COMMAND_BUFFER_USAGE_ONE_TIME_SUBMIT, COMMAND_BUFFER_USAGE_SIMULTANEOUS_USE,
    COMMAND_POOL_RESET_COMMAND_BUFFER, COMMAND_POOL_TRANSIENT,
};

verus! {

/// A pool that command buffers are carved from.
#[derive(Clone, Copy, Debug, PartialEq, Eq, Structural)]
pub struct CommandPool {
    pub command_pool: u64,
    pub flags: u32,
}

impl CommandPool {
    /// Creates a pool on the device's queue family with the given flags.
    pub fn new(device: &mut Device, flags: u32) -> (r: CommandPool)
        requires
            old(device).next_id < u64::MAX,
        ensures
            r.command_pool == old(device).next_id,
            r.flags == flags,
            final(device).next_id == old(device).next_id + 1,
            final(device).events@ == old(device).events@.push(
                Event::CreateCommandPool { handle: r.command_pool },
            ),
            device_identity(*old(device), *final(device)),
    {
        let handle = device.fresh_id();
        device.record(Event::CreateCommandPool { handle });
        CommandPool { command_pool: handle, flags }
    }

    /// Destroys the pool.
    pub fn destroy(self, device: &mut Device)
        ensures
            final(device).next_id == old(device).next_id,
            final(device).events@ == old(device).events@.push(
                Event::DestroyCommandPool { handle: self.command_pool },
            ),
            device_identity(*old(device), *final(device)),
    {
        device.record(Event::DestroyCommandPool { handle: self.command_pool });
    }
}

/// A batch of command buffers allocated together from one pool.
#[derive(Debug)]
pub struct CommandBuffer {
    pub command_buffer: Vec<u64>,
}

impl CommandBuffer {
    /// Allocates `command_buffer_count` command buffers of the given level
    /// from the pool.
    pub fn new(
        device: &mut Device,
        command_pool: &CommandPool,
        command_buffer_count: u32,
        level: CommandBufferLevel,
    ) -> (r: CommandBuffer)
        requires
            old(device).next_id + command_buffer_count <= u64::MAX,
        ensures
            r.command_buffer@.len() == command_buffer_count,
            forall|i: int|
                0 <= i < command_buffer_count ==> r.command_buffer@[i] == old(
                    device,
                ).next_id + i,
            final(device).next_id == old(device).next_id + command_buffer_count,
            final(device).events@ == old(device).events@ + Seq::new(
                command_buffer_count as nat,
                |i: int| Event::AllocateCommandBuffer { handle: (old(device).next_id + i) as u64 },
            ),
            device_identity(*old(device), *final(device)),
    {
        let _ = level;
        let mut command_buffer: Vec<u64> = Vec::new();
        let mut k: u32 = 0;
        while k < command_buffer_count
            invariant
                k <= command_buffer_count,
                old(device).next_id + command_buffer_count <= u64::MAX,
                device.next_id == old(device).next_id + k,
                command_buffer@.len() == k,
                forall|i: int|
                    0 <= i < k ==> command_buffer@[i] == old(device).next_id + i,
                device.events@ == old(device).events@ + Seq::new(
                    k as nat,
                    |i: int| Event::AllocateCommandBuffer {
                        handle: (old(device).next_id + i) as u64,
                    },
                ),
                device_identity(*old(device), *device),
            decreases command_buffer_count - k,
        {
            let handle = device.fresh_id();
            device.record(Event::AllocateCommandBuffer { handle });
            command_buffer.push(handle);
            proof {
                assert(device.events@ =~= old(device).events@ + Seq::new(
                    (k + 1) as nat,
                    |i: int| Event::AllocateCommandBuffer {
                        handle: (old(device).next_id + i) as u64,
                    },
                ));
            }
            k = k + 1;
        }
        CommandBuffer { command_buffer }
    }
}

/// How the command buffers made by a builder will be submitted.
#[derive(Clone, Copy, Debug, PartialEq, Eq, Structural)]
pub enum CommandBufferUsage {
    OneTimeSubmit,
    MultipleSubmit,
    SimultaneousUse,
}

/// Whether a builder hands out primary or secondary command buffers.
#[derive(Clone, Copy, Debug, PartialEq, Eq, Structural)]
pub enum CommandBufferLevel {
    Primary,
    Secondary,
}

/// The pool flags a usage calls for: one-time-submit buffers come from a
/// transient pool, the others from a resettable one.
pub open spec fn pool_flags_for(usage: CommandBufferUsage) -> u32 {
    match usage {
        CommandBufferUsage::OneTimeSubmit => COMMAND_POOL_TRANSIENT,
        CommandBufferUsage::MultipleSubmit => COMMAND_POOL_RESET_COMMAND_BUFFER,
        CommandBufferUsage::SimultaneousUse => COMMAND_POOL_RESET_COMMAND_BUFFER,
    }
}

/// The begin-recording flags a usage calls for.
pub open spec fn usage_flags_for(usage: CommandBufferUsage) -> u32 {
    match usage {
        CommandBufferUsage::OneTimeSubmit => COMMAND_BUFFER_USAGE_ONE_TIME_SUBMIT,
        CommandBufferUsage::MultipleSubmit => 0,
        CommandBufferUsage::SimultaneousUse => COMMAND_BUFFER_USAGE_SIMULTANEOUS_USE,
    }
}

/// Owns one pool and the recording parameters, and hands out command
/// buffers that are already mid-recording.
#[derive(Debug)]
pub struct CommandBufferBuilder {
    pub command_pool: CommandPool,
    pub buffer_usage: u32,
    pub level: CommandBufferLevel,
}

impl CommandBufferBuilder {
    /// A builder for primary command buffers with the given usage.
    pub fn primary(device: &mut Device, buffer_usage: CommandBufferUsage) -> (r:
        CommandBufferBuilder)
        requires
            old(device).next_id < u64::MAX,
        ensures
            r.command_pool.command_pool == old(device).next_id,
            r.command_pool.flags == pool_flags_for(buffer_usage),
            r.buffer_usage == usage_flags_for(buffer_usage),
            r.level == CommandBufferLevel::Primary,
            final(device).next_id == old(device).next_id + 1,
            final(device).events@ == old(device).events@.push(
                Event::CreateCommandPool { handle: r.command_pool.command_pool },
            ),
            device_identity(*old(device), *final(device)),
    {
        let (pool_flags, usage_flags) = match buffer_usage {
            CommandBufferUsage::OneTimeSubmit => (
                COMMAND_POOL_TRANSIENT,
                COMMAND_BUFFER_USAGE_ONE_TIME_SUBMIT,
            ),
            CommandBufferUsage::MultipleSubmit => (COMMAND_POOL_RESET_COMMAND_BUFFER, 0),
            CommandBufferUsage::SimultaneousUse => (
                COMMAND_POOL_RESET_COMMAND_BUFFER,
                COMMAND_BUFFER_USAGE_SIMULTANEOUS_USE,
            ),
        };
        let command_pool = CommandPool::new(device, pool_flags);
        CommandBufferBuilder {
            command_pool,
            buffer_usage: usage_flags,
            level: CommandBufferLevel::Primary,
        }
    }

    /// A builder for secondary command buffers with the given usage.
    pub fn secondary(device: &mut Device, buffer_usage: CommandBufferUsage) -> (r:
        CommandBufferBuilder)
        requires
            old(device).next_id < u64::MAX,
        ensures
            r.command_pool.command_pool == old(device).next_id,
            r.command_pool.flags == pool_flags_for(buffer_usage),
            r.buffer_usage == usage_flags_for(buffer_usage),
            r.level == CommandBufferLevel::Secondary,
            final(device).next_id == old(device).next_id + 1,
            final(device).events@ == old(device).events@.push(
                Event::CreateCommandPool { handle: r.command_pool.command_pool },
            ),
            device_identity(*old(device), *final(device)),
    {
        let (pool_flags, usage_flags) = match buffer_usage {
            CommandBufferUsage::OneTimeSubmit => (
                COMMAND_POOL_TRANSIENT,
                COMMAND_BUFFER_USAGE_ONE_TIME_SUBMIT,
            ),
            CommandBufferUsage::MultipleSubmit => (COMMAND_POOL_RESET_COMMAND_BUFFER, 0),
            CommandBufferUsage::SimultaneousUse => (
                COMMAND_POOL_RESET_COMMAND_BUFFER,
                COMMAND_BUFFER_USAGE_SIMULTANEOUS_USE,
            ),
        };
        let command_pool = CommandPool::new(device, pool_flags);
        CommandBufferBuilder {
            command_pool,
            buffer_usage: usage_flags,
            level: CommandBufferLevel::Secondary,
        }
    }

    /// Allocates one command buffer from the builder's pool and begins
    /// recording it.
    pub fn build(&self, device: &mut Device) -> (h: u64)
        requires
            old(device).next_id < u64::MAX,
        ensures
            h == old(device).next_id,
            final(device).next_id == old(device).next_id + 1,
            final(device).events@ == old(device).events@.push(
                Event::AllocateCommandBuffer { handle: h },
            ),
            device_identity(*old(device), *final(device)),
    {
        let handle = device.fresh_id();
        device.record(Event::AllocateCommandBuffer { handle });
        handle
    }
}

} // verus!
