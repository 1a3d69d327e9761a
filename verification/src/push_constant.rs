//! Push constants: a small inline byte payload delivered alongside a
//! dispatch or draw, overwritten wholesale on each update.

use vstd::prelude::*;

verus! {

/// The shader-visible byte range a push constant occupies.
#[derive(Clone, Copy, Debug, PartialEq, Eq, Structural)]
pub struct PushConstantRange {
    pub offset: u32,
    pub size: u32,
    pub stage_flags: u32,
}

/// A declared range and the raw bytes currently filling it.
#[derive(Debug)]
pub struct PushConstant {
    pub range: PushConstantRange,
    pub data: Vec<u8>,
}

impl PushConstant {
    /// Declares the range and installs the initial payload, which must
    /// byte-match the declared size.
    pub fn new(offset: u32, size: u32, stage_flags: u32, data: Vec<u8>) -> (r: PushConstant)
        requires
            data@.len() == size,
        ensures
            r.range == (PushConstantRange { offset, size, stage_flags }),
            r.data@ == data@,
    {
        PushConstant { range: PushConstantRange { offset, size, stage_flags }, data }
    }

    /// Replaces the whole payload; the new bytes must byte-match the
    /// declared size. Nothing is patched field by field.
    pub fn set_data(&mut self, data: Vec<u8>)
        requires
            data@.len() == old(self).range.size,
        ensures
            final(self).range == old(self).range,
            final(self).data@ == data@,
    {
        self.data = data;
    }
}

} // verus!
