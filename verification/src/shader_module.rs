//! Shader binaries: turning a raw byte stream into SPIR-V words, with the
//! magic-number and alignment checks, and the shader-module resource that
//! a validated binary becomes.

use vstd::prelude::*;

use crate::device::{Device, Event, device_identity};

verus! {

/// The SPIR-V magic number, as the first word of every valid binary.
pub const SPV_MAGIC_NUMBER: u32 = 0x0723_0203;

/// The magic number as it appears when the binary was produced with the
/// opposite byte order.
pub const SPV_MAGIC_NUMBER_SWAPPED: u32 = 0x0302_2307;

/// Why a byte stream is not a SPIR-V binary.
#[derive(Clone, Copy, Debug, PartialEq, Eq, Structural)]
pub enum SpvError {
    /// The input length is not divisible by four.
    NotWordAligned,
    /// The input is empty or its first word is not the magic number in
    /// either byte order.
    MissingMagicNumber,
}

/// Word `i` of the byte stream, assembled least-significant byte first.
pub open spec fn spec_word_at(bytes: Seq<u8>, i: int) -> u32 {
    (bytes[4 * i] + bytes[4 * i + 1] * 0x100 + bytes[4 * i + 2] * 0x10000 + bytes[4 * i + 3]
        * 0x1000000) as u32
}

/// The word with its four bytes in the opposite order.
pub open spec fn spec_swap_bytes(w: u32) -> u32 {
    ((w % 0x100) * 0x1000000 + ((w / 0x100) % 0x100) * 0x10000 + ((w / 0x10000) % 0x100) * 0x100
        + w / 0x1000000) as u32
}

/// The parsed form of a well-formed binary: its words, each byte-swapped
/// when the binary was stored in the opposite byte order.
pub open spec fn spec_parsed_words(bytes: Seq<u8>) -> Seq<u32> {
    if spec_word_at(bytes, 0) == SPV_MAGIC_NUMBER_SWAPPED {
        Seq::new(bytes.len() / 4, |i: int| spec_swap_bytes(spec_word_at(bytes, i)))
    } else {
        Seq::new(bytes.len() / 4, |i: int| spec_word_at(bytes, i))
    }
}

/// True when the bytes parse: word-aligned, nonempty, and opening with the
/// magic number in one byte order or the other.
pub open spec fn spec_spv_ok(bytes: Seq<u8>) -> bool {
    &&& bytes.len() % 4 == 0
    &&& bytes.len() > 0
    &&& (spec_word_at(bytes, 0) == SPV_MAGIC_NUMBER || spec_word_at(bytes, 0)
        == SPV_MAGIC_NUMBER_SWAPPED)
}

fn swap_word_bytes(w: u32) -> (r: u32)
    ensures
        r == spec_swap_bytes(w),
{
    (w % 0x100) * 0x1000000 + ((w / 0x100) % 0x100) * 0x10000 + ((w / 0x10000) % 0x100) * 0x100
        + w / 0x1000000
}

/// Reads a SPIR-V binary out of raw bytes: the length must be a whole
/// number of words, the words are assembled least-significant byte first,
/// a binary stored in the opposite byte order is swapped word by word, and
/// the first word must be the magic number; each failure is its own error.
pub fn read_spv(bytes: &Vec<u8>) -> (r: Result<Vec<u32>, SpvError>)
    ensures
        r is Err <==> !spec_spv_ok(bytes@),
        r == Err::<Vec<u32>, SpvError>(SpvError::NotWordAligned) <==> bytes@.len() % 4 != 0,
        r == Err::<Vec<u32>, SpvError>(SpvError::MissingMagicNumber) <==> bytes@.len() % 4 == 0
            && (bytes@.len() == 0 || (spec_word_at(bytes@, 0) != SPV_MAGIC_NUMBER
            && spec_word_at(bytes@, 0) != SPV_MAGIC_NUMBER_SWAPPED)),
        r matches Ok(words) ==> words@ == spec_parsed_words(bytes@) && words@[0]
            == SPV_MAGIC_NUMBER,
{
    let size = bytes.len();
    if size % 4 != 0 {
        return Err(SpvError::NotWordAligned);
    }
    if size == 0 {
        return Err(SpvError::MissingMagicNumber);
    }
    let words = size / 4;
    let mut result: Vec<u32> = Vec::new();
    let mut i: usize = 0;
    while i < words
        invariant
            i <= words,
            words == bytes@.len() / 4,
            bytes@.len() % 4 == 0,
            bytes@.len() > 0,
            bytes@.len() <= usize::MAX,
            result@.len() == i,
            forall|j: int| 0 <= j < i ==> result@[j] == spec_word_at(bytes@, j),
        decreases words - i,
    {
        proof {
            assert(4 * (i as int) + 3 < bytes@.len()) by (nonlinear_arith)
                requires
                    0 <= i < words,
                    words == bytes@.len() / 4,
                    bytes@.len() % 4 == 0,
            ;
        }
        let b0 = bytes[4 * i] as u32;
        let b1 = bytes[4 * i + 1] as u32;
        let b2 = bytes[4 * i + 2] as u32;
        let b3 = bytes[4 * i + 3] as u32;
        result.push(b0 + b1 * 0x100 + b2 * 0x10000 + b3 * 0x1000000);
        i = i + 1;
    }

    let first = result[0];
    if first == SPV_MAGIC_NUMBER_SWAPPED {
        let mut k: usize = 0;
        let ghost unswapped = result@;
        while k < result.len()
            invariant
                k <= result@.len(),
                result@.len() == unswapped.len(),
                forall|j: int| 0 <= j < k ==> result@[j] == spec_swap_bytes(unswapped[j]),
                forall|j: int| k <= j < result@.len() ==> result@[j] == unswapped[j],
            decreases result@.len() - k,
        {
            let w = result[k];
            let swapped = swap_word_bytes(w);
            result.set(k, swapped);
            k = k + 1;
        }
        proof {
            assert(spec_swap_bytes(SPV_MAGIC_NUMBER_SWAPPED) == SPV_MAGIC_NUMBER);
        }
        assert(result@ =~= spec_parsed_words(bytes@));
        return Ok(result);
    }
    if first != SPV_MAGIC_NUMBER {
        return Err(SpvError::MissingMagicNumber);
    }
    assert(result@ =~= spec_parsed_words(bytes@));
    Ok(result)
}

/// A compiled shader stage: the module handle and the entry-point name the
/// pipeline will invoke.
#[derive(Debug)]
pub struct ShaderModule {
    pub shader_module: u64,
    pub entry_point: Vec<u8>,
}

impl ShaderModule {
    /// Validates a shader binary and creates the module for it; a
    /// malformed or mismatched-magic-number binary is rejected and nothing
    /// is created.
    pub fn new(device: &mut Device, code: &Vec<u8>, entry_point: &Vec<u8>) -> (r: Result<
        ShaderModule,
        SpvError,
    >)
        requires
            old(device).next_id < u64::MAX,
        ensures
            r is Ok <==> spec_spv_ok(code@),
            r matches Ok(m) ==> m.shader_module == old(device).next_id && m.entry_point@
                == entry_point@,
            r is Ok ==> final(device).next_id == old(device).next_id + 1,
            r is Ok ==> final(device).events@ == old(device).events@.push(
                Event::CreateShaderModule { handle: old(device).next_id },
            ),
            r is Err ==> *final(device) == *old(device),
            r matches Err(e) ==> (e == SpvError::NotWordAligned <==> code@.len() % 4 != 0),
            device_identity(*old(device), *final(device)),
    {
        let parsed = read_spv(code);
        match parsed {
            Ok(_) => {
                let handle = device.fresh_id();
                device.record(Event::CreateShaderModule { handle });
                let mut name: Vec<u8> = Vec::new();
                let mut k: usize = 0;
                while k < entry_point.len()
                    invariant
                        k <= entry_point@.len(),
                        name@ =~= entry_point@.subrange(0, k as int),
                    decreases entry_point@.len() - k,
                {
                    name.push(entry_point[k]);
                    proof {
                        assert(name@ =~= entry_point@.subrange(0, k + 1));
                    }
                    k = k + 1;
                }
                proof {
                    assert(name@ =~= entry_point@);
                }
                Ok(ShaderModule { shader_module: handle, entry_point: name })
            },
            Err(e) => Err(e),
        }
    }

    /// Destroys the shader module.
    pub fn destroy(self, device: &mut Device)
        ensures
            final(device).next_id == old(device).next_id,
            final(device).events@ == old(device).events@.push(
                Event::DestroyShaderModule { handle: self.shader_module },
            ),
            device_identity(*old(device), *final(device)),
    {
        device.record(Event::DestroyShaderModule { handle: self.shader_module });
    }
}

} // verus!
