//! The byte source: an immutable in-memory byte buffer for one file.

use vstd::prelude::*;

verus! {

/// Why a file's contents could not be brought into memory. Produced by the
/// host when it opens and reads the file; the viewer itself never fails.
#[derive(Debug)]
pub enum BinaryFileErrorCode {
    CouldNotOpenFile { reason: String },
    CouldNotReadFile { reason: String },
}

/// `x` clamped from above to `bound`.
pub open spec fn clamped_bound(x: int, bound: int) -> int {
    if x < bound {
        x
    } else {
        bound
    }
}

/// An immutable byte buffer holding the entire contents of one file.
pub struct BinaryFile {
    data: Vec<u8>,
}

impl View for BinaryFile {
    type V = Seq<u8>;

    closed spec fn view(&self) -> Seq<u8> {
        self.data@
    }
}

impl BinaryFile {
    /// Wraps an already-read byte buffer. The host reads the file and
    /// hands the bytes here; after construction the buffer never changes.
    pub fn new(data: Vec<u8>) -> (r: BinaryFile)
        ensures
            r@ == data@,
    {
        BinaryFile { data }
    }

    /// The number of bytes in the file.
    pub fn length(&self) -> (r: u64)
        ensures
            r == self@.len(),
    {
        self.data.len() as u64
    }

    /// The byte at one position.
    pub fn byte_at(&self, index: u64) -> (r: u8)
        requires
            index < self@.len(),
        ensures
            r == self@[index as int],
    {
        // A vector is never longer than usize::MAX, so the index,
        // being below the length, survives the cast intact.
        let n: usize = self.data.len();
        self.data[index as usize]
    }

    /// The whole buffer as a slice.
    pub fn as_slice(&self) -> (r: &[u8])
        ensures
            r@ == self@,
    {
        self.data.as_slice()
    }

    /// The bytes in `[start, end)`, with both bounds clamped to the
    /// buffer length, and an empty slice when `start` is not below the
    /// clamped `end`; out-of-range requests never fail.
    pub fn slice(&self, start: u64, end: u64) -> (r: &[u8])
        ensures
            r@ == self@.subrange(
                clamped_bound(start as int, clamped_bound(end as int, self@.len() as int)),
                clamped_bound(end as int, self@.len() as int),
            ),
    {
        let n: usize = self.data.len();
        let e: usize = if end < n as u64 {
            end as usize
        } else {
            n
        };
        let s: usize = if start < e as u64 {
            start as usize
        } else {
            e
        };
        vstd::slice::slice_subrange(self.data.as_slice(), s, e)
    }
}

} // verus!
