//! The 64K memory of an 8080 system.
use vstd::prelude::*;

use crate::Error;

verus! {

/// The number of bytes of memory.
pub const MEMORY_SIZE: usize = 65536;

/// A 64K memory, addressed by 16-bit addresses.
pub struct Memory(pub [u8; MEMORY_SIZE]);

impl View for Memory {
    type V = Seq<u8>;

    open spec fn view(&self) -> Seq<u8> {
        self.0@
    }
}

/// A memory of zeros.
pub open spec fn zeroed() -> Seq<u8> {
    Seq::new(MEMORY_SIZE as nat, |i: int| 0u8)
}

/// `mem` with `bytes` written from address `start` on.
pub open spec fn loaded(mem: Seq<u8>, bytes: Seq<u8>, start: int) -> Seq<u8> {
    Seq::new(
        mem.len(),
        |i: int|
            if start <= i < start + bytes.len() {
                bytes[i - start]
            } else {
                mem[i]
            },
    )
}

/// The outcome of loading `bytes` at `start`: the memory after the load and
/// the address just past the image, or the error. `index` is what a
/// `TooLargeFile` error reports as the image's position.
pub open spec fn load_outcome(mem: Seq<u8>, bytes: Seq<u8>, start: u16, index: usize) -> (
    Seq<u8>,
    Result<u16, Error>,
) {
    if start + bytes.len() > MEMORY_SIZE {
        (
            mem,
            Err(Error::TooLargeFile { index, size: bytes.len() as u64, start_address: start }),
        )
    } else {
        (loaded(mem, bytes, start as int), Ok(((start + bytes.len()) % 65536) as u16))
    }
}

/// The outcome of loading `images[k]`, `images[k + 1]`, ... in sequence, the
/// first at `start` and each of the others just past the one before.
/// Loading stops at the first image that does not fit.
pub open spec fn load_all_outcome(mem: Seq<u8>, images: Seq<Seq<u8>>, start: u16, k: int) -> (
    Seq<u8>,
    Result<u16, Error>,
)
    decreases images.len() - k,
{
    if k < 0 || k >= images.len() {
        (mem, Ok(start))
    } else {
        let (mem1, r) = load_outcome(mem, images[k], start, k as usize);
        match r {
            Ok(next) => load_all_outcome(mem1, images, next, k + 1),
            Err(e) => (mem1, Err(e)),
        }
    }
}

impl Memory {
    /// A 64K memory of zeros.
    pub fn new() -> (r: Memory)
        ensures
            r@ == zeroed(),
    {
        let r = Memory([0u8; MEMORY_SIZE]);
        assert(r@ =~= zeroed());
        r
    }

    /// The byte at `address`.
    pub fn read(&self, address: u16) -> (r: u8)
        ensures
            r == self@[address as int],
    {
        self.0[address as usize]
    }

    /// Writes `value` at `address`.
    pub fn write(&mut self, address: u16, value: u8)
        ensures
            final(self)@ == old(self)@.update(address as int, value),
    {
        self.0[address as usize] = value;
    }

    /// Copies `bytes` into memory from `start_address` on and returns the
    /// address just past them (0 when they end at the last byte).
    ///
    /// # Errors
    ///
    /// [`Error::TooLargeFile`] (with index 0) when `bytes` does not fit from
    /// `start_address` on; memory is then unchanged.
    pub fn load(&mut self, bytes: &[u8], start_address: u16) -> (r: Result<u16, Error>)
        ensures
            (final(self)@, r) == load_outcome(old(self)@, bytes@, start_address, 0),
    {
        self.load_image(bytes, start_address, 0)
    }

    fn load_image(&mut self, bytes: &[u8], start_address: u16, index: usize) -> (r: Result<
        u16,
        Error,
    >)
        ensures
            (final(self)@, r) == load_outcome(old(self)@, bytes@, start_address, index),
    {
        let len = bytes.len();
        if len > MEMORY_SIZE - start_address as usize {
            return Err(Error::TooLargeFile { index, size: len as u64, start_address });
        }
        let start = start_address as usize;
        let mut j: usize = 0;
        while j < len
            invariant
                len == bytes@.len(),
                start == start_address,
                start + len <= MEMORY_SIZE,
                0 <= j <= len,
                self@ == loaded(old(self)@, bytes@.take(j as int), start as int),
            decreases len - j,
        {
            self.0[start + j] = bytes[j];
            assert(self@ =~= loaded(old(self)@, bytes@.take(j + 1), start as int));
            j = j + 1;
        }
        assert(bytes@.take(len as int) =~= bytes@);
        Ok(((start + len) % MEMORY_SIZE) as u16)
    }

    /// Loads `images` into memory in sequence: the first from `start_address`
    /// on, each of the others just past the one before. Returns the address
    /// just past the last.
    ///
    /// # Errors
    ///
    /// [`Error::TooLargeFile`] for the first image that does not fit, with its
    /// position in `images`; the images before it stay loaded.
    pub fn load_files(&mut self, images: &[Vec<u8>], start_address: u16) -> (r: Result<
        u16,
        Error,
    >)
        ensures
            (final(self)@, r) == load_all_outcome(
                old(self)@,
                images@.map_values(|v: Vec<u8>| v@),
                start_address,
                0,
            ),
    {
        let ghost views = images@.map_values(|v: Vec<u8>| v@);
        let mut next = start_address;
        let mut k: usize = 0;
        while k < images.len()
            invariant
                views == images@.map_values(|v: Vec<u8>| v@),
                0 <= k <= images@.len(),
                load_all_outcome(old(self)@, views, start_address, 0) == load_all_outcome(
                    self@,
                    views,
                    next,
                    k as int,
                ),
            decreases images@.len() - k,
        {
            match self.load_image(images[k].as_slice(), next, k) {
                Ok(after) => next = after,
                Err(e) => return Err(e),
            }
            k = k + 1;
        }
        Ok(next)
    }
}

impl Default for Memory {
    /// A 64K memory of zeros.
    fn default() -> (r: Memory)
        ensures
            r@ == zeroed(),
    {
        Memory::new()
    }
}

} // verus!
