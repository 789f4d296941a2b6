//! Fixed-size byte regions staged between a resource and the protocol.
//!
//! A buffer owns its bytes and records the alignment it was asked for; its
//! size is the length of the region it owns, so the two cannot disagree.

use vstd::prelude::*;
use vstd::slice::slice_to_vec;

verus! {

/// Alignment of a buffer made for reading.
pub const READBUF_ALIGN: usize = 1;

/// Read access to the bytes a buffer owns.
pub trait BufferLoader {
    /// The bytes of the region, in order.
    spec fn bytes(&self) -> Seq<u8>;

    /// The region as a slice of exactly the buffer's size.
    fn load(&self) -> (region: &[u8])
        ensures
            region@ == self.bytes(),
    ;
}

/// Write access to the bytes a buffer owns.
pub trait BufferLoaderMut: BufferLoader {
    /// The region as a mutable slice of exactly the buffer's size: what is
    /// written through it is what the buffer holds afterwards.
    fn load_mut(&mut self) -> (region: &mut [u8])
        ensures
            region@ == old(self).bytes(),
            final(self).bytes() == final(region)@,
    ;
}

/// How many bytes one transfer moves between a region of `size` bytes and a
/// peer that offers or accepts `available` bytes.
pub open spec fn transferred(size: nat, available: nat) -> nat {
    if size <= available {
        size
    } else {
        available
    }
}

/// A region after it was filled from `input`: the bytes transferred come
/// first, the rest of the region is as it was.
pub open spec fn filled(region: Seq<u8>, input: Seq<u8>) -> Seq<u8> {
    let n = transferred(region.len(), input.len()) as int;
    input.take(n) + region.skip(n)
}

/// A sink after `region` was written to it in full.
pub open spec fn written(sink: Seq<u8>, region: Seq<u8>) -> Seq<u8> {
    sink + region
}

/// A region of `size` zero bytes.
pub open spec fn zeroed(size: nat) -> Seq<u8> {
    Seq::new(size, |i: int| 0u8)
}

/// A buffer that a resource is read into.
#[derive(Debug)]
pub struct ReadBuffer {
    memory: Vec<u8>,
    align: usize,
}

impl View for ReadBuffer {
    type V = Seq<u8>;

    closed spec fn view(&self) -> Seq<u8> {
        self.memory@
    }
}

impl ReadBuffer {
    /// The alignment recorded when the buffer was made.
    pub closed spec fn alignment(&self) -> usize {
        self.align
    }

    /// A buffer of `size` bytes, all zero, with alignment 1.
    pub fn new(size: usize) -> (buf: ReadBuffer)
        ensures
            buf@ == zeroed(size as nat),
            buf.alignment() == READBUF_ALIGN,
    {
        let memory: Vec<u8> = vec![0u8; size];
        assert(memory@ =~= zeroed(size as nat));
        ReadBuffer { memory, align: READBUF_ALIGN }
    }

    pub fn size(&self) -> (n: usize)
        ensures
            n == self@.len(),
    {
        self.memory.len()
    }

    pub fn align(&self) -> (a: usize)
        ensures
            a == self.alignment(),
    {
        self.align
    }

    /// Fills the region from the front of `input` and returns how many bytes
    /// were transferred: all of `input`, or as many as the region holds. Bytes
    /// of the region beyond that count are left as they were.
    pub fn read(&mut self, input: &[u8]) -> (n: usize)
        ensures
            n == transferred(old(self)@.len(), input@.len()),
            final(self)@ == filled(old(self)@, input@),
            final(self).alignment() == old(self).alignment(),
    {
        let size: usize = self.memory.len();
        let n: usize = if size <= input.len() {
            size
        } else {
            input.len()
        };
        let mut i: usize = 0;
        while i < n
            invariant
                i <= n,
                n == transferred(old(self)@.len(), input@.len()),
                self.memory@.len() == old(self)@.len(),
                self.align == old(self).align,
                forall|j: int| 0 <= j < i ==> self.memory@[j] == input@[j],
                forall|j: int| i <= j < self.memory@.len() ==> self.memory@[j] == old(self)@[j],
            decreases n - i,
        {
            self.memory[i] = input[i];
            i += 1;
        }
        assert(self.memory@ =~= filled(old(self)@, input@));
        n
    }
}

impl BufferLoader for ReadBuffer {
    open spec fn bytes(&self) -> Seq<u8> {
        self@
    }

    fn load(&self) -> (region: &[u8]) {
        self.memory.as_slice()
    }
}

impl BufferLoaderMut for ReadBuffer {
    fn load_mut(&mut self) -> (region: &mut [u8])
        ensures
            final(self).alignment() == old(self).alignment(),
    {
        self.memory.as_mut_slice()
    }
}

/// A buffer that is written out to a resource.
#[derive(Debug)]
pub struct WriteBuffer {
    memory: Vec<u8>,
    align: usize,
}

impl View for WriteBuffer {
    type V = Seq<u8>;

    closed spec fn view(&self) -> Seq<u8> {
        self.memory@
    }
}

impl WriteBuffer {
    /// The alignment recorded when the buffer was made.
    pub closed spec fn alignment(&self) -> usize {
        self.align
    }

    /// A buffer holding a copy of `buf`, with the alignment asked for.
    pub fn new(buf: &[u8], align: usize) -> (wbuf: WriteBuffer)
        ensures
            wbuf@ == buf@,
            wbuf.alignment() == align,
    {
        WriteBuffer { memory: slice_to_vec(buf), align }
    }

    pub fn size(&self) -> (n: usize)
        ensures
            n == self@.len(),
    {
        self.memory.len()
    }

    pub fn align(&self) -> (a: usize)
        ensures
            a == self.alignment(),
    {
        self.align
    }

    /// Appends the whole region to `output` and returns the number of bytes
    /// written, the buffer's size. The buffer is not changed.
    pub fn write(&mut self, output: &mut Vec<u8>) -> (n: usize)
        ensures
            n == old(self)@.len(),
            final(output)@ == written(old(output)@, old(self)@),
            *final(self) == *old(self),
    {
        output.extend_from_slice(self.memory.as_slice());
        assert(output@ =~= written(old(output)@, self.memory@));
        self.memory.len()
    }
}

impl BufferLoader for WriteBuffer {
    open spec fn bytes(&self) -> Seq<u8> {
        self@
    }

    fn load(&self) -> (region: &[u8]) {
        self.memory.as_slice()
    }
}

impl BufferLoaderMut for WriteBuffer {
    fn load_mut(&mut self) -> (region: &mut [u8])
        ensures
            final(self).alignment() == old(self).alignment(),
    {
        self.memory.as_mut_slice()
    }
}

/// Writing a buffer built from `b` to an empty sink, then reading the sink
/// back into a buffer of the same length, yields exactly `b`, whatever the
/// second buffer held before.
pub proof fn lemma_write_then_read_restores(b: Seq<u8>, region: Seq<u8>)
    requires
        region.len() == b.len(),
    ensures
        filled(region, written(Seq::empty(), b)) == b,
        transferred(region.len(), written(Seq::empty(), b).len()) == b.len(),
{
    assert(written(Seq::empty(), b) =~= b);
    assert(filled(region, b) =~= b);
}

} // verus!
