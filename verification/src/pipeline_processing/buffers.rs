//! The two kinds of buffer a frame can live in: host memory, which the CPU
//! reads and writes, and device memory, which only GPU commands touch.

use vstd::prelude::*;
use vstd::slice::slice_to_vec;

verus! {

/// What every buffer offers: a length, fixed when the buffer is made.
pub trait Buffer {
    spec fn spec_len(&self) -> nat;

    fn len(&self) -> (n: usize)
        ensures
            n == self.spec_len(),
    ;
}

/// Where the bytes of a host buffer are kept.
#[derive(Clone, Copy, Debug, PartialEq, Eq, Structural)]
pub enum Backing {
    /// A plain allocation of the process.
    Heap,
    /// Device memory mapped into the host, which GPU commands can use
    /// without an upload.
    DeviceMapped,
}

/// The backing a new host buffer gets: device-mapped when a GPU is there.
pub open spec fn backing_for(gpu_present: bool) -> Backing {
    if gpu_present {
        Backing::DeviceMapped
    } else {
        Backing::Heap
    }
}

/// A buffer in host memory.
#[derive(Debug)]
pub struct CpuBuffer {
    bytes: Vec<u8>,
    backing: Backing,
}

impl View for CpuBuffer {
    type V = Seq<u8>;

    closed spec fn view(&self) -> Seq<u8> {
        self.bytes@
    }
}

impl Buffer for CpuBuffer {
    open spec fn spec_len(&self) -> nat {
        self@.len()
    }

    fn len(&self) -> (n: usize) {
        self.bytes.len()
    }
}

impl CpuBuffer {
    pub closed spec fn spec_backing(&self) -> Backing {
        self.backing
    }

    /// A buffer of `len` zero bytes.
    pub fn zeroed(len: usize, backing: Backing) -> (buffer: Self)
        ensures
            buffer@.len() == len,
            forall|i: int| 0 <= i < len ==> buffer@[i] == 0,
            buffer.spec_backing() == backing,
    {
        let mut bytes: Vec<u8> = Vec::new();
        let mut filled: usize = 0;
        while filled < len
            invariant
                filled <= len,
                bytes.len() == filled,
                forall|i: int| 0 <= i < filled ==> bytes[i] == 0,
            decreases len - filled,
        {
            bytes.push(0);
            filled = filled + 1;
        }
        CpuBuffer { bytes, backing }
    }

    /// A buffer that holds the given bytes.
    pub fn from_vec(bytes: Vec<u8>, backing: Backing) -> (buffer: Self)
        ensures
            buffer@ == bytes@,
            buffer.spec_backing() == backing,
    {
        CpuBuffer { bytes, backing }
    }

    /// Where the bytes are kept.
    pub fn backing(&self) -> (backing: Backing)
        ensures
            backing == self.spec_backing(),
    {
        self.backing
    }

    /// Whether GPU commands can use the buffer where it is.
    pub fn is_device_mapped(&self) -> (mapped: bool)
        ensures
            mapped == (self.spec_backing() == Backing::DeviceMapped),
    {
        match self.backing {
            Backing::DeviceMapped => true,
            Backing::Heap => false,
        }
    }

    /// The bytes, for reading.
    pub fn as_slice(&self) -> (bytes: &[u8])
        ensures
            bytes@ == self@,
    {
        self.bytes.as_slice()
    }

    /// Overwrites one byte; the length and the backing stay as they were.
    pub fn set(&mut self, index: usize, value: u8)
        requires
            index < old(self)@.len(),
        ensures
            final(self)@ == old(self)@.update(index as int, value),
            final(self).spec_backing() == old(self).spec_backing(),
    {
        self.bytes.set(index, value);
    }

    /// Overwrites the whole buffer with bytes of the same number.
    pub fn fill_from(&mut self, data: &[u8])
        requires
            data@.len() == old(self)@.len(),
        ensures
            final(self)@ == data@,
            final(self).spec_backing() == old(self).spec_backing(),
    {
        self.bytes = slice_to_vec(data);
    }

    /// A copy of the buffer with its own bytes.
    pub fn duplicate(&self) -> (copy: Self)
        ensures
            copy@ == self@,
            copy.spec_backing() == self.spec_backing(),
    {
        CpuBuffer { bytes: slice_to_vec(self.bytes.as_slice()), backing: self.backing }
    }
}

/// A buffer in device memory, known to the host by a handle and a length.
#[derive(Clone, Copy, Debug, PartialEq, Eq, Structural)]
pub struct GpuBuffer {
    handle: u64,
    len: usize,
}

impl Buffer for GpuBuffer {
    closed spec fn spec_len(&self) -> nat {
        self.len as nat
    }

    fn len(&self) -> (n: usize) {
        self.len
    }
}

impl GpuBuffer {
    pub closed spec fn spec_handle(&self) -> u64 {
        self.handle
    }

    /// Names a device allocation of `len` bytes.
    pub fn new(handle: u64, len: usize) -> (buffer: Self)
        ensures
            buffer.spec_handle() == handle,
            buffer.spec_len() == len,
    {
        GpuBuffer { handle, len }
    }

    /// The handle under which commands refer to the allocation.
    pub fn handle(&self) -> (handle: u64)
        ensures
            handle == self.spec_handle(),
    {
        self.handle
    }
}

} // verus!
