use vstd::prelude::*;

verus! {

/// How the memory of a buffer is meant to be accessed.
#[derive(Clone, Copy, Debug, PartialEq, Eq, Structural)]
pub enum BufferAccess {
    /// Let the allocator choose.
    Default,
    /// Data will be cached on the GPU.
    GpuOnly,
    /// Frequent transfers from the CPU to the GPU.
    CpuToGpu,
    /// Frequent transfers from the GPU to the CPU.
    GpuToCpu,
}

/// What the allocator is asked for, for a given access: whether the memory must be host
/// visible and coherent, and whether the host accesses it in random order.
#[derive(Clone, Copy, Debug, PartialEq, Eq, Structural)]
pub struct AllocationRequest {
    pub host_visible_coherent: bool,
    pub host_access_random: bool,
}

impl BufferAccess {
    pub fn allocation_request(&self) -> (r: AllocationRequest)
        ensures
            r.host_visible_coherent == (*self != BufferAccess::Default),
            r.host_access_random == (*self == BufferAccess::GpuOnly || *self == BufferAccess::CpuToGpu),
    {
        match self {
            BufferAccess::Default => AllocationRequest { host_visible_coherent: false, host_access_random: false },
            BufferAccess::GpuOnly => AllocationRequest { host_visible_coherent: true, host_access_random: true },
            BufferAccess::CpuToGpu => AllocationRequest { host_visible_coherent: true, host_access_random: true },
            BufferAccess::GpuToCpu => AllocationRequest { host_visible_coherent: true, host_access_random: false },
        }
    }
}

/// Bytes to upload to a buffer, seen as `elements` items of `stride` bytes each.
pub struct BufferMemory {
    data: Vec<u8>,
    stride: usize,
    elements: usize,
}

impl BufferMemory {
    pub closed spec fn spec_data(&self) -> Seq<u8> {
        self.data@
    }

    pub closed spec fn spec_stride(&self) -> nat {
        self.stride as nat
    }

    pub closed spec fn spec_elements(&self) -> nat {
        self.elements as nat
    }

    /// The bytes hold exactly `elements` items of `stride` bytes.
    pub closed spec fn wf(&self) -> bool {
        &&& self.data@.len() == self.stride * self.elements
        &&& self.stride * self.elements <= usize::MAX
    }

    /// The first `stride * elements` bytes of `data`, as `elements` items of `stride` bytes;
    /// there must be at least one item of at least one byte.
    pub fn from_raw(data: &[u8], stride: usize, elements: usize) -> (r: BufferMemory)
        requires
            stride >= 1,
            elements >= 1,
            stride * elements <= data@.len(),
        ensures
            r.wf(),
            r.spec_stride() == stride,
            r.spec_elements() == elements,
            r.spec_data() == data@.subrange(0, stride * elements),
    {
        assert(data@.len() == data.len());
        let size = stride * elements;
        let mut out: Vec<u8> = Vec::new();
        let mut i: usize = 0;
        while i < size
            invariant
                i <= size,
                size == stride * elements,
                size <= data@.len(),
                out@ =~= data@.subrange(0, i as int),
            decreases size - i,
        {
            out.push(data[i]);
            i = i + 1;
        }
        assert(data@.len() == data.len());
        BufferMemory { data: out, stride, elements }
    }

    /// The bytes of `elements` items of `stride` bytes each, laid out one after the other.
    pub fn from_bytes(data: Vec<u8>, stride: usize, elements: usize) -> (r: BufferMemory)
        requires
            data@.len() == stride * elements,
        ensures
            r.wf(),
            r.spec_stride() == stride,
            r.spec_elements() == elements,
            r.spec_data() == data@,
    {
        assert(data@.len() == data.len());
        BufferMemory { data, stride, elements }
    }

    /// The size in bytes of well-formed memory fits in a `usize`.
    pub proof fn lemma_size_fits(&self)
        requires
            self.wf(),
        ensures
            self.spec_stride() * self.spec_elements() <= usize::MAX,
            self.spec_data().len() == self.spec_stride() * self.spec_elements(),
            self.spec_stride() <= usize::MAX,
            self.spec_elements() <= usize::MAX,
    {
    }

    pub fn elements(&self) -> (r: usize)
        ensures
            r == self.spec_elements(),
    {
        self.elements
    }

    pub fn stride(&self) -> (r: usize)
        ensures
            r == self.spec_stride(),
    {
        self.stride
    }

    /// The size in bytes: `stride * elements`.
    pub fn get_size(&self) -> (r: usize)
        requires
            self.wf(),
        ensures
            r == self.spec_stride() * self.spec_elements(),
    {
        self.data.len()
    }

    pub fn as_slice(&self) -> (r: &[u8])
        ensures
            r@ == self.spec_data(),
    {
        self.data.as_slice()
    }
}

/// Why data could not be written to a buffer.
#[derive(Clone, Copy, Debug, PartialEq, Eq, Structural)]
pub enum BufferError {
    /// The buffer holds `size` bytes and the write would need `expected`.
    TooSmall { size: usize, expected: usize },
}

/// The element count and stride a GPU buffer is created with.
#[derive(Clone, Copy, Debug, PartialEq, Eq, Structural)]
pub struct BufferShape {
    pub elements: usize,
    pub stride: usize,
}

impl BufferShape {
    /// A buffer of `elements` items of `stride` bytes; the stride must not be zero.
    pub fn new(stride: usize, elements: usize) -> (r: BufferShape)
        requires
            stride > 0,
            stride * elements <= usize::MAX,
        ensures
            r.stride == stride,
            r.elements == elements,
    {
        BufferShape { elements, stride }
    }

    /// The size in bytes.
    pub fn size(&self) -> (r: usize)
        requires
            self.elements * self.stride <= usize::MAX,
        ensures
            r == self.elements * self.stride,
    {
        self.elements * self.stride
    }

    pub fn elements(&self) -> (r: usize)
        ensures
            r == self.elements,
    {
        self.elements
    }

    pub fn stride(&self) -> (r: usize)
        ensures
            r == self.stride,
    {
        self.stride
    }

    /// Whether GPU storage is to be allocated at all: a buffer of no element has none.
    pub fn needs_storage(&self) -> (r: bool)
        ensures
            r == (self.elements != 0),
    {
        self.elements != 0
    }

    /// Resizes to `new_element_count` elements (at least one); returns whether the storage
    /// has to be created again, which is when the count changed.
    pub fn resize(&mut self, new_element_count: usize) -> (changed: bool)
        ensures
            final(self).stride == old(self).stride,
            final(self).elements == if new_element_count == 0 { 1 } else { new_element_count },
            changed == (final(self).elements != old(self).elements),
    {
        let count = if new_element_count == 0 { 1 } else { new_element_count };
        if count == self.elements {
            return false;
        }
        self.elements = count;
        true
    }

    /// Whether `data` can be written at byte `start_offset`.
    pub fn check_write(&self, start_offset: usize, data: &BufferMemory) -> (r: Result<(), BufferError>)
        requires
            data.wf(),
            self.elements * self.stride <= usize::MAX,
            start_offset + data.spec_stride() * data.spec_elements() <= usize::MAX,
        ensures
            r is Ok <==> start_offset + data.spec_stride() * data.spec_elements() <= self.elements
                * self.stride,
            r matches Err(BufferError::TooSmall { size, expected }) ==> size == self.elements
                * self.stride && expected == start_offset + data.spec_stride() * data.spec_elements(),
    {
        let end = start_offset + data.get_size();
        let size = self.size();
        if end > size {
            return Err(BufferError::TooSmall { size, expected: end });
        }
        Ok(())
    }
}

} // verus!
