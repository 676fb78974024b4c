use vstd::prelude::*;

verus! {

/// Number of bytes in each direction's fixed backing store. This is the only
/// place the transfer buffer size is chosen; the store is never grown or
/// reallocated.
pub const BUFFER_SIZE: usize = 1024;

/// Fixed-size byte storage backing one direction (inbound or outbound) of the
/// serial device's ring buffer. Two independent instances exist per adapter,
/// each handed over once at construction and owned by the device's ring-buffer
/// logic for its whole lifetime.
pub struct BufferStore(pub [u8; BUFFER_SIZE]);

impl BufferStore {
    /// A store with every byte zeroed, as handed to a freshly built device.
    pub fn new_zeroed() -> (r: BufferStore)
        ensures
            r.0@.len() == BUFFER_SIZE,
            forall|i: int| 0 <= i < BUFFER_SIZE ==> r.0@[i] == 0u8,
    {
        BufferStore([0u8; BUFFER_SIZE])
    }

    /// The whole store as an immutable byte slice, for a consumer that does
    /// not know the concrete container type.
    pub fn borrow(&self) -> (r: &[u8])
        ensures
            r@ == self.0@,
    {
        self.0.as_slice()
    }

    /// How many bytes the store holds; fixed for the store's lifetime.
    pub fn len(&self) -> (r: usize)
        ensures
            r == BUFFER_SIZE,
            r == self.0@.len(),
    {
        self.0.len()
    }
}

} // verus!
