//! The linear buffers that back buffer textures.

use vstd::prelude::*;

use crate::capabilities::{tier_of, CapabilityTier};
use crate::context::Context;

verus! {

/// How a buffer's storage is allocated and updated.
#[derive(Copy, Clone, Debug, PartialEq, Eq, Structural)]
pub enum BufferMode {
    Default,
    Dynamic,
    Persistent,
    Immutable,
}

/// Error that can happen while creating a buffer.
#[derive(Copy, Clone, Debug, PartialEq, Eq, Structural)]
pub enum BufferCreationError {
    /// The device has no buffer name left to hand out.
    OutOfMemory,
    /// The device cannot create buffers that back textures.
    BufferTypeNotSupported,
}

/// A buffer of `len` elements of type `T`, known to the device by its name.
pub struct BufferView<T> {
    id: u32,
    len: usize,
    offset_bytes: usize,
    mode: BufferMode,
    marker: std::marker::PhantomData<T>,
}

/// Why a buffer of texture elements cannot be created on `ctxt`, if it cannot: the device
/// must support buffer textures, and then have a buffer name left.
pub open spec fn buffer_creation_error(ctxt: Context) -> Option<BufferCreationError> {
    if tier_of(ctxt.caps_spec()) == CapabilityTier::Unsupported {
        Some(BufferCreationError::BufferTypeNotSupported)
    } else if ctxt.next_buffer_spec() == u32::MAX {
        Some(BufferCreationError::OutOfMemory)
    } else {
        None
    }
}

impl<T> BufferView<T> {
    /// The buffer's name on the device.
    pub closed spec fn id_spec(&self) -> u32 {
        self.id
    }

    /// The number of elements.
    pub closed spec fn len_spec(&self) -> nat {
        self.len as nat
    }

    /// Where the view starts in the buffer, in bytes.
    pub closed spec fn offset_spec(&self) -> nat {
        self.offset_bytes as nat
    }

    /// The allocation mode.
    pub closed spec fn mode_spec(&self) -> BufferMode {
        self.mode
    }

    /// The buffer's name on the device.
    pub fn get_buffer_id(&self) -> (r: u32)
        ensures
            r == self.id_spec(),
    {
        self.id
    }

    /// The number of elements.
    pub fn len(&self) -> (r: usize)
        ensures
            r == self.len_spec(),
    {
        self.len
    }

    /// Where the view starts in the buffer, in bytes.
    pub fn get_offset_bytes(&self) -> (r: usize)
        ensures
            r == self.offset_spec(),
    {
        self.offset_bytes
    }

    /// The allocation mode.
    pub fn mode(&self) -> (r: BufferMode)
        ensures
            r == self.mode_spec(),
    {
        self.mode
    }

    /// Creates a whole buffer of `len` elements in `mode`, or says why it cannot.
    fn create(ctxt: &mut Context, len: usize, mode: BufferMode) -> (r: Result<
        BufferView<T>,
        BufferCreationError,
    >)
        requires
            old(ctxt).wf(),
        ensures
            final(ctxt).wf(),
            final(ctxt).caps_spec() == old(ctxt).caps_spec(),
            final(ctxt).units() == old(ctxt).units(),
            final(ctxt).active_unit() == old(ctxt).active_unit(),
            final(ctxt).next_texture_spec() == old(ctxt).next_texture_spec(),
            final(ctxt).live_textures() == old(ctxt).live_textures(),
            match buffer_creation_error(*old(ctxt)) {
                Some(e) => r == Err::<BufferView<T>, BufferCreationError>(e) && *final(ctxt)
                    == *old(ctxt),
                None => r.is_ok() && r.unwrap().id_spec() == old(ctxt).next_buffer_spec()
                    && r.unwrap().len_spec() == len && r.unwrap().offset_spec() == 0
                    && r.unwrap().mode_spec() == mode && final(ctxt).next_buffer_spec()
                    == old(ctxt).next_buffer_spec() + 1,
            },
    {
        if ctxt.capabilities().tier() == CapabilityTier::Unsupported {
            return Err(BufferCreationError::BufferTypeNotSupported);
        }
        if !ctxt.buffer_name_available() {
            return Err(BufferCreationError::OutOfMemory);
        }
        let id = ctxt.gen_buffer();
        Ok(BufferView { id, len, offset_bytes: 0, mode, marker: std::marker::PhantomData })
    }

    /// Creates a buffer that holds `data`, or says why it cannot.
    pub fn new(ctxt: &mut Context, data: &[T], mode: BufferMode) -> (r: Result<
        BufferView<T>,
        BufferCreationError,
    >)
        requires
            old(ctxt).wf(),
        ensures
            final(ctxt).wf(),
            final(ctxt).caps_spec() == old(ctxt).caps_spec(),
            final(ctxt).units() == old(ctxt).units(),
            final(ctxt).active_unit() == old(ctxt).active_unit(),
            final(ctxt).next_texture_spec() == old(ctxt).next_texture_spec(),
            final(ctxt).live_textures() == old(ctxt).live_textures(),
            match buffer_creation_error(*old(ctxt)) {
                Some(e) => r == Err::<BufferView<T>, BufferCreationError>(e) && *final(ctxt)
                    == *old(ctxt),
                None => r.is_ok() && r.unwrap().id_spec() == old(ctxt).next_buffer_spec()
                    && r.unwrap().len_spec() == data@.len() && r.unwrap().offset_spec() == 0
                    && r.unwrap().mode_spec() == mode && final(ctxt).next_buffer_spec()
                    == old(ctxt).next_buffer_spec() + 1,
            },
    {
        Self::create(ctxt, data.len(), mode)
    }

    /// Creates a buffer of `len` elements whose contents are left unset, or says why it
    /// cannot.
    pub fn empty_array(ctxt: &mut Context, len: usize, mode: BufferMode) -> (r: Result<
        BufferView<T>,
        BufferCreationError,
    >)
        requires
            old(ctxt).wf(),
        ensures
            final(ctxt).wf(),
            final(ctxt).caps_spec() == old(ctxt).caps_spec(),
            final(ctxt).units() == old(ctxt).units(),
            final(ctxt).active_unit() == old(ctxt).active_unit(),
            final(ctxt).next_texture_spec() == old(ctxt).next_texture_spec(),
            final(ctxt).live_textures() == old(ctxt).live_textures(),
            match buffer_creation_error(*old(ctxt)) {
                Some(e) => r == Err::<BufferView<T>, BufferCreationError>(e) && *final(ctxt)
                    == *old(ctxt),
                None => r.is_ok() && r.unwrap().id_spec() == old(ctxt).next_buffer_spec()
                    && r.unwrap().len_spec() == len && r.unwrap().offset_spec() == 0
                    && r.unwrap().mode_spec() == mode && final(ctxt).next_buffer_spec()
                    == old(ctxt).next_buffer_spec() + 1,
            },
    {
        Self::create(ctxt, len, mode)
    }
}

} // verus!
