//! A `BufferTexture` is a one-dimensional texture that gets its data from a buffer. Buffer
//! textures have very limited capabilities (nothing can be drawn into them); they are an
//! alternative to uniform buffers and storage buffers.

use vstd::prelude::*;

use crate::binding::cleared_units;
use crate::buffer::{buffer_creation_error, BufferCreationError, BufferMode, BufferView};
use crate::capabilities::{entry_point_of, TexBufferEntryPoint};
use crate::context::Context;
use crate::format::{
    resolve_format,
    resolved_format,
    BufferTextureType,
    InternalFormat,
    TextureCreationError,
};
use crate::layout::{TextureBufferContent, TextureBufferContentType};

verus! {

/// Error that can happen while building a buffer texture.
#[derive(Copy, Clone, Debug, PartialEq, Eq, Structural)]
pub enum CreationError {
    /// Failed to create the buffer.
    BufferCreationError(BufferCreationError),
    /// Failed to create the texture.
    TextureCreationError(TextureCreationError),
}

impl From<BufferCreationError> for CreationError {
    fn from(err: BufferCreationError) -> CreationError {
        CreationError::BufferCreationError(err)
    }
}

impl vstd::std_specs::convert::FromSpecImpl<BufferCreationError> for CreationError {
    open spec fn obeys_from_spec() -> bool {
        true
    }

    open spec fn from_spec(v: BufferCreationError) -> CreationError {
        CreationError::BufferCreationError(v)
    }
}

impl From<TextureCreationError> for CreationError {
    fn from(err: TextureCreationError) -> CreationError {
        CreationError::TextureCreationError(err)
    }
}

impl vstd::std_specs::convert::FromSpecImpl<TextureCreationError> for CreationError {
    open spec fn obeys_from_spec() -> bool {
        true
    }

    open spec fn from_spec(v: TextureCreationError) -> CreationError {
        CreationError::TextureCreationError(v)
    }
}

/// Why a texture over `len` elements of `layout`, read as `ty`, cannot be built on a device
/// of capabilities `ctxt.caps_spec()`, if it cannot: no format resolves, or the buffer is
/// longer than the device allows.
pub open spec fn texture_creation_error(
    ctxt: Context,
    layout: TextureBufferContentType,
    ty: BufferTextureType,
    len: nat,
) -> Option<TextureCreationError> {
    match resolved_format(ctxt.caps_spec(), layout, ty) {
        Err(e) => Some(e),
        Ok(_) => if len > ctxt.caps_spec().max_texture_buffer_size {
            Some(TextureCreationError::TooLarge)
        } else {
            None
        },
    }
}

/// A one-dimensional texture that gets its data from a buffer, which it owns.
pub struct BufferTexture<T> {
    buffer: BufferView<T>,
    texture: u32,
    ty: BufferTextureType,
    format: InternalFormat,
    entry_point: TexBufferEntryPoint,
}

impl<T: TextureBufferContent> BufferTexture<T> {
    /// The texture's name on the device.
    pub closed spec fn texture_spec(&self) -> u32 {
        self.texture
    }

    /// The buffer that backs the texture.
    pub closed spec fn buffer_spec(&self) -> BufferView<T> {
        self.buffer
    }

    /// How the texels are exposed to shaders.
    pub closed spec fn ty_spec(&self) -> BufferTextureType {
        self.ty
    }

    /// The internal format that the buffer was attached with.
    pub closed spec fn format_spec(&self) -> InternalFormat {
        self.format
    }

    /// The driver call that attached the buffer.
    pub closed spec fn entry_point_spec(&self) -> TexBufferEntryPoint {
        self.entry_point
    }

    /// `self` was built on `before` over `buffer`, read as `ty`, leaving the device as
    /// `after`: it took the next texture name, bound it to the active unit, and attached the
    /// buffer with the resolved format through the device's entry point.
    pub open spec fn built_from(
        &self,
        before: Context,
        after: Context,
        buffer: BufferView<T>,
        ty: BufferTextureType,
    ) -> bool {
        &&& self.texture_spec() == before.next_texture_spec()
        &&& self.texture_spec() != 0
        &&& self.buffer_spec() == buffer
        &&& self.ty_spec() == ty
        &&& resolved_format(before.caps_spec(), T::layout(), ty) == Ok::<
            InternalFormat,
            TextureCreationError,
        >(self.format_spec())
        &&& entry_point_of(before.caps_spec()) == Some(self.entry_point_spec())
        &&& after.units() == before.units().update(
            before.active_unit() as int,
            self.texture_spec(),
        )
        &&& after.next_texture_spec() == before.next_texture_spec() + 1
        &&& after.active_unit() == before.active_unit()
        &&& after.caps_spec() == before.caps_spec()
        &&& after.next_buffer_spec() == before.next_buffer_spec()
        &&& !before.live_textures().contains(self.texture_spec())
        &&& after.live_textures() == before.live_textures().insert(self.texture_spec())
    }

    /// Builds a new buffer texture by taking ownership of a buffer. On failure the buffer is
    /// handed back unchanged, and the device is left as it was.
    pub fn from_buffer(ctxt: &mut Context, buffer: BufferView<T>, ty: BufferTextureType) -> (r:
        Result<BufferTexture<T>, (TextureCreationError, BufferView<T>)>)
        requires
            old(ctxt).wf(),
            old(ctxt).next_texture_spec() < u32::MAX,
            buffer.offset_spec() == 0,
        ensures
            final(ctxt).wf(),
            match texture_creation_error(*old(ctxt), T::layout(), ty, buffer.len_spec()) {
                Some(e) => r == Err::<BufferTexture<T>, (TextureCreationError, BufferView<T>)>(
                    (e, buffer),
                ) && *final(ctxt) == *old(ctxt),
                None => r is Ok && r->Ok_0.built_from(*old(ctxt), *final(ctxt), buffer, ty),
            },
    {
        // the format is settled before anything is created on the device
        let internal_format = match resolve_format(ctxt.capabilities(), T::get_type(), ty) {
            Ok(f) => f,
            Err(e) => {
                return Err((e, buffer));
            },
        };
        if buffer.len() > ctxt.capabilities().max_texture_buffer_size {
            return Err((TextureCreationError::TooLarge, buffer));
        }
        proof {
            crate::capabilities::lemma_entry_point_matches_tier(ctxt.caps_spec());
        }
        // a resolved format means the device supports buffer textures, so it has an entry point
        let entry_point = ctxt.capabilities().entry_point().unwrap();
        let id = ctxt.gen_texture();
        ctxt.bind_texture(id);
        Ok(BufferTexture { buffer, texture: id, ty, format: internal_format, entry_point })
    }

    /// The outcome of creating a buffer of `len` elements in `mode` on `before` and a texture
    /// over it read as `ty`, leaving the device as `after`. A buffer failure comes first and
    /// leaves the device untouched. A texture failure comes next; the buffer made for it is
    /// released, so only its name is spent. Otherwise the texture holds the fresh buffer.
    pub open spec fn creation_outcome(
        before: Context,
        after: Context,
        r: Result<BufferTexture<T>, CreationError>,
        len: nat,
        mode: BufferMode,
        ty: BufferTextureType,
    ) -> bool {
        match buffer_creation_error(before) {
            Some(e) => r == Err::<BufferTexture<T>, CreationError>(
                CreationError::BufferCreationError(e),
            ) && after == before,
            None => match texture_creation_error(before, T::layout(), ty, len) {
                Some(e) => {
                    &&& r == Err::<BufferTexture<T>, CreationError>(
                        CreationError::TextureCreationError(e),
                    )
                    &&& after.units() == before.units()
                    &&& after.active_unit() == before.active_unit()
                    &&& after.caps_spec() == before.caps_spec()
                    &&& after.next_texture_spec() == before.next_texture_spec()
                    &&& after.next_buffer_spec() == before.next_buffer_spec() + 1
                    &&& after.live_textures() == before.live_textures()
                },
                None => {
                    &&& r is Ok
                    &&& r->Ok_0.buffer_spec().id_spec() == before.next_buffer_spec()
                    &&& r->Ok_0.buffer_spec().len_spec() == len
                    &&& r->Ok_0.buffer_spec().offset_spec() == 0
                    &&& r->Ok_0.buffer_spec().mode_spec() == mode
                    &&& r->Ok_0.texture_spec() == before.next_texture_spec()
                    &&& r->Ok_0.texture_spec() != 0
                    &&& r->Ok_0.ty_spec() == ty
                    &&& resolved_format(before.caps_spec(), T::layout(), ty) == Ok::<
                        InternalFormat,
                        TextureCreationError,
                    >(r->Ok_0.format_spec())
                    &&& entry_point_of(before.caps_spec()) == Some(r->Ok_0.entry_point_spec())
                    &&& after.units() == before.units().update(
                        before.active_unit() as int,
                        r->Ok_0.texture_spec(),
                    )
                    &&& after.active_unit() == before.active_unit()
                    &&& after.caps_spec() == before.caps_spec()
                    &&& after.next_texture_spec() == before.next_texture_spec() + 1
                    &&& after.next_buffer_spec() == before.next_buffer_spec() + 1
                    &&& !before.live_textures().contains(r->Ok_0.texture_spec())
                    &&& after.live_textures() == before.live_textures().insert(
                        r->Ok_0.texture_spec(),
                    )
                },
            },
        }
    }

    /// Turns the outcome of buffer creation into a texture over that buffer.
    fn attach(ctxt: &mut Context, created: Result<BufferView<T>, BufferCreationError>, ty: BufferTextureType) -> (r:
        Result<BufferTexture<T>, CreationError>)
        requires
            old(ctxt).wf(),
            old(ctxt).next_texture_spec() < u32::MAX,
            created is Ok ==> created->Ok_0.offset_spec() == 0,
        ensures
            final(ctxt).wf(),
            match created {
                Err(e) => r == Err::<BufferTexture<T>, CreationError>(
                    CreationError::BufferCreationError(e),
                ) && *final(ctxt) == *old(ctxt),
                Ok(b) => match texture_creation_error(*old(ctxt), T::layout(), ty, b.len_spec()) {
                    Some(e) => r == Err::<BufferTexture<T>, CreationError>(
                        CreationError::TextureCreationError(e),
                    ) && *final(ctxt) == *old(ctxt),
                    None => r is Ok && r->Ok_0.built_from(*old(ctxt), *final(ctxt), b, ty),
                },
            },
    {
        let buffer = match created {
            Ok(b) => b,
            Err(e) => {
                return Err(CreationError::from(e));
            },
        };
        match Self::from_buffer(ctxt, buffer, ty) {
            Ok(t) => Ok(t),
            Err((e, _)) => Err(CreationError::from(e)),
        }
    }

    fn new_impl(ctxt: &mut Context, data: &[T], mode: BufferMode, ty: BufferTextureType) -> (r:
        Result<BufferTexture<T>, CreationError>)
        requires
            old(ctxt).wf(),
            old(ctxt).next_texture_spec() < u32::MAX,
        ensures
            final(ctxt).wf(),
            Self::creation_outcome(*old(ctxt), *final(ctxt), r, data@.len(), mode, ty),
    {
        let created = BufferView::new(ctxt, data, mode);
        Self::attach(ctxt, created, ty)
    }

    fn empty_impl(ctxt: &mut Context, len: usize, ty: BufferTextureType, mode: BufferMode) -> (r:
        Result<BufferTexture<T>, CreationError>)
        requires
            old(ctxt).wf(),
            old(ctxt).next_texture_spec() < u32::MAX,
        ensures
            final(ctxt).wf(),
            Self::creation_outcome(*old(ctxt), *final(ctxt), r, len as nat, mode, ty),
    {
        let created = BufferView::empty_array(ctxt, len, mode);
        Self::attach(ctxt, created, ty)
    }

    /// Builds a new buffer texture from data.
    pub fn new(ctxt: &mut Context, data: &[T], ty: BufferTextureType) -> (r: Result<
        BufferTexture<T>,
        CreationError,
    >)
        requires
            old(ctxt).wf(),
            old(ctxt).next_texture_spec() < u32::MAX,
        ensures
            final(ctxt).wf(),
            Self::creation_outcome(*old(ctxt), *final(ctxt), r, data@.len(), BufferMode::Default, ty),
    {
        Self::new_impl(ctxt, data, BufferMode::Default, ty)
    }

    /// Builds a new buffer texture from data, in a buffer meant for frequent updates.
    pub fn dynamic(ctxt: &mut Context, data: &[T], ty: BufferTextureType) -> (r: Result<
        BufferTexture<T>,
        CreationError,
    >)
        requires
            old(ctxt).wf(),
            old(ctxt).next_texture_spec() < u32::MAX,
        ensures
            final(ctxt).wf(),
            Self::creation_outcome(*old(ctxt), *final(ctxt), r, data@.len(), BufferMode::Dynamic, ty),
    {
        Self::new_impl(ctxt, data, BufferMode::Dynamic, ty)
    }

    /// Builds a new buffer texture from data, in a persistently mapped buffer.
    pub fn persistent(ctxt: &mut Context, data: &[T], ty: BufferTextureType) -> (r: Result<
        BufferTexture<T>,
        CreationError,
    >)
        requires
            old(ctxt).wf(),
            old(ctxt).next_texture_spec() < u32::MAX,
        ensures
            final(ctxt).wf(),
            Self::creation_outcome(*old(ctxt), *final(ctxt), r, data@.len(), BufferMode::Persistent, ty),
    {
        Self::new_impl(ctxt, data, BufferMode::Persistent, ty)
    }

    /// Builds a new buffer texture from data, in a buffer whose storage never changes.
    pub fn immutable(ctxt: &mut Context, data: &[T], ty: BufferTextureType) -> (r: Result<
        BufferTexture<T>,
        CreationError,
    >)
        requires
            old(ctxt).wf(),
            old(ctxt).next_texture_spec() < u32::MAX,
        ensures
            final(ctxt).wf(),
            Self::creation_outcome(*old(ctxt), *final(ctxt), r, data@.len(), BufferMode::Immutable, ty),
    {
        Self::new_impl(ctxt, data, BufferMode::Immutable, ty)
    }

    /// Builds a new buffer texture over `len` elements left unset.
    pub fn empty(ctxt: &mut Context, len: usize, ty: BufferTextureType) -> (r: Result<
        BufferTexture<T>,
        CreationError,
    >)
        requires
            old(ctxt).wf(),
            old(ctxt).next_texture_spec() < u32::MAX,
        ensures
            final(ctxt).wf(),
            Self::creation_outcome(*old(ctxt), *final(ctxt), r, len as nat, BufferMode::Default, ty),
    {
        Self::empty_impl(ctxt, len, ty, BufferMode::Default)
    }

    /// Builds a new buffer texture over `len` elements left unset, in a buffer meant for
    /// frequent updates.
    pub fn empty_dynamic(ctxt: &mut Context, len: usize, ty: BufferTextureType) -> (r: Result<
        BufferTexture<T>,
        CreationError,
    >)
        requires
            old(ctxt).wf(),
            old(ctxt).next_texture_spec() < u32::MAX,
        ensures
            final(ctxt).wf(),
            Self::creation_outcome(*old(ctxt), *final(ctxt), r, len as nat, BufferMode::Dynamic, ty),
    {
        Self::empty_impl(ctxt, len, ty, BufferMode::Dynamic)
    }

    /// Builds a new buffer texture over `len` elements left unset, in a persistently mapped
    /// buffer.
    pub fn empty_persistent(ctxt: &mut Context, len: usize, ty: BufferTextureType) -> (r: Result<
        BufferTexture<T>,
        CreationError,
    >)
        requires
            old(ctxt).wf(),
            old(ctxt).next_texture_spec() < u32::MAX,
        ensures
            final(ctxt).wf(),
            Self::creation_outcome(*old(ctxt), *final(ctxt), r, len as nat, BufferMode::Persistent, ty),
    {
        Self::empty_impl(ctxt, len, ty, BufferMode::Persistent)
    }

    /// Builds a new buffer texture over `len` elements left unset, in a buffer whose storage
    /// never changes.
    pub fn empty_immutable(ctxt: &mut Context, len: usize, ty: BufferTextureType) -> (r: Result<
        BufferTexture<T>,
        CreationError,
    >)
        requires
            old(ctxt).wf(),
            old(ctxt).next_texture_spec() < u32::MAX,
        ensures
            final(ctxt).wf(),
            Self::creation_outcome(*old(ctxt), *final(ctxt), r, len as nat, BufferMode::Immutable, ty),
    {
        Self::empty_impl(ctxt, len, ty, BufferMode::Immutable)
    }

    /// The texture's name on the device.
    pub fn get_id(&self) -> (r: u32)
        ensures
            r == self.texture_spec(),
    {
        self.texture
    }

    /// How the texels are exposed to shaders.
    pub fn get_texture_type(&self) -> (r: BufferTextureType)
        ensures
            r == self.ty_spec(),
    {
        self.ty
    }

    /// The internal format that the buffer was attached with.
    pub fn get_internal_format(&self) -> (r: InternalFormat)
        ensures
            r == self.format_spec(),
    {
        self.format
    }

    /// The driver call that attached the buffer.
    pub fn get_entry_point(&self) -> (r: TexBufferEntryPoint)
        ensures
            r == self.entry_point_spec(),
    {
        self.entry_point
    }

    /// The buffer that backs the texture.
    pub fn buffer(&self) -> (r: &BufferView<T>)
        ensures
            *r == self.buffer_spec(),
    {
        &self.buffer
    }

    /// Makes `unit` the active texture unit and binds this texture to it.
    pub fn bind_to_unit(&self, ctxt: &mut Context, unit: usize)
        requires
            old(ctxt).wf(),
            unit < old(ctxt).units().len(),
        ensures
            final(ctxt).wf(),
            final(ctxt).units() == old(ctxt).units().update(unit as int, self.texture_spec()),
            final(ctxt).active_unit() == unit,
            final(ctxt).caps_spec() == old(ctxt).caps_spec(),
            final(ctxt).next_texture_spec() == old(ctxt).next_texture_spec(),
            final(ctxt).next_buffer_spec() == old(ctxt).next_buffer_spec(),
            final(ctxt).live_textures() == old(ctxt).live_textures(),
    {
        ctxt.set_active_texture(unit);
        ctxt.bind_texture(self.texture);
    }

    /// Destroys the texture and its buffer: every unit that holds the texture is emptied
    /// before the texture is deleted. The texture is consumed, so it cannot be destroyed
    /// twice nor used afterwards.
    pub fn destroy(self, ctxt: &mut Context)
        requires
            old(ctxt).wf(),
        ensures
            final(ctxt).wf(),
            final(ctxt).units() == cleared_units(old(ctxt).units(), self.texture_spec()),
            final(ctxt).active_unit() == old(ctxt).active_unit(),
            final(ctxt).caps_spec() == old(ctxt).caps_spec(),
            final(ctxt).next_texture_spec() == old(ctxt).next_texture_spec(),
            final(ctxt).next_buffer_spec() == old(ctxt).next_buffer_spec(),
            final(ctxt).live_textures() == old(ctxt).live_textures().remove(self.texture_spec()),
    {
        ctxt.delete_texture(self.texture);
    }
}

/// Once a texture is destroyed, no unit holds it and it no longer exists on the device,
/// however many units held it; the number of units is unchanged.
pub proof fn lemma_destroyed_texture_is_gone(before: Context, after: Context, texture: u32)
    requires
        texture != 0,
        after.units() == cleared_units(before.units(), texture),
        after.live_textures() == before.live_textures().remove(texture),
    ensures
        after.units().len() == before.units().len(),
        forall|i: int| 0 <= i < after.units().len() ==> #[trigger] after.units()[i] != texture,
        !after.live_textures().contains(texture),
{
}

impl<T: TextureBufferContent> std::ops::Deref for BufferTexture<T> {
    type Target = BufferView<T>;

    fn deref(&self) -> &BufferView<T> {
        &self.buffer
    }
}

impl<T: TextureBufferContent> std::ops::DerefMut for BufferTexture<T> {
    fn deref_mut(&mut self) -> &mut BufferView<T> {
        &mut self.buffer
    }
}

} // verus!
