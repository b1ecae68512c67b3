//! Internal formats, and the choice of one for a layout and an interpretation on a device.

use vstd::prelude::*;

use crate::capabilities::{has_rgb32_support, tier_of, Capabilities, CapabilityTier};
use crate::layout::TextureBufferContentType;

verus! {

/// How the texels of a buffer texture are exposed to shaders.
#[derive(Copy, Clone, Debug, PartialEq, Eq, Structural)]
pub enum BufferTextureType {
    /// Floating-point data, sampled with a `samplerBuffer`. Integer contents are normalized,
    /// so that `0` reads as `0.0` and the largest value of the type reads as `1.0`.
    Float,
    /// Signed integral data, sampled with an `isamplerBuffer`.
    Integral,
    /// Unsigned integral data, sampled with a `usamplerBuffer`.
    Unsigned,
}

/// Error that can happen while building the texture part of a buffer texture.
#[derive(Copy, Clone, Debug, PartialEq, Eq, Structural)]
pub enum TextureCreationError {
    /// Buffer textures are not supported at all.
    NotSupported,
    /// The requested format is not supported in combination with the given texture buffer type.
    FormatNotSupported,
    /// The buffer holds more elements than the device's maximum texture-buffer size.
    TooLarge,
}

/// A driver-native internal format of a buffer texture.
#[derive(Copy, Clone, Debug, PartialEq, Eq, Structural)]
pub enum InternalFormat {
    R8,
    R8UI,
    R8I,
    R16,
    R16UI,
    R16I,
    R32UI,
    R32I,
    RG8,
    RG8UI,
    RG8I,
    RG16,
    RG16UI,
    RG16I,
    RG32UI,
    RG32I,
    RGBA8,
    RGBA8UI,
    RGBA8I,
    RGBA16,
    RGBA16UI,
    RGBA16I,
    RGBA32UI,
    RGBA32I,
    R16F,
    R32F,
    RG16F,
    RG32F,
    RGBA16F,
    RGBA32F,
    RGB32UI,
    RGB32I,
    RGB32F,
}

/// The full format table, offered by the modern tier. The three-channel 32-bit entries are
/// present only when `rgb32` holds.
pub open spec fn modern_format(
    layout: TextureBufferContentType,
    ty: BufferTextureType,
    rgb32: bool,
) -> Option<InternalFormat> {
    match (layout, ty) {
        (TextureBufferContentType::U8, BufferTextureType::Float) => Some(InternalFormat::R8),
        (TextureBufferContentType::U8, BufferTextureType::Unsigned) => Some(InternalFormat::R8UI),
        (TextureBufferContentType::I8, BufferTextureType::Integral) => Some(InternalFormat::R8I),
        (TextureBufferContentType::U16, BufferTextureType::Float) => Some(InternalFormat::R16),
        (TextureBufferContentType::U16, BufferTextureType::Unsigned) => Some(InternalFormat::R16UI),
        (TextureBufferContentType::I16, BufferTextureType::Integral) => Some(InternalFormat::R16I),
        (TextureBufferContentType::U32, BufferTextureType::Unsigned) => Some(InternalFormat::R32UI),
        (TextureBufferContentType::I32, BufferTextureType::Integral) => Some(InternalFormat::R32I),
        (TextureBufferContentType::U8U8, BufferTextureType::Float) => Some(InternalFormat::RG8),
        (TextureBufferContentType::U8U8, BufferTextureType::Unsigned) => Some(InternalFormat::RG8UI),
        (TextureBufferContentType::I8I8, BufferTextureType::Integral) => Some(InternalFormat::RG8I),
        (TextureBufferContentType::U16U16, BufferTextureType::Float) => Some(InternalFormat::RG16),
        (TextureBufferContentType::U16U16, BufferTextureType::Unsigned) => Some(InternalFormat::RG16UI),
        (TextureBufferContentType::I16I16, BufferTextureType::Integral) => Some(InternalFormat::RG16I),
        (TextureBufferContentType::U32U32, BufferTextureType::Unsigned) => Some(InternalFormat::RG32UI),
        (TextureBufferContentType::I32I32, BufferTextureType::Integral) => Some(InternalFormat::RG32I),
        (TextureBufferContentType::U8U8U8U8, BufferTextureType::Float) => Some(InternalFormat::RGBA8),
        (TextureBufferContentType::U8U8U8U8, BufferTextureType::Unsigned) => Some(InternalFormat::RGBA8UI),
        (TextureBufferContentType::I8I8I8I8, BufferTextureType::Integral) => Some(InternalFormat::RGBA8I),
        (TextureBufferContentType::U16U16U16U16, BufferTextureType::Float) => Some(InternalFormat::RGBA16),
        (TextureBufferContentType::U16U16U16U16, BufferTextureType::Unsigned) => Some(InternalFormat::RGBA16UI),
        (TextureBufferContentType::I16I16I16I16, BufferTextureType::Integral) => Some(InternalFormat::RGBA16I),
        (TextureBufferContentType::U32U32U32U32, BufferTextureType::Unsigned) => Some(InternalFormat::RGBA32UI),
        (TextureBufferContentType::I32I32I32I32, BufferTextureType::Integral) => Some(InternalFormat::RGBA32I),
        (TextureBufferContentType::F16, BufferTextureType::Float) => Some(InternalFormat::R16F),
        (TextureBufferContentType::F32, BufferTextureType::Float) => Some(InternalFormat::R32F),
        (TextureBufferContentType::F16F16, BufferTextureType::Float) => Some(InternalFormat::RG16F),
        (TextureBufferContentType::F32F32, BufferTextureType::Float) => Some(InternalFormat::RG32F),
        (TextureBufferContentType::F16F16F16F16, BufferTextureType::Float) => Some(InternalFormat::RGBA16F),
        (TextureBufferContentType::F32F32F32F32, BufferTextureType::Float) => Some(InternalFormat::RGBA32F),
        (TextureBufferContentType::U32U32U32, BufferTextureType::Unsigned) => if rgb32 { Some(InternalFormat::RGB32UI) } else { None },
        (TextureBufferContentType::I32I32I32, BufferTextureType::Integral) => if rgb32 { Some(InternalFormat::RGB32I) } else { None },
        (TextureBufferContentType::F32F32F32, BufferTextureType::Float) => if rgb32 { Some(InternalFormat::RGB32F) } else { None },
        _ => None,
    }
}

/// The four-channel table, offered by the legacy tier.
pub open spec fn legacy_format(
    layout: TextureBufferContentType,
    ty: BufferTextureType,
) -> Option<InternalFormat> {
    match (layout, ty) {
        (TextureBufferContentType::U8U8U8U8, BufferTextureType::Float) => Some(InternalFormat::RGBA8),
        (TextureBufferContentType::U16U16U16U16, BufferTextureType::Float) => Some(InternalFormat::RGBA16),
        (TextureBufferContentType::F16F16F16F16, BufferTextureType::Float) => Some(InternalFormat::RGBA16F),
        (TextureBufferContentType::F32F32F32F32, BufferTextureType::Float) => Some(InternalFormat::RGBA32F),
        (TextureBufferContentType::I8I8I8I8, BufferTextureType::Integral) => Some(InternalFormat::RGBA8I),
        (TextureBufferContentType::I16I16I16I16, BufferTextureType::Integral) => Some(InternalFormat::RGBA16I),
        (TextureBufferContentType::I32I32I32I32, BufferTextureType::Integral) => Some(InternalFormat::RGBA32I),
        (TextureBufferContentType::U8U8U8U8, BufferTextureType::Unsigned) => Some(InternalFormat::RGBA8UI),
        (TextureBufferContentType::U16U16U16U16, BufferTextureType::Unsigned) => Some(InternalFormat::RGBA16UI),
        (TextureBufferContentType::U32U32U32U32, BufferTextureType::Unsigned) => Some(InternalFormat::RGBA32UI),
        _ => None,
    }
}

/// The format table of a device's tier; none where buffer textures are unsupported.
pub open spec fn table_of(
    c: Capabilities,
    layout: TextureBufferContentType,
    ty: BufferTextureType,
) -> Option<InternalFormat> {
    match tier_of(c) {
        CapabilityTier::Modern => modern_format(layout, ty, has_rgb32_support(c)),
        CapabilityTier::Legacy => legacy_format(layout, ty),
        CapabilityTier::Unsupported => None,
    }
}

/// The outcome of resolving a format: `NotSupported` on a device without buffer textures,
/// whatever is asked; otherwise the entry of the tier's table, or `FormatNotSupported` where
/// the table has none.
pub open spec fn resolved_format(
    c: Capabilities,
    layout: TextureBufferContentType,
    ty: BufferTextureType,
) -> Result<InternalFormat, TextureCreationError> {
    if tier_of(c) == CapabilityTier::Unsupported {
        Err(TextureCreationError::NotSupported)
    } else {
        match table_of(c, layout, ty) {
            Some(f) => Ok(f),
            None => Err(TextureCreationError::FormatNotSupported),
        }
    }
}

/// The GL enumerant of an internal format.
pub open spec fn gl_enum_of(f: InternalFormat) -> u32 {
    match f {
        InternalFormat::R8 => 0x8229,
        InternalFormat::R8UI => 0x8232,
        InternalFormat::R8I => 0x8231,
        InternalFormat::R16 => 0x822A,
        InternalFormat::R16UI => 0x8234,
        InternalFormat::R16I => 0x8233,
        InternalFormat::R32UI => 0x8236,
        InternalFormat::R32I => 0x8235,
        InternalFormat::RG8 => 0x822B,
        InternalFormat::RG8UI => 0x8238,
        InternalFormat::RG8I => 0x8237,
        InternalFormat::RG16 => 0x822C,
        InternalFormat::RG16UI => 0x823A,
        InternalFormat::RG16I => 0x8239,
        InternalFormat::RG32UI => 0x823C,
        InternalFormat::RG32I => 0x823B,
        InternalFormat::RGBA8 => 0x8058,
        InternalFormat::RGBA8UI => 0x8D7C,
        InternalFormat::RGBA8I => 0x8D8E,
        InternalFormat::RGBA16 => 0x805B,
        InternalFormat::RGBA16UI => 0x8D76,
        InternalFormat::RGBA16I => 0x8D88,
        InternalFormat::RGBA32UI => 0x8D70,
        InternalFormat::RGBA32I => 0x8D82,
        InternalFormat::R16F => 0x822D,
        InternalFormat::R32F => 0x822E,
        InternalFormat::RG16F => 0x822F,
        InternalFormat::RG32F => 0x8230,
        InternalFormat::RGBA16F => 0x881A,
        InternalFormat::RGBA32F => 0x8814,
        InternalFormat::RGB32UI => 0x8D71,
        InternalFormat::RGB32I => 0x8D83,
        InternalFormat::RGB32F => 0x8815,
    }
}

impl InternalFormat {
    /// The GL enumerant of this format.
    pub fn to_gl_enum(&self) -> (r: u32)
        ensures
            r == gl_enum_of(*self),
    {
        match self {
            InternalFormat::R8 => 0x8229,
            InternalFormat::R8UI => 0x8232,
            InternalFormat::R8I => 0x8231,
            InternalFormat::R16 => 0x822A,
            InternalFormat::R16UI => 0x8234,
            InternalFormat::R16I => 0x8233,
            InternalFormat::R32UI => 0x8236,
            InternalFormat::R32I => 0x8235,
            InternalFormat::RG8 => 0x822B,
            InternalFormat::RG8UI => 0x8238,
            InternalFormat::RG8I => 0x8237,
            InternalFormat::RG16 => 0x822C,
            InternalFormat::RG16UI => 0x823A,
            InternalFormat::RG16I => 0x8239,
            InternalFormat::RG32UI => 0x823C,
            InternalFormat::RG32I => 0x823B,
            InternalFormat::RGBA8 => 0x8058,
            InternalFormat::RGBA8UI => 0x8D7C,
            InternalFormat::RGBA8I => 0x8D8E,
            InternalFormat::RGBA16 => 0x805B,
            InternalFormat::RGBA16UI => 0x8D76,
            InternalFormat::RGBA16I => 0x8D88,
            InternalFormat::RGBA32UI => 0x8D70,
            InternalFormat::RGBA32I => 0x8D82,
            InternalFormat::R16F => 0x822D,
            InternalFormat::R32F => 0x822E,
            InternalFormat::RG16F => 0x822F,
            InternalFormat::RG32F => 0x8230,
            InternalFormat::RGBA16F => 0x881A,
            InternalFormat::RGBA32F => 0x8814,
            InternalFormat::RGB32UI => 0x8D71,
            InternalFormat::RGB32I => 0x8D83,
            InternalFormat::RGB32F => 0x8815,
        }
    }
}

/// Looks a layout and an interpretation up in the full table.
pub fn modern_table(
    layout: TextureBufferContentType,
    ty: BufferTextureType,
    rgb32: bool,
) -> (r: Option<InternalFormat>)
    ensures
        r == modern_format(layout, ty, rgb32),
{
    match (layout, ty) {
        (TextureBufferContentType::U8, BufferTextureType::Float) => Some(InternalFormat::R8),
        (TextureBufferContentType::U8, BufferTextureType::Unsigned) => Some(InternalFormat::R8UI),
        (TextureBufferContentType::I8, BufferTextureType::Integral) => Some(InternalFormat::R8I),
        (TextureBufferContentType::U16, BufferTextureType::Float) => Some(InternalFormat::R16),
        (TextureBufferContentType::U16, BufferTextureType::Unsigned) => Some(InternalFormat::R16UI),
        (TextureBufferContentType::I16, BufferTextureType::Integral) => Some(InternalFormat::R16I),
        (TextureBufferContentType::U32, BufferTextureType::Unsigned) => Some(InternalFormat::R32UI),
        (TextureBufferContentType::I32, BufferTextureType::Integral) => Some(InternalFormat::R32I),
        (TextureBufferContentType::U8U8, BufferTextureType::Float) => Some(InternalFormat::RG8),
        (TextureBufferContentType::U8U8, BufferTextureType::Unsigned) => Some(InternalFormat::RG8UI),
        (TextureBufferContentType::I8I8, BufferTextureType::Integral) => Some(InternalFormat::RG8I),
        (TextureBufferContentType::U16U16, BufferTextureType::Float) => Some(InternalFormat::RG16),
        (TextureBufferContentType::U16U16, BufferTextureType::Unsigned) => Some(InternalFormat::RG16UI),
        (TextureBufferContentType::I16I16, BufferTextureType::Integral) => Some(InternalFormat::RG16I),
        (TextureBufferContentType::U32U32, BufferTextureType::Unsigned) => Some(InternalFormat::RG32UI),
        (TextureBufferContentType::I32I32, BufferTextureType::Integral) => Some(InternalFormat::RG32I),
        (TextureBufferContentType::U8U8U8U8, BufferTextureType::Float) => Some(InternalFormat::RGBA8),
        (TextureBufferContentType::U8U8U8U8, BufferTextureType::Unsigned) => Some(InternalFormat::RGBA8UI),
        (TextureBufferContentType::I8I8I8I8, BufferTextureType::Integral) => Some(InternalFormat::RGBA8I),
        (TextureBufferContentType::U16U16U16U16, BufferTextureType::Float) => Some(InternalFormat::RGBA16),
        (TextureBufferContentType::U16U16U16U16, BufferTextureType::Unsigned) => Some(InternalFormat::RGBA16UI),
        (TextureBufferContentType::I16I16I16I16, BufferTextureType::Integral) => Some(InternalFormat::RGBA16I),
        (TextureBufferContentType::U32U32U32U32, BufferTextureType::Unsigned) => Some(InternalFormat::RGBA32UI),
        (TextureBufferContentType::I32I32I32I32, BufferTextureType::Integral) => Some(InternalFormat::RGBA32I),
        (TextureBufferContentType::F16, BufferTextureType::Float) => Some(InternalFormat::R16F),
        (TextureBufferContentType::F32, BufferTextureType::Float) => Some(InternalFormat::R32F),
        (TextureBufferContentType::F16F16, BufferTextureType::Float) => Some(InternalFormat::RG16F),
        (TextureBufferContentType::F32F32, BufferTextureType::Float) => Some(InternalFormat::RG32F),
        (TextureBufferContentType::F16F16F16F16, BufferTextureType::Float) => Some(InternalFormat::RGBA16F),
        (TextureBufferContentType::F32F32F32F32, BufferTextureType::Float) => Some(InternalFormat::RGBA32F),
        (TextureBufferContentType::U32U32U32, BufferTextureType::Unsigned) => if rgb32 { Some(InternalFormat::RGB32UI) } else { None },
        (TextureBufferContentType::I32I32I32, BufferTextureType::Integral) => if rgb32 { Some(InternalFormat::RGB32I) } else { None },
        (TextureBufferContentType::F32F32F32, BufferTextureType::Float) => if rgb32 { Some(InternalFormat::RGB32F) } else { None },
        _ => None,
    }
}

/// Looks a layout and an interpretation up in the four-channel table.
pub fn legacy_table(layout: TextureBufferContentType, ty: BufferTextureType) -> (r: Option<
    InternalFormat,
>)
    ensures
        r == legacy_format(layout, ty),
{
    match (layout, ty) {
        (TextureBufferContentType::U8U8U8U8, BufferTextureType::Float) => Some(InternalFormat::RGBA8),
        (TextureBufferContentType::U16U16U16U16, BufferTextureType::Float) => Some(InternalFormat::RGBA16),
        (TextureBufferContentType::F16F16F16F16, BufferTextureType::Float) => Some(InternalFormat::RGBA16F),
        (TextureBufferContentType::F32F32F32F32, BufferTextureType::Float) => Some(InternalFormat::RGBA32F),
        (TextureBufferContentType::I8I8I8I8, BufferTextureType::Integral) => Some(InternalFormat::RGBA8I),
        (TextureBufferContentType::I16I16I16I16, BufferTextureType::Integral) => Some(InternalFormat::RGBA16I),
        (TextureBufferContentType::I32I32I32I32, BufferTextureType::Integral) => Some(InternalFormat::RGBA32I),
        (TextureBufferContentType::U8U8U8U8, BufferTextureType::Unsigned) => Some(InternalFormat::RGBA8UI),
        (TextureBufferContentType::U16U16U16U16, BufferTextureType::Unsigned) => Some(InternalFormat::RGBA16UI),
        (TextureBufferContentType::U32U32U32U32, BufferTextureType::Unsigned) => Some(InternalFormat::RGBA32UI),
        _ => None,
    }
}

/// Picks the internal format for elements of `layout` read as `ty` on a device of
/// capabilities `caps`. A pair missing from the tier's table is refused, never replaced by a
/// neighbouring format.
pub fn resolve_format(
    caps: &Capabilities,
    layout: TextureBufferContentType,
    ty: BufferTextureType,
) -> (r: Result<InternalFormat, TextureCreationError>)
    ensures
        r == resolved_format(*caps, layout, ty),
{
    let found = match caps.tier() {
        CapabilityTier::Modern => modern_table(layout, ty, caps.supports_rgb32()),
        CapabilityTier::Legacy => legacy_table(layout, ty),
        CapabilityTier::Unsupported => {
            return Err(TextureCreationError::NotSupported);
        },
    };
    match found {
        Some(f) => Ok(f),
        None => Err(TextureCreationError::FormatNotSupported),
    }
}

/// Under modern-tier capabilities, every pair of the full table resolves to its entry.
pub proof fn lemma_modern_pair_resolves(
    c: Capabilities,
    layout: TextureBufferContentType,
    ty: BufferTextureType,
    f: InternalFormat,
)
    requires
        tier_of(c) == CapabilityTier::Modern,
        modern_format(layout, ty, has_rgb32_support(c)) == Some(f),
    ensures
        resolved_format(c, layout, ty) == Ok::<InternalFormat, TextureCreationError>(f),
{
}

/// On a device that supports buffer textures, a pair missing from its tier's table is
/// refused with `FormatNotSupported`, and no other format is chosen.
pub proof fn lemma_absent_pair_refused(
    c: Capabilities,
    layout: TextureBufferContentType,
    ty: BufferTextureType,
)
    requires
        tier_of(c) != CapabilityTier::Unsupported,
        table_of(c, layout, ty).is_none(),
    ensures
        resolved_format(c, layout, ty) == Err::<InternalFormat, TextureCreationError>(
            TextureCreationError::FormatNotSupported,
        ),
{
}

/// On a device without buffer-texture support, every request is refused with
/// `NotSupported`, whatever the layout and interpretation.
pub proof fn lemma_unsupported_device_refused(
    c: Capabilities,
    layout: TextureBufferContentType,
    ty: BufferTextureType,
)
    requires
        tier_of(c) == CapabilityTier::Unsupported,
    ensures
        resolved_format(c, layout, ty) == Err::<InternalFormat, TextureCreationError>(
            TextureCreationError::NotSupported,
        ),
{
}

/// Under modern-tier capabilities, three unsigned 32-bit channels read as unsigned resolve
/// to `RGB32UI` exactly when the three-channel 32-bit condition holds, and are refused
/// otherwise.
pub proof fn lemma_rgb32_unsigned_gated(c: Capabilities)
    requires
        tier_of(c) == CapabilityTier::Modern,
    ensures
        has_rgb32_support(c) ==> resolved_format(
            c,
            TextureBufferContentType::U32U32U32,
            BufferTextureType::Unsigned,
        ) == Ok::<InternalFormat, TextureCreationError>(InternalFormat::RGB32UI),
        !has_rgb32_support(c) ==> resolved_format(
            c,
            TextureBufferContentType::U32U32U32,
            BufferTextureType::Unsigned,
        ) == Err::<InternalFormat, TextureCreationError>(
            TextureCreationError::FormatNotSupported,
        ),
{
}

/// Under modern-tier capabilities, single unsigned bytes resolve to the normalized `R8`
/// when read as floats, and are refused when read as signed integers: no other format
/// stands in for the missing one.
pub proof fn lemma_single_byte_formats(c: Capabilities)
    requires
        tier_of(c) == CapabilityTier::Modern,
    ensures
        resolved_format(c, TextureBufferContentType::U8, BufferTextureType::Float) == Ok::<
            InternalFormat,
            TextureCreationError,
        >(InternalFormat::R8),
        resolved_format(c, TextureBufferContentType::U8, BufferTextureType::Integral) == Err::<
            InternalFormat,
            TextureCreationError,
        >(TextureCreationError::FormatNotSupported),
{
}

} // verus!
