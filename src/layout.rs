//! The closed set of element layouts that a buffer texture can read.

use vstd::prelude::*;

verus! {

/// Storage shape of one element of a buffer texture: width and signedness of a channel, and
/// the number of channels.
///
/// Some three-channel layouts are missing on purpose: the graphics API has no internal
/// format for them.
#[derive(Copy, Clone, Debug, PartialEq, Eq, Structural)]
pub enum TextureBufferContentType {
    U8,
    I8,
    U16,
    I16,
    U32,
    I32,
    U8U8,
    I8I8,
    U16U16,
    I16I16,
    U32U32,
    I32I32,
    U32U32U32,
    I32I32I32,
    U8U8U8U8,
    I8I8I8I8,
    U16U16U16U16,
    I16I16I16I16,
    U32U32U32U32,
    I32I32I32I32,
    F16,
    F32,
    F16F16,
    F32F32,
    F32F32F32,
    F16F16F16F16,
    F32F32F32F32,
}

/// Element types that a buffer texture can be built over. Each one names its layout, fixed
/// by the type alone.
pub trait TextureBufferContent: Sized {
    /// The layout of elements of this type.
    spec fn layout() -> TextureBufferContentType;

    /// Returns the layout of elements of this type.
    fn get_type() -> (r: TextureBufferContentType)
        ensures
            r == Self::layout(),
    ;
}

impl TextureBufferContent for u8 {
    open spec fn layout() -> TextureBufferContentType {
        TextureBufferContentType::U8
    }

    fn get_type() -> (r: TextureBufferContentType) {
        TextureBufferContentType::U8
    }
}

impl TextureBufferContent for i8 {
    open spec fn layout() -> TextureBufferContentType {
        TextureBufferContentType::I8
    }

    fn get_type() -> (r: TextureBufferContentType) {
        TextureBufferContentType::I8
    }
}

impl TextureBufferContent for u16 {
    open spec fn layout() -> TextureBufferContentType {
        TextureBufferContentType::U16
    }

    fn get_type() -> (r: TextureBufferContentType) {
        TextureBufferContentType::U16
    }
}

impl TextureBufferContent for i16 {
    open spec fn layout() -> TextureBufferContentType {
        TextureBufferContentType::I16
    }

    fn get_type() -> (r: TextureBufferContentType) {
        TextureBufferContentType::I16
    }
}

impl TextureBufferContent for u32 {
    open spec fn layout() -> TextureBufferContentType {
        TextureBufferContentType::U32
    }

    fn get_type() -> (r: TextureBufferContentType) {
        TextureBufferContentType::U32
    }
}

impl TextureBufferContent for i32 {
    open spec fn layout() -> TextureBufferContentType {
        TextureBufferContentType::I32
    }

    fn get_type() -> (r: TextureBufferContentType) {
        TextureBufferContentType::I32
    }
}

impl TextureBufferContent for (u8, u8) {
    open spec fn layout() -> TextureBufferContentType {
        TextureBufferContentType::U8U8
    }

    fn get_type() -> (r: TextureBufferContentType) {
        TextureBufferContentType::U8U8
    }
}

impl TextureBufferContent for (i8, i8) {
    open spec fn layout() -> TextureBufferContentType {
        TextureBufferContentType::I8I8
    }

    fn get_type() -> (r: TextureBufferContentType) {
        TextureBufferContentType::I8I8
    }
}

impl TextureBufferContent for (u16, u16) {
    open spec fn layout() -> TextureBufferContentType {
        TextureBufferContentType::U16U16
    }

    fn get_type() -> (r: TextureBufferContentType) {
        TextureBufferContentType::U16U16
    }
}

impl TextureBufferContent for (i16, i16) {
    open spec fn layout() -> TextureBufferContentType {
        TextureBufferContentType::I16I16
    }

    fn get_type() -> (r: TextureBufferContentType) {
        TextureBufferContentType::I16I16
    }
}

impl TextureBufferContent for (u32, u32) {
    open spec fn layout() -> TextureBufferContentType {
        TextureBufferContentType::U32U32
    }

    fn get_type() -> (r: TextureBufferContentType) {
        TextureBufferContentType::U32U32
    }
}

impl TextureBufferContent for (i32, i32) {
    open spec fn layout() -> TextureBufferContentType {
        TextureBufferContentType::I32I32
    }

    fn get_type() -> (r: TextureBufferContentType) {
        TextureBufferContentType::I32I32
    }
}

impl TextureBufferContent for (u32, u32, u32) {
    open spec fn layout() -> TextureBufferContentType {
        TextureBufferContentType::U32U32U32
    }

    fn get_type() -> (r: TextureBufferContentType) {
        TextureBufferContentType::U32U32U32
    }
}

impl TextureBufferContent for (i32, i32, i32) {
    open spec fn layout() -> TextureBufferContentType {
        TextureBufferContentType::I32I32I32
    }

    fn get_type() -> (r: TextureBufferContentType) {
        TextureBufferContentType::I32I32I32
    }
}

impl TextureBufferContent for (u8, u8, u8, u8) {
    open spec fn layout() -> TextureBufferContentType {
        TextureBufferContentType::U8U8U8U8
    }

    fn get_type() -> (r: TextureBufferContentType) {
        TextureBufferContentType::U8U8U8U8
    }
}

impl TextureBufferContent for (i8, i8, i8, i8) {
    open spec fn layout() -> TextureBufferContentType {
        TextureBufferContentType::I8I8I8I8
    }

    fn get_type() -> (r: TextureBufferContentType) {
        TextureBufferContentType::I8I8I8I8
    }
}

impl TextureBufferContent for (u16, u16, u16, u16) {
    open spec fn layout() -> TextureBufferContentType {
        TextureBufferContentType::U16U16U16U16
    }

    fn get_type() -> (r: TextureBufferContentType) {
        TextureBufferContentType::U16U16U16U16
    }
}

impl TextureBufferContent for (i16, i16, i16, i16) {
    open spec fn layout() -> TextureBufferContentType {
        TextureBufferContentType::I16I16I16I16
    }

    fn get_type() -> (r: TextureBufferContentType) {
        TextureBufferContentType::I16I16I16I16
    }
}

impl TextureBufferContent for (u32, u32, u32, u32) {
    open spec fn layout() -> TextureBufferContentType {
        TextureBufferContentType::U32U32U32U32
    }

    fn get_type() -> (r: TextureBufferContentType) {
        TextureBufferContentType::U32U32U32U32
    }
}

impl TextureBufferContent for (i32, i32, i32, i32) {
    open spec fn layout() -> TextureBufferContentType {
        TextureBufferContentType::I32I32I32I32
    }

    fn get_type() -> (r: TextureBufferContentType) {
        TextureBufferContentType::I32I32I32I32
    }
}

} // verus!
