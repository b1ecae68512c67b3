use buffer_texture::{
    resolve_format, Api, BufferTextureType, Capabilities, CapabilityTier, Extensions,
    InternalFormat, TexBufferEntryPoint, TextureBufferContent, TextureBufferContentType,
    TextureCreationError, Version,
};
use buffer_texture::BufferTextureType::{Float, Integral, Unsigned};
use buffer_texture::TextureBufferContentType as L;

fn no_extensions() -> Extensions {
    Extensions {
        gl_oes_texture_buffer: false,
        gl_ext_texture_buffer: false,
        gl_arb_texture_buffer_object: false,
        gl_ext_texture_buffer_object: false,
        gl_arb_texture_buffer_object_rgb32: false,
    }
}

fn caps(api: Api, major: u8, minor: u8, extensions: Extensions) -> Capabilities {
    Capabilities {
        version: Version { api, major, minor },
        extensions,
        max_texture_buffer_size: 65536,
    }
}

fn gl33() -> Capabilities {
    caps(Api::Gl, 3, 3, no_extensions())
}

fn legacy_arb() -> Capabilities {
    let mut e = no_extensions();
    e.gl_arb_texture_buffer_object = true;
    caps(Api::Gl, 2, 1, e)
}

#[test]
fn tier_follows_version_and_extensions() {
    assert_eq!(gl33().tier(), CapabilityTier::Modern);
    assert_eq!(legacy_arb().tier(), CapabilityTier::Legacy);
    assert_eq!(caps(Api::Gl, 2, 1, no_extensions()).tier(), CapabilityTier::Unsupported);
    // an ES version number says nothing of desktop GL
    assert_eq!(caps(Api::GlEs, 3, 0, no_extensions()).tier(), CapabilityTier::Unsupported);
    let mut oes = no_extensions();
    oes.gl_oes_texture_buffer = true;
    assert_eq!(caps(Api::GlEs, 3, 1, oes).tier(), CapabilityTier::Modern);
    let mut ext = no_extensions();
    ext.gl_ext_texture_buffer = true;
    assert_eq!(caps(Api::GlEs, 3, 1, ext).tier(), CapabilityTier::Modern);
    let mut ext_obj = no_extensions();
    ext_obj.gl_ext_texture_buffer_object = true;
    assert_eq!(caps(Api::Gl, 2, 0, ext_obj).tier(), CapabilityTier::Legacy);
}

#[test]
fn version_comparison() {
    let v = Version { api: Api::Gl, major: 3, minor: 2 };
    assert!(v.at_least(Api::Gl, 3, 0));
    assert!(v.at_least(Api::Gl, 3, 2));
    assert!(!v.at_least(Api::Gl, 3, 3));
    assert!(!v.at_least(Api::Gl, 4, 0));
    assert!(v.at_least(Api::Gl, 2, 9));
    assert!(!v.at_least(Api::GlEs, 3, 0));
}

#[test]
fn entry_point_precedence() {
    let mut all = no_extensions();
    all.gl_arb_texture_buffer_object = true;
    all.gl_ext_texture_buffer_object = true;
    all.gl_ext_texture_buffer = true;
    all.gl_oes_texture_buffer = true;
    assert_eq!(caps(Api::Gl, 3, 0, all).entry_point(), Some(TexBufferEntryPoint::Core));
    assert_eq!(caps(Api::Gl, 2, 1, all).entry_point(), Some(TexBufferEntryPoint::Arb));
    let mut ext = no_extensions();
    ext.gl_ext_texture_buffer = true;
    ext.gl_oes_texture_buffer = true;
    assert_eq!(caps(Api::GlEs, 3, 1, ext).entry_point(), Some(TexBufferEntryPoint::Ext));
    let mut oes = no_extensions();
    oes.gl_oes_texture_buffer = true;
    assert_eq!(caps(Api::GlEs, 3, 1, oes).entry_point(), Some(TexBufferEntryPoint::Oes));
    assert_eq!(caps(Api::Gl, 2, 1, no_extensions()).entry_point(), None);
}

#[test]
fn modern_table_entries_resolve() {
    let c = gl33();
    let cases = [
        (L::U8, Float, InternalFormat::R8),
        (L::U8, Unsigned, InternalFormat::R8UI),
        (L::I8, Integral, InternalFormat::R8I),
        (L::U16, Float, InternalFormat::R16),
        (L::U16, Unsigned, InternalFormat::R16UI),
        (L::I16, Integral, InternalFormat::R16I),
        (L::U32, Unsigned, InternalFormat::R32UI),
        (L::I32, Integral, InternalFormat::R32I),
        (L::U8U8, Float, InternalFormat::RG8),
        (L::U8U8, Unsigned, InternalFormat::RG8UI),
        (L::I8I8, Integral, InternalFormat::RG8I),
        (L::U16U16, Float, InternalFormat::RG16),
        (L::U16U16, Unsigned, InternalFormat::RG16UI),
        (L::I16I16, Integral, InternalFormat::RG16I),
        (L::U32U32, Unsigned, InternalFormat::RG32UI),
        (L::I32I32, Integral, InternalFormat::RG32I),
        (L::U8U8U8U8, Float, InternalFormat::RGBA8),
        (L::U8U8U8U8, Unsigned, InternalFormat::RGBA8UI),
        (L::I8I8I8I8, Integral, InternalFormat::RGBA8I),
        (L::U16U16U16U16, Float, InternalFormat::RGBA16),
        (L::U16U16U16U16, Unsigned, InternalFormat::RGBA16UI),
        (L::I16I16I16I16, Integral, InternalFormat::RGBA16I),
        (L::U32U32U32U32, Unsigned, InternalFormat::RGBA32UI),
        (L::I32I32I32I32, Integral, InternalFormat::RGBA32I),
        (L::F16, Float, InternalFormat::R16F),
        (L::F32, Float, InternalFormat::R32F),
        (L::F16F16, Float, InternalFormat::RG16F),
        (L::F32F32, Float, InternalFormat::RG32F),
        (L::F16F16F16F16, Float, InternalFormat::RGBA16F),
        (L::F32F32F32F32, Float, InternalFormat::RGBA32F),
    ];
    for (layout, ty, expected) in cases {
        assert_eq!(resolve_format(&c, layout, ty), Ok(expected));
        // the same inputs give the same answer again
        assert_eq!(resolve_format(&c, layout, ty), Ok(expected));
    }
}

#[test]
fn absent_pairs_are_refused() {
    let c = gl33();
    assert_eq!(
        resolve_format(&c, TextureBufferContentType::U8, BufferTextureType::Integral),
        Err(TextureCreationError::FormatNotSupported)
    );
    assert_eq!(
        resolve_format(&c, TextureBufferContentType::U32, BufferTextureType::Float),
        Err(TextureCreationError::FormatNotSupported)
    );
    assert_eq!(
        resolve_format(&c, TextureBufferContentType::F32, BufferTextureType::Unsigned),
        Err(TextureCreationError::FormatNotSupported)
    );
    assert_eq!(
        resolve_format(&c, TextureBufferContentType::F32F32F32, BufferTextureType::Float),
        Err(TextureCreationError::FormatNotSupported)
    );
}

#[test]
fn legacy_tier_offers_four_channels_only() {
    let c = legacy_arb();
    assert_eq!(
        resolve_format(&c, TextureBufferContentType::U8U8U8U8, BufferTextureType::Float),
        Ok(InternalFormat::RGBA8)
    );
    assert_eq!(
        resolve_format(&c, TextureBufferContentType::I32I32I32I32, BufferTextureType::Integral),
        Ok(InternalFormat::RGBA32I)
    );
    assert_eq!(
        resolve_format(&c, TextureBufferContentType::U16U16U16U16, BufferTextureType::Unsigned),
        Ok(InternalFormat::RGBA16UI)
    );
    assert_eq!(
        resolve_format(&c, TextureBufferContentType::U8, BufferTextureType::Float),
        Err(TextureCreationError::FormatNotSupported)
    );
    assert_eq!(
        resolve_format(&c, TextureBufferContentType::U32U32, BufferTextureType::Unsigned),
        Err(TextureCreationError::FormatNotSupported)
    );
}

#[test]
fn unsupported_device_refuses_everything() {
    let c = caps(Api::Gl, 2, 1, no_extensions());
    for ty in [BufferTextureType::Float, BufferTextureType::Integral, BufferTextureType::Unsigned] {
        assert_eq!(
            resolve_format(&c, TextureBufferContentType::U8U8U8U8, ty),
            Err(TextureCreationError::NotSupported)
        );
        assert_eq!(
            resolve_format(&c, TextureBufferContentType::U8, ty),
            Err(TextureCreationError::NotSupported)
        );
    }
}

#[test]
fn rgb32_needs_its_condition() {
    let without = gl33();
    assert!(!without.supports_rgb32());
    assert_eq!(
        resolve_format(&without, TextureBufferContentType::U32U32U32, BufferTextureType::Unsigned),
        Err(TextureCreationError::FormatNotSupported)
    );
    let mut e = no_extensions();
    e.gl_arb_texture_buffer_object_rgb32 = true;
    let with_ext = caps(Api::Gl, 3, 3, e);
    assert_eq!(
        resolve_format(&with_ext, TextureBufferContentType::U32U32U32, BufferTextureType::Unsigned),
        Ok(InternalFormat::RGB32UI)
    );
    let gl40 = caps(Api::Gl, 4, 0, no_extensions());
    assert_eq!(
        resolve_format(&gl40, TextureBufferContentType::U32U32U32, BufferTextureType::Unsigned),
        Ok(InternalFormat::RGB32UI)
    );
    assert_eq!(
        resolve_format(&gl40, TextureBufferContentType::I32I32I32, BufferTextureType::Integral),
        Ok(InternalFormat::RGB32I)
    );
    assert_eq!(
        resolve_format(&gl40, TextureBufferContentType::F32F32F32, BufferTextureType::Float),
        Ok(InternalFormat::RGB32F)
    );
    // the legacy tier has no three-channel formats, whatever the extension says
    let mut legacy = no_extensions();
    legacy.gl_arb_texture_buffer_object = true;
    legacy.gl_arb_texture_buffer_object_rgb32 = true;
    assert_eq!(
        resolve_format(
            &caps(Api::Gl, 2, 1, legacy),
            TextureBufferContentType::U32U32U32,
            BufferTextureType::Unsigned
        ),
        Err(TextureCreationError::FormatNotSupported)
    );
}

#[test]
fn gl_enumerants() {
    assert_eq!(InternalFormat::R8.to_gl_enum(), 0x8229);
    assert_eq!(InternalFormat::R8UI.to_gl_enum(), 0x8232);
    assert_eq!(InternalFormat::RGBA8.to_gl_enum(), 0x8058);
    assert_eq!(InternalFormat::RGBA32F.to_gl_enum(), 0x8814);
    assert_eq!(InternalFormat::RGB32UI.to_gl_enum(), 0x8D71);
    assert_eq!(InternalFormat::RGBA16I.to_gl_enum(), 0x8D88);
}

#[test]
fn element_types_name_their_layout() {
    assert_eq!(<u8 as TextureBufferContent>::get_type(), TextureBufferContentType::U8);
    assert_eq!(<i16 as TextureBufferContent>::get_type(), TextureBufferContentType::I16);
    assert_eq!(<(u32, u32) as TextureBufferContent>::get_type(), TextureBufferContentType::U32U32);
    assert_eq!(
        <(i32, i32, i32) as TextureBufferContent>::get_type(),
        TextureBufferContentType::I32I32I32
    );
    assert_eq!(
        <(u8, u8, u8, u8) as TextureBufferContent>::get_type(),
        TextureBufferContentType::U8U8U8U8
    );
}
