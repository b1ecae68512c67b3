use buffer_texture::{
    Api, BindingStateTracker, BufferCreationError, BufferMode, BufferTexture, BufferTextureType,
    BufferView, Capabilities, Context, CreationError, Extensions, InternalFormat,
    TexBufferEntryPoint, TextureCreationError, Version,
};

fn extensions(rgb32: bool) -> Extensions {
    Extensions {
        gl_oes_texture_buffer: false,
        gl_ext_texture_buffer: false,
        gl_arb_texture_buffer_object: false,
        gl_ext_texture_buffer_object: false,
        gl_arb_texture_buffer_object_rgb32: rgb32,
    }
}

fn device(major: u8, rgb32: bool, max: usize) -> Context {
    let caps = Capabilities {
        version: Version { api: Api::Gl, major, minor: 3 },
        extensions: extensions(rgb32),
        max_texture_buffer_size: max,
    };
    Context::new(caps, 4)
}

#[test]
fn u8_float_texture_is_live_and_bound() {
    let mut ctxt = device(3, false, 1024);
    let data: [u8; 5] = [1, 2, 3, 4, 5];
    let t = BufferTexture::new(&mut ctxt, &data, BufferTextureType::Float).unwrap();
    assert_eq!(t.get_internal_format(), InternalFormat::R8);
    assert_ne!(t.get_id(), 0);
    assert!(ctxt.is_live(t.get_id()));
    assert_eq!(t.get_texture_type(), BufferTextureType::Float);
    assert_eq!(t.get_entry_point(), TexBufferEntryPoint::Core);
    assert_eq!(t.buffer().len(), 5);
    assert_eq!(t.buffer().get_offset_bytes(), 0);
    assert_eq!(t.buffer().mode(), BufferMode::Default);
    assert_eq!(t.len(), 5);
    assert_eq!(ctxt.state().current(ctxt.state().active_texture()), t.get_id());
    t.bind_to_unit(&mut ctxt, 3);
    assert_eq!(ctxt.state().current(3), t.get_id());
    assert_eq!(ctxt.state().active_texture(), 3);
}

#[test]
fn u8_integral_texture_is_refused() {
    let mut ctxt = device(3, false, 1024);
    let data: [u8; 2] = [7, 8];
    let r = BufferTexture::new(&mut ctxt, &data, BufferTextureType::Integral);
    assert_eq!(
        r.err(),
        Some(CreationError::TextureCreationError(TextureCreationError::FormatNotSupported))
    );
    assert_eq!(ctxt.state().current(0), 0);
}

#[test]
fn rgb32_unsigned_texture_depends_on_condition() {
    let mut without = device(3, false, 1024);
    let data: [(u32, u32, u32); 1] = [(1, 2, 3)];
    assert_eq!(
        BufferTexture::new(&mut without, &data, BufferTextureType::Unsigned).err(),
        Some(CreationError::TextureCreationError(TextureCreationError::FormatNotSupported))
    );
    let mut with = device(3, true, 1024);
    let t = BufferTexture::new(&mut with, &data, BufferTextureType::Unsigned).unwrap();
    assert_eq!(t.get_internal_format(), InternalFormat::RGB32UI);
}

#[test]
fn unsupported_device_fails_at_the_buffer() {
    let caps = Capabilities {
        version: Version { api: Api::Gl, major: 2, minor: 1 },
        extensions: extensions(false),
        max_texture_buffer_size: 1024,
    };
    let mut ctxt = Context::new(caps, 2);
    let data: [u8; 1] = [0];
    assert_eq!(
        BufferTexture::new(&mut ctxt, &data, BufferTextureType::Float).err(),
        Some(CreationError::BufferCreationError(BufferCreationError::BufferTypeNotSupported))
    );
    let b = BufferView::<(u8, u8, u8, u8)>::empty_array(&mut ctxt, 3, BufferMode::Default);
    assert_eq!(b.err(), Some(BufferCreationError::BufferTypeNotSupported));
}

#[test]
fn from_buffer_reports_not_supported_and_hands_buffer_back() {
    let mut modern = device(3, false, 1024);
    let buffer = BufferView::<u16>::empty_array(&mut modern, 4, BufferMode::Dynamic).unwrap();
    let id = buffer.get_buffer_id();
    // a context whose device lost buffer-texture support
    let caps = Capabilities {
        version: Version { api: Api::Gl, major: 2, minor: 1 },
        extensions: extensions(false),
        max_texture_buffer_size: 1024,
    };
    let mut old_device = Context::new(caps, 2);
    let (e, back) = BufferTexture::from_buffer(&mut old_device, buffer, BufferTextureType::Float)
        .err()
        .unwrap();
    assert_eq!(e, TextureCreationError::NotSupported);
    assert_eq!(back.get_buffer_id(), id);
    assert_eq!(back.len(), 4);
    assert_eq!(old_device.state().current(0), 0);
}

#[test]
fn too_large_buffer_is_refused_before_binding() {
    let mut ctxt = device(3, false, 4);
    let r = BufferTexture::<u8>::empty(&mut ctxt, 5, BufferTextureType::Float);
    assert_eq!(
        r.err(),
        Some(CreationError::TextureCreationError(TextureCreationError::TooLarge))
    );
    assert_eq!(ctxt.state().current(0), 0);
    // the largest size allowed is accepted
    let t = BufferTexture::<u8>::empty(&mut ctxt, 4, BufferTextureType::Float).unwrap();
    assert_eq!(t.len(), 4);
}

#[test]
fn from_buffer_takes_ownership() {
    let mut ctxt = device(3, false, 1024);
    let buffer = BufferView::<(i16, i16)>::empty_array(&mut ctxt, 8, BufferMode::Immutable).unwrap();
    let id = buffer.get_buffer_id();
    let t = BufferTexture::from_buffer(&mut ctxt, buffer, BufferTextureType::Integral).ok().unwrap();
    assert_eq!(t.get_internal_format(), InternalFormat::RG16I);
    assert_eq!(t.buffer().get_buffer_id(), id);
    assert_eq!(t.buffer().mode(), BufferMode::Immutable);
}

#[test]
fn empty_constructors_use_their_modes() {
    let mut ctxt = device(3, false, 1024);
    let a = BufferTexture::<u32>::empty(&mut ctxt, 2, BufferTextureType::Unsigned).unwrap();
    let b = BufferTexture::<u32>::empty_dynamic(&mut ctxt, 2, BufferTextureType::Unsigned).unwrap();
    let c = BufferTexture::<u32>::empty_persistent(&mut ctxt, 2, BufferTextureType::Unsigned).unwrap();
    let d = BufferTexture::<u32>::empty_immutable(&mut ctxt, 2, BufferTextureType::Unsigned).unwrap();
    assert_eq!(a.buffer().mode(), BufferMode::Default);
    assert_eq!(b.buffer().mode(), BufferMode::Dynamic);
    assert_eq!(c.buffer().mode(), BufferMode::Persistent);
    assert_eq!(d.buffer().mode(), BufferMode::Immutable);
    assert_eq!(a.get_internal_format(), InternalFormat::R32UI);
    let ids = [a.get_id(), b.get_id(), c.get_id(), d.get_id()];
    for i in 0..4 {
        for j in 0..4 {
            assert!(i == j || ids[i] != ids[j]);
        }
    }
}

#[test]
fn data_constructors_use_their_modes() {
    let mut ctxt = device(3, false, 1024);
    let data: [(u8, u8); 3] = [(0, 1), (2, 3), (4, 5)];
    let a = BufferTexture::dynamic(&mut ctxt, &data, BufferTextureType::Float).unwrap();
    let b = BufferTexture::persistent(&mut ctxt, &data, BufferTextureType::Unsigned).unwrap();
    let c = BufferTexture::immutable(&mut ctxt, &data, BufferTextureType::Float).unwrap();
    assert_eq!(a.buffer().mode(), BufferMode::Dynamic);
    assert_eq!(b.buffer().mode(), BufferMode::Persistent);
    assert_eq!(c.buffer().mode(), BufferMode::Immutable);
    assert_eq!(a.get_internal_format(), InternalFormat::RG8);
    assert_eq!(b.get_internal_format(), InternalFormat::RG8UI);
    assert_eq!(c.len(), 3);
}

#[test]
fn destroy_clears_every_unit_holding_the_texture() {
    let mut ctxt = device(3, false, 1024);
    let data: [u8; 1] = [9];
    let t = BufferTexture::new(&mut ctxt, &data, BufferTextureType::Float).unwrap();
    let other = BufferTexture::new(&mut ctxt, &data, BufferTextureType::Unsigned).unwrap();
    let id = t.get_id();
    t.bind_to_unit(&mut ctxt, 0);
    t.bind_to_unit(&mut ctxt, 2);
    other.bind_to_unit(&mut ctxt, 1);
    t.bind_to_unit(&mut ctxt, 3);
    assert_eq!(ctxt.state().current(0), id);
    assert_eq!(ctxt.state().current(2), id);
    assert_eq!(ctxt.state().current(3), id);
    assert!(ctxt.is_live(id));
    t.destroy(&mut ctxt);
    assert!(!ctxt.is_live(id));
    assert!(ctxt.is_live(other.get_id()));
    assert_eq!(ctxt.state().current(0), 0);
    assert_eq!(ctxt.state().current(1), other.get_id());
    assert_eq!(ctxt.state().current(2), 0);
    assert_eq!(ctxt.state().current(3), 0);
    assert_eq!(ctxt.state().active_texture(), 3);
}

#[test]
fn tracker_bind_and_unbind() {
    let mut tracker = BindingStateTracker::new(3);
    assert_eq!(tracker.unit_count(), 3);
    assert_eq!(tracker.current(1), 0);
    tracker.bind(0, 7);
    tracker.bind(2, 7);
    tracker.bind(1, 8);
    assert_eq!(tracker.current(0), 7);
    assert_eq!(tracker.current(2), 7);
    tracker.unbind_handle(7);
    assert_eq!(tracker.current(0), 0);
    assert_eq!(tracker.current(1), 8);
    assert_eq!(tracker.current(2), 0);
    tracker.set_active_texture(2);
    tracker.bind_active(5);
    assert_eq!(tracker.current(2), 5);
    assert_eq!(tracker.active_texture(), 2);
}

#[test]
fn buffer_names_are_fresh() {
    let mut ctxt = device(3, false, 1024);
    let data: [i8; 2] = [-1, 1];
    let a = BufferView::new(&mut ctxt, &data, BufferMode::Default).unwrap();
    let b = BufferView::new(&mut ctxt, &data, BufferMode::Default).unwrap();
    assert_ne!(a.get_buffer_id(), 0);
    assert_ne!(a.get_buffer_id(), b.get_buffer_id());
    assert_eq!(a.len(), 2);
    assert!(ctxt.buffer_name_available());
    assert!(ctxt.texture_name_available());
    assert_eq!(ctxt.capabilities().max_texture_buffer_size, 1024);
}

#[test]
fn error_conversions() {
    assert_eq!(
        CreationError::from(BufferCreationError::OutOfMemory),
        CreationError::BufferCreationError(BufferCreationError::OutOfMemory)
    );
    assert_eq!(
        CreationError::from(TextureCreationError::TooLarge),
        CreationError::TextureCreationError(TextureCreationError::TooLarge)
    );
}
