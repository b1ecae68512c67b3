//! Buffer textures: one-dimensional textures whose texels are read straight out of a linear
//! buffer. The library decides which internal format and which driver entry point a buffer
//! texture needs on a device of given capabilities, and keeps the device's record of bound
//! texture units honest over the texture's whole life.

pub mod binding;
pub mod buffer;
pub mod capabilities;
pub mod context;
pub mod format;
pub mod layout;
pub mod texture;

pub use binding::BindingStateTracker;
pub use buffer::{BufferCreationError, BufferMode, BufferView};
pub use capabilities::{Api, Capabilities, CapabilityTier, Extensions, TexBufferEntryPoint, Version};
pub use context::Context;
pub use format::{resolve_format, BufferTextureType, InternalFormat, TextureCreationError};
pub use layout::{TextureBufferContent, TextureBufferContentType};
pub use texture::{BufferTexture, CreationError};
