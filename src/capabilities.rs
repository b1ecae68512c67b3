//! What a device can do: its API version and the optional extensions it exposes, and the
//! support level for buffer textures derived from them.

use vstd::prelude::*;

verus! {

/// The family of the graphics API that a device implements.
#[derive(Copy, Clone, Debug, PartialEq, Eq, Structural)]
pub enum Api {
    /// Desktop OpenGL.
    Gl,
    /// OpenGL ES.
    GlEs,
}

/// A version of a graphics API.
#[derive(Copy, Clone, Debug, PartialEq, Eq, Structural)]
pub struct Version {
    pub api: Api,
    pub major: u8,
    pub minor: u8,
}

/// The optional extensions that bear on buffer textures.
#[derive(Copy, Clone, Debug, PartialEq, Eq, Structural)]
pub struct Extensions {
    pub gl_oes_texture_buffer: bool,
    pub gl_ext_texture_buffer: bool,
    pub gl_arb_texture_buffer_object: bool,
    pub gl_ext_texture_buffer_object: bool,
    pub gl_arb_texture_buffer_object_rgb32: bool,
}

/// The capabilities that a device reports.
#[derive(Copy, Clone, Debug, PartialEq, Eq, Structural)]
pub struct Capabilities {
    pub version: Version,
    pub extensions: Extensions,
    /// The largest number of texels that a buffer texture may hold.
    pub max_texture_buffer_size: usize,
}

/// How far a device supports buffer textures.
#[derive(Copy, Clone, Debug, PartialEq, Eq, Structural)]
pub enum CapabilityTier {
    /// Core support, or one of the extensions that gives the full format table.
    Modern,
    /// Only the early extensions, with four-channel formats alone.
    Legacy,
    /// No buffer textures at all.
    Unsupported,
}

/// The driver call that attaches a buffer's storage to a buffer texture.
#[derive(Copy, Clone, Debug, PartialEq, Eq, Structural)]
pub enum TexBufferEntryPoint {
    Core,
    Arb,
    Ext,
    Oes,
}

/// Versions of one API are ordered by major then minor number; versions of different APIs
/// are not comparable, so neither is at least the other.
pub open spec fn version_at_least(v: Version, api: Api, major: u8, minor: u8) -> bool {
    v.api == api && (v.major > major || (v.major == major && v.minor >= minor))
}

/// Core support for buffer textures.
pub open spec fn has_core_support(c: Capabilities) -> bool {
    version_at_least(c.version, Api::Gl, 3, 0)
}

/// Support that unlocks the full format table.
pub open spec fn has_modern_support(c: Capabilities) -> bool {
    has_core_support(c) || c.extensions.gl_oes_texture_buffer
        || c.extensions.gl_ext_texture_buffer
}

/// Support through the early extensions only.
pub open spec fn has_legacy_support(c: Capabilities) -> bool {
    c.extensions.gl_arb_texture_buffer_object || c.extensions.gl_ext_texture_buffer_object
}

/// The three-channel 32-bit formats need a later version or their own extension.
pub open spec fn has_rgb32_support(c: Capabilities) -> bool {
    version_at_least(c.version, Api::Gl, 4, 0) || c.extensions.gl_arb_texture_buffer_object_rgb32
}

/// The tier of a device: modern support takes precedence over legacy support.
pub open spec fn tier_of(c: Capabilities) -> CapabilityTier {
    if has_modern_support(c) {
        CapabilityTier::Modern
    } else if has_legacy_support(c) {
        CapabilityTier::Legacy
    } else {
        CapabilityTier::Unsupported
    }
}

/// The entry point used to attach storage: core first, then the ARB, EXT and OES
/// extensions, in that order.
pub open spec fn entry_point_of(c: Capabilities) -> Option<TexBufferEntryPoint> {
    if has_core_support(c) {
        Some(TexBufferEntryPoint::Core)
    } else if c.extensions.gl_arb_texture_buffer_object {
        Some(TexBufferEntryPoint::Arb)
    } else if c.extensions.gl_ext_texture_buffer_object || c.extensions.gl_ext_texture_buffer {
        Some(TexBufferEntryPoint::Ext)
    } else if c.extensions.gl_oes_texture_buffer {
        Some(TexBufferEntryPoint::Oes)
    } else {
        None
    }
}

impl Version {
    /// Whether this version belongs to `api` and is `major.minor` or later.
    pub fn at_least(&self, api: Api, major: u8, minor: u8) -> (r: bool)
        ensures
            r == version_at_least(*self, api, major, minor),
    {
        self.api == api && (self.major > major || (self.major == major && self.minor >= minor))
    }
}

impl Capabilities {
    /// Whether the three-channel 32-bit formats are offered.
    pub fn supports_rgb32(&self) -> (r: bool)
        ensures
            r == has_rgb32_support(*self),
    {
        self.version.at_least(Api::Gl, 4, 0) || self.extensions.gl_arb_texture_buffer_object_rgb32
    }

    /// The buffer-texture tier of this device.
    pub fn tier(&self) -> (r: CapabilityTier)
        ensures
            r == tier_of(*self),
    {
        if self.version.at_least(Api::Gl, 3, 0) || self.extensions.gl_oes_texture_buffer
            || self.extensions.gl_ext_texture_buffer {
            CapabilityTier::Modern
        } else if self.extensions.gl_arb_texture_buffer_object
            || self.extensions.gl_ext_texture_buffer_object {
            CapabilityTier::Legacy
        } else {
            CapabilityTier::Unsupported
        }
    }

    /// The entry point that attaches buffer storage on this device, if there is one.
    pub fn entry_point(&self) -> (r: Option<TexBufferEntryPoint>)
        ensures
            r == entry_point_of(*self),
    {
        if self.version.at_least(Api::Gl, 3, 0) {
            Some(TexBufferEntryPoint::Core)
        } else if self.extensions.gl_arb_texture_buffer_object {
            Some(TexBufferEntryPoint::Arb)
        } else if self.extensions.gl_ext_texture_buffer_object
            || self.extensions.gl_ext_texture_buffer {
            Some(TexBufferEntryPoint::Ext)
        } else if self.extensions.gl_oes_texture_buffer {
            Some(TexBufferEntryPoint::Oes)
        } else {
            None
        }
    }
}

/// The entry point and the tier never disagree: a device has an entry point exactly when
/// its tier supports buffer textures, and the core entry point implies the modern tier.
pub proof fn lemma_entry_point_matches_tier(c: Capabilities)
    ensures
        entry_point_of(c).is_some() <==> tier_of(c) != CapabilityTier::Unsupported,
        entry_point_of(c) == Some(TexBufferEntryPoint::Core) ==> tier_of(c) == CapabilityTier::Modern,
{
}

} // verus!
