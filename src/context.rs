//! A device context: the capabilities that it reports, its texture units, and the names it
//! hands out for textures and buffers.

use vstd::prelude::*;

use crate::binding::BindingStateTracker;
use crate::capabilities::Capabilities;

verus! {

/// The state of one device context that buffer textures go through. Texture and buffer
/// names start at `1` and are never handed out twice, so `0` always means "no object".
pub struct Context {
    caps: Capabilities,
    state: BindingStateTracker,
    next_texture: u32,
    next_buffer: u32,
    live: Vec<u32>,
}

/// An element is in a sequence with `x` pushed exactly when it is `x` or was there before.
proof fn lemma_push_contains(s: Seq<u32>, x: u32, y: u32)
    ensures
        s.push(x).contains(y) <==> (s.contains(y) || y == x),
{
    if s.contains(y) {
        let k = choose|k: int| 0 <= k < s.len() && s[k] == y;
        assert(s.push(x)[k] == y);
    }
    if s.push(x).contains(y) && y != x {
        let k = choose|k: int| 0 <= k < s.len() + 1 && s.push(x)[k] == y;
        assert(s[k] == y);
    }
    assert(s.push(x)[s.len() as int] == x);
}

impl Context {
    /// The units are well formed, and every live texture has a name handed out already.
    pub closed spec fn wf(&self) -> bool {
        &&& self.state.wf()
        &&& self.next_texture >= 1
        &&& self.next_buffer >= 1
        &&& forall|i: int|
            0 <= i < self.live@.len() ==> 1 <= #[trigger] self.live@[i] < self.next_texture
    }

    /// The names of the textures that exist on the device.
    pub closed spec fn live_textures(&self) -> Set<u32> {
        Set::new(|x: u32| self.live@.contains(x))
    }

    /// The capabilities of the device.
    pub closed spec fn caps_spec(&self) -> Capabilities {
        self.caps
    }

    /// The texture held by each unit.
    pub closed spec fn units(&self) -> Seq<u32> {
        self.state@
    }

    /// The index of the active unit.
    pub closed spec fn active_unit(&self) -> nat {
        self.state.active_spec()
    }

    /// The next texture name to hand out.
    pub closed spec fn next_texture_spec(&self) -> u32 {
        self.next_texture
    }

    /// The next buffer name to hand out.
    pub closed spec fn next_buffer_spec(&self) -> u32 {
        self.next_buffer
    }

    /// A context on a device of capabilities `caps` with `unit_count` empty texture units,
    /// the first of them active.
    pub fn new(caps: Capabilities, unit_count: usize) -> (r: Context)
        requires
            unit_count > 0,
        ensures
            r.wf(),
            r.caps_spec() == caps,
            r.units() == Seq::new(unit_count as nat, |i: int| 0u32),
            r.active_unit() == 0,
            r.next_texture_spec() == 1,
            r.next_buffer_spec() == 1,
            r.live_textures() == Set::<u32>::empty(),
    {
        let r = Context {
            caps,
            state: BindingStateTracker::new(unit_count),
            next_texture: 1,
            next_buffer: 1,
            live: Vec::new(),
        };
        assert(r.live_textures() =~= Set::<u32>::empty());
        r
    }

    /// Whether `texture` names a texture that exists on the device.
    pub fn is_live(&self, texture: u32) -> (r: bool)
        ensures
            r == self.live_textures().contains(texture),
    {
        let mut i: usize = 0;
        while i < self.live.len()
            invariant
                i <= self.live@.len(),
                forall|j: int| 0 <= j < i ==> self.live@[j] != texture,
            decreases self.live@.len() - i,
        {
            if self.live[i] == texture {
                return true;
            }
            i = i + 1;
        }
        false
    }

    /// The capabilities of the device.
    pub fn capabilities(&self) -> (r: &Capabilities)
        ensures
            *r == self.caps_spec(),
    {
        &self.caps
    }

    /// The record of bound texture units.
    pub fn state(&self) -> (r: &BindingStateTracker)
        ensures
            r@ == self.units(),
            r.active_spec() == self.active_unit(),
            self.wf() ==> r.wf(),
    {
        &self.state
    }

    /// Makes `unit` the active texture unit.
    pub fn set_active_texture(&mut self, unit: usize)
        requires
            old(self).wf(),
            unit < old(self).units().len(),
        ensures
            final(self).wf(),
            final(self).active_unit() == unit,
            final(self).units() == old(self).units(),
            final(self).caps_spec() == old(self).caps_spec(),
            final(self).next_texture_spec() == old(self).next_texture_spec(),
            final(self).next_buffer_spec() == old(self).next_buffer_spec(),
            final(self).live_textures() == old(self).live_textures(),
    {
        self.state.set_active_texture(unit);
    }

    /// Whether a texture name is left to hand out.
    pub fn texture_name_available(&self) -> (r: bool)
        ensures
            r == (self.next_texture_spec() < u32::MAX),
    {
        self.next_texture < u32::MAX
    }

    /// Whether a buffer name is left to hand out.
    pub fn buffer_name_available(&self) -> (r: bool)
        ensures
            r == (self.next_buffer_spec() < u32::MAX),
    {
        self.next_buffer < u32::MAX
    }

    /// Reserves a fresh texture name.
    pub(crate) fn gen_texture(&mut self) -> (r: u32)
        requires
            old(self).wf(),
            old(self).next_texture_spec() < u32::MAX,
        ensures
            final(self).wf(),
            r == old(self).next_texture_spec(),
            r != 0,
            final(self).next_texture_spec() == r + 1,
            final(self).units() == old(self).units(),
            final(self).active_unit() == old(self).active_unit(),
            final(self).caps_spec() == old(self).caps_spec(),
            final(self).next_buffer_spec() == old(self).next_buffer_spec(),
            !old(self).live_textures().contains(r),
            final(self).live_textures() == old(self).live_textures().insert(r),
    {
        let id = self.next_texture;
        assert(!self.live@.contains(id));
        self.next_texture = id + 1;
        self.live.push(id);
        assert forall|y: u32| self.live@.contains(y) <==> (old(self).live@.contains(y) || y == id) by {
            lemma_push_contains(old(self).live@, id, y);
        }
        assert(self.live_textures() =~= old(self).live_textures().insert(id));
        id
    }

    /// Reserves a fresh buffer name.
    pub(crate) fn gen_buffer(&mut self) -> (r: u32)
        requires
            old(self).wf(),
            old(self).next_buffer_spec() < u32::MAX,
        ensures
            final(self).wf(),
            r == old(self).next_buffer_spec(),
            r != 0,
            final(self).next_buffer_spec() == r + 1,
            final(self).units() == old(self).units(),
            final(self).active_unit() == old(self).active_unit(),
            final(self).caps_spec() == old(self).caps_spec(),
            final(self).next_texture_spec() == old(self).next_texture_spec(),
            final(self).live_textures() == old(self).live_textures(),
    {
        let id = self.next_buffer;
        self.next_buffer = id + 1;
        id
    }

    /// Binds `texture` to the active unit.
    pub(crate) fn bind_texture(&mut self, texture: u32)
        requires
            old(self).wf(),
        ensures
            final(self).wf(),
            final(self).units() == old(self).units().update(old(self).active_unit() as int, texture),
            final(self).active_unit() == old(self).active_unit(),
            final(self).caps_spec() == old(self).caps_spec(),
            final(self).next_texture_spec() == old(self).next_texture_spec(),
            final(self).next_buffer_spec() == old(self).next_buffer_spec(),
            final(self).live_textures() == old(self).live_textures(),
    {
        self.state.bind_active(texture);
    }

    /// Empties every unit that holds `texture`, then deletes it.
    pub(crate) fn delete_texture(&mut self, texture: u32)
        requires
            old(self).wf(),
        ensures
            final(self).wf(),
            final(self).units() == crate::binding::cleared_units(old(self).units(), texture),
            final(self).active_unit() == old(self).active_unit(),
            final(self).caps_spec() == old(self).caps_spec(),
            final(self).next_texture_spec() == old(self).next_texture_spec(),
            final(self).next_buffer_spec() == old(self).next_buffer_spec(),
            final(self).live_textures() == old(self).live_textures().remove(texture),
    {
        self.state.unbind_handle(texture);
        let mut kept: Vec<u32> = Vec::new();
        let mut i: usize = 0;
        while i < self.live.len()
            invariant
                i <= self.live@.len(),
                self.live@ == old(self).live@,
                self.next_texture == old(self).next_texture,
                forall|j: int|
                    0 <= j < self.live@.len() ==> 1 <= #[trigger] self.live@[j] < self.next_texture,
                forall|j: int| 0 <= j < kept@.len() ==> 1 <= #[trigger] kept@[j] < self.next_texture,
                forall|x: u32|
                    kept@.contains(x) <==> (x != texture && self.live@.take(i as int).contains(x)),
            decreases self.live@.len() - i,
        {
            let x = self.live[i];
            let ghost before = kept@;
            if x != texture {
                kept.push(x);
            }
            proof {
                assert(self.live@.take(i + 1) =~= self.live@.take(i as int).push(x));
                assert forall|y: u32|
                    kept@.contains(y) <==> (y != texture && self.live@.take(i + 1).contains(y)) by {
                    lemma_push_contains(self.live@.take(i as int), x, y);
                    if x != texture {
                        lemma_push_contains(before, x, y);
                    }
                }
            }
            i = i + 1;
        }
        assert(self.live@.take(self.live@.len() as int) =~= self.live@);
        self.live = kept;
        assert(self.live_textures() =~= old(self).live_textures().remove(texture));
    }
}

} // verus!
