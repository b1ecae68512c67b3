//! The device's texture units, and which texture each one holds.

use vstd::prelude::*;

verus! {

/// The units after `handle` is bound to `unit`.
pub open spec fn bound_units(units: Seq<u32>, unit: int, handle: u32) -> Seq<u32> {
    units.update(unit, handle)
}

/// The units after every one that holds `handle` is emptied; the others keep their texture.
pub open spec fn cleared_units(units: Seq<u32>, handle: u32) -> Seq<u32> {
    Seq::new(units.len(), |i: int| if units[i] == handle { 0u32 } else { units[i] })
}

/// A mirror of the texture bound to each texture unit of a device (`0` for none), and of
/// the active unit. It saves redundant binds and lets a texture be unbound everywhere
/// before it is deleted.
pub struct BindingStateTracker {
    units: Vec<u32>,
    active: usize,
}

impl View for BindingStateTracker {
    type V = Seq<u32>;

    closed spec fn view(&self) -> Seq<u32> {
        self.units@
    }
}

impl BindingStateTracker {
    /// The active unit lies among the units.
    pub closed spec fn wf(&self) -> bool {
        self.active < self@.len()
    }

    /// The index of the active unit.
    pub closed spec fn active_spec(&self) -> nat {
        self.active as nat
    }

    /// A tracker of `unit_count` empty units, the first of them active.
    pub fn new(unit_count: usize) -> (r: BindingStateTracker)
        requires
            unit_count > 0,
        ensures
            r.wf(),
            r@ == Seq::new(unit_count as nat, |i: int| 0u32),
            r.active_spec() == 0,
    {
        let mut units: Vec<u32> = Vec::new();
        let mut i: usize = 0;
        while i < unit_count
            invariant
                i <= unit_count,
                units@ == Seq::new(i as nat, |j: int| 0u32),
            decreases unit_count - i,
        {
            units.push(0);
            i = i + 1;
            assert(units@ =~= Seq::new(i as nat, |j: int| 0u32));
        }
        BindingStateTracker { units, active: 0 }
    }

    /// The number of texture units.
    pub fn unit_count(&self) -> (r: usize)
        ensures
            r == self@.len(),
    {
        self.units.len()
    }

    /// The index of the active unit.
    pub fn active_texture(&self) -> (r: usize)
        ensures
            r == self.active_spec(),
            self.wf() ==> r < self@.len(),
    {
        self.active
    }

    /// Makes `unit` the active unit.
    pub fn set_active_texture(&mut self, unit: usize)
        requires
            unit < old(self)@.len(),
        ensures
            final(self).wf(),
            final(self)@ == old(self)@,
            final(self).active_spec() == unit,
    {
        self.active = unit;
    }

    /// The texture bound to `unit`; `0` for none.
    pub fn current(&self, unit: usize) -> (r: u32)
        requires
            unit < self@.len(),
        ensures
            r == self@[unit as int],
    {
        self.units[unit]
    }

    /// Records that `handle` now occupies `unit`.
    pub fn bind(&mut self, unit: usize, handle: u32)
        requires
            unit < old(self)@.len(),
        ensures
            final(self)@ == bound_units(old(self)@, unit as int, handle),
            final(self).active_spec() == old(self).active_spec(),
            old(self).wf() ==> final(self).wf(),
    {
        self.units.set(unit, handle);
    }

    /// Records that `handle` now occupies the active unit.
    pub fn bind_active(&mut self, handle: u32)
        requires
            old(self).wf(),
        ensures
            final(self).wf(),
            final(self)@ == bound_units(old(self)@, old(self).active_spec() as int, handle),
            final(self).active_spec() == old(self).active_spec(),
    {
        let unit = self.active;
        self.bind(unit, handle);
    }

    /// Empties every unit that holds `handle`.
    pub fn unbind_handle(&mut self, handle: u32)
        ensures
            final(self)@ == cleared_units(old(self)@, handle),
            final(self).active_spec() == old(self).active_spec(),
            old(self).wf() ==> final(self).wf(),
    {
        let n = self.units.len();
        let mut i: usize = 0;
        while i < n
            invariant
                n == old(self)@.len(),
                i <= n,
                self.active == old(self).active,
                self@.len() == n,
                forall|j: int|
                    0 <= j < i ==> self@[j] == cleared_units(old(self)@, handle)[j],
                forall|j: int| i <= j < n ==> self@[j] == old(self)@[j],
            decreases n - i,
        {
            if self.units[i] == handle {
                self.units.set(i, 0);
            }
            i = i + 1;
        }
        assert(self@ =~= cleared_units(old(self)@, handle));
    }
}

/// After `handle` is bound to a unit, that unit holds it; once `handle` is cleared, no unit
/// holds it any more, however many held it, and the units that held another texture keep
/// it.
pub proof fn lemma_bind_then_clear(units: Seq<u32>, unit: int, handle: u32)
    requires
        0 <= unit < units.len(),
        handle != 0,
    ensures
        bound_units(units, unit, handle)[unit] == handle,
        forall|i: int|
            0 <= i < units.len() ==> #[trigger] cleared_units(bound_units(units, unit, handle), handle)[i]
                != handle,
        forall|i: int|
            0 <= i < units.len() && #[trigger] bound_units(units, unit, handle)[i] == handle
                ==> cleared_units(bound_units(units, unit, handle), handle)[i] == 0,
        forall|i: int|
            0 <= i < units.len() && i != unit && units[i] != handle ==> #[trigger] cleared_units(
                bound_units(units, unit, handle),
                handle,
            )[i] == units[i],
{
}

} // verus!
