use vstd::prelude::*;
use vstd::std_specs::cmp::PartialEqSpec;

verus! {

/// A reset action on one setting: it is offered while the value differs from
/// its default, and taking it assigns the default.
pub struct Reset<'v, T> {
    pub value: &'v mut T,
    pub default: T,
}

impl<'v, T> Reset<'v, T> {
    pub fn new(value: &'v mut T, default: T) -> (r: Self)
        ensures
            *r.value == *old(value),
            *final(r.value) == *final(value),
            r.default == default,
    {
        Self { value, default }
    }
}

impl<'v, T: PartialEq> Reset<'v, T> {
    /// Whether the reset is offered: the value differs from the default.
    pub fn is_enabled(&self) -> (r: bool)
        ensures
            T::obeys_eq_spec() ==> r == !(*old(self.value)).eq_spec(&self.default),
    {
        *self.value != self.default
    }

    /// Takes the reset: where the value differs from the default it becomes
    /// the default and the result is `true`; otherwise nothing changes.
    pub fn click(self) -> (changed: bool)
        ensures
            changed ==> *final(self.value) == self.default,
            !changed ==> *final(self.value) == *old(self.value),
            T::obeys_eq_spec() ==> changed == !(*old(self.value)).eq_spec(&self.default),
    {
        let Reset { value, default } = self;
        if *value != default {
            *value = default;
            true
        } else {
            false
        }
    }
}

/// One row of the settings form: a named value with its default. The form
/// draws a label, the reset action and an editor for `value`.
pub struct Setting<'v, T> {
    pub name: &'static str,
    pub value: &'v mut T,
    pub default: T,
}

impl<'v, T> Setting<'v, T> {
    /// The reset action of this row.
    pub fn reset(self) -> (r: Reset<'v, T>)
        ensures
            r.default == self.default,
            *r.value == *old(self.value),
            *final(r.value) == *final(self.value),
    {
        Reset::new(self.value, self.default)
    }
}

/// A selection among the variants of an enumeration.
pub struct SimpleComboBox<'v, T: 'static> {
    pub id: &'static str,
    pub value: &'v mut T,
    pub variants: &'static [T],
}

impl<'v, T: PartialEq + Copy> SimpleComboBox<'v, T> {
    /// Picks the variant at `index`. The value changes, and the result is
    /// `true`, only where that variant differs from the current value.
    pub fn select(self, index: usize) -> (changed: bool)
        requires
            index < self.variants@.len(),
        ensures
            changed ==> *final(self.value) == self.variants@[index as int],
            !changed ==> *final(self.value) == *old(self.value),
            T::obeys_eq_spec() ==> changed == !(*old(self.value)).eq_spec(&self.variants@[index as int]),
    {
        let SimpleComboBox { id: _, value, variants } = self;
        let picked = variants[index];
        if *value != picked {
            *value = picked;
            true
        } else {
            false
        }
    }
}

} // verus!
