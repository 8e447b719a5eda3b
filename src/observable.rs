//! A value cell that records whether its content was written since the
//! flag was last cleared.

use vstd::prelude::*;
use vstd::std_specs::cmp::PartialEqSpec;

verus! {

/// A value together with a "changed since last clear" flag.
///
/// The flag is set by every write and every mutable access, and reset only
/// by `clear_change`; a new cell starts unchanged.
#[derive(Debug)]
pub struct Observable<T> {
    value: T,
    changed: bool,
}

impl<T> Observable<T> {
    /// The current content.
    pub closed spec fn content(&self) -> T {
        self.value
    }

    /// Whether the content was written since creation or the last clear.
    pub closed spec fn is_changed(&self) -> bool {
        self.changed
    }

    /// A cell holding `value`, not marked changed.
    pub fn new(value: T) -> (r: Observable<T>)
        ensures
            r.content() == value,
            !r.is_changed(),
    {
        Observable { value, changed: false }
    }

    /// A reference to the content.
    pub fn get(&self) -> (r: &T)
        ensures
            *r == self.content(),
    {
        &self.value
    }

    /// A mutable reference to the content; the cell is marked changed,
    /// whatever is then done through the reference.
    pub fn get_mut(&mut self) -> (r: &mut T)
        ensures
            *r == old(self).content(),
            final(self).content() == *final(r),
            final(self).is_changed(),
    {
        self.changed = true;
        &mut self.value
    }

    /// Replaces the content and marks the cell changed, even when the new
    /// content equals the old.
    pub fn set(&mut self, value: T)
        ensures
            final(self).content() == value,
            final(self).is_changed(),
    {
        self.value = value;
        self.changed = true;
    }

    /// Whether the content was written since creation or the last clear.
    pub fn has_changed(&self) -> (r: bool)
        ensures
            r == self.is_changed(),
    {
        self.changed
    }

    /// Resets the changed flag, keeping the content.
    pub fn clear_change(&mut self)
        ensures
            final(self).content() == old(self).content(),
            !final(self).is_changed(),
    {
        self.changed = false;
    }

    /// Consumes the cell and returns its content.
    pub fn into_inner(self) -> (r: T)
        ensures
            r == self.content(),
    {
        self.value
    }
}

impl<T: PartialEq> Observable<T> {
    /// Replaces the content only when `value` differs from it, and reports
    /// whether it did; the cell is marked changed exactly then.
    pub fn set_if_different(&mut self, value: T) -> (r: bool)
        ensures
            r ==> final(self).content() == value && final(self).is_changed(),
            !r ==> *final(self) == *old(self),
            T::obeys_eq_spec() ==> (r == !old(self).content().eq_spec(&value)),
    {
        if self.value != value {
            self.value = value;
            self.changed = true;
            true
        } else {
            false
        }
    }
}

impl<T: Clone> Observable<T> {
    /// A clone of the content.
    pub fn get_cloned(&self) -> (r: T)
        ensures
            cloned(self.content(), r),
    {
        self.value.clone()
    }
}

impl<T: Clone> Clone for Observable<T> {
    /// A cell with a clone of the content and the same flag.
    fn clone(&self) -> (r: Observable<T>)
        ensures
            cloned(self.content(), r.content()),
            r.is_changed() == self.is_changed(),
    {
        Observable { value: self.value.clone(), changed: self.changed }
    }
}

impl<T: Default> Default for Observable<T> {
    /// A cell holding `T`'s default, not marked changed.
    fn default() -> (r: Observable<T>)
        ensures
            !r.is_changed(),
    {
        Observable::new(T::default())
    }
}

impl<T> std::ops::Deref for Observable<T> {
    type Target = T;

    /// Reads the content through the cell.
    fn deref(&self) -> &T {
        &self.value
    }
}

} // verus!
