use vstd::prelude::*;

verus! {

/// A transform matrix together with a flag that tells whether consumers have
/// seen its current value. The matrix type is a parameter: the cache never
/// looks inside the value it stores.
pub struct CachedMatrix4<M> {
    pub matrix: M,
    pub dirty: bool,
}

impl<M> CachedMatrix4<M> {
    /// A cache holding `matrix`, dirty from the start.
    pub fn from(matrix: M) -> (r: Self)
        ensures
            r.matrix == matrix,
            r.dirty,
    {
        CachedMatrix4 { matrix, dirty: true }
    }

    /// Whether the value has changed since the last `clean`.
    pub fn is_dirty(&self) -> (r: bool)
        ensures
            r == self.dirty,
    {
        self.dirty
    }

    /// Marks the current value as seen. Cleaning twice is the same as once.
    pub fn clean(&mut self)
        ensures
            final(self).matrix == old(self).matrix,
            !final(self).dirty,
    {
        self.dirty = false;
    }

    /// Replaces the stored value and marks it dirty, whether or not the new
    /// value differs from the one it replaces.
    pub fn set_matrix(&mut self, new_matrix: M)
        ensures
            final(self).matrix == new_matrix,
            final(self).dirty,
    {
        self.matrix = new_matrix;
        self.dirty = true;
    }
}

} // verus!
