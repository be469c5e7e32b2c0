use vstd::prelude::*;

verus! {

/// A vector that keeps only every `N`-th pushed element, indexed as if it
/// were dense: a space-saving store for slowly-changing per-tick values.
#[derive(Debug, Clone)]
pub struct SparseVec<T: Default, const N: usize> {
    pub inner: Vec<T>,
}

impl<T: Default, const N: usize> Default for SparseVec<T, N> {
    fn default() -> (r: Self)
        ensures
            r.inner@ =~= Seq::<T>::empty(),
    {
        SparseVec { inner: Vec::new() }
    }
}

impl<T: Default, const N: usize> SparseVec<T, N> {
    /// The number of bytes the kept elements occupy.
    pub fn size(&self) -> (r: usize)
        requires
            self.inner@.len() * vstd::layout::size_of::<T>() <= usize::MAX as nat,
        ensures
            r as nat == self.inner@.len() * vstd::layout::size_of::<T>(),
    {
        self.inner.len() * core::mem::size_of::<T>()
    }

    /// Keeps `val` exactly when `index` sits on an `N`-element boundary.
    pub fn push_index(&mut self, index: usize, val: T)
        requires
            N > 0,
        ensures
            (index as int % N as int) == 0 ==> final(self).inner@ == old(self).inner@.push(val),
            (index as int % N as int) != 0 ==> final(self).inner@ == old(self).inner@,
    {
        if index % N == 0 {
            self.inner.push(val)
        }
    }

    /// Resizes to the number of kept elements a dense length of `size`
    /// corresponds to, filling any growth with default values and keeping
    /// every element both lengths share.
    pub fn resize(&mut self, size: usize)
        requires
            N > 0,
        ensures
            final(self).inner@.len() == size as int / N as int,
            forall|i: int|
                0 <= i < old(self).inner@.len() && i < final(self).inner@.len() ==> final(self).inner@[i] == old(self).inner@[i],
    {
        let target: usize = size / N;
        if self.inner.len() > target {
            self.inner.truncate(target);
        } else {
            while self.inner.len() < target
                invariant
                    old(self).inner@.len() <= self.inner@.len(),
                    self.inner@.len() <= target || self.inner@.len() == old(self).inner@.len(),
                    forall|i: int|
                        0 <= i < old(self).inner@.len() ==> self.inner@[i] == old(self).inner@[i],
                decreases target - self.inner@.len(),
            {
                self.inner.push(T::default());
            }
        }
    }

    /// The kept element standing for dense index `index`.
    pub fn index(&self, index: usize) -> (r: &T)
        requires
            N > 0,
            (index as int / N as int) < self.inner@.len(),
        ensures
            *r == self.inner@[index as int / N as int],
    {
        &self.inner[index / N]
    }
}

} // verus!
