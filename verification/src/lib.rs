//! A newtype for zero-based indices, with one derived computation: the
//! number of integers in the closed interval from 0 to the wrapped value,
//! with explicit overflow handling.

use vstd::prelude::*;

verus! {

/// Newtype wrapping a single value interpreted as a zero-based index:
/// the inclusive upper bound of an integer interval starting at 0.
/// Any representable value is legal; no invariant is imposed.
pub struct ZBI<T>(pub T);

/// Cardinality of the closed integer interval from 0 to `v`: exactly
/// `v + 1` whenever that count is representable in `usize`, and `None`
/// when `v` is `usize::MAX`, so that the count itself would overflow.
pub open spec fn interval_len(v: usize) -> Option<usize> {
    if v == usize::MAX {
        None
    } else {
        Some((v + 1) as usize)
    }
}

impl ZBI<usize> {
    /// Cardinality of the closed integer interval from 0 to the stored
    /// value, as `Some`, when it fits into `usize`; `None` on overflow,
    /// which happens exactly when the stored value is `usize::MAX`.
    /// Total: defined for every stored value, with no failure path other
    /// than the absent result.
    pub fn to_len(&self) -> (r: Option<usize>)
        ensures
            r == interval_len(self.0),
            self.0 < usize::MAX ==> r == Some((self.0 + 1) as usize),
            self.0 == usize::MAX ==> r is None,
    {
        self.0.checked_add(1)
    }

    /// Cardinality of the closed integer interval from 0 to the stored
    /// value, computed without a presence check. The addition carries a
    /// caller-side obligation instead: the stored value must be below
    /// `usize::MAX`, which every call site discharges statically, so no
    /// overflow can occur. The result matches the checked path's present
    /// value exactly.
    pub fn to_len_unchecked(&self) -> (r: usize)
        requires
            self.0 < usize::MAX,
        ensures
            r == self.0 + 1,
            Some(r) == interval_len(self.0),
    {
        self.0 + 1
    }
}

/// Convenience trait for turning a bare value into a zero-based index
/// wrapper with a single explicit call. The conversion carries no
/// behavioral contract beyond wrapping: the result is the same wrapper
/// that direct construction from the value yields.
pub trait AsZBI: Sized {
    fn as_zbi(self) -> (r: ZBI<Self>)
        ensures
            r == (ZBI(self)),
    ;
}

impl AsZBI for usize {
    fn as_zbi(self) -> (r: ZBI<Self>) {
        ZBI(self)
    }
}

} // verus!
